//! Checks on the results of native API calls. Each check takes what the call
//! returned, and the native error code read right after it, and decides
//! between the value and a typed error.

use vstd::prelude::*;

use crate::errors::{get_last_err, last_error_of, Error};
use crate::types::Hwnd;

verus! {

/// A common trait implemented for native pointer and handle types.
pub trait Win32Pointer {
    /// Whether the pointer is the null pointer.
    spec fn null(&self) -> bool;

    /// Predicate method which indicates whether the pointer should be
    /// considered a null pointer.
    fn is_null(&self) -> (null: bool)
        ensures
            null == self.null(),
    ;
}

impl Win32Pointer for Hwnd {
    open spec fn null(&self) -> bool {
        self.0 == 0
    }

    fn is_null(&self) -> (null: bool) {
        self.0 == 0
    }
}

/// Checks the result of a native call which defines success by a non-zero
/// 16-bit return code.
pub fn check_nonzero_u16(value: u16, f_name: &'static str, last_error: u32) -> (res: Result<
    u16,
    Error,
>)
    ensures
        res == if value != 0 {
            Ok::<u16, Error>(value)
        } else {
            Err::<u16, Error>(last_error_of(f_name, last_error))
        },
{
    if value != 0 {
        Ok(value)
    } else {
        Err(get_last_err(f_name, last_error))
    }
}

/// Checks the result of a native call which defines success by a non-zero
/// pointer-sized return code.
pub fn check_nonzero_isize(value: isize, f_name: &'static str, last_error: u32) -> (res: Result<
    isize,
    Error,
>)
    ensures
        res == if value != 0 {
            Ok::<isize, Error>(value)
        } else {
            Err::<isize, Error>(last_error_of(f_name, last_error))
        },
{
    if value != 0 {
        Ok(value)
    } else {
        Err(get_last_err(f_name, last_error))
    }
}

/// Checks the result of a native call which indicates failure only through
/// the last error code. The caller clears the code before the call and reads
/// it after; a code that is still zero means success.
pub fn check_last_err<R>(value: R, f_name: &'static str, last_error: u32) -> (res: Result<R, Error>)
    ensures
        res == if last_error == 0 {
            Ok::<R, Error>(value)
        } else {
            Err::<R, Error>(last_error_of(f_name, last_error))
        },
{
    if last_error == 0 {
        Ok(value)
    } else {
        Err(get_last_err(f_name, last_error))
    }
}

/// Checks the result of a native call which defines success by a boolean
/// return value.
pub fn check_bool(ok: bool, f_name: &'static str, last_error: u32) -> (res: Result<(), Error>)
    ensures
        res == if ok {
            Ok::<(), Error>(())
        } else {
            Err::<(), Error>(last_error_of(f_name, last_error))
        },
{
    if ok {
        Ok(())
    } else {
        Err(get_last_err(f_name, last_error))
    }
}

/// Checks the result of a native call which reports failure as a result
/// code of its own.
pub fn check_res<V>(result: Result<V, i32>, f_name: &'static str) -> (res: Result<V, Error>)
    ensures
        res == match result {
            Ok(value) => Ok::<V, Error>(value),
            Err(code) => Err::<V, Error>(Error::Unexpected { function: f_name, code }),
        },
{
    match result {
        Ok(value) => Ok(value),
        Err(code) => Err(Error::Unexpected { function: f_name, code }),
    }
}

/// Checks the result of a native call which defines success by a non-null
/// pointer.
pub fn check_ptr<P: Win32Pointer>(ptr: P, f_name: &'static str, last_error: u32) -> (res: Result<
    P,
    Error,
>)
    ensures
        res == if ptr.null() {
            Err::<P, Error>(last_error_of(f_name, last_error))
        } else {
            Ok::<P, Error>(ptr)
        },
{
    if ptr.is_null() {
        Err(get_last_err(f_name, last_error))
    } else {
        Ok(ptr)
    }
}

} // verus!
