//! Crate-specific error and result types.

use vstd::prelude::*;

verus! {

/// Error type for operations that rest on native API calls. It records which
/// call failed and the native error code that it left behind.
#[derive(Clone, Copy, Debug)]
pub enum Error {
    /// An unexpected error occurred and was not handled internally.
    Unexpected {
        /// The name of the native function which failed.
        function: &'static str,
        /// The native result code (an `HRESULT`) gathered at the point of the
        /// error.
        code: i32,
    },
}

impl Error {
    /// Returns the underlying native error code, if any.
    pub fn code(&self) -> (code: Option<i32>)
        ensures
            code == Some(self->code),
    {
        match self {
            Error::Unexpected { code, .. } => Some(*code),
        }
    }

    /// Returns the name of the native function that failed.
    pub fn function(&self) -> (function: &'static str)
        ensures
            function == self->function,
    {
        match self {
            Error::Unexpected { function, .. } => function,
        }
    }
}

/// The `HRESULT` that carries a native (Win32) error code: zero stays zero,
/// any other code keeps its low 16 bits and gains the Win32 facility and the
/// failure bit.
pub open spec fn hresult_of_win32(code: u32) -> i32 {
    if code == 0 {
        0
    } else {
        ((code & 0x0000_FFFF) | 0x8007_0000u32) as i32
    }
}

/// Converts a native (Win32) error code into the `HRESULT` that carries it.
pub fn hresult_from_win32(code: u32) -> (hresult: i32)
    ensures
        hresult == hresult_of_win32(code),
        code != 0 ==> hresult < 0,
{
    if code == 0 {
        0
    } else {
        let bits: u32 = (code & 0x0000_FFFF) | 0x8007_0000u32;
        assert(bits >= 0x8000_0000u32) by (bit_vector)
            requires
                bits == (code & 0x0000_FFFFu32) | 0x8007_0000u32,
        ;
        let hresult = #[verifier::truncate] (bits as i32);
        assert(hresult < 0) by (bit_vector)
            requires
                bits >= 0x8000_0000u32,
                hresult == bits as i32,
        ;
        hresult
    }
}

/// The error for a failed call of `function` that left the native error code
/// `last_error` behind.
pub open spec fn last_error_of(function: &'static str, last_error: u32) -> Error {
    Error::Unexpected { function, code: hresult_of_win32(last_error) }
}

/// Builds the error for a failed call of `f_name` from the native error code
/// that the call left behind.
pub fn get_last_err(f_name: &'static str, last_error: u32) -> (error: Error)
    ensures
        error == last_error_of(f_name, last_error),
{
    Error::Unexpected { function: f_name, code: hresult_from_win32(last_error) }
}

} // verus!
