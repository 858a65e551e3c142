//! Turns raw keyboard messages into strongly typed key events.

use vstd::prelude::*;

use crate::keyboard::codes::KeyCode;
use crate::keyboard::flags::{flag_word, KeystrokeFlags};

verus! {

/// A non-system key was pressed.
pub const WM_KEYDOWN: u32 = 0x0100;

/// A non-system key was released.
pub const WM_KEYUP: u32 = 0x0101;

/// A key press was translated into a UTF-16 code unit.
pub const WM_CHAR: u32 = 0x0102;

/// A key was pressed while ALT was held.
pub const WM_SYSKEYDOWN: u32 = 0x0104;

/// A key was released while ALT was held.
pub const WM_SYSKEYUP: u32 = 0x0105;

/// A keyboard event, as consumed by the keyboard tracker.
#[derive(Clone, Copy, Debug, PartialEq, Eq, Structural)]
pub enum KeyEvent {
    /// A key went down, or is repeating while held.
    KeyDown { key_code: KeyCode, flags: KeystrokeFlags },
    /// A key was released.
    KeyUp { key_code: KeyCode, flags: KeystrokeFlags },
    /// One UTF-16 code unit of text input arrived.
    Input { wchar: u16, flags: KeystrokeFlags },
}

/// The key named by the first parameter of a key-down or key-up message.
/// Values beyond a byte and codes that name no key give `None`.
pub open spec fn key_of_wparam(wparam: usize) -> Option<KeyCode> {
    if wparam <= u8::MAX {
        KeyCode::from_code(wparam as u8)
    } else {
        None
    }
}

/// Whether `umsg` is one of the five keyboard messages.
pub open spec fn is_keyboard_msg(umsg: u32) -> bool {
    umsg == WM_KEYDOWN || umsg == WM_SYSKEYDOWN || umsg == WM_KEYUP || umsg == WM_SYSKEYUP || umsg
        == WM_CHAR
}

/// The event that a message decodes to, if it decodes to one.
pub open spec fn adapted(umsg: u32, wparam: usize, lparam: isize) -> Option<KeyEvent> {
    let flags = KeystrokeFlags::decode(flag_word(lparam));
    if umsg == WM_KEYDOWN || umsg == WM_SYSKEYDOWN {
        match key_of_wparam(wparam) {
            Some(key_code) => Some(KeyEvent::KeyDown { key_code, flags }),
            None => None,
        }
    } else if umsg == WM_KEYUP || umsg == WM_SYSKEYUP {
        match key_of_wparam(wparam) {
            Some(key_code) => Some(KeyEvent::KeyUp { key_code, flags }),
            None => None,
        }
    } else if umsg == WM_CHAR {
        Some(KeyEvent::Input { wchar: wparam as u16, flags })
    } else {
        None
    }
}

/// Decoder of native keyboard messages.
pub struct Adapter {}

impl Adapter {
    /// Indicates whether the adapter handles the given message. If it does,
    /// [`Adapter::adapt`] should be called and the message should be
    /// considered handled regardless of whether an event is generated.
    pub fn handles_msg(umsg: u32, _wparam: usize, _lparam: isize) -> (handles: bool)
        ensures
            handles == is_keyboard_msg(umsg),
    {
        umsg == WM_KEYDOWN || umsg == WM_SYSKEYDOWN || umsg == WM_KEYUP || umsg == WM_SYSKEYUP
            || umsg == WM_CHAR
    }

    /// Adapts the parameters of a window message into a [`KeyEvent`].
    ///
    /// Key messages whose code names no known key yield nothing, as do all
    /// messages that are not keyboard messages.
    pub fn adapt(umsg: u32, wparam: usize, lparam: isize) -> (event: Option<KeyEvent>)
        ensures
            event == adapted(umsg, wparam, lparam),
            event is Some ==> is_keyboard_msg(umsg),
    {
        if umsg == WM_KEYDOWN || umsg == WM_SYSKEYDOWN {
            match Self::key_code(wparam) {
                Some(key_code) => Some(
                    KeyEvent::KeyDown { key_code, flags: KeystrokeFlags::from_lparam(lparam) },
                ),
                None => None,
            }
        } else if umsg == WM_KEYUP || umsg == WM_SYSKEYUP {
            match Self::key_code(wparam) {
                Some(key_code) => Some(
                    KeyEvent::KeyUp { key_code, flags: KeystrokeFlags::from_lparam(lparam) },
                ),
                None => None,
            }
        } else if umsg == WM_CHAR {
            Some(
                KeyEvent::Input {
                    wchar: #[verifier::truncate] (wparam as u16),
                    flags: KeystrokeFlags::from_lparam(lparam),
                },
            )
        } else {
            None
        }
    }

    /// The key named by the first parameter of a key message.
    fn key_code(wparam: usize) -> (key: Option<KeyCode>)
        ensures
            key == key_of_wparam(wparam),
    {
        if wparam <= 0xFFFF {
            match KeyCode::try_from(wparam as u16) {
                Ok(key_code) => Some(key_code),
                Err(_) => None,
            }
        } else {
            None
        }
    }
}

} // verus!
