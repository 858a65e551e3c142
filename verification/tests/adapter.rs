use winkit::keyboard::adapter::{WM_CHAR, WM_KEYDOWN, WM_KEYUP, WM_SYSKEYDOWN, WM_SYSKEYUP};
use winkit::keyboard::{Adapter, KeyCode, KeyEvent, KeystrokeFlags};

/// Pressing 'h' without any modifiers.
#[test]
fn test_key_down() {
    let event = Adapter::adapt(WM_KEYDOWN, 0x48, 0x230001).unwrap();

    assert_eq!(
        event,
        KeyEvent::KeyDown {
            key_code: KeyCode::H,
            flags: KeystrokeFlags {
                repeat_count: 1,
                scan_code: 35,
                is_extended_key: false,
                is_alt_pressed: false,
                was_previous_state_down: false,
                is_key_release: false
            }
        }
    );
}

/// Char event emitted when pressing 'h';
#[test]
fn test_char_event() {
    let event = Adapter::adapt(WM_CHAR, 0x68, 0x230001).unwrap();

    assert_eq!(
        event,
        KeyEvent::Input {
            wchar: b'h' as u16,
            flags: KeystrokeFlags {
                repeat_count: 1,
                scan_code: 35,
                is_extended_key: false,
                is_alt_pressed: false,
                was_previous_state_down: false,
                is_key_release: false
            }
        }
    );
}

/// Test releasing 'h' without any modifiers.
#[test]
fn test_key_up() {
    let event = Adapter::adapt(WM_KEYUP, 0x48, 0xC0230001)
        .expect("Valid KEYDOWN event should be parsed");

    assert_eq!(
        event,
        KeyEvent::KeyUp {
            key_code: KeyCode::H,
            flags: KeystrokeFlags {
                repeat_count: 1,
                scan_code: 35,
                is_extended_key: false,
                is_alt_pressed: false,
                was_previous_state_down: true,
                is_key_release: true,
            }
        }
    );
}

/// Pressing 'alt-h'.
#[test]
fn test_key_down_with_modifier() {
    let event = Adapter::adapt(WM_SYSKEYDOWN, 0x48, 0x20230001).unwrap();

    assert_eq!(
        event,
        KeyEvent::KeyDown {
            key_code: KeyCode::H,
            flags: KeystrokeFlags {
                repeat_count: 1,
                scan_code: 35,
                is_extended_key: false,
                is_alt_pressed: true,
                was_previous_state_down: false,
                is_key_release: false
            }
        }
    );
}

/// Test releasing 'alt-h'.
#[test]
fn test_key_up_with_modifiers() {
    let event = Adapter::adapt(WM_SYSKEYUP, 0x48, 0xE0230001).unwrap();

    assert_eq!(
        event,
        KeyEvent::KeyUp {
            key_code: KeyCode::H,
            flags: KeystrokeFlags {
                repeat_count: 1,
                scan_code: 35,
                is_extended_key: false,
                is_alt_pressed: true,
                was_previous_state_down: true,
                is_key_release: true,
            }
        }
    );
}

/// Pressing 'h' with key repeat.
#[test]
fn test_key_down_with_repeat() {
    let event = Adapter::adapt(WM_KEYDOWN, 0x48, 0x40230001).unwrap();

    assert_eq!(
        event,
        KeyEvent::KeyDown {
            key_code: KeyCode::H,
            flags: KeystrokeFlags {
                repeat_count: 1,
                scan_code: 35,
                is_extended_key: false,
                is_alt_pressed: false,
                was_previous_state_down: true,
                is_key_release: false
            }
        }
    );
}
