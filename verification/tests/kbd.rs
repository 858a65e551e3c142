use winkit::keyboard::adapter::{WM_CHAR, WM_KEYDOWN, WM_KEYUP};
use winkit::keyboard::{Adapter, KeyCode, KeyEvent, Keyboard, KeystrokeFlags};

const INPUT_QUEUE_CAPACITY: usize = 32;

const WM_DEADCHAR: u32 = 259;
const WM_GETICON: u32 = 127;
const WM_IME_CHAR: u32 = 646;
const WM_IME_ENDCOMPOSITION: u32 = 270;
const WM_IME_KEYLAST: u32 = 271;
const WM_IME_NOTIFY: u32 = 642;
const WM_IME_REQUEST: u32 = 648;
const WM_IME_STARTCOMPOSITION: u32 = 269;

/// An event sampled from window procedure messages: the message, its first
/// and its second parameter.
type EventSample = (u32, usize, isize);

/// Press and release "a" character.
const PRESS_RELEASE_A: &[EventSample] = &[
    (WM_KEYDOWN, 0x41, 0x000001E0001),
    (WM_CHAR, 0x61, 0x000001E0001),
    (WM_KEYUP, 0x41, 0x000C01E0001),
];

/// Press and release "b" character.
const PRESS_RELEASE_B: &[EventSample] = &[
    (WM_KEYDOWN, 0x42, 0x00000300001),
    (WM_CHAR, 0x62, 0x00000300001),
    (WM_KEYUP, 0x42, 0x000C0300001),
];

/// Press and release "c" character.
const PRESS_RELEASE_C: &[EventSample] = &[
    (WM_KEYDOWN, 0x43, 0x000002E0001),
    (WM_CHAR, 0x63, 0x000002E0001),
    (WM_KEYUP, 0x43, 0x000C02E0001),
];

/// Press and release "backspace" key.
const PRESS_RELEASE_BACKSPACE: &[EventSample] = &[
    (WM_KEYDOWN, 0x8, 0x000000E0001),
    (WM_CHAR, 0x8, 0x000000E0001),
    (WM_KEYUP, 0x8, 0x000C00E0001),
];

/// Text entry for 'ö' ('"' + 'o' combo on international keyboard).
const PRESS_RELEASE_INTERNATIONAL_UMLAUT: &[EventSample] = &[
    (WM_KEYDOWN, 0x10, 0x002A0001),
    (WM_KEYDOWN, 0xDE, 0x00280001),
    (WM_DEADCHAR, 0x22, 0x00280001),
    (WM_KEYUP, 0xDE, 0xC0280001),
    (WM_KEYUP, 0x10, 0xC02A0001),
    (WM_KEYDOWN, 0x4F, 0x00180001),
    (WM_CHAR, 0xF6, 0x00180001),
    (WM_KEYUP, 0x4F, 0xC0180001),
];

/// Emoji input for 👌 using emoji keyboard ("win-.")
const EMOJI_INPUT_OK_HAND: &[EventSample] = &[
    (WM_IME_REQUEST, 0x0006, 0x643E50BC90),
    (WM_GETICON, 0x0000, 0x0000000078),
    (WM_KEYDOWN, 0x005B, 0x00015B0001),
    (WM_KEYUP, 0x00BE, 0x0080340001),
    (WM_KEYUP, 0x005B, 0x00C15B0001),
    (WM_IME_STARTCOMPOSITION, 0x0000, 0x0000000000),
    (WM_IME_NOTIFY, 0x000F, 0x0020600A01),
    (WM_IME_NOTIFY, 0x000F, 0x0020600A01),
    (WM_IME_KEYLAST, 0xD83D, 0x0000000800),
    (WM_IME_CHAR, 0xD83D, 0x0000000001),
    (WM_IME_CHAR, 0xDC4C, 0x0000000001),
    (WM_IME_NOTIFY, 0x010D, 0x0000000000),
    (WM_IME_ENDCOMPOSITION, 0x0000, 0x0000000000),
    (WM_IME_NOTIFY, 0x010E, 0x0000000000),
    (WM_CHAR, 0xD83D, 0x0000000001),
    (WM_CHAR, 0xDC4C, 0x0000000001),
    (0xC052, 0x0001, 0x643E50D570), // Unknown message
    (WM_IME_REQUEST, 0x0006, 0x643E50D570),
];

#[derive(PartialEq, Eq, Clone, Copy)]
enum KeyRepeat {
    Repeat,
    Initial,
}

fn test_key_down_flags(repeat: KeyRepeat) -> KeystrokeFlags {
    KeystrokeFlags {
        repeat_count: u16::from(repeat == KeyRepeat::Repeat),
        scan_code: 0x1E, // 'A'
        is_extended_key: false,
        is_alt_pressed: false,
        was_previous_state_down: repeat == KeyRepeat::Repeat,
        is_key_release: false,
    }
}

fn test_key_up_flags(repeat: KeyRepeat) -> KeystrokeFlags {
    KeystrokeFlags {
        repeat_count: u16::from(repeat == KeyRepeat::Repeat),
        scan_code: 0x1E, // 'A'
        is_extended_key: false,
        is_alt_pressed: false,
        was_previous_state_down: repeat == KeyRepeat::Initial,
        is_key_release: true,
    }
}

fn drain_to_string(kbd: &mut Keyboard) -> String {
    kbd.drain_input().chars().iter().collect()
}

fn feed_units(kbd: &mut Keyboard, units: impl Iterator<Item = u16>) {
    for wchar in units {
        kbd.process_evt(KeyEvent::Input {
            flags: test_key_down_flags(KeyRepeat::Initial),
            wchar,
        });
    }
}

/// A basic smoke test for key pressed events.
#[test]
fn test_key_pressed_basic() {
    let mut kbd = Keyboard::new();

    assert!(!kbd.is_key_pressed(KeyCode::Up));
    kbd.process_evt(KeyEvent::KeyDown {
        key_code: KeyCode::Up,
        flags: test_key_down_flags(KeyRepeat::Initial),
    });
    assert!(kbd.is_key_pressed(KeyCode::Up));
}

/// Tests correct handling of a series of key down and key up events.
#[test]
fn test_key_pressed() {
    let mut kbd = Keyboard::new();

    for key_code in KeyCode::iter() {
        assert!(!kbd.is_key_pressed(key_code));
    }

    for evt in [
        KeyEvent::KeyDown {
            key_code: KeyCode::A,
            flags: test_key_down_flags(KeyRepeat::Initial),
        },
        KeyEvent::KeyDown {
            key_code: KeyCode::Left,
            flags: test_key_down_flags(KeyRepeat::Initial),
        },
        KeyEvent::KeyDown {
            key_code: KeyCode::Space,
            flags: test_key_down_flags(KeyRepeat::Initial),
        },
        KeyEvent::KeyDown {
            key_code: KeyCode::Left,
            flags: test_key_down_flags(KeyRepeat::Repeat),
        },
        KeyEvent::KeyUp {
            key_code: KeyCode::A,
            flags: test_key_up_flags(KeyRepeat::Initial),
        },
        KeyEvent::KeyDown {
            key_code: KeyCode::Left,
            flags: test_key_down_flags(KeyRepeat::Repeat),
        },
    ] {
        kbd.process_evt(evt);
    }

    let expected_pressed = [KeyCode::Space, KeyCode::Left];
    for key_code in expected_pressed {
        assert!(kbd.is_key_pressed(key_code));
    }
    for key_code in KeyCode::iter()
        .into_iter()
        .filter(|key_code| !expected_pressed.contains(key_code))
    {
        assert!(!kbd.is_key_pressed(key_code));
    }
}

/// We expect that a basic stream of ASCII characters (less than the queue
/// size), should be collected and returned correctly.
#[test]
fn test_input_queue_basic() {
    let mut kbd = Keyboard::new();

    // Test state before any events
    let input: String = drain_to_string(&mut kbd);
    assert!(
        input.is_empty(),
        "Queue should be empty before first input key event event"
    );

    // Add basic ASCII chars to queue
    feed_units(&mut kbd, "Hello, world!".chars().map(|c| c as u16));

    // Confirm queue state after events have been processed
    let input: String = drain_to_string(&mut kbd);
    assert_eq!(&input, "Hello, world!");
    assert!(
        kbd.drain_input().chars().is_empty(),
        "Queue should be empty after last call to drain"
    );
}

/// Test that valid unicode is handled correctly.
///
/// We use a "Musical Symbol G Clef" character which requires surrogate
/// pairs to encode in UTF16.
#[test]
fn test_input_queue_unicode() {
    let mut kbd = Keyboard::new();

    feed_units(
        &mut kbd,
        [0xD834_u16, 0xDD1E, 0x006d, 0x0075, 0x0073, 0x0069, 0x0063].into_iter(),
    );

    let input: String = drain_to_string(&mut kbd);
    assert_eq!(&input, "𝄞music");
}

/// Test pending surrogate pair handling by enqueueing the high surrogate
/// and expecting that our drain method returns nothing until the following
/// low surrogate is enqueued.
#[test]
fn test_input_queue_surrogate_pair_handling() {
    let mut kbd = Keyboard::new();

    kbd.process_evt(KeyEvent::Input {
        flags: test_key_down_flags(KeyRepeat::Initial),
        wchar: 0xD834,
    });
    assert!(
        kbd.drain_input().chars().is_empty(),
        "Input queue should wait for following low surrogate before returning"
    );

    kbd.process_evt(KeyEvent::Input {
        flags: test_key_down_flags(KeyRepeat::Initial),
        wchar: 0xDD1E,
    });

    let input: String = drain_to_string(&mut kbd);
    assert_eq!(&input, "𝄞");
}

/// Test pending surrogate pair handling by enqueueing an out-of-order low
/// surrogate (high surrogates must precede low surrogates) and expecting
/// that our drain method returns the replacement character.
#[test]
fn test_input_queue_lone_low_surrogate() {
    let mut kbd = Keyboard::new();

    feed_units(&mut kbd, [0xDD1E, 0x006d].into_iter());

    let input: String = drain_to_string(&mut kbd);
    assert_eq!(&input, "�m");
}

/// Test that several unicode characters requiring surrogate pairs are
/// correctly captured.
#[test]
fn test_input_queue_multiple_surrogate_pair_characters() {
    let mut kbd = Keyboard::new();

    feed_units(&mut kbd, "𝄞🌉𝄞🌉a𝄞b🌉c".encode_utf16());

    // Confirm queue state after events have been processed
    let input: String = drain_to_string(&mut kbd);
    assert_eq!(&input, "𝄞🌉𝄞🌉a𝄞b🌉c");

    assert!(
        kbd.drain_input().chars().is_empty(),
        "Queue should be empty after last call to drain"
    );
}

/// Tests that our input buffer is trimmed to avoid continuous growth if it
/// is not regularly drained by the caller.
#[test]
fn test_input_queue_buffer_trim() {
    let mut kbd = Keyboard::new();

    // Add basic ASCII chars to queue
    feed_units(
        &mut kbd,
        "abcdefghijklmnopqrstuvwxyzABCDEFGHIJKLMNOPQRSTUVWXYZ"
            .chars()
            .map(|c| c as u16),
    );

    // Confirm queue state after events have been processed
    let input: String = drain_to_string(&mut kbd);
    assert_eq!(&input, "vwxyzABCDEFGHIJKLMNOPQRSTUVWXYZ");
    assert_eq!(input.len(), INPUT_QUEUE_CAPACITY - 1);

    assert!(
        kbd.drain_input().chars().is_empty(),
        "Queue should be empty after last call to drain"
    );
}

/// Test that buffer trimming does not result in surrogate pair truncation.
#[test]
fn test_input_queue_buffer_trim_unicode() {
    let mut kbd = Keyboard::new();

    feed_units(
        &mut kbd,
        "𝄞🌉1𝄞🌉2𝄞🌉3𝄞🌉4𝄞🌉5𝄞🌉6𝄞🌉7𝄞🌉8𝄞🌉9𝄞🌉0𝄞🌉A𝄞🌉B𝄞🌉C𝄞🌉".encode_utf16(),
    );

    // Confirm queue state after events have been processed
    let input: String = drain_to_string(&mut kbd);
    assert_eq!(&input, "🌉4𝄞🌉5𝄞🌉6𝄞🌉7𝄞🌉8𝄞🌉9𝄞🌉0𝄞🌉A𝄞🌉B𝄞🌉C𝄞🌉");
    assert_eq!(input.chars().count(), INPUT_QUEUE_CAPACITY - 1);

    assert!(
        kbd.drain_input().chars().is_empty(),
        "Queue should be empty after last call to drain"
    );
}

/// Test text entry for 'ö' ('"' + 'o' combo on international keyboard).
#[test]
fn test_input_queue_international_input() {
    let mut kbd = Keyboard::new();

    for &(umsg, wparam, lparam) in PRESS_RELEASE_INTERNATIONAL_UMLAUT {
        if let Some(evt) = Adapter::adapt(umsg, wparam, lparam) {
            kbd.process_evt(evt);
        }
    }

    let input: String = drain_to_string(&mut kbd);
    assert_eq!(input, "ö");
    for key_code in KeyCode::iter() {
        assert!(
            !kbd.is_key_pressed(key_code),
            "{key_code:?} key still pressed"
        );
    }
}

/// Test emoji input for 👌 (using emoji keyboard: "win-.")
#[test]
fn test_input_queue_emoji() {
    let mut kbd = Keyboard::new();

    for &(umsg, wparam, lparam) in EMOJI_INPUT_OK_HAND {
        if let Some(evt) = Adapter::adapt(umsg, wparam, lparam) {
            println!("{evt:#?}");
            kbd.process_evt(evt);
        }
    }

    let input: String = drain_to_string(&mut kbd);
    assert_eq!(input, "👌");
    for key_code in KeyCode::iter() {
        assert!(
            !kbd.is_key_pressed(key_code),
            "{key_code:?} key still pressed"
        );
    }
}

/// Pressing backspace without any input in the queue should accumulate
/// pending backspace events that can be applied to previously drained
/// characters. If backspace is pressed while the input queue has some input,
/// pending input is removed.
#[test]
fn test_backspace_key() {
    let mut kbd = Keyboard::new();

    for &(umsg, wparam, lparam) in [
        PRESS_RELEASE_BACKSPACE,
        PRESS_RELEASE_BACKSPACE,
        PRESS_RELEASE_A,
        PRESS_RELEASE_B,
        PRESS_RELEASE_BACKSPACE,
        PRESS_RELEASE_C,
    ]
    .into_iter()
    .flatten()
    {
        if let Some(evt) = Adapter::adapt(umsg, wparam, lparam) {
            kbd.process_evt(evt);
        }
    }

    let state = kbd.drain_input();
    assert_eq!(state.num_backspaces(), 2);
    let input: String = state.chars().iter().collect();
    assert_eq!(input, "ac");
}

#[test]
fn key_codes_are_listed_in_order() {
    let keys = KeyCode::iter();
    assert_eq!(keys.len(), 169);
    let expected: Vec<KeyCode> = (0..=255u16)
        .filter_map(|value| KeyCode::try_from(value).ok())
        .collect();
    assert_eq!(keys, expected);
    assert_eq!(keys.first(), Some(&KeyCode::LeftMouseButton));
    assert_eq!(keys.last(), Some(&KeyCode::OEMClear));
}

#[test]
fn key_codes_round_trip() {
    for value in 0..=255u16 {
        if let Ok(key) = KeyCode::try_from(value) {
            assert_eq!(u16::from(key.value()), value);
        }
    }
    assert_eq!(KeyCode::try_from(0x00), Err(()));
    assert_eq!(KeyCode::try_from(0x07), Err(()));
    assert_eq!(KeyCode::try_from(0xFF), Err(()));
    // Values beyond a byte name no key.
    assert_eq!(KeyCode::try_from(0x0100), Err(()));
    assert_eq!(KeyCode::try_from(0x0141), Err(()));
    assert_eq!(KeyCode::try_from(u16::MAX), Err(()));
    for value in 0x100..=u16::MAX {
        assert_eq!(KeyCode::try_from(value), Err(()));
    }
    assert_eq!(KeyCode::try_from(0x41), Ok(KeyCode::A));
    assert_eq!(KeyCode::OEMClear.value(), 0xFE);
    assert_eq!(KeyCode::LeftMouseButton.value(), 0x01);
}

#[test]
fn unknown_key_codes_are_ignored() {
    assert_eq!(Adapter::adapt(WM_KEYDOWN, 0x07, 0x230001), None);
    assert_eq!(Adapter::adapt(WM_KEYUP, 0xFF, 0x230001), None);
    assert_eq!(Adapter::adapt(WM_KEYDOWN, 0x148, 0x230001), None);
    assert_eq!(Adapter::adapt(WM_KEYDOWN, 0x1_0048, 0x230001), None);
    assert_eq!(Adapter::adapt(WM_KEYUP, usize::MAX, 0x230001), None);
    assert_eq!(Adapter::adapt(WM_DEADCHAR, 0x22, 0x230001), None);
    assert!(Adapter::handles_msg(WM_KEYDOWN, 0x07, 0));
    assert!(Adapter::handles_msg(WM_CHAR, 0, 0));
    assert!(!Adapter::handles_msg(WM_DEADCHAR, 0, 0));
    assert!(!Adapter::handles_msg(WM_IME_CHAR, 0, 0));
}

#[test]
fn flags_decode_every_field() {
    let flags = KeystrokeFlags::from_lparam(0xE1FF_FFFFu32 as isize);
    assert_eq!(
        flags,
        KeystrokeFlags {
            is_key_release: true,
            was_previous_state_down: true,
            is_alt_pressed: true,
            is_extended_key: true,
            scan_code: 0xFF,
            repeat_count: 0xFFFF,
        }
    );
    let flags = KeystrokeFlags::from_lparam(0x1E00_0000);
    assert_eq!(
        flags,
        KeystrokeFlags {
            is_key_release: false,
            was_previous_state_down: false,
            is_alt_pressed: false,
            is_extended_key: false,
            scan_code: 0,
            repeat_count: 0,
        }
    );
    // Bits above the low 32 are ignored.
    assert_eq!(
        KeystrokeFlags::from_lparam(0x643E50BC90),
        KeystrokeFlags::from_lparam(0x3E50BC90)
    );
    assert_eq!(KeystrokeFlags::from_lparam(-1).repeat_count, 0xFFFF);
}

#[test]
fn queue_never_reaches_capacity() {
    let mut kbd = Keyboard::new();
    for round in 0..100u16 {
        kbd.process_evt(KeyEvent::Input {
            flags: test_key_down_flags(KeyRepeat::Initial),
            wchar: 0x41 + (round % 26),
        });
    }
    let drained = kbd.drain_input();
    assert_eq!(drained.chars().len(), INPUT_QUEUE_CAPACITY - 1);
    assert_eq!(drained.num_backspaces(), 0);
    // The last character fed was round 99: 'A' + 99 % 26.
    assert_eq!(*drained.chars().last().unwrap(), 'V');
}

#[test]
fn control_characters_are_dropped_but_whitespace_is_kept() {
    let mut kbd = Keyboard::new();
    feed_units(
        &mut kbd,
        [0x01u16, 0x61, 0x09, 0x1B, 0x0A, 0x0D, 0x7F, 0x85, 0x9F, 0x20, 0xA0].into_iter(),
    );
    let input = drain_to_string(&mut kbd);
    assert_eq!(input, "a\t\n\r\u{85} \u{A0}");
}

#[test]
fn unpaired_high_surrogate_becomes_replacement() {
    let mut kbd = Keyboard::new();
    // A high surrogate followed by a plain character.
    feed_units(&mut kbd, [0xD834u16, 0x0041].into_iter());
    assert_eq!(drain_to_string(&mut kbd), "\u{FFFD}A");
    // Two high surrogates in a row are decoded together: both are lost and
    // neither stays pending, so the low surrogate after them stands alone.
    feed_units(&mut kbd, [0xD834u16, 0xD834, 0xDD1E].into_iter());
    assert_eq!(drain_to_string(&mut kbd), "\u{FFFD}\u{FFFD}");
    feed_units(&mut kbd, [0x0042u16].into_iter());
    assert_eq!(drain_to_string(&mut kbd), "\u{FFFD}B");
}

#[test]
fn reset_clears_all_keyboard_state() {
    let mut kbd = Keyboard::new();
    kbd.process_evt(KeyEvent::KeyDown {
        key_code: KeyCode::A,
        flags: test_key_down_flags(KeyRepeat::Initial),
    });
    // Two backspaces on an empty queue are counted, then text and the first
    // half of a surrogate pair arrive.
    feed_units(&mut kbd, [0x08u16, 0x08, 0x61, 0xD834].into_iter());
    kbd.reset();
    assert!(!kbd.is_key_pressed(KeyCode::A));
    for key_code in KeyCode::iter() {
        assert!(!kbd.is_key_pressed(key_code));
    }
    // The pending high surrogate is gone: the low one stands alone and is
    // held back in turn.
    feed_units(&mut kbd, [0xDD1Eu16].into_iter());
    let drained = kbd.drain_input();
    assert!(drained.chars().is_empty());
    // The backspace count is cleared with the rest.
    assert_eq!(drained.num_backspaces(), 0);
}

#[test]
fn reset_clears_the_backspace_count() {
    let mut kbd = Keyboard::new();
    feed_units(&mut kbd, [0x08u16, 0x08].into_iter());
    kbd.reset();
    assert_eq!(kbd.drain_input().num_backspaces(), 0);
    // Counting starts anew after the reset.
    feed_units(&mut kbd, [0x08u16].into_iter());
    assert_eq!(kbd.drain_input().num_backspaces(), 1);
}

#[test]
fn flags_encode_and_decode() {
    let samples = [0x0023_0001isize, 0xC023_0001, 0x2023_0001, 0xE023_0001, 0x4023_0001, 0x0100_0000];
    for lparam in samples {
        let flags = KeystrokeFlags::from_lparam(lparam);
        assert_eq!(flags.to_word() as isize, lparam);
        assert_eq!(KeystrokeFlags::from_lparam(flags.to_word() as isize), flags);
    }
    // The four unused bits are not kept.
    let flags = KeystrokeFlags::from_lparam(0x1E23_0001);
    assert_eq!(flags.to_word(), 0x0023_0001);
    let all = KeystrokeFlags {
        is_key_release: true,
        was_previous_state_down: true,
        is_alt_pressed: true,
        is_extended_key: true,
        scan_code: 0xFF,
        repeat_count: 0xFFFF,
    };
    assert_eq!(all.to_word(), 0xE1FF_FFFF);
}
