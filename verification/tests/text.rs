use winkit::keyboard::text::{
    char_is_control, char_is_whitespace, decode_pair, decode_unit, BACKSPACE,
    REPLACEMENT_CHARACTER,
};

#[test]
fn control_matches_std_for_every_char() {
    for value in 0..=0x10FFFFu32 {
        if let Some(c) = char::from_u32(value) {
            assert_eq!(char_is_control(c), c.is_control(), "U+{value:04X}");
        }
    }
}

#[test]
fn whitespace_matches_std_for_every_char() {
    for value in 0..=0x10FFFFu32 {
        if let Some(c) = char::from_u32(value) {
            assert_eq!(char_is_whitespace(c), c.is_whitespace(), "U+{value:04X}");
        }
    }
}

#[test]
fn decode_unit_matches_std() {
    for unit in 0..=0xFFFFu16 {
        let expected = match char::decode_utf16([unit]).next().unwrap() {
            Ok(c) => Ok(c),
            Err(e) => Err(e.unpaired_surrogate()),
        };
        assert_eq!(decode_unit(unit), expected);
    }
}

fn std_pair(first: u16, second: u16) -> Vec<char> {
    char::decode_utf16([first, second])
        .map(|r| r.unwrap_or(char::REPLACEMENT_CHARACTER))
        .collect()
}

#[test]
fn decode_pair_matches_std_around_surrogates() {
    // Every first unit against a sample of second units.
    let seconds = [
        0x0000u16, 0x0008, 0x0041, 0xD7FF, 0xD800, 0xD834, 0xDBFF, 0xDC00, 0xDD1E, 0xDFFF, 0xE000,
        0xFFFD, 0xFFFF,
    ];
    for first in 0..=0xFFFFu16 {
        for second in seconds {
            assert_eq!(decode_pair(first, second), std_pair(first, second));
        }
    }
    // Every surrogate against every surrogate, thinned out.
    for first in (0xD800..=0xDFFFu16).step_by(7) {
        for second in 0xD800..=0xDFFFu16 {
            assert_eq!(decode_pair(first, second), std_pair(first, second));
        }
    }
}

#[test]
fn decode_pair_exact_values() {
    assert_eq!(decode_pair(0xD834, 0xDD1E), vec!['\u{1D11E}']);
    assert_eq!(decode_pair(0xD800, 0xDC00), vec!['\u{10000}']);
    assert_eq!(decode_pair(0xDBFF, 0xDFFF), vec!['\u{10FFFF}']);
    assert_eq!(decode_pair(0xDD1E, 0x006D), vec![REPLACEMENT_CHARACTER, 'm']);
    assert_eq!(decode_pair(0xD834, 0x0008), vec![REPLACEMENT_CHARACTER, BACKSPACE]);
    assert_eq!(REPLACEMENT_CHARACTER, char::REPLACEMENT_CHARACTER);
}
