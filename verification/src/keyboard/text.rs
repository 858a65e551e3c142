//! Text-input building blocks: UTF-16 reassembly and the classification of
//! characters that the input queue keeps, drops or treats as deletion.

use vstd::prelude::*;

verus! {

/// The character that a backspace key press produces.
pub const BACKSPACE: char = '\x08';

/// U+FFFD, which stands in for input that cannot be decoded.
pub const REPLACEMENT_CHARACTER: char = '\u{FFFD}';

/// Whether `unit` is a UTF-16 surrogate of either kind.
pub open spec fn is_surrogate(unit: u16) -> bool {
    0xD800 <= unit <= 0xDFFF
}

/// Whether `unit` is a leading (high) surrogate.
pub open spec fn is_high_surrogate(unit: u16) -> bool {
    0xD800 <= unit <= 0xDBFF
}

/// Whether `unit` is a trailing (low) surrogate.
pub open spec fn is_low_surrogate(unit: u16) -> bool {
    0xDC00 <= unit <= 0xDFFF
}

/// Whether `value` is a Unicode scalar value, that is, a valid `char`.
pub open spec fn is_scalar(value: u32) -> bool {
    value <= 0xD7FF || 0xE000 <= value <= 0x10FFFF
}

/// The scalar value encoded by a high surrogate followed by a low one.
pub open spec fn pair_scalar(high: u16, low: u16) -> int {
    0x10000 + (high - 0xD800) * 0x400 + (low - 0xDC00)
}

/// The character that a single code unit stands for on its own. Surrogates
/// stand for none.
pub open spec fn unit_char(unit: u16) -> Option<char> {
    if is_surrogate(unit) {
        None
    } else {
        Some(unit as char)
    }
}

/// What a lone code unit contributes to decoded text: its character, or the
/// replacement character if it is a surrogate with no partner.
pub open spec fn unit_or_replacement(unit: u16) -> char {
    match unit_char(unit) {
        Some(c) => c,
        None => REPLACEMENT_CHARACTER,
    }
}

/// The text that two consecutive code units decode to. A high surrogate
/// followed by a low surrogate is one character; otherwise each unit is
/// decoded on its own, an unpaired surrogate giving the replacement
/// character.
pub open spec fn pair_text(first: u16, second: u16) -> Seq<char> {
    if is_high_surrogate(first) && is_low_surrogate(second) {
        seq![pair_scalar(first, second) as char]
    } else {
        seq![unit_or_replacement(first), unit_or_replacement(second)]
    }
}

/// Whether `c` has the general category of control codes (Cc).
pub open spec fn is_control(c: char) -> bool {
    c as u32 <= 0x1F || 0x7F <= c as u32 <= 0x9F
}

/// Whether `c` has the Unicode `White_Space` property.
pub open spec fn is_whitespace(c: char) -> bool {
    let v = c as u32;
    ||| 0x09 <= v <= 0x0D
    ||| v == 0x20
    ||| v == 0x85
    ||| v == 0xA0
    ||| v == 0x1680
    ||| 0x2000 <= v <= 0x200A
    ||| v == 0x2028
    ||| v == 0x2029
    ||| v == 0x202F
    ||| v == 0x205F
    ||| v == 0x3000
}

/// Whether the input queue discards `c`: control characters that are neither
/// white space nor backspace carry no text.
pub open spec fn is_discarded(c: char) -> bool {
    c != BACKSPACE && is_control(c) && !is_whitespace(c)
}

/// `char::from_u32`: the character with scalar value `value`, or `None` if
/// `value` is a surrogate or lies beyond U+10FFFF.
#[verifier::external_body]
fn char_from_u32(value: u32) -> (c: Option<char>)
    ensures
        c == if is_scalar(value) {
            Some(value as char)
        } else {
            None::<char>
        },
{
    char::from_u32(value)
}

/// Tells whether `c` is a control code.
pub fn char_is_control(c: char) -> (b: bool)
    ensures
        b == is_control(c),
{
    let v: u32 = c as u32;
    v <= 0x1F || (0x7F <= v && v <= 0x9F)
}

/// Tells whether `c` is white space.
pub fn char_is_whitespace(c: char) -> (b: bool)
    ensures
        b == is_whitespace(c),
{
    let v: u32 = c as u32;
    (0x09 <= v && v <= 0x0D) || v == 0x20 || v == 0x85 || v == 0xA0 || v == 0x1680 || (0x2000 <= v
        && v <= 0x200A) || v == 0x2028 || v == 0x2029 || v == 0x202F || v == 0x205F || v == 0x3000
}

/// Decodes a code unit that arrives with no surrogate pending. A surrogate
/// cannot be decoded alone and is handed back as the error.
pub fn decode_unit(unit: u16) -> (res: Result<char, u16>)
    ensures
        res == match unit_char(unit) {
            Some(c) => Ok::<char, u16>(c),
            None => Err::<char, u16>(unit),
        },
{
    if 0xD800 <= unit && unit <= 0xDFFF {
        Err(unit)
    } else {
        match char_from_u32(unit as u32) {
            Some(c) => Ok(c),
            None => {
                assert(false);
                Err(unit)
            },
        }
    }
}

/// Decodes a code unit on its own, substituting the replacement character
/// for a surrogate.
fn decode_lossy(unit: u16) -> (c: char)
    ensures
        c == unit_or_replacement(unit),
{
    match decode_unit(unit) {
        Ok(c) => c,
        Err(_) => REPLACEMENT_CHARACTER,
    }
}

/// Decodes a pending code unit together with the unit that followed it.
pub fn decode_pair(first: u16, second: u16) -> (text: Vec<char>)
    ensures
        text@ == pair_text(first, second),
{
    let mut text: Vec<char> = Vec::new();
    if 0xD800 <= first && first <= 0xDBFF && 0xDC00 <= second && second <= 0xDFFF {
        let scalar: u32 = 0x10000 + (first as u32 - 0xD800) * 0x400 + (second as u32 - 0xDC00);
        match char_from_u32(scalar) {
            Some(c) => {
                text.push(c);
            },
            None => {
                assert(false);
            },
        }
    } else {
        text.push(decode_lossy(first));
        text.push(decode_lossy(second));
    }
    assert(text@ =~= pair_text(first, second));
    text
}

} // verus!
