//! Text helpers: decimal rendering of identifiers and conversion of names to
//! the nul-terminated UTF-16 form that the native API expects.

use vstd::prelude::*;

use widestring::U16CString;

verus! {

/// The character of the decimal digit `d`.
pub open spec fn digit(d: int) -> char {
    (0x30 + d) as char
}

/// The decimal digits of `n`, most significant first, without leading zeros.
pub open spec fn decimal_digits(n: nat) -> Seq<char>
    decreases n,
{
    if n < 10 {
        seq![digit(n as int)]
    } else {
        decimal_digits(n / 10).push(digit((n % 10) as int))
    }
}

/// The decimal rendering of `i`, with a leading minus sign if it is negative.
pub open spec fn decimal(i: int) -> Seq<char> {
    if i < 0 {
        seq!['-'] + decimal_digits((-i) as nat)
    } else {
        decimal_digits(i as nat)
    }
}

/// The UTF-16 code units that encode `c`: one unit for a character of the
/// basic plane, a surrogate pair for any other.
pub open spec fn utf16_units(c: char) -> Seq<u16> {
    let v = c as u32;
    if v < 0x10000 {
        seq![v as u16]
    } else {
        seq![(0xD800 + (v - 0x10000) / 0x400) as u16, (0xDC00 + (v - 0x10000) % 0x400) as u16]
    }
}

/// The UTF-16 encoding of `text`.
pub open spec fn utf16(text: Seq<char>) -> Seq<u16>
    decreases text.len(),
{
    if text.len() == 0 {
        Seq::empty()
    } else {
        utf16_units(text[0]) + utf16(text.drop_first())
    }
}

/// The code units of `text` as a wide C string, without the terminator. A
/// nul character is accepted only as the last character, where it stands for
/// the terminator itself; text with a nul anywhere else has no such form.
pub open spec fn wide_units(text: Seq<char>) -> Option<Seq<u16>> {
    let body = if text.len() > 0 && text.last() == '\0' {
        text.drop_last()
    } else {
        text
    };
    if body.contains('\0') {
        None
    } else {
        Some(utf16(body))
    }
}

/// The characters of `text` that come before its first nul character.
pub open spec fn before_nul(text: Seq<char>) -> Seq<char>
    decreases text.len(),
{
    if text.len() == 0 || text[0] == '\0' {
        Seq::empty()
    } else {
        seq![text[0]] + before_nul(text.drop_first())
    }
}

/// The code units of `text` as a wide C string that ends at the first nul
/// character of `text`, without the terminator.
pub open spec fn truncated_wide_units(text: Seq<char>) -> Seq<u16> {
    utf16(before_nul(text))
}

/// `isize::to_string`: the decimal rendering of `value`.
#[verifier::external_body]
pub(crate) fn isize_to_string(value: isize) -> (text: String)
    ensures
        text@ == decimal(value as int),
{
    value.to_string()
}

/// `U16CString::from_str` followed by `U16CString::into_vec`: encodes `text`
/// as UTF-16 and checks that it can be nul-terminated. The units come back
/// without the terminator; text with an interior nul is refused.
#[verifier::external_body]
fn wide_cstring(text: &str) -> (units: Option<Vec<u16>>)
    ensures
        match units {
            Some(v) => wide_units(text@) == Some(v@),
            None => wide_units(text@) is None,
        },
{
    match U16CString::from_str(text) {
        Ok(wide) => Some(wide.into_vec()),
        Err(_) => None,
    }
}

/// `U16CString::from_str_truncate` followed by `U16CString::into_vec`:
/// encodes `text` as UTF-16 up to its first nul character. The units come
/// back without the terminator.
#[verifier::external_body]
fn wide_cstring_truncated(text: &str) -> (units: Vec<u16>)
    ensures
        units@ == truncated_wide_units(text@),
{
    U16CString::from_str_truncate(text).into_vec()
}

/// Converts `text` to the code units of a wide C string, cutting it off at
/// its first nul character. The units come without the terminator.
pub fn to_wide_truncated(text: &str) -> (units: Vec<u16>)
    ensures
        units@ == truncated_wide_units(text@),
{
    wide_cstring_truncated(text)
}

/// Converts `text` to the code units of a wide C string, without the
/// terminator. Text with a nul before its last character has no such form.
pub fn to_wide(text: &str) -> (units: Option<Vec<u16>>)
    ensures
        match units {
            Some(v) => wide_units(text@) == Some(v@),
            None => wide_units(text@) is None,
        },
{
    wide_cstring(text)
}

} // verus!
