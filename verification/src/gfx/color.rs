//! Colors in RGBA format, one byte per channel.

use vstd::prelude::*;

verus! {

/// Color representation in RGBA format.
///
/// Each channel is a byte: 0 is the complete absence of the component, 255
/// its full presence. For alpha, 0 is fully transparent and 255 fully
/// opaque. The drawing backend takes each channel divided by 255.
#[derive(Clone, Copy, Debug, PartialEq, Eq, Structural)]
pub struct Color {
    /// The red component.
    pub red: u8,
    /// The green component.
    pub green: u8,
    /// The blue component.
    pub blue: u8,
    /// The alpha component.
    pub alpha: u8,
}

/// The byte of `val` that starts at bit `shift`.
pub open spec fn channel(val: u32, shift: u32) -> u8 {
    ((val >> shift) & 0xFF) as u8
}

impl Color {
    /// The color that the hex value `0xRRGGBBAA` encodes.
    pub open spec fn rgba(val: u32) -> Color {
        Color {
            red: channel(val, 24),
            green: channel(val, 16),
            blue: channel(val, 8),
            alpha: channel(val, 0),
        }
    }

    /// The color that the hex value `0xAARRGGBB` encodes.
    pub open spec fn argb(val: u32) -> Color {
        Color {
            alpha: channel(val, 24),
            red: channel(val, 16),
            green: channel(val, 8),
            blue: channel(val, 0),
        }
    }

    /// Construct a new color from byte color values (0 - 255).
    pub fn new(r: u8, g: u8, b: u8, a: u8) -> (color: Color)
        ensures
            color == (Color { red: r, green: g, blue: b, alpha: a }),
    {
        Color { red: r, green: g, blue: b, alpha: a }
    }

    /// Construct a new color from a hex value (0xRRGGBBAA).
    pub fn new_rgba(val: u32) -> (color: Color)
        ensures
            color == Self::rgba(val),
    {
        Color {
            red: extract(val, 24),
            green: extract(val, 16),
            blue: extract(val, 8),
            alpha: extract(val, 0),
        }
    }

    /// Construct a new color from a hex value (0xAARRGGBB). ARGB is the
    /// format commonly used by UI frameworks (but not by the drawing
    /// backend).
    pub fn new_argb(val: u32) -> (color: Color)
        ensures
            color == Self::argb(val),
    {
        Color {
            alpha: extract(val, 24),
            red: extract(val, 16),
            green: extract(val, 8),
            blue: extract(val, 0),
        }
    }

    /// The two packed forms name the same colors: moving the alpha byte from
    /// the top to the bottom turns `0xAARRGGBB` into `0xRRGGBBAA`.
    pub proof fn lemma_argb_is_rotated_rgba(val: u32)
        ensures
            Self::argb(val) == Self::rgba((val << 8) | (val >> 24)),
    {
        let rotated = (val << 8) | (val >> 24);
        assert(((rotated >> 24) & 0xFF) == ((val >> 16) & 0xFF)) by (bit_vector)
            requires
                rotated == (val << 8) | (val >> 24),
        ;
        assert(((rotated >> 16) & 0xFF) == ((val >> 8) & 0xFF)) by (bit_vector)
            requires
                rotated == (val << 8) | (val >> 24),
        ;
        assert(((rotated >> 8) & 0xFF) == ((val >> 0) & 0xFF)) by (bit_vector)
            requires
                rotated == (val << 8) | (val >> 24),
        ;
        assert(((rotated >> 0) & 0xFF) == ((val >> 24) & 0xFF)) by (bit_vector)
            requires
                rotated == (val << 8) | (val >> 24),
        ;
    }
}

impl Default for Color {
    /// Transparent black: every channel zero.
    fn default() -> (color: Color)
        ensures
            color == (Color { red: 0, green: 0, blue: 0, alpha: 0 }),
    {
        Color { red: 0, green: 0, blue: 0, alpha: 0 }
    }
}

/// Extracts the byte of `val` that starts at bit `shift`.
fn extract(val: u32, shift: u32) -> (byte: u8)
    requires
        shift < 32,
    ensures
        byte == channel(val, shift),
{
    let masked: u32 = (val >> shift) & 0xFF;
    assert(masked <= 0xFF) by (bit_vector)
        requires
            masked == (val >> shift) & 0xFF,
    ;
    masked as u8
}

} // verus!
