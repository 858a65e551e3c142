//! The keystroke flags that accompany every native keyboard message.

use vstd::prelude::*;

verus! {

/// Whether bit `n` of `word` is set, counting from the least significant bit.
pub open spec fn bit_is_set(word: u32, n: u32) -> bool {
    (word >> n) & 1 == 1
}

/// A flag as a bit: one if it is set, zero if not.
pub open spec fn flag_bit(flag: bool) -> u32 {
    if flag {
        1
    } else {
        0
    }
}

/// Turns a flag into a bit.
fn bit_of(flag: bool) -> (bit: u32)
    ensures
        bit == flag_bit(flag),
{
    if flag {
        1
    } else {
        0
    }
}

/// The low 32 bits of a message parameter, which hold the keystroke flags.
pub open spec fn flag_word(lparam: isize) -> u32 {
    lparam as u32
}

/// Keystroke message flags, decoded from the second parameter of a keyboard
/// message.
#[derive(Clone, Copy, Debug, PartialEq, Eq, Structural)]
pub struct KeystrokeFlags {
    /// Bit 31. The transition state: set while the key is being released.
    pub is_key_release: bool,
    /// Bit 30. The previous key state: set if the key was down before the
    /// message was sent.
    pub was_previous_state_down: bool,
    /// Bit 29. The context code: set if ALT is held while the key is pressed.
    pub is_alt_pressed: bool,
    /// Bit 24. Set for an extended key, such as the right-hand ALT and CTRL.
    pub is_extended_key: bool,
    /// Bits 16-23. The hardware scan code.
    pub scan_code: u8,
    /// Bits 0-15. The repeat count of the current message.
    pub repeat_count: u16,
}

impl KeystrokeFlags {
    /// The flags that a 32-bit flag word encodes.
    pub open spec fn decode(word: u32) -> KeystrokeFlags {
        KeystrokeFlags {
            is_key_release: bit_is_set(word, 31),
            was_previous_state_down: bit_is_set(word, 30),
            is_alt_pressed: bit_is_set(word, 29),
            is_extended_key: bit_is_set(word, 24),
            scan_code: ((word >> 16) & 0xFF) as u8,
            repeat_count: (word & 0xFFFF) as u16,
        }
    }

    /// The 32-bit flag word that encodes these flags, with the unused bits
    /// clear.
    pub open spec fn encode(self) -> u32 {
        (flag_bit(self.is_key_release) << 31) | (flag_bit(self.was_previous_state_down) << 30) | (
        flag_bit(self.is_alt_pressed) << 29) | (flag_bit(self.is_extended_key) << 24) | ((
        self.scan_code as u32) << 16) | (self.repeat_count as u32)
    }

    /// Encodes the flags as a 32-bit flag word, with the unused bits clear.
    pub fn to_word(&self) -> (word: u32)
        ensures
            word == self.encode(),
    {
        (bit_of(self.is_key_release) << 31) | (bit_of(self.was_previous_state_down) << 30) | (
        bit_of(self.is_alt_pressed) << 29) | (bit_of(self.is_extended_key) << 24) | ((
        self.scan_code as u32) << 16) | (self.repeat_count as u32)
    }

    /// Decoding undoes encoding: every set of flags is read back from its
    /// flag word as it was.
    pub proof fn lemma_decode_encode(self)
        ensures
            Self::decode(self.encode()) == self,
    {
        let r = flag_bit(self.is_key_release);
        let p = flag_bit(self.was_previous_state_down);
        let a = flag_bit(self.is_alt_pressed);
        let e = flag_bit(self.is_extended_key);
        let s = self.scan_code as u32;
        let c = self.repeat_count as u32;
        let w = (r << 31) | (p << 30) | (a << 29) | (e << 24) | (s << 16) | c;
        assert(((w >> 31) & 1) == r && ((w >> 30) & 1) == p && ((w >> 29) & 1) == a && ((w >> 24)
            & 1) == e && ((w >> 16) & 0xFF) == s && (w & 0xFFFF) == c) by (bit_vector)
            requires
                r <= 1,
                p <= 1,
                a <= 1,
                e <= 1,
                s <= 0xFF,
                c <= 0xFFFF,
                w == (r << 31) | (p << 30) | (a << 29) | (e << 24) | (s << 16) | c,
        ;
    }

    /// Decodes the flags carried by the low 32 bits of `lparam`; the upper
    /// bits of a wider parameter are ignored.
    pub fn from_lparam(lparam: isize) -> (flags: KeystrokeFlags)
        ensures
            flags == Self::decode(flag_word(lparam)),
    {
        let word: u32 = #[verifier::truncate] (lparam as u32);
        let scan: u32 = (word >> 16) & 0xFF;
        let repeat: u32 = word & 0xFFFF;
        assert(scan <= 0xFF) by (bit_vector)
            requires
                scan == (word >> 16) & 0xFF,
        ;
        assert(repeat <= 0xFFFF) by (bit_vector)
            requires
                repeat == word & 0xFFFF,
        ;
        KeystrokeFlags {
            is_key_release: (word >> 31) & 1 == 1,
            was_previous_state_down: (word >> 30) & 1 == 1,
            is_alt_pressed: (word >> 29) & 1 == 1,
            is_extended_key: (word >> 24) & 1 == 1,
            scan_code: scan as u8,
            repeat_count: repeat as u16,
        }
    }
}

} // verus!
