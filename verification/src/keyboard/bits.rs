//! The pressed-key bit array.
//!
//! The bits live in a `bitvec` array. Verus cannot look inside it, so the few
//! operations the tracker needs are declared here with the behaviour that
//! `bitvec` documents for them.

use vstd::prelude::*;

use bitvec::array::BitArray;
use bitvec::order::Lsb0;

verus! {

/// Number of bits in the pressed-key array: one for every possible
/// virtual-key code.
pub const KEY_BITS: usize = 256;

/// A `bitvec` array of [`KEY_BITS`] bits. Its contents are known to Verus
/// only as [`key_bits`].
#[verifier::external_body]
pub struct KeyBits {
    bits: BitArray<[u32; 8], Lsb0>,
}

/// The bits held by a pressed-key array, in index order.
pub uninterp spec fn key_bits(bits: KeyBits) -> Seq<bool>;

/// `BitArray::ZERO`: an array of [`KEY_BITS`] bits, all of them clear.
#[verifier::external_body]
pub(crate) fn bits_zero() -> (bits: KeyBits)
    ensures
        key_bits(bits) == Seq::new(KEY_BITS as nat, |i: int| false),
{
    KeyBits { bits: BitArray::ZERO }
}

/// `BitArray` indexing by a bit position: reads the bit at `index`, which
/// must lie inside the array.
#[verifier::external_body]
pub(crate) fn bits_get(bits: &KeyBits, index: usize) -> (bit: bool)
    requires
        index < KEY_BITS,
        key_bits(*bits).len() == KEY_BITS,
    ensures
        bit == key_bits(*bits)[index as int],
{
    bits.bits[index]
}

/// `BitSlice::set`, reached through the array: writes `value` into the bit at
/// `index`, which must lie inside the array, and leaves every other bit as it
/// was.
#[verifier::external_body]
pub(crate) fn bits_set(bits: &mut KeyBits, index: usize, value: bool)
    requires
        index < KEY_BITS,
        key_bits(*old(bits)).len() == KEY_BITS,
    ensures
        key_bits(*final(bits)) == key_bits(*old(bits)).update(index as int, value),
{
    bits.bits.set(index, value);
}

} // verus!
