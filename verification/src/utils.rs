//! Splitting a 16-bit word into bytes and putting it back together.
//!
//! Two-byte values (return addresses, little-endian operands) are moved
//! around one byte at a time, so the byte halves and their recombination are
//! pinned down here once.

use vstd::prelude::*;

verus! {

/// The high half of a 16-bit word.
pub open spec fn spec_high_byte(value: u16) -> u8 {
    (value >> 8) as u8
}

/// The low half of a 16-bit word.
pub open spec fn spec_low_byte(value: u16) -> u8 {
    (value & 0x00FF) as u8
}

/// The 16-bit word with `hi` in its upper half and `lo` in its lower half.
pub open spec fn spec_word(hi: u8, lo: u8) -> u16 {
    ((hi as u16) << 8) | (lo as u16)
}

pub fn get_high_byte(value: u16) -> (r: u8)
    ensures
        r == spec_high_byte(value),
{
    (value >> 8) as u8
}

pub fn get_low_byte(value: u16) -> (r: u8)
    ensures
        r == spec_low_byte(value),
{
    (value & 0x00FF) as u8
}

pub fn make_word(hi: u8, lo: u8) -> (r: u16)
    ensures
        r == spec_word(hi, lo),
{
    ((hi as u16) << 8) | (lo as u16)
}

/// Splitting a word into its two bytes and recombining them gives the word
/// back; this is what lets a 16-bit address round-trip through two one-byte
/// stack slots.
pub proof fn lemma_word_roundtrip(value: u16)
    ensures
        spec_word(spec_high_byte(value), spec_low_byte(value)) == value,
{
    assert((((value >> 8) as u8 as u16) << 8) | ((value & 0x00FF) as u8 as u16) == value)
        by (bit_vector);
}

} // verus!
