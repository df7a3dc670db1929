//! Bit-field arithmetic on 32-bit register words.
//!
//! A field is named by its mask, the bits it occupies inside the word, and by
//! the position of its lowest bit.

use vstd::prelude::*;

verus! {

/// `word` with the bits under `mask` replaced by those of `bits`.
pub open spec fn merged(word: u32, mask: u32, bits: u32) -> u32 {
    (word & !mask) | (bits & mask)
}

/// The content of the field under `mask`, moved down to bit 0.
pub open spec fn field(word: u32, mask: u32, shift: u32) -> u32 {
    (word & mask) >> shift
}

/// Whether any bit under `mask` is set in `word`.
pub open spec fn any_set(word: u32, mask: u32) -> bool {
    word & mask != 0
}

/// Replaces the bits under `mask` in `word` by those of `bits`.
pub fn merge(word: u32, mask: u32, bits: u32) -> (r: u32)
    ensures
        r == merged(word, mask, bits),
{
    (word & !mask) | (bits & mask)
}

/// Reads the field under `mask` whose lowest bit is at `shift`.
pub fn extract(word: u32, mask: u32, shift: u32) -> (r: u32)
    requires
        shift < 32,
    ensures
        r == field(word, mask, shift),
{
    (word & mask) >> shift
}

/// Tests whether any bit under `mask` is set in `word`.
pub fn has_any(word: u32, mask: u32) -> (r: bool)
    ensures
        r == any_set(word, mask),
{
    word & mask != 0
}

/// Merging leaves every bit outside the mask as it was and makes every bit
/// under the mask equal to the corresponding bit of `bits`.
pub proof fn lemma_merged_bits(word: u32, mask: u32, bits: u32)
    ensures
        merged(word, mask, bits) & !mask == word & !mask,
        merged(word, mask, bits) & mask == bits & mask,
{
    assert(((word & !mask) | (bits & mask)) & !mask == word & !mask) by (bit_vector);
    assert(((word & !mask) | (bits & mask)) & mask == bits & mask) by (bit_vector);
}

/// Merging the same bits a second time changes nothing.
pub proof fn lemma_merged_idempotent(word: u32, mask: u32, bits: u32)
    ensures
        merged(merged(word, mask, bits), mask, bits) == merged(word, mask, bits),
{
    assert(((((word & !mask) | (bits & mask)) & !mask) | (bits & mask)) == ((word & !mask) | (bits
        & mask))) by (bit_vector);
}

} // verus!
