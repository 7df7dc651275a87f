//! Single-bit set and clear on a 32-bit register word.
//!
//! On the hardware these go through the bit-band alias region, so that one
//! bit changes without a read-modify-write of the whole word; here the word is
//! held behind an exclusive reference, which gives the same guarantee.

use vstd::prelude::*;

verus! {

/// Whether bit `bit` of `word` is one.
pub open spec fn bit_is_set(word: u32, bit: u32) -> bool {
    (word >> bit) & 1u32 == 1u32
}

/// `word` with bit `bit` set.
pub open spec fn with_bit_set(word: u32, bit: u32) -> u32 {
    word | (1u32 << bit)
}

/// `word` with bit `bit` cleared.
pub open spec fn with_bit_cleared(word: u32, bit: u32) -> u32 {
    word & !(1u32 << bit)
}

/// Setting a bit makes it one and leaves every other bit as it was.
pub proof fn lemma_set_only_touches(word: u32, bit: u32, other: u32)
    requires
        bit < 32,
        other < 32,
    ensures
        bit_is_set(with_bit_set(word, bit), bit),
        other != bit ==> bit_is_set(with_bit_set(word, bit), other) == bit_is_set(word, other),
{
    assert(((word | (1u32 << bit)) >> bit) & 1u32 == 1u32) by (bit_vector)
        requires
            bit < 32,
    ;
    assert(other != bit ==> (((word | (1u32 << bit)) >> other) & 1u32 == 1u32) == (((word
        >> other) & 1u32) == 1u32)) by (bit_vector)
        requires
            bit < 32,
            other < 32,
    ;
}

/// Clearing a bit makes it zero and leaves every other bit as it was.
pub proof fn lemma_clear_only_touches(word: u32, bit: u32, other: u32)
    requires
        bit < 32,
        other < 32,
    ensures
        !bit_is_set(with_bit_cleared(word, bit), bit),
        other != bit ==> bit_is_set(with_bit_cleared(word, bit), other) == bit_is_set(
            word,
            other,
        ),
{
    assert(((word & !(1u32 << bit)) >> bit) & 1u32 == 0u32) by (bit_vector)
        requires
            bit < 32,
    ;
    assert(other != bit ==> (((word & !(1u32 << bit)) >> other) & 1u32 == 1u32) == (((word
        >> other) & 1u32) == 1u32)) by (bit_vector)
        requires
            bit < 32,
            other < 32,
    ;
}

/// Sets bit `bit` of `*reg`, leaving the other bits unchanged.
pub fn set(reg: &mut u32, bit: u32)
    requires
        bit < 32,
    ensures
        *final(reg) == with_bit_set(*old(reg), bit),
{
    *reg = *reg | (1u32 << bit);
}

/// Clears bit `bit` of `*reg`, leaving the other bits unchanged.
pub fn clear(reg: &mut u32, bit: u32)
    requires
        bit < 32,
    ensures
        *final(reg) == with_bit_cleared(*old(reg), bit),
{
    *reg = *reg & !(1u32 << bit);
}

} // verus!
