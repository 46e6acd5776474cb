//! Single bits of a byte.
use vstd::prelude::*;

verus! {

/// Whether bit `n` of `val` is set; bit 0 is the lowest.
pub open spec fn bit(val: u8, n: u8) -> bool {
    (val >> n) & 0x1 == 1
}

pub fn test_bit(val: u8, n: u8) -> (set: bool)
    requires
        n < 8,
    ensures
        set == bit(val, n),
{
    (val >> n) & 0x1 == 1
}

/// What is left of a byte after a shift and a mask of one or two bits is
/// no larger than the mask.
pub proof fn lemma_masked_range(val: u8, n: u8)
    by (bit_vector)
    requires
        n < 8,
    ensures
        (val >> n) & 0x1 <= 1,
        (val >> n) & 0b11 <= 3,
{
}

} // verus!
