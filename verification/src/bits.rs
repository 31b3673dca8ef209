//! Small bit-level facts the bank arithmetic and flag handling lean on.

use vstd::prelude::*;

verus! {

/// Masking an 8-bit value never exceeds the mask.
pub proof fn lemma_u8_and_le(x: u8, m: u8)
    by (bit_vector)
    ensures
        x & m <= m,
{
}

/// Masking a 16-bit value never exceeds the mask.
pub proof fn lemma_u16_and_le(x: u16, m: u16)
    by (bit_vector)
    ensures
        x & m <= m,
{
}

} // verus!
