//! Facts on sets of flags held as the bits of a `u64` under a mask of the
//! defined flags.

use vstd::prelude::*;

verus! {

/// Masking keeps the defined bits: it is idempotent, commutes with union and
/// with taking bits away, and the empty set and the mask itself are masked sets.
pub proof fn lemma_mask(b: u64, c: u64, mask: u64)
    by (bit_vector)
    ensures
        (b & mask) & mask == b & mask,
        0u64 & mask == 0u64,
        mask & mask == mask,
        ((b & mask) | (c & mask)) & mask == (b & mask) | (c & mask),
        ((b & mask) & !(c & mask)) & mask == (b & mask) & !(c & mask),
        ((b & mask) | (c & mask)) & (c & mask) == c & mask,
        ((b & mask) & !(c & mask)) & (c & mask) == 0u64,
{
}

} // verus!
