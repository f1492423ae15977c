//! Set operations on permission flags.

use crate::permissions::{Permissions, ALL_BITS};
use vstd::prelude::*;

verus! {

/// The union of two permission sets.
pub fn insert(permissions: Permissions, other: Permissions) -> (r: Permissions)
    ensures
        r@ == permissions@ | other@,
{
    let a = permissions.bits();
    let b = other.bits();
    let r = Permissions::from_bits_truncate(a | b);
    assert((a | b) & ALL_BITS == a | b) by (bit_vector)
        requires
            a & ALL_BITS == a,
            b & ALL_BITS == b,
    ;
    r
}

/// The permissions of `permissions` that are not in `other`.
pub fn remove(permissions: Permissions, other: Permissions) -> (r: Permissions)
    ensures
        r@ == permissions@ & !other@,
{
    let a = permissions.bits();
    let b = other.bits();
    let r = Permissions::from_bits_truncate(a & !b);
    assert((a & !b) & ALL_BITS == a & !b) by (bit_vector)
        requires
            a & ALL_BITS == a,
    ;
    r
}

/// Taking away permissions that were just granted leaves what taking them
/// away from the starting set leaves.
pub proof fn law_remove_undoes_insert(p: u64, q: u64)
    ensures
        (p | q) & !q == p & !q,
{
    assert((p | q) & !q == p & !q) by (bit_vector);
}

/// Taking away permissions that a set does not hold leaves it unchanged.
pub proof fn law_remove_absent(p: u64, q: u64)
    requires
        p & q == 0,
    ensures
        p & !q == p,
{
    assert(p & q == 0 ==> p & !q == p) by (bit_vector);
}

/// Granting permissions twice grants them once; a grant holds what it granted.
pub proof fn law_insert_idempotent(p: u64, q: u64)
    ensures
        (p | q) | q == p | q,
        (p | q) & q == q,
{
    assert((p | q) | q == p | q) by (bit_vector);
    assert((p | q) & q == q) by (bit_vector);
}

} // verus!
