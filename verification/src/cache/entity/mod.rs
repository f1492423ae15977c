//! The entities that the cache stores, each made from a Discord value and
//! known by its identifier.

pub mod channel;
pub mod gateway;
pub mod guild;
pub mod user;
pub mod voice;

use crate::model::{RoleId, UserId};
use vstd::prelude::*;

verus! {

/// A value that the cache stores, known by its identifier.
pub trait Entity {
    /// The type of the identifier.
    type Id;

    /// The identifier of the entity.
    spec fn spec_id(&self) -> Self::Id;

    /// The identifier of the entity.
    fn id(&self) -> (r: Self::Id)
        ensures
            r == self.spec_id(),
    ;
}

/// `a` when it holds a value, else `b`.
pub open spec fn or<T>(a: Option<T>, b: Option<T>) -> Option<T> {
    match a {
        Some(_) => a,
        None => b,
    }
}

/// The value that `a` holds, or `b` when it holds none.
pub open spec fn or_value<T>(a: Option<T>, b: T) -> T {
    match a {
        Some(v) => v,
        None => b,
    }
}

/// `a` when it holds a value, else `b`.
pub fn option_or<T>(a: Option<T>, b: Option<T>) -> (r: Option<T>)
    ensures
        r == or(a, b),
{
    match a {
        Some(v) => Some(v),
        None => b,
    }
}

/// The value that `a` holds, or `b` when it holds none.
pub fn value_or<T>(a: Option<T>, b: T) -> (r: T)
    ensures
        r == or_value(a, b),
{
    match a {
        Some(v) => v,
        None => b,
    }
}

/// Whether the two optional strings are equal.
pub fn option_str_eq(a: &Option<String>, b: &Option<String>) -> (r: bool)
    ensures
        r == (match (a, b) {
            (Some(x), Some(y)) => x@ == y@,
            (None, None) => true,
            _ => false,
        }),
{
    match (a, b) {
        (Some(x), Some(y)) => crate::text::str_eq(x.as_str(), y.as_str()),
        (None, None) => true,
        _ => false,
    }
}

/// Whether the two lists of role identifiers are equal.
pub fn role_ids_eq(a: &Vec<RoleId>, b: &Vec<RoleId>) -> (r: bool)
    ensures
        r == (a@ == b@),
{
    if a.len() != b.len() {
        return false;
    }
    let mut i: usize = 0;
    while i < a.len()
        invariant
            a@.len() == b@.len(),
            i <= a@.len(),
            forall|j: int| 0 <= j < i ==> a@[j] == b@[j],
        decreases a.len() - i,
    {
        if a[i].0 != b[i].0 {
            return false;
        }
        i += 1;
    }
    assert(a@ =~= b@);
    true
}

/// Whether the two optional user identifiers are equal.
pub fn option_user_id_eq(a: Option<UserId>, b: Option<UserId>) -> (r: bool)
    ensures
        r == (a == b),
{
    match (a, b) {
        (Some(x), Some(y)) => x.0 == y.0,
        (None, None) => true,
        _ => false,
    }
}

} // verus!
