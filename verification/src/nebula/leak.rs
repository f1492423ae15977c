//! Leaking a value: moving it to the heap for the rest of the program and
//! keeping a reference to it.

use vstd::prelude::*;

verus! {

/// `Box::leak` of std: the boxed value, kept for the rest of the program.
/// The contract claims that the reference is to the value that was boxed.
#[verifier::external_body]
fn leak_box<T: 'static>(value: Box<T>) -> (r: &'static T)
    ensures
        *r == *value,
{
    Box::leak(value)
}

/// A value that can be leaked: moved to the heap and never dropped, so that a
/// reference to it lives as long as the program.
pub trait Leak: Sized {
    /// Leaks the value, giving a reference to it that lives as long as the
    /// program.
    fn leak(self) -> (r: &'static Self)
        ensures
            *r == self,
    ;
}

impl<T: 'static> Leak for T {
    fn leak(self) -> (r: &'static T) {
        leak_box(Box::new(self))
    }
}

} // verus!
