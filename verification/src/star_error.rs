//! The common shape of the bot's error types: a kind that tells what went
//! wrong, and an optional source that tells why.

use vstd::prelude::*;

verus! {

/// An error with a kind and an optional source.
pub trait StarError {
    /// What went wrong.
    type Kind;

    /// Why it went wrong.
    type Source;

    /// The kind of the error.
    fn kind(&self) -> Self::Kind;

    /// The error that caused this one, if any.
    fn into_source(self) -> Option<Self::Source>;

    /// The kind of the error and its source.
    fn into_parts(self) -> (Self::Kind, Option<Self::Source>);
}

} // verus!
