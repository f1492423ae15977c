//! Why a language table could not be loaded or a message could not be built.

use crate::decimal::{decimal_chars, push_decimal};
use crate::star_error::StarError;
use vstd::prelude::*;
use vstd::string::StringExecFns;

verus! {

/// The kind of a [`LanguageError`].
#[derive(Debug, Clone, Copy, PartialEq, Eq, Structural)]
pub enum LanguageErrorType {
    /// Reading a file failed.
    Io,
    /// A file is not a valid language table.
    Deser,
    /// A message was given another number of parameters than it has.
    InvalidParams { expected: usize, found: usize },
    /// A directory entry has no file name.
    DirectoryFound,
}

/// An error while loading language tables or building a message.
#[derive(Debug)]
pub struct LanguageError {
    kind: LanguageErrorType,
    source: Option<String>,
}

/// The message that describes an error of this kind.
pub open spec fn language_error_message(kind: LanguageErrorType) -> Seq<char> {
    match kind {
        LanguageErrorType::Io => "an IO error occured"@,
        LanguageErrorType::Deser => "a deserialization error occured"@,
        LanguageErrorType::InvalidParams { expected, found } =>
            "invalid number of params were provided, expected "@ + decimal_chars(expected as nat)
            + " found "@ + decimal_chars(found as nat),
        LanguageErrorType::DirectoryFound => "an invalid file type was found"@,
    }
}

impl LanguageError {
    /// The kind of the error.
    pub closed spec fn spec_kind(&self) -> LanguageErrorType {
        self.kind
    }

    /// The text of the error's source, if any.
    pub closed spec fn spec_source(&self) -> Option<Seq<char>> {
        match self.source {
            Some(s) => Some(s@),
            None => None,
        }
    }

    /// An error of kind `kind` whose source is described by `source`.
    pub fn new(kind: LanguageErrorType, source: Option<String>) -> (r: Self)
        ensures
            r.spec_kind() == kind,
            r.spec_source() == match source {
                Some(s) => Some(s@),
                None => None::<Seq<char>>,
            },
    {
        LanguageError { kind, source }
    }

    /// The message that describes the error.
    pub fn to_string(&self) -> (r: String)
        ensures
            r@ == language_error_message(self.spec_kind()),
    {
        let mut s = String::new();
        match self.kind {
            LanguageErrorType::Io => s.append("an IO error occured"),
            LanguageErrorType::Deser => s.append("a deserialization error occured"),
            LanguageErrorType::InvalidParams { expected, found } => {
                s.append("invalid number of params were provided, expected ");
                push_decimal(&mut s, expected as u64);
                s.append(" found ");
                push_decimal(&mut s, found as u64);
            },
            LanguageErrorType::DirectoryFound => s.append("an invalid file type was found"),
        }
        assert(s@ =~= language_error_message(self.spec_kind()));
        s
    }
}

impl StarError for LanguageError {
    type Kind = LanguageErrorType;

    type Source = String;

    fn kind(&self) -> (r: LanguageErrorType)
        ensures
            r == self.spec_kind(),
    {
        self.kind
    }

    fn into_source(self) -> (r: Option<String>)
        ensures
            match r {
                Some(s) => self.spec_source() == Some(s@),
                None => self.spec_source() is None,
            },
    {
        self.source
    }

    fn into_parts(self) -> (r: (LanguageErrorType, Option<String>))
        ensures
            r.0 == self.spec_kind(),
            match r.1 {
                Some(s) => self.spec_source() == Some(s@),
                None => self.spec_source() is None,
            },
    {
        (self.kind, self.source)
    }
}

impl From<(usize, usize)> for LanguageError {
    fn from(counts: (usize, usize)) -> (r: Self) {
        LanguageError {
            kind: LanguageErrorType::InvalidParams { expected: counts.0, found: counts.1 },
            source: None,
        }
    }
}

/// The error built from a pair of counts is an `InvalidParams` error with the
/// expected count first and the count found second, and has no source.
pub proof fn lemma_from_counts(counts: (usize, usize))
    ensures
        <LanguageError as vstd::std_specs::convert::FromSpec<(usize, usize)>>::from_spec(counts).spec_kind()
            == (LanguageErrorType::InvalidParams { expected: counts.0, found: counts.1 }),
        <LanguageError as vstd::std_specs::convert::FromSpec<(usize, usize)>>::from_spec(counts).spec_source()
            is None,
{
}

impl vstd::std_specs::convert::FromSpecImpl<(usize, usize)> for LanguageError {
    open spec fn obeys_from_spec() -> bool {
        true
    }

    closed spec fn from_spec(counts: (usize, usize)) -> Self {
        LanguageError {
            kind: LanguageErrorType::InvalidParams { expected: counts.0, found: counts.1 },
            source: None,
        }
    }
}

} // verus!
