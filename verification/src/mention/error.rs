//! Why a string is not a mention.

use crate::decimal::{decimal_chars, push_decimal, IntErrorKind};
use crate::text::push_char;
use vstd::prelude::*;
use vstd::string::StringExecFns;

verus! {

/// The plain content of a [`ParseMentionErrorType`].
pub enum ErrorTypeModel {
    IdNotU64 { found: Seq<char> },
    LeadingArrow { found: Option<char> },
    PartMissing { expected: nat, found: nat },
    Sigil { expected: Seq<Seq<char>>, found: Option<char> },
    TrailingArrow { found: Option<char> },
}

/// The views of a list of strings.
pub open spec fn str_views(s: Seq<&str>) -> Seq<Seq<char>> {
    s.map_values(|x: &str| x@)
}

/// Why a string could not be parsed as a mention.
#[derive(Debug)]
pub struct ParseMentionError<'a> {
    kind: ParseMentionErrorType<'a>,
    source: Option<IntErrorKind>,
}

/// The kind of a [`ParseMentionError`].
#[derive(Debug, PartialEq, Eq)]
#[non_exhaustive]
pub enum ParseMentionErrorType<'a> {
    /// The id between the sigil and the trailing arrow is not a `u64`.
    IdNotU64 { found: &'a str },
    /// The mention does not begin with `<`.
    LeadingArrow { found: Option<char> },
    /// A part of the mention is missing.
    PartMissing { expected: usize, found: usize },
    /// None of the expected sigils follows the leading arrow.
    Sigil { expected: &'a [&'a str], found: Option<char> },
    /// No `>` ends the mention.
    TrailingArrow { found: Option<char> },
}

impl<'a> ParseMentionErrorType<'a> {
    /// The plain content of the kind.
    pub open spec fn view(&self) -> ErrorTypeModel {
        match *self {
            ParseMentionErrorType::IdNotU64 { found } => ErrorTypeModel::IdNotU64 { found: found@ },
            ParseMentionErrorType::LeadingArrow { found } => ErrorTypeModel::LeadingArrow { found },
            ParseMentionErrorType::PartMissing { expected, found } => ErrorTypeModel::PartMissing {
                expected: expected as nat,
                found: found as nat,
            },
            ParseMentionErrorType::Sigil { expected, found } => ErrorTypeModel::Sigil {
                expected: str_views(expected@),
                found,
            },
            ParseMentionErrorType::TrailingArrow { found } => ErrorTypeModel::TrailingArrow { found },
        }
    }
}

/// `'c'` when there is a character `c`, `nothing` otherwise.
pub open spec fn found_text(found: Option<char>) -> Seq<char> {
    match found {
        Some(c) => seq!['\''] + seq![c] + seq!['\''],
        None => "nothing"@,
    }
}

/// `found 'c'` when there is a character `c`, `found nothing` otherwise.
pub open spec fn found_clause(found: Option<char>) -> Seq<char> {
    "found "@ + found_text(found)
}

/// The sigils, each in single quotes, separated by `, `.
pub open spec fn sigil_list(sigils: Seq<Seq<char>>) -> Seq<char>
    decreases sigils.len(),
{
    if sigils.len() == 0 {
        Seq::empty()
    } else if sigils.len() == 1 {
        seq!['\''] + sigils[0] + seq!['\'']
    } else {
        sigil_list(sigils.drop_last()) + ", "@ + seq!['\''] + sigils.last() + seq!['\'']
    }
}

/// The message that describes an error of this kind.
pub open spec fn error_message(kind: ErrorTypeModel) -> Seq<char> {
    match kind {
        ErrorTypeModel::IdNotU64 { found } => "id portion ('"@ + found + "') of mention is not a u64"@,
        ErrorTypeModel::LeadingArrow { found } => "expected to find a leading arrow ('<') but instead "@
            + found_clause(found),
        ErrorTypeModel::PartMissing { expected, found } => "expected "@ + decimal_chars(expected)
            + " parts but only found "@ + decimal_chars(found),
        ErrorTypeModel::Sigil { expected, found } => "expected to find a mention sigil ("@
            + sigil_list(expected) + ") but instead found "@ + found_text(found),
        ErrorTypeModel::TrailingArrow { found } =>
            "expected to find a trailing arrow ('>') but instead "@ + found_clause(found),
    }
}

/// Appends `found_text(found)` to `s`.
fn push_found_text(s: &mut String, found: Option<char>)
    ensures
        final(s)@ == old(s)@ + found_text(found),
{
    match found {
        Some(c) => {
            push_char(s, '\'');
            push_char(s, c);
            push_char(s, '\'');
            assert(final(s)@ =~= old(s)@ + found_text(found));
        },
        None => {
            s.append("nothing");
        },
    }
}

impl<'a> ParseMentionError<'a> {
    /// The kind and the source of the error.
    pub closed spec fn view(&self) -> (ErrorTypeModel, Option<IntErrorKind>) {
        (self.kind@, self.source)
    }

    /// An error of kind `kind` caused by `source`.
    pub(crate) fn new(kind: ParseMentionErrorType<'a>, source: Option<IntErrorKind>) -> (r: Self)
        ensures
            r@ == (kind@, source),
    {
        ParseMentionError { kind, source }
    }

    /// The kind of the error.
    #[must_use]
    pub fn kind(&self) -> (r: &ParseMentionErrorType<'a>)
        ensures
            r@ == self@.0,
    {
        &self.kind
    }

    /// The error that caused this one: why the id is not a `u64`.
    #[must_use]
    pub fn into_source(self) -> (r: Option<IntErrorKind>)
        ensures
            r == self@.1,
    {
        self.source
    }

    /// The kind and the source of the error.
    #[must_use]
    pub fn into_parts(self) -> (r: (ParseMentionErrorType<'a>, Option<IntErrorKind>))
        ensures
            r.0@ == self@.0,
            r.1 == self@.1,
    {
        (self.kind, self.source)
    }

    /// The message that describes the error.
    pub fn to_string(&self) -> (r: String)
        ensures
            r@ == error_message(self@.0),
    {
        let mut s = String::new();
        match &self.kind {
            ParseMentionErrorType::IdNotU64 { found } => {
                s.append("id portion ('");
                s.append(found);
                s.append("') of mention is not a u64");
            },
            ParseMentionErrorType::LeadingArrow { found } => {
                s.append("expected to find a leading arrow ('<') but instead ");
                s.append("found ");
                push_found_text(&mut s, *found);
            },
            ParseMentionErrorType::PartMissing { expected, found } => {
                s.append("expected ");
                push_decimal(&mut s, *expected as u64);
                s.append(" parts but only found ");
                push_decimal(&mut s, *found as u64);
            },
            ParseMentionErrorType::Sigil { expected, found } => {
                s.append("expected to find a mention sigil (");
                let ghost start = s@;
                let mut idx: usize = 0;
                while idx < expected.len()
                    invariant
                        idx <= expected@.len(),
                        s@ == start + sigil_list(str_views(expected@.take(idx as int))),
                    decreases expected.len() - idx,
                {
                    let ghost before = s@;
                    if idx > 0 {
                        s.append(", ");
                    }
                    push_char(&mut s, '\'');
                    s.append(expected[idx]);
                    push_char(&mut s, '\'');
                    proof {
                        let prev = str_views(expected@.take(idx as int));
                        let next = str_views(expected@.take(idx + 1));
                        assert(next.drop_last() =~= prev);
                        assert(next.last() == expected@[idx as int]@);
                        if idx == 0 {
                            assert(next.len() == 1);
                            assert(s@ =~= start + sigil_list(next));
                        } else {
                            assert(s@ =~= start + sigil_list(next));
                        }
                    }
                    idx += 1;
                }
                assert(expected@.take(expected@.len() as int) =~= expected@);
                s.append(") but instead found ");
                push_found_text(&mut s, *found);
            },
            ParseMentionErrorType::TrailingArrow { found } => {
                s.append("expected to find a trailing arrow ('>') but instead ");
                s.append("found ");
                push_found_text(&mut s, *found);
            },
        }
        assert(s@ =~= error_message(self.kind@));
        s
    }
}

} // verus!
