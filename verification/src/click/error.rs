//! Why the buttons of a click command could not be read.

use crate::decimal::{decimal_chars, push_decimal};
use vstd::prelude::*;
use vstd::string::StringExecFns;

verus! {

/// Why the arguments of a `buttons` attribute are refused, as the grammar
/// sees it.
pub enum ClickFault {
    /// A string literal has no closing quote.
    UnterminatedString,
    /// A string literal holds an escape that is not one.
    InvalidEscape,
    /// A string literal holds a carriage return that no line feed follows.
    BareCarriageReturn,
    /// A raw string literal opens with more than 255 `#` symbols.
    TooManyHashes,
    /// A block comment is not closed.
    UnterminatedComment,
    /// An identifier was expected.
    ExpectedIdent,
    /// The identifier is not a button style.
    InvalidStyle(Seq<char>),
    /// Parentheses were expected.
    ExpectedParens,
    /// A string literal was expected.
    ExpectedString,
    /// A punctuation character was expected.
    ExpectedPunct,
    /// The link is not a valid URL, for the reason given.
    InvalidUrl(Seq<char>),
    /// A token was found where the parentheses should close.
    UnexpectedToken,
    /// A comma was expected between two buttons.
    ExpectedComma,
    /// The item has no `buttons` attribute.
    MissingAttribute,
    /// More buttons were given than a message can hold.
    TooManyButtons,
}

/// Why the arguments of a `buttons` attribute are refused.
#[derive(Debug, Clone, PartialEq, Eq)]
pub enum ClickError {
    /// A string literal has no closing quote.
    UnterminatedString,
    /// A string literal holds an escape that is not one.
    InvalidEscape,
    /// A string literal holds a carriage return that no line feed follows.
    BareCarriageReturn,
    /// A raw string literal opens with more than 255 `#` symbols.
    TooManyHashes,
    /// A block comment is not closed.
    UnterminatedComment,
    /// An identifier was expected.
    ExpectedIdent,
    /// The identifier is not a button style.
    InvalidStyle(String),
    /// Parentheses were expected.
    ExpectedParens,
    /// A string literal was expected.
    ExpectedString,
    /// A punctuation character was expected.
    ExpectedPunct,
    /// The link is not a valid URL, for the reason given.
    InvalidUrl(String),
    /// A token was found where the parentheses should close.
    UnexpectedToken,
    /// A comma was expected between two buttons.
    ExpectedComma,
    /// The item has no `buttons` attribute.
    MissingAttribute,
    /// More buttons were given than a message can hold.
    TooManyButtons,
}

impl ClickError {
    /// The error as the grammar sees it.
    pub open spec fn view(&self) -> ClickFault {
        match self {
            ClickError::UnterminatedString => ClickFault::UnterminatedString,
            ClickError::InvalidEscape => ClickFault::InvalidEscape,
            ClickError::BareCarriageReturn => ClickFault::BareCarriageReturn,
            ClickError::TooManyHashes => ClickFault::TooManyHashes,
            ClickError::UnterminatedComment => ClickFault::UnterminatedComment,
            ClickError::ExpectedIdent => ClickFault::ExpectedIdent,
            ClickError::InvalidStyle(s) => ClickFault::InvalidStyle(s@),
            ClickError::ExpectedParens => ClickFault::ExpectedParens,
            ClickError::ExpectedString => ClickFault::ExpectedString,
            ClickError::ExpectedPunct => ClickFault::ExpectedPunct,
            ClickError::InvalidUrl(s) => ClickFault::InvalidUrl(s@),
            ClickError::UnexpectedToken => ClickFault::UnexpectedToken,
            ClickError::ExpectedComma => ClickFault::ExpectedComma,
            ClickError::MissingAttribute => ClickFault::MissingAttribute,
            ClickError::TooManyButtons => ClickFault::TooManyButtons,
        }
    }

    /// The message that describes the error.
    pub fn to_string(&self) -> (r: String)
        ensures
            r@ == click_error_message(self@),
    {
        let mut s = String::new();
        match self {
            ClickError::UnterminatedString => s.append("unterminated double quote string"),
            ClickError::InvalidEscape => s.append("unknown character escape"),
            ClickError::BareCarriageReturn => s.append("bare CR not allowed in string"),
            ClickError::TooManyHashes => s.append(
                "too many `#` symbols: raw strings may be delimited by up to 255 `#` symbols",
            ),
            ClickError::UnterminatedComment => s.append("unterminated block comment"),
            ClickError::ExpectedIdent => s.append("expected identifier"),
            ClickError::InvalidStyle(name) => {
                s.append(
                    "expected style to be `Success`, `Danger`, `Primary`, `Secondary`, or `Link`, got '",
                );
                s.append(name.as_str());
                s.append("'");
            },
            ClickError::ExpectedParens => s.append("expected parentheses"),
            ClickError::ExpectedString => s.append("expected string literal"),
            ClickError::ExpectedPunct => s.append("expected punctuation token"),
            ClickError::InvalidUrl(reason) => {
                s.append("expected valid url, reason: ");
                s.append(reason.as_str());
            },
            ClickError::UnexpectedToken => s.append("unexpected token"),
            ClickError::ExpectedComma => s.append("expected `,`"),
            ClickError::MissingAttribute => s.append("expected buttons attribute"),
            ClickError::TooManyButtons => {
                s.append("cannot have more than ");
                push_decimal(&mut s, MAX_BUTTONS as u64);
                s.append(" buttons");
            },
        }
        assert(s@ =~= click_error_message(self@));
        s
    }
}

/// The most buttons that one message can hold.
pub const MAX_BUTTONS: usize = 5;

/// The message that describes an error.
pub open spec fn click_error_message(e: ClickFault) -> Seq<char> {
    match e {
        ClickFault::UnterminatedString => "unterminated double quote string"@,
        ClickFault::InvalidEscape => "unknown character escape"@,
        ClickFault::BareCarriageReturn => "bare CR not allowed in string"@,
        ClickFault::TooManyHashes =>
            "too many `#` symbols: raw strings may be delimited by up to 255 `#` symbols"@,
        ClickFault::UnterminatedComment => "unterminated block comment"@,
        ClickFault::ExpectedIdent => "expected identifier"@,
        ClickFault::InvalidStyle(name) =>
            "expected style to be `Success`, `Danger`, `Primary`, `Secondary`, or `Link`, got '"@
            + name + "'"@,
        ClickFault::ExpectedParens => "expected parentheses"@,
        ClickFault::ExpectedString => "expected string literal"@,
        ClickFault::ExpectedPunct => "expected punctuation token"@,
        ClickFault::InvalidUrl(reason) => "expected valid url, reason: "@ + reason,
        ClickFault::UnexpectedToken => "unexpected token"@,
        ClickFault::ExpectedComma => "expected `,`"@,
        ClickFault::MissingAttribute => "expected buttons attribute"@,
        ClickFault::TooManyButtons => "cannot have more than "@ + decimal_chars(MAX_BUTTONS as nat)
            + " buttons"@,
    }
}

} // verus!
