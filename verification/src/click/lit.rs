//! Reading the value of a literal of an attribute as text or as a boolean.

use crate::text::{chars_of, chars_eq, push_char};
use vstd::prelude::*;
use vstd::utf8::{decode_utf8, valid_utf8};

verus! {

/// A literal of an attribute.
#[derive(Debug, Clone, PartialEq, Eq)]
pub enum Lit {
    /// A string literal, by the text it stands for.
    Str(String),
    /// A byte string literal, by the bytes it stands for.
    ByteStr(Vec<u8>),
    /// A byte literal.
    Byte(u8),
    /// A character literal.
    Char(char),
    /// An integer literal, as written.
    Int(String),
    /// A floating-point literal, as written.
    Float(String),
    /// A boolean literal.
    Bool(bool),
    /// Any other literal, as written.
    Verbatim(String),
}

/// `String::from_utf8` of std: the string that the bytes encode, or `None`
/// when they are not valid UTF-8, as std documents it.
#[verifier::external_body]
fn string_from_utf8(bytes: Vec<u8>) -> (r: Option<String>)
    ensures
        (r is Some) == valid_utf8(bytes@),
        r matches Some(s) ==> s@ == decode_utf8(bytes@),
{
    String::from_utf8(bytes).ok()
}

/// The text of a literal that has one: a string, a byte string that is valid
/// UTF-8, a character, or a byte taken as the character of its code.
pub open spec fn lit_text(lit: Lit) -> Option<Seq<char>> {
    match lit {
        Lit::Str(s) => Some(s@),
        Lit::ByteStr(b) => if valid_utf8(b@) {
            Some(decode_utf8(b@))
        } else {
            None
        },
        Lit::Char(c) => Some(seq![c]),
        Lit::Byte(b) => Some(seq![b as char]),
        _ => None,
    }
}

/// The boolean that a literal stands for: a boolean literal's value, or the
/// text `true` or `false`.
pub open spec fn lit_bool(lit: Lit) -> Option<bool> {
    match lit {
        Lit::Bool(b) => Some(b),
        _ => match lit_text(lit) {
            Some(t) => if t == "true"@ {
                Some(true)
            } else if t == "false"@ {
                Some(false)
            } else {
                None
            },
            None => None,
        },
    }
}

/// Reading a literal as text or as a boolean.
pub trait LitExt {
    /// The text of the literal, if it has one.
    spec fn spec_text(&self) -> Option<Seq<char>>;

    /// The boolean that the literal stands for, if it stands for one.
    spec fn spec_bool(&self) -> Option<bool>;

    /// The text of the literal, which must have one.
    fn to_str(&self) -> (r: String)
        requires
            self.spec_text() is Some,
        ensures
            self.spec_text() == Some(r@),
    ;

    /// The boolean that the literal stands for, which must be one.
    fn to_bool(&self) -> (r: bool)
        requires
            self.spec_bool() is Some,
        ensures
            self.spec_bool() == Some(r),
    ;
}

impl LitExt for Lit {
    open spec fn spec_text(&self) -> Option<Seq<char>> {
        lit_text(*self)
    }

    open spec fn spec_bool(&self) -> Option<bool> {
        lit_bool(*self)
    }

    fn to_str(&self) -> (r: String) {
        match self {
            Lit::Str(s) => s.clone(),
            Lit::ByteStr(b) => match string_from_utf8(b.clone()) {
                Some(s) => s,
                None => String::new(),
            },
            Lit::Char(c) => {
                let mut s = String::new();
                push_char(&mut s, *c);
                assert(s@ =~= seq![*c]);
                s
            },
            Lit::Byte(b) => {
                let mut s = String::new();
                push_char(&mut s, *b as char);
                assert(s@ =~= seq![*b as char]);
                s
            },
            _ => String::new(),
        }
    }

    fn to_bool(&self) -> (r: bool) {
        match self {
            Lit::Bool(b) => *b,
            _ => {
                let t = self.to_str();
                let cs = chars_of(t.as_str());
                let yes = chars_of("true");
                chars_eq(cs.as_slice(), yes.as_slice())
            },
        }
    }
}

/// Whether the literal has a text.
pub fn lit_text_present(lit: &Lit) -> (r: bool)
    ensures
        r == (lit_text(*lit) is Some),
{
    match lit {
        Lit::Str(_) | Lit::Char(_) | Lit::Byte(_) => true,
        Lit::ByteStr(b) => string_from_utf8(b.clone()).is_some(),
        _ => false,
    }
}

/// Whether the literal stands for a boolean.
pub fn lit_bool_present(lit: &Lit) -> (r: bool)
    ensures
        r == (lit_bool(*lit) is Some),
{
    match lit {
        Lit::Bool(_) => true,
        _ => {
            if !lit_text_present(lit) {
                return false;
            }
            let t = lit.to_str();
            let cs = chars_of(t.as_str());
            let yes = chars_of("true");
            let no = chars_of("false");
            chars_eq(cs.as_slice(), yes.as_slice()) || chars_eq(cs.as_slice(), no.as_slice())
        },
    }
}

} // verus!
