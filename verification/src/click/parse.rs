//! The grammar of the arguments of a `buttons` attribute: a comma-separated
//! list of buttons, each a style and, in parentheses, a label and, for a link
//! button, a punctuation character and the link.

use super::error::{ClickError, ClickFault};
use super::lex::{lex, prepend, tokenize, toks_of, Tok, Token};
use super::link::{link_outcome, url_parse_result, Link};
use crate::text::{chars_eq, chars_of, string_of};
use vstd::prelude::*;

verus! {

/// The style of a button.
#[derive(Debug, Clone, Copy, PartialEq, Eq, Structural, Hash)]
pub enum ButtonStyle {
    Success,
    Danger,
    Primary,
    Secondary,
    Link,
}

/// The style that an identifier names, if it names one.
pub open spec fn style_of(name: Seq<char>) -> Option<ButtonStyle> {
    if name == "Success"@ {
        Some(ButtonStyle::Success)
    } else if name == "Danger"@ {
        Some(ButtonStyle::Danger)
    } else if name == "Primary"@ {
        Some(ButtonStyle::Primary)
    } else if name == "Secondary"@ {
        Some(ButtonStyle::Secondary)
    } else if name == "Link"@ {
        Some(ButtonStyle::Link)
    } else {
        None
    }
}

/// The name of a style, as it is written.
pub open spec fn style_name(style: ButtonStyle) -> Seq<char> {
    match style {
        ButtonStyle::Success => "Success"@,
        ButtonStyle::Danger => "Danger"@,
        ButtonStyle::Primary => "Primary"@,
        ButtonStyle::Secondary => "Secondary"@,
        ButtonStyle::Link => "Link"@,
    }
}

/// Whether the characters `a` are those of `lit`.
fn chars_are(a: &Vec<char>, lit: &str) -> (r: bool)
    ensures
        r == (a@ == lit@),
{
    let b = chars_of(lit);
    chars_eq(a.as_slice(), b.as_slice())
}

impl ButtonStyle {
    /// Whether this is the style of a link button.
    pub fn is_link(&self) -> (r: bool)
        ensures
            r == (*self == ButtonStyle::Link),
    {
        match self {
            ButtonStyle::Link => true,
            _ => false,
        }
    }

    /// The name of the style, as it is written.
    pub fn name(&self) -> (r: &'static str)
        ensures
            r@ == style_name(*self),
    {
        match self {
            ButtonStyle::Success => "Success",
            ButtonStyle::Danger => "Danger",
            ButtonStyle::Primary => "Primary",
            ButtonStyle::Secondary => "Secondary",
            ButtonStyle::Link => "Link",
        }
    }

    /// The style that the identifier `name` names.
    pub fn parse(name: &Vec<char>) -> (r: Result<ButtonStyle, ClickError>)
        ensures
            match style_of(name@) {
                Some(s) => r == Ok::<ButtonStyle, ClickError>(s),
                None => r matches Err(x) && x@ == ClickFault::InvalidStyle(name@),
            },
    {
        if chars_are(name, "Success") {
            Ok(ButtonStyle::Success)
        } else if chars_are(name, "Danger") {
            Ok(ButtonStyle::Danger)
        } else if chars_are(name, "Primary") {
            Ok(ButtonStyle::Primary)
        } else if chars_are(name, "Secondary") {
            Ok(ButtonStyle::Secondary)
        } else if chars_are(name, "Link") {
            Ok(ButtonStyle::Link)
        } else {
            Err(ClickError::InvalidStyle(string_of(name.as_slice())))
        }
    }
}

/// One button, as the grammar sees it: its style, its label, and its link.
pub type ClickSpec = (ButtonStyle, Seq<char>, Option<Seq<char>>);

/// One button: its style, its label, and, for a link button, its link.
#[derive(Debug, Clone)]
pub struct Click(ButtonStyle, String, Option<Link>);

impl Click {
    /// The button as the grammar sees it.
    pub closed spec fn view(&self) -> ClickSpec {
        (
            self.0,
            self.1@,
            match self.2 {
                Some(l) => Some(l@),
                None => None,
            },
        )
    }

    /// The style of the button.
    pub fn style(&self) -> (r: ButtonStyle)
        ensures
            r == self@.0,
    {
        self.0
    }

    /// The label of the button.
    pub fn label(&self) -> (r: &String)
        ensures
            r@ == self@.1,
    {
        &self.1
    }

    /// The link of the button, if it is a link button.
    pub fn link(&self) -> (r: &Option<Link>)
        ensures
            match *r {
                Some(l) => self@.2 == Some(l@),
                None => self@.2 is None,
            },
    {
        &self.2
    }
}

/// The buttons `cs` as the grammar sees them.
pub open spec fn clicks_of(cs: Seq<Click>) -> Seq<ClickSpec> {
    cs.map_values(|c: Click| c@)
}

/// The button whose style token is at position `k`, and the position after it.
pub open spec fn click_at(toks: Seq<Tok>, k: int) -> Result<(ClickSpec, int), ClickFault> {
    match toks[k] {
        Tok::Ident(name) => match style_of(name) {
            None => Err(ClickFault::InvalidStyle(name)),
            Some(style) => if !(k + 1 < toks.len() && toks[k + 1] == Tok::Open) {
                Err(ClickFault::ExpectedParens)
            } else if !(k + 2 < toks.len() && toks[k + 2] is Str) {
                Err(ClickFault::ExpectedString)
            } else if style == ButtonStyle::Link {
                if !(k + 3 < toks.len() && toks[k + 3] is Punct) {
                    Err(ClickFault::ExpectedPunct)
                } else if !(k + 4 < toks.len() && toks[k + 4] is Str) {
                    Err(ClickFault::ExpectedString)
                } else {
                    match link_outcome(toks[k + 4]->Str_0, url_parse_result(toks[k + 4]->Str_0)) {
                        Err(e) => Err(e),
                        Ok(url) => if k + 5 < toks.len() && toks[k + 5] == Tok::Close {
                            Ok(((style, toks[k + 2]->Str_0, Some(url)), k + 6))
                        } else {
                            Err(ClickFault::UnexpectedToken)
                        },
                    }
                }
            } else if k + 3 < toks.len() && toks[k + 3] == Tok::Close {
                Ok(((style, toks[k + 2]->Str_0, None), k + 4))
            } else {
                Err(ClickFault::UnexpectedToken)
            },
        },
        _ => Err(ClickFault::ExpectedIdent),
    }
}

/// The buttons of the tokens from position `k` on: buttons separated by commas,
/// with an optional comma after the last.
pub open spec fn clicks_from(toks: Seq<Tok>, k: int) -> Result<Seq<ClickSpec>, ClickFault>
    decreases toks.len() - k,
{
    if k < 0 || k >= toks.len() {
        Ok(Seq::empty())
    } else {
        match click_at(toks, k) {
            Err(e) => Err(e),
            Ok((c, j)) => if !(k < j <= toks.len()) {
                Err(ClickFault::UnexpectedToken)
            } else if j == toks.len() {
                Ok(seq![c])
            } else if toks[j] == Tok::Punct(',') {
                prepend(seq![c], clicks_from(toks, j + 1))
            } else {
                Err(ClickFault::ExpectedComma)
            },
        }
    }
}

/// The buttons that the arguments `s` of a `buttons` attribute declare.
pub open spec fn parse_clicks_spec(s: Seq<char>) -> Result<Seq<ClickSpec>, ClickFault> {
    match lex(s) {
        Err(e) => Err(e),
        Ok(toks) => clicks_from(toks, 0),
    }
}

/// The button after one reads the style `style` and the label and sees the
/// closing parenthesis or, for a link button, the link.
fn read_link(toks: &Vec<Token>, k: usize, style: ButtonStyle, label: String) -> (r: Result<
    (Click, usize),
    ClickError,
>)
    requires
        k + 3 < toks@.len(),
        style == ButtonStyle::Link,
        toks_of(toks@)[k + 2] is Str,
        label@ == toks_of(toks@)[k + 2]->Str_0,
    ensures
        ({
            let t = toks_of(toks@);
            if !(t[k + 3] is Punct) {
                r matches Err(x) && x@ == ClickFault::ExpectedPunct
            } else if !(k + 4 < t.len() && t[k + 4] is Str) {
                r matches Err(x) && x@ == ClickFault::ExpectedString
            } else {
                match link_outcome(t[k + 4]->Str_0, url_parse_result(t[k + 4]->Str_0)) {
                    Err(e) => r matches Err(x) && x@ == e,
                    Ok(url) => if k + 5 < t.len() && t[k + 5] == Tok::Close {
                        r matches Ok((c, j)) && c@ == (style, label@, Some(url)) && j == k + 6
                    } else {
                        r matches Err(x) && x@ == ClickFault::UnexpectedToken
                    },
                }
            }
        }),
{
    let len = toks.len();
    assert(toks_of(toks@)[k + 3] == toks@[k + 3]@);
    match &toks[k + 3] {
        Token::Punct(_) => {},
        _ => {
            return Err(ClickError::ExpectedPunct);
        },
    }
    if k + 4 >= len {
        return Err(ClickError::ExpectedString);
    }
    assert(toks_of(toks@)[k + 4] == toks@[k + 4]@);
    let url = match &toks[k + 4] {
        Token::Str(cs) => string_of(cs.as_slice()),
        _ => {
            return Err(ClickError::ExpectedString);
        },
    };
    let link = match Link::parse(url) {
        Ok(l) => l,
        Err(e) => {
            return Err(e);
        },
    };
    if k + 5 < len {
        assert(toks_of(toks@)[k + 5] == toks@[k + 5]@);
        match &toks[k + 5] {
            Token::Close => {
                return Ok((Click(style, label, Some(link)), k + 6));
            },
            _ => {},
        }
    }
    Err(ClickError::UnexpectedToken)
}

/// Reads the button whose style token is at position `k`.
fn read_click(toks: &Vec<Token>, k: usize) -> (r: Result<(Click, usize), ClickError>)
    requires
        k < toks@.len(),
    ensures
        match click_at(toks_of(toks@), k as int) {
            Ok((c, j)) => r matches Ok((d, i)) && d@ == c && i == j,
            Err(e) => r matches Err(x) && x@ == e,
        },
{
    let ghost t = toks_of(toks@);
    let len = toks.len();
    assert(t[k as int] == toks@[k as int]@);
    let style = match &toks[k] {
        Token::Ident(name) => match ButtonStyle::parse(name) {
            Ok(s) => s,
            Err(e) => {
                return Err(e);
            },
        },
        _ => {
            return Err(ClickError::ExpectedIdent);
        },
    };
    if k + 1 >= len {
        return Err(ClickError::ExpectedParens);
    }
    assert(t[k + 1] == toks@[k + 1]@);
    match &toks[k + 1] {
        Token::Open => {},
        _ => {
            return Err(ClickError::ExpectedParens);
        },
    }
    if k + 2 >= len {
        return Err(ClickError::ExpectedString);
    }
    assert(t[k + 2] == toks@[k + 2]@);
    let label = match &toks[k + 2] {
        Token::Str(cs) => string_of(cs.as_slice()),
        _ => {
            return Err(ClickError::ExpectedString);
        },
    };
    if style.is_link() {
        if k + 3 >= len {
            return Err(ClickError::ExpectedPunct);
        }
        read_link(toks, k, style, label)
    } else {
        if k + 3 < len {
            assert(t[k + 3] == toks@[k + 3]@);
            match &toks[k + 3] {
                Token::Close => {
                    return Ok((Click(style, label, None), k + 4));
                },
                _ => {},
            }
        }
        Err(ClickError::UnexpectedToken)
    }
}

/// Reads the buttons that the tokens `toks` declare.
fn read_clicks(toks: &Vec<Token>) -> (r: Result<Vec<Click>, ClickError>)
    ensures
        match clicks_from(toks_of(toks@), 0) {
            Ok(cs) => r matches Ok(v) && clicks_of(v@) == cs,
            Err(e) => r matches Err(x) && x@ == e,
        },
{
    let ghost t = toks_of(toks@);
    let len = toks.len();
    let mut out: Vec<Click> = Vec::new();
    let mut k: usize = 0;
    while k < len
        invariant
            k <= len,
            len == toks@.len(),
            t == toks_of(toks@),
            clicks_from(t, 0) == prepend(clicks_of(out@), clicks_from(t, k as int)),
        decreases len - k,
    {
        match read_click(toks, k) {
            Err(e) => {
                return Err(e);
            },
            Ok((c, j)) => {
                if !(k < j && j <= len) {
                    return Err(ClickError::UnexpectedToken);
                }
                if j == len {
                    proof {
                        assert(clicks_of(out@.push(c)) =~= clicks_of(out@) + seq![c@]);
                    }
                    out.push(c);
                    return Ok(out);
                }
                assert(t[j as int] == toks@[j as int]@);
                let comma = match &toks[j] {
                    Token::Punct(p) => *p == ',',
                    _ => false,
                };
                if !comma {
                    return Err(ClickError::ExpectedComma);
                }
                proof {
                    match clicks_from(t, j + 1) {
                        Ok(rest) => {
                            assert(clicks_of(out@.push(c)) + rest =~= clicks_of(out@) + (seq![c@]
                                + rest));
                        },
                        Err(_) => {},
                    }
                }
                out.push(c);
                k = j + 1;
            },
        }
    }
    assert(clicks_of(out@) + Seq::<ClickSpec>::empty() =~= clicks_of(out@));
    Ok(out)
}

/// The buttons that the arguments `s` of a `buttons` attribute declare, in order.
pub fn parse_clicks(s: &str) -> (r: Result<Vec<Click>, ClickError>)
    ensures
        match parse_clicks_spec(s@) {
            Ok(cs) => r matches Ok(v) && clicks_of(v@) == cs,
            Err(e) => r matches Err(x) && x@ == e,
        },
{
    match tokenize(s) {
        Err(e) => Err(e),
        Ok(toks) => read_clicks(&toks),
    }
}

/// Reading the name of a style gives that style, and a name that is read as a
/// style is that style's name: a button's style is the identifier as written.
pub proof fn law_style_names(style: ButtonStyle, name: Seq<char>)
    ensures
        style_of(style_name(style)) == Some(style),
        style_of(name) matches Some(s) ==> name == style_name(s),
{
    reveal_strlit("Success");
    reveal_strlit("Danger");
    reveal_strlit("Primary");
    reveal_strlit("Secondary");
    reveal_strlit("Link");
    assert("Success"@.len() == 7 && "Success"@[0] == 'S');
    assert("Danger"@.len() == 6);
    assert("Primary"@.len() == 7 && "Primary"@[0] == 'P');
    assert("Secondary"@.len() == 9);
    assert("Link"@.len() == 4);
}

} // verus!
