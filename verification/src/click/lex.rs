//! The tokens of the arguments of a `buttons` attribute.

use super::error::{ClickError, ClickFault};
use crate::text::chars_of;
use vstd::prelude::*;

verus! {

/// A token, as the grammar sees it.
pub enum Tok {
    /// An identifier.
    Ident(Seq<char>),
    /// A string literal, by the characters that it stands for.
    Str(Seq<char>),
    /// A punctuation character.
    Punct(char),
    /// An opening parenthesis.
    Open,
    /// A closing parenthesis.
    Close,
    /// A doc comment, or any other character that is not white space.
    Other,
}

/// A token.
#[derive(Debug)]
pub enum Token {
    /// An identifier.
    Ident(Vec<char>),
    /// A string literal, by the characters that it stands for.
    Str(Vec<char>),
    /// A punctuation character.
    Punct(char),
    /// An opening parenthesis.
    Open,
    /// A closing parenthesis.
    Close,
    /// A doc comment, or any other character that is not white space.
    Other,
}

impl Token {
    /// The token as the grammar sees it.
    pub open spec fn view(&self) -> Tok {
        match self {
            Token::Ident(cs) => Tok::Ident(cs@),
            Token::Str(cs) => Tok::Str(cs@),
            Token::Punct(c) => Tok::Punct(*c),
            Token::Open => Tok::Open,
            Token::Close => Tok::Close,
            Token::Other => Tok::Other,
        }
    }
}

/// The tokens `ts` as the grammar sees them.
pub open spec fn toks_of(ts: Seq<Token>) -> Seq<Tok> {
    ts.map_values(|t: Token| t@)
}

/// Whether `c` is white space between tokens: a character of Unicode's
/// `Pattern_White_Space`.
pub open spec fn is_space(c: char) -> bool {
    c == ' ' || c == '\t' || c == '\n' || c == '\u{0B}' || c == '\u{0C}' || c == '\r' || c
        == '\u{85}' || c == '\u{200E}' || c == '\u{200F}' || c == '\u{2028}' || c == '\u{2029}'
}

/// Whether `c` has the Unicode property `XID_Start`, as the `unicode-ident`
/// crate reports it.
pub uninterp spec fn xid_start(c: char) -> bool;

/// Whether `c` has the Unicode property `XID_Continue`, as the `unicode-ident`
/// crate reports it.
pub uninterp spec fn xid_continue(c: char) -> bool;

/// Whether an identifier can begin with `c`: an underscore, or a character
/// with the property `XID_Start`, which among ASCII characters are the letters.
pub open spec fn is_ident_start(c: char) -> bool {
    if c <= '\x7f' {
        ('a' <= c && c <= 'z') || ('A' <= c && c <= 'Z') || c == '_'
    } else {
        xid_start(c)
    }
}

/// Whether an identifier can go on with `c`: a character with the property
/// `XID_Continue`, which among ASCII characters are the letters, the digits and
/// the underscore.
pub open spec fn is_ident_continue(c: char) -> bool {
    if c <= '\x7f' {
        ('a' <= c && c <= 'z') || ('A' <= c && c <= 'Z') || c == '_' || ('0' <= c && c <= '9')
    } else {
        xid_continue(c)
    }
}

/// Whether `c` is a punctuation character.
pub open spec fn is_punct(c: char) -> bool {
    c == ',' || c == ';' || c == ':' || c == '.' || c == '=' || c == '<' || c == '>' || c == '!'
        || c == '~' || c == '+' || c == '-' || c == '*' || c == '/' || c == '%' || c == '^'
        || c == '&' || c == '|' || c == '@' || c == '#' || c == '$' || c == '?'
}

/// The character that the one-character escape `\c` stands for, if it is one.
pub open spec fn escape_char(c: char) -> Option<char> {
    if c == 'n' {
        Some('\n')
    } else if c == 't' {
        Some('\t')
    } else if c == 'r' {
        Some('\r')
    } else if c == '0' {
        Some('\0')
    } else if c == '\\' {
        Some('\\')
    } else if c == '"' {
        Some('"')
    } else if c == '\'' {
        Some('\'')
    } else {
        None
    }
}

/// The value of `c` as a hexadecimal digit, if it is one.
pub open spec fn hex_value(c: char) -> Option<u32> {
    if '0' <= c && c <= '9' {
        Some((c as u32 - '0' as u32) as u32)
    } else if 'a' <= c && c <= 'f' {
        Some((c as u32 - 'a' as u32 + 10) as u32)
    } else if 'A' <= c && c <= 'F' {
        Some((c as u32 - 'A' as u32 + 10) as u32)
    } else {
        None
    }
}

/// The rest of a `\u{..}` escape whose digits go on at position `j`, when the
/// `n` digits read so far give `v`: the character it stands for, and the
/// position after its closing brace. It holds one to six hexadecimal digits,
/// with underscores after the first, and names a Unicode scalar value.
pub open spec fn unicode_from(s: Seq<char>, j: int, v: int, n: int) -> Result<(char, int), ClickFault>
    decreases s.len() - j,
{
    if j < 0 || j >= s.len() {
        Err(ClickFault::InvalidEscape)
    } else if s[j] == '}' && n > 0 {
        if 0 <= v <= 0x10FFFF && vstd::utf8::is_scalar(v as u32) {
            Ok(((v as u32) as char, j + 1))
        } else {
            Err(ClickFault::InvalidEscape)
        }
    } else if s[j] == '_' && n > 0 {
        unicode_from(s, j + 1, v, n)
    } else {
        match hex_value(s[j]) {
            Some(d) => if n < 6 {
                unicode_from(s, j + 1, v * 16 + d, n + 1)
            } else {
                Err(ClickFault::InvalidEscape)
            },
            None => Err(ClickFault::InvalidEscape),
        }
    }
}

/// Where the white space that a line continuation skips, from position `j`,
/// ends: spaces, tabs and line breaks, a carriage return only before a line
/// feed.
pub open spec fn continuation_end(s: Seq<char>, j: int) -> Result<int, ClickFault>
    decreases s.len() - j,
{
    if 0 <= j < s.len() && (s[j] == ' ' || s[j] == '\t' || s[j] == '\n') {
        continuation_end(s, j + 1)
    } else if 0 <= j < s.len() && s[j] == '\r' {
        if j + 1 < s.len() && s[j + 1] == '\n' {
            continuation_end(s, j + 2)
        } else {
            Err(ClickFault::BareCarriageReturn)
        }
    } else {
        Ok(j)
    }
}

/// The escape whose backslash stands just before position `k`: the character
/// it stands for (none for a line continuation), and the position after it.
pub open spec fn escape_at(s: Seq<char>, k: int) -> Result<(Option<char>, int), ClickFault> {
    let c = s[k];
    if escape_char(c) is Some {
        Ok((escape_char(c), k + 1))
    } else if c == 'x' {
        if k + 2 < s.len() && hex_value(s[k + 1]) is Some && hex_value(s[k + 1])->Some_0 < 8
            && hex_value(s[k + 2]) is Some {
            Ok(
                (
                    Some(
                        ((hex_value(s[k + 1])->Some_0 * 16 + hex_value(s[k + 2])->Some_0) as u8) as char,
                    ),
                    k + 3,
                ),
            )
        } else {
            Err(ClickFault::InvalidEscape)
        }
    } else if c == 'u' {
        if k + 1 < s.len() && s[k + 1] == '{' {
            match unicode_from(s, k + 2, 0, 0) {
                Ok((d, j)) => Ok((Some(d), j)),
                Err(e) => Err(e),
            }
        } else {
            Err(ClickFault::InvalidEscape)
        }
    } else if c == '\n' {
        match continuation_end(s, k + 1) {
            Ok(j) => Ok((None, j)),
            Err(e) => Err(e),
        }
    } else if c == '\r' {
        if k + 1 < s.len() && s[k + 1] == '\n' {
            match continuation_end(s, k + 2) {
                Ok(j) => Ok((None, j)),
                Err(e) => Err(e),
            }
        } else {
            Err(ClickFault::BareCarriageReturn)
        }
    } else {
        Err(ClickFault::InvalidEscape)
    }
}

/// The characters that `c` adds to a literal's value.
pub open spec fn opt_chars(c: Option<char>) -> Seq<char> {
    match c {
        Some(d) => seq![d],
        None => Seq::empty(),
    }
}

/// Where the identifier that goes on at position `i` ends.
pub open spec fn ident_end(s: Seq<char>, i: int) -> int
    decreases s.len() - i,
{
    if 0 <= i < s.len() && is_ident_continue(s[i]) {
        ident_end(s, i + 1)
    } else {
        i
    }
}

/// Where the run of `#` symbols that goes on at position `i` ends.
pub open spec fn hashes_end(s: Seq<char>, i: int) -> int
    decreases s.len() - i,
{
    if 0 <= i < s.len() && s[i] == '#' {
        hashes_end(s, i + 1)
    } else {
        i
    }
}

/// Where the suffix of a literal that ends at position `j` ends: a literal may
/// be followed at once by an identifier, which does not change its value.
pub open spec fn suffix_end(s: Seq<char>, j: int) -> int {
    if 0 <= j < s.len() && is_ident_start(s[j]) {
        ident_end(s, j + 1)
    } else {
        j
    }
}

/// The rest of a string literal whose body goes on at position `i`: the
/// characters it stands for, and the position after its closing quote. A
/// carriage return and a line feed stand for a line feed.
pub open spec fn string_from(s: Seq<char>, i: int) -> Result<(Seq<char>, int), ClickFault>
    decreases s.len() - i,
{
    if i < 0 || i >= s.len() {
        Err(ClickFault::UnterminatedString)
    } else if s[i] == '"' {
        Ok((Seq::empty(), i + 1))
    } else if s[i] == '\r' {
        if i + 1 < s.len() && s[i + 1] == '\n' {
            match string_from(s, i + 2) {
                Ok((v, j)) => Ok((seq!['\n'] + v, j)),
                Err(e) => Err(e),
            }
        } else {
            Err(ClickFault::BareCarriageReturn)
        }
    } else if s[i] == '\\' {
        if i + 1 >= s.len() {
            Err(ClickFault::UnterminatedString)
        } else {
            match escape_at(s, i + 1) {
                Err(e) => Err(e),
                Ok((c, k)) => if i < k <= s.len() {
                    match string_from(s, k) {
                        Ok((v, j)) => Ok((opt_chars(c) + v, j)),
                        Err(e) => Err(e),
                    }
                } else {
                    Err(ClickFault::UnterminatedString)
                },
            }
        }
    } else {
        match string_from(s, i + 1) {
            Ok((v, j)) => Ok((seq![s[i]] + v, j)),
            Err(e) => Err(e),
        }
    }
}

/// The rest of a raw string literal opened with `n` `#` symbols, whose body goes
/// on at position `i`: the characters it stands for, and the position after its
/// closing quote and `#` symbols. No escape is read; a carriage return and a
/// line feed stand for a line feed.
pub open spec fn raw_from(s: Seq<char>, i: int, n: int) -> Result<(Seq<char>, int), ClickFault>
    decreases s.len() - i,
{
    if i < 0 || i >= s.len() {
        Err(ClickFault::UnterminatedString)
    } else if s[i] == '"' && hashes_end(s, i + 1) >= i + 1 + n {
        Ok((Seq::empty(), i + 1 + n))
    } else if s[i] == '\r' {
        if i + 1 < s.len() && s[i + 1] == '\n' {
            match raw_from(s, i + 2, n) {
                Ok((v, j)) => Ok((seq!['\n'] + v, j)),
                Err(e) => Err(e),
            }
        } else {
            Err(ClickFault::BareCarriageReturn)
        }
    } else {
        match raw_from(s, i + 1, n) {
            Ok((v, j)) => Ok((seq![s[i]] + v, j)),
            Err(e) => Err(e),
        }
    }
}

/// Whether a raw string literal begins at position `i`: an `r`, any number of
/// `#` symbols, and a quote.
pub open spec fn raw_string_at(s: Seq<char>, i: int) -> bool {
    0 <= i < s.len() && s[i] == 'r' && hashes_end(s, i + 1) < s.len() && s[hashes_end(
        s,
        i + 1,
    )] == '"'
}

/// Whether a raw identifier, `r#` and an identifier, begins at position `i`.
pub open spec fn raw_ident_at(s: Seq<char>, i: int) -> bool {
    0 <= i && i + 2 < s.len() && s[i] == 'r' && s[i + 1] == '#' && is_ident_start(s[i + 2])
}

/// The token that begins at position `i`, and the position after it. A string
/// literal is written `"..."` with escapes, or raw as `r"..."`, `r#"..."#` and
/// so on, and may carry a suffix.
pub open spec fn token_at(s: Seq<char>, i: int) -> Result<(Tok, int), ClickFault> {
    let c = s[i];
    if raw_string_at(s, i) {
        let h = hashes_end(s, i + 1);
        if h - (i + 1) > 255 {
            Err(ClickFault::TooManyHashes)
        } else {
            match raw_from(s, h + 1, h - (i + 1)) {
                Ok((v, j)) => Ok((Tok::Str(v), suffix_end(s, j))),
                Err(e) => Err(e),
            }
        }
    } else if raw_ident_at(s, i) {
        let j = ident_end(s, i + 3);
        Ok((Tok::Ident(s.subrange(i, j)), j))
    } else if is_ident_start(c) {
        let j = ident_end(s, i + 1);
        Ok((Tok::Ident(s.subrange(i, j)), j))
    } else if c == '"' {
        match string_from(s, i + 1) {
            Ok((v, j)) => Ok((Tok::Str(v), suffix_end(s, j))),
            Err(e) => Err(e),
        }
    } else if c == '(' {
        Ok((Tok::Open, i + 1))
    } else if c == ')' {
        Ok((Tok::Close, i + 1))
    } else if is_punct(c) {
        Ok((Tok::Punct(c), i + 1))
    } else {
        Ok((Tok::Other, i + 1))
    }
}

/// `r` with `acc` put before the value that it holds, if any.
pub open spec fn prepend<T, E>(acc: Seq<T>, r: Result<Seq<T>, E>) -> Result<Seq<T>, E> {
    match r {
        Ok(rest) => Ok(acc + rest),
        Err(e) => Err(e),
    }
}

/// Where the line that goes on at position `i` ends: at its line feed, or at
/// the end of the text.
pub open spec fn line_end(s: Seq<char>, i: int) -> int
    decreases s.len() - i,
{
    if 0 <= i < s.len() && s[i] != '\n' {
        line_end(s, i + 1)
    } else {
        i
    }
}

/// Whether a line comment, `//`, begins at position `i`.
pub open spec fn line_comment_at(s: Seq<char>, i: int) -> bool {
    0 <= i && i + 1 < s.len() && s[i] == '/' && s[i + 1] == '/'
}

/// Whether a block comment, `/*`, begins at position `i`.
pub open spec fn block_comment_at(s: Seq<char>, i: int) -> bool {
    0 <= i && i + 1 < s.len() && s[i] == '/' && s[i + 1] == '*'
}

/// Whether the line comment at position `i` is a doc comment: `///` but not
/// `////`, or `//!`.
pub open spec fn doc_line_at(s: Seq<char>, i: int) -> bool {
    i + 2 < s.len() && ((s[i + 2] == '/' && !(i + 3 < s.len() && s[i + 3] == '/')) || s[i + 2]
        == '!')
}

/// Whether the block comment at position `i` is a doc comment: `/**` but not
/// `/***` or `/**/`, or `/*!`.
pub open spec fn doc_block_at(s: Seq<char>, i: int) -> bool {
    i + 2 < s.len() && ((s[i + 2] == '*' && !(i + 3 < s.len() && (s[i + 3] == '*' || s[i + 3]
        == '/'))) || s[i + 2] == '!')
}

/// Where a block comment whose body goes on at position `i`, nested `depth`
/// levels deep, ends: after the `*/` that closes its outermost level.
pub open spec fn block_end(s: Seq<char>, i: int, depth: int) -> Result<int, ClickFault>
    decreases s.len() - i,
{
    if i < 0 || i + 1 >= s.len() {
        Err(ClickFault::UnterminatedComment)
    } else if s[i] == '/' && s[i + 1] == '*' {
        block_end(s, i + 2, depth + 1)
    } else if s[i] == '*' && s[i + 1] == '/' {
        if depth <= 1 {
            Ok(i + 2)
        } else {
            block_end(s, i + 2, depth - 1)
        }
    } else {
        block_end(s, i + 1, depth)
    }
}

/// The tokens of `s` from position `i` on. A comment separates tokens as white
/// space does; a doc comment, which stands for an attribute, is a token of its
/// own.
pub open spec fn lex_from(s: Seq<char>, i: int) -> Result<Seq<Tok>, ClickFault>
    decreases s.len() - i,
{
    if i < 0 || i >= s.len() {
        Ok(Seq::empty())
    } else if is_space(s[i]) {
        lex_from(s, i + 1)
    } else if line_comment_at(s, i) {
        let e = line_end(s, i + 2);
        if i < e <= s.len() {
            if doc_line_at(s, i) {
                prepend(seq![Tok::Other], lex_from(s, e))
            } else {
                lex_from(s, e)
            }
        } else {
            Err(ClickFault::UnterminatedComment)
        }
    } else if block_comment_at(s, i) {
        match block_end(s, i + 2, 1) {
            Err(e) => Err(e),
            Ok(e) => if i < e <= s.len() {
                if doc_block_at(s, i) {
                    prepend(seq![Tok::Other], lex_from(s, e))
                } else {
                    lex_from(s, e)
                }
            } else {
                Err(ClickFault::UnterminatedComment)
            },
        }
    } else {
        match token_at(s, i) {
            Err(e) => Err(e),
            Ok((t, j)) => if i < j <= s.len() {
                prepend(seq![t], lex_from(s, j))
            } else {
                Err(ClickFault::UnterminatedString)
            },
        }
    }
}

/// The tokens of `s`.
pub open spec fn lex(s: Seq<char>) -> Result<Seq<Tok>, ClickFault> {
    lex_from(s, 0)
}

/// The bound on the value of a `\u{..}` escape with `n` digits.
pub open spec fn hex_bound(n: int) -> int {
    if n <= 0 {
        1
    } else if n == 1 {
        0x10
    } else if n == 2 {
        0x100
    } else if n == 3 {
        0x1000
    } else if n == 4 {
        0x10000
    } else if n == 5 {
        0x100000
    } else {
        0x1000000
    }
}

/// `char::from_u32` of std: the character whose scalar value is `v`, or `None`
/// when `v` is not a Unicode scalar value, as std documents it.
#[verifier::external_body]
fn char_from_u32(v: u32) -> (r: Option<char>)
    ensures
        match r {
            Some(c) => c as u32 == v,
            None => !vstd::utf8::is_scalar(v),
        },
{
    char::from_u32(v)
}

/// Whether `c` is white space between tokens.
fn space(c: char) -> (r: bool)
    ensures
        r == is_space(c),
{
    c == ' ' || c == '\t' || c == '\n' || c == '\u{0B}' || c == '\u{0C}' || c == '\r' || c
        == '\u{85}' || c == '\u{200E}' || c == '\u{200F}' || c == '\u{2028}' || c == '\u{2029}'
}

/// `unicode_ident::is_xid_start`: whether `c` has the Unicode property
/// `XID_Start`. Its result is named, not stated: the property is a table of
/// the Unicode character database.
#[verifier::external_body]
fn unicode_xid_start(c: char) -> (r: bool)
    ensures
        r == xid_start(c),
{
    unicode_ident::is_xid_start(c)
}

/// `unicode_ident::is_xid_continue`: whether `c` has the Unicode property
/// `XID_Continue`. Its result is named, not stated: the property is a table of
/// the Unicode character database.
#[verifier::external_body]
fn unicode_xid_continue(c: char) -> (r: bool)
    ensures
        r == xid_continue(c),
{
    unicode_ident::is_xid_continue(c)
}

/// Whether an identifier can begin with `c`.
fn ident_start(c: char) -> (r: bool)
    ensures
        r == is_ident_start(c),
{
    if c <= '\x7f' {
        ('a' <= c && c <= 'z') || ('A' <= c && c <= 'Z') || c == '_'
    } else {
        unicode_xid_start(c)
    }
}

/// Whether an identifier can go on with `c`.
fn ident_continue(c: char) -> (r: bool)
    ensures
        r == is_ident_continue(c),
{
    if c <= '\x7f' {
        ('a' <= c && c <= 'z') || ('A' <= c && c <= 'Z') || c == '_' || ('0' <= c && c <= '9')
    } else {
        unicode_xid_continue(c)
    }
}

/// Whether `c` is a punctuation character.
fn punct(c: char) -> (r: bool)
    ensures
        r == is_punct(c),
{
    c == ',' || c == ';' || c == ':' || c == '.' || c == '=' || c == '<' || c == '>' || c == '!'
        || c == '~' || c == '+' || c == '-' || c == '*' || c == '/' || c == '%' || c == '^'
        || c == '&' || c == '|' || c == '@' || c == '#' || c == '$' || c == '?'
}

/// The character that the one-character escape `\c` stands for, if it is one.
fn escape(c: char) -> (r: Option<char>)
    ensures
        r == escape_char(c),
{
    if c == 'n' {
        Some('\n')
    } else if c == 't' {
        Some('\t')
    } else if c == 'r' {
        Some('\r')
    } else if c == '0' {
        Some('\0')
    } else if c == '\\' {
        Some('\\')
    } else if c == '"' {
        Some('"')
    } else if c == '\'' {
        Some('\'')
    } else {
        None
    }
}

/// The value of `c` as a hexadecimal digit, if it is one.
fn hex(c: char) -> (r: Option<u32>)
    ensures
        r == hex_value(c),
        r matches Some(d) ==> d < 16,
{
    if '0' <= c && c <= '9' {
        Some(c as u32 - '0' as u32)
    } else if 'a' <= c && c <= 'f' {
        Some(c as u32 - 'a' as u32 + 10)
    } else if 'A' <= c && c <= 'F' {
        Some(c as u32 - 'A' as u32 + 10)
    } else {
        None
    }
}

/// Reads the identifier that goes on at position `i`: where it ends.
fn read_ident(s: &[char], i: usize) -> (r: usize)
    requires
        i <= s@.len(),
    ensures
        r == ident_end(s@, i as int),
        i <= r <= s@.len(),
{
    let len = s.len();
    let mut j = i;
    while j < len && ident_continue(s[j])
        invariant
            i <= j <= len,
            len == s@.len(),
            ident_end(s@, i as int) == ident_end(s@, j as int),
        decreases len - j,
    {
        j += 1;
    }
    j
}

/// Reads the run of `#` symbols that goes on at position `i`: where it ends.
fn read_hashes(s: &[char], i: usize) -> (r: usize)
    requires
        i <= s@.len(),
    ensures
        r == hashes_end(s@, i as int),
        i <= r <= s@.len(),
{
    let len = s.len();
    let mut j = i;
    while j < len && s[j] == '#'
        invariant
            i <= j <= len,
            len == s@.len(),
            hashes_end(s@, i as int) == hashes_end(s@, j as int),
        decreases len - j,
    {
        j += 1;
    }
    j
}

/// Reads the suffix of a literal that ends at position `j`: where it ends.
fn read_suffix(s: &[char], j: usize) -> (r: usize)
    requires
        j <= s@.len(),
    ensures
        r == suffix_end(s@, j as int),
        j <= r <= s@.len(),
{
    if j < s.len() && ident_start(s[j]) {
        read_ident(s, j + 1)
    } else {
        j
    }
}

/// The characters of `s` from position `i` up to position `j`.
fn copy_range(s: &[char], i: usize, j: usize) -> (r: Vec<char>)
    requires
        i <= j <= s@.len(),
    ensures
        r@ == s@.subrange(i as int, j as int),
{
    let mut out: Vec<char> = Vec::new();
    let mut k = i;
    while k < j
        invariant
            i <= k <= j <= s@.len(),
            out@ == s@.subrange(i as int, k as int),
        decreases j - k,
    {
        out.push(s[k]);
        proof {
            assert(s@.subrange(i as int, k + 1) =~= s@.subrange(i as int, k as int).push(
                s@[k as int],
            ));
        }
        k += 1;
    }
    out
}

/// Reads the rest of a `\u{..}` escape whose digits go on at position `j0`.
fn read_unicode(s: &[char], j0: usize) -> (r: Result<(char, usize), ClickError>)
    requires
        j0 <= s@.len(),
    ensures
        match unicode_from(s@, j0 as int, 0, 0) {
            Ok((c, j)) => r matches Ok((d, k)) && d == c && k == j && j0 < k <= s@.len(),
            Err(e) => r matches Err(x) && x@ == e,
        },
{
    let len = s.len();
    let mut j = j0;
    let mut v: u32 = 0;
    let mut n: u32 = 0;
    loop
        invariant
            j0 <= j <= len,
            len == s@.len(),
            n <= 6,
            (v as int) < hex_bound(n as int),
            unicode_from(s@, j0 as int, 0, 0) == unicode_from(s@, j as int, v as int, n as int),
        decreases len - j,
    {
        if j >= len {
            return Err(ClickError::InvalidEscape);
        }
        let c = s[j];
        if c == '}' && n > 0 {
            match char_from_u32(v) {
                Some(d) => {
                    proof {
                        vstd::utf8::char_is_scalar(d);
                        vstd::utf8::char_u32_cast(d, v);
                    }
                    return Ok((d, j + 1));
                },
                None => {
                    return Err(ClickError::InvalidEscape);
                },
            }
        }
        if c == '_' && n > 0 {
            j += 1;
        } else {
            match hex(c) {
                Some(d) => {
                    if n < 6 {
                        v = v * 16 + d;
                        n += 1;
                        j += 1;
                    } else {
                        return Err(ClickError::InvalidEscape);
                    }
                },
                None => {
                    return Err(ClickError::InvalidEscape);
                },
            }
        }
    }
}

/// Reads the white space that a line continuation skips, from position `j0`.
fn read_continuation(s: &[char], j0: usize) -> (r: Result<usize, ClickError>)
    requires
        j0 <= s@.len(),
    ensures
        match continuation_end(s@, j0 as int) {
            Ok(j) => r == Ok::<usize, ClickError>(j as usize) && j0 <= j <= s@.len(),
            Err(e) => r matches Err(x) && x@ == e,
        },
{
    let len = s.len();
    let mut j = j0;
    loop
        invariant
            j0 <= j <= len,
            len == s@.len(),
            continuation_end(s@, j0 as int) == continuation_end(s@, j as int),
        decreases len - j,
    {
        if j < len && (s[j] == ' ' || s[j] == '\t' || s[j] == '\n') {
            j += 1;
        } else if j < len && s[j] == '\r' {
            if j + 1 < len && s[j + 1] == '\n' {
                j += 2;
            } else {
                return Err(ClickError::BareCarriageReturn);
            }
        } else {
            return Ok(j);
        }
    }
}

/// Reads the escape whose backslash stands just before position `k`.
fn read_escape(s: &[char], k: usize) -> (r: Result<(Option<char>, usize), ClickError>)
    requires
        k < s@.len(),
    ensures
        match escape_at(s@, k as int) {
            Ok((c, j)) => r matches Ok((d, m)) && d == c && m == j && k < j <= s@.len(),
            Err(e) => r matches Err(x) && x@ == e,
        },
{
    let len = s.len();
    let c = s[k];
    let simple = escape(c);
    if simple.is_some() {
        return Ok((simple, k + 1));
    }
    if c == 'x' {
        if len - k > 2 {
            match hex(s[k + 1]) {
                Some(h) => if h < 8 {
                    match hex(s[k + 2]) {
                        Some(d) => {
                            let b: u8 = (h * 16 + d) as u8;
                            return Ok((Some(b as char), k + 3));
                        },
                        None => {},
                    }
                },
                None => {},
            }
        }
        Err(ClickError::InvalidEscape)
    } else if c == 'u' {
        if k + 1 < len && s[k + 1] == '{' {
            match read_unicode(s, k + 2) {
                Ok((d, j)) => Ok((Some(d), j)),
                Err(e) => Err(e),
            }
        } else {
            Err(ClickError::InvalidEscape)
        }
    } else if c == '\n' {
        match read_continuation(s, k + 1) {
            Ok(j) => Ok((None, j)),
            Err(e) => Err(e),
        }
    } else if c == '\r' {
        if k + 1 < len && s[k + 1] == '\n' {
            match read_continuation(s, k + 2) {
                Ok(j) => Ok((None, j)),
                Err(e) => Err(e),
            }
        } else {
            Err(ClickError::BareCarriageReturn)
        }
    } else {
        Err(ClickError::InvalidEscape)
    }
}

/// Reads the rest of a string literal whose body goes on at position `i`.
fn read_string(s: &[char], i: usize) -> (r: Result<(Vec<char>, usize), ClickError>)
    requires
        i <= s@.len(),
    ensures
        match string_from(s@, i as int) {
            Ok((v, j)) => r matches Ok((w, k)) && w@ == v && k == j && i < j <= s@.len(),
            Err(e) => r matches Err(x) && x@ == e,
        },
{
    let len = s.len();
    let mut out: Vec<char> = Vec::new();
    let mut j = i;
    loop
        invariant
            i <= j <= len,
            len == s@.len(),
            match string_from(s@, i as int) {
                Ok((v, e)) => string_from(s@, j as int) matches Ok((w, f)) && v == out@ + w && e
                    == f,
                Err(e) => string_from(s@, j as int) == Err::<(Seq<char>, int), ClickFault>(e),
            },
        decreases len - j,
    {
        if j >= len {
            return Err(ClickError::UnterminatedString);
        }
        let c = s[j];
        if c == '"' {
            assert(out@ + Seq::<char>::empty() =~= out@);
            return Ok((out, j + 1));
        }
        if c == '\r' {
            if j + 1 < len && s[j + 1] == '\n' {
                proof {
                    match string_from(s@, j + 2) {
                        Ok((w, f)) => {
                            assert(out@.push('\n') + w =~= out@ + (seq!['\n'] + w));
                        },
                        Err(_) => {},
                    }
                }
                out.push('\n');
                j = j + 2;
            } else {
                return Err(ClickError::BareCarriageReturn);
            }
        } else if c == '\\' {
            if j + 1 >= len {
                return Err(ClickError::UnterminatedString);
            }
            match read_escape(s, j + 1) {
                Err(e) => {
                    return Err(e);
                },
                Ok((d, k)) => {
                    let ghost before = out@;
                    match d {
                        Some(x) => {
                            out.push(x);
                        },
                        None => {},
                    }
                    proof {
                        assert(out@ =~= before + opt_chars(d));
                        match string_from(s@, k as int) {
                            Ok((w, f)) => {
                                assert(out@ + w =~= before + (opt_chars(d) + w));
                            },
                            Err(_) => {},
                        }
                    }
                    j = k;
                },
            }
        } else {
            proof {
                match string_from(s@, j + 1) {
                    Ok((w, f)) => {
                        assert(out@.push(c) + w =~= out@ + (seq![c] + w));
                    },
                    Err(_) => {},
                }
            }
            out.push(c);
            j = j + 1;
        }
    }
}

/// Reads the rest of a raw string literal opened with `n` `#` symbols, whose
/// body goes on at position `i`.
fn read_raw(s: &[char], i: usize, n: usize) -> (r: Result<(Vec<char>, usize), ClickError>)
    requires
        i <= s@.len(),
        n <= 255,
    ensures
        match raw_from(s@, i as int, n as int) {
            Ok((v, j)) => r matches Ok((w, k)) && w@ == v && k == j && i < j <= s@.len(),
            Err(e) => r matches Err(x) && x@ == e,
        },
{
    let len = s.len();
    let mut out: Vec<char> = Vec::new();
    let mut j = i;
    loop
        invariant
            i <= j <= len,
            len == s@.len(),
            n <= 255,
            match raw_from(s@, i as int, n as int) {
                Ok((v, e)) => raw_from(s@, j as int, n as int) matches Ok((w, f)) && v == out@ + w
                    && e == f,
                Err(e) => raw_from(s@, j as int, n as int) == Err::<(Seq<char>, int), ClickFault>(
                    e,
                ),
            },
        decreases len - j,
    {
        if j >= len {
            return Err(ClickError::UnterminatedString);
        }
        let c = s[j];
        if c == '"' {
            let h = read_hashes(s, j + 1);
            if h - (j + 1) >= n {
                assert(out@ + Seq::<char>::empty() =~= out@);
                return Ok((out, j + 1 + n));
            }
        }
        if c == '\r' {
            if j + 1 < len && s[j + 1] == '\n' {
                proof {
                    match raw_from(s@, j + 2, n as int) {
                        Ok((w, f)) => {
                            assert(out@.push('\n') + w =~= out@ + (seq!['\n'] + w));
                        },
                        Err(_) => {},
                    }
                }
                out.push('\n');
                j = j + 2;
            } else {
                return Err(ClickError::BareCarriageReturn);
            }
        } else {
            proof {
                match raw_from(s@, j + 1, n as int) {
                    Ok((w, f)) => {
                        assert(out@.push(c) + w =~= out@ + (seq![c] + w));
                    },
                    Err(_) => {},
                }
            }
            out.push(c);
            j = j + 1;
        }
    }
}

/// Reads the token that begins at position `i`, which is not white space.
fn read_token(s: &[char], i: usize) -> (r: Result<(Token, usize), ClickError>)
    requires
        i < s@.len(),
    ensures
        match token_at(s@, i as int) {
            Ok((t, j)) => r matches Ok((u, k)) && u@ == t && k == j && i < j <= s@.len(),
            Err(e) => r matches Err(x) && x@ == e,
        },
{
    let len = s.len();
    let c = s[i];
    if c == 'r' {
        let h = read_hashes(s, i + 1);
        if h < len && s[h] == '"' {
            if h - (i + 1) > 255 {
                return Err(ClickError::TooManyHashes);
            }
            return match read_raw(s, h + 1, h - (i + 1)) {
                Ok((v, j)) => {
                    let k = read_suffix(s, j);
                    Ok((Token::Str(v), k))
                },
                Err(e) => Err(e),
            };
        }
        if len - i > 2 && s[i + 1] == '#' && ident_start(s[i + 2]) {
            let j = read_ident(s, i + 3);
            return Ok((Token::Ident(copy_range(s, i, j)), j));
        }
    }
    if ident_start(c) {
        let j = read_ident(s, i + 1);
        Ok((Token::Ident(copy_range(s, i, j)), j))
    } else if c == '"' {
        match read_string(s, i + 1) {
            Ok((v, j)) => {
                let k = read_suffix(s, j);
                Ok((Token::Str(v), k))
            },
            Err(e) => Err(e),
        }
    } else if c == '(' {
        Ok((Token::Open, i + 1))
    } else if c == ')' {
        Ok((Token::Close, i + 1))
    } else if punct(c) {
        Ok((Token::Punct(c), i + 1))
    } else {
        Ok((Token::Other, i + 1))
    }
}

/// Reads the line that goes on at position `i`: where it ends.
fn read_line_end(s: &[char], i: usize) -> (r: usize)
    requires
        i <= s@.len(),
    ensures
        r == line_end(s@, i as int),
        i <= r <= s@.len(),
{
    let len = s.len();
    let mut j = i;
    while j < len && s[j] != '\n'
        invariant
            i <= j <= len,
            len == s@.len(),
            line_end(s@, i as int) == line_end(s@, j as int),
        decreases len - j,
    {
        j += 1;
    }
    j
}

/// Reads a block comment whose body goes on at position `i`: where it ends.
fn read_block_end(s: &[char], i: usize) -> (r: Result<usize, ClickError>)
    requires
        i <= s@.len(),
    ensures
        match block_end(s@, i as int, 1) {
            Ok(e) => r == Ok::<usize, ClickError>(e as usize) && i < e <= s@.len(),
            Err(e) => r matches Err(x) && x@ == e,
        },
{
    let len = s.len();
    let mut j = i;
    let mut depth: usize = 1;
    loop
        invariant
            i <= j <= len,
            len == s@.len(),
            1 <= depth <= j - i + 1,
            block_end(s@, i as int, 1) == block_end(s@, j as int, depth as int),
        decreases len - j,
    {
        if j >= len || len - j < 2 {
            return Err(ClickError::UnterminatedComment);
        }
        if s[j] == '/' && s[j + 1] == '*' {
            depth += 1;
            j += 2;
        } else if s[j] == '*' && s[j + 1] == '/' {
            if depth <= 1 {
                return Ok(j + 2);
            }
            depth -= 1;
            j += 2;
        } else {
            j += 1;
        }
    }
}

/// Whether the line comment at position `i` is a doc comment.
fn doc_line(s: &[char], i: usize) -> (r: bool)
    requires
        i <= s@.len(),
    ensures
        r == doc_line_at(s@, i as int),
{
    let len = s.len();
    len - i > 2 && ((s[i + 2] == '/' && !(len - i > 3 && s[i + 3] == '/')) || s[i + 2] == '!')
}

/// Whether the block comment at position `i` is a doc comment.
fn doc_block(s: &[char], i: usize) -> (r: bool)
    requires
        i <= s@.len(),
    ensures
        r == doc_block_at(s@, i as int),
{
    let len = s.len();
    len - i > 2 && ((s[i + 2] == '*' && !(len - i > 3 && (s[i + 3] == '*' || s[i + 3] == '/')))
        || s[i + 2] == '!')
}

/// The tokens of `s`, or the error that stops reading them.
pub fn tokenize(s: &str) -> (r: Result<Vec<Token>, ClickError>)
    ensures
        match lex(s@) {
            Ok(ts) => r matches Ok(v) && toks_of(v@) == ts,
            Err(e) => r matches Err(x) && x@ == e,
        },
{
    let cs = chars_of(s);
    let ghost t = cs@;
    let len = cs.len();
    let mut out: Vec<Token> = Vec::new();
    let mut i: usize = 0;
    while i < len
        invariant
            i <= len,
            len == t.len(),
            t == cs@,
            t == s@,
            lex(t) == prepend(toks_of(out@), lex_from(t, i as int)),
        decreases len - i,
    {
        if space(cs[i]) {
            i += 1;
        } else if cs[i] == '/' && len - i > 1 && cs[i + 1] == '/' {
            let e = read_line_end(cs.as_slice(), i + 2);
            if doc_line(cs.as_slice(), i) {
                proof {
                    match lex_from(t, e as int) {
                        Ok(rest) => {
                            assert(toks_of(out@.push(Token::Other)) + rest =~= toks_of(out@) + (
                            seq![Tok::Other] + rest));
                        },
                        Err(_) => {},
                    }
                }
                out.push(Token::Other);
            }
            i = e;
        } else if cs[i] == '/' && len - i > 1 && cs[i + 1] == '*' {
            match read_block_end(cs.as_slice(), i + 2) {
                Err(e) => {
                    return Err(e);
                },
                Ok(e) => {
                    if doc_block(cs.as_slice(), i) {
                        proof {
                            match lex_from(t, e as int) {
                                Ok(rest) => {
                                    assert(toks_of(out@.push(Token::Other)) + rest =~= toks_of(
                                        out@,
                                    ) + (seq![Tok::Other] + rest));
                                },
                                Err(_) => {},
                            }
                        }
                        out.push(Token::Other);
                    }
                    i = e;
                },
            }
        } else {
            match read_token(cs.as_slice(), i) {
                Err(e) => {
                    return Err(e);
                },
                Ok((tok, j)) => {
                    proof {
                        match lex_from(t, j as int) {
                            Ok(rest) => {
                                assert(toks_of(out@.push(tok)) + rest =~= toks_of(out@) + (
                                seq![tok@] + rest));
                            },
                            Err(_) => {},
                        }
                    }
                    out.push(tok);
                    i = j;
                },
            }
        }
    }
    assert(toks_of(out@) + Seq::<Tok>::empty() =~= toks_of(out@));
    Ok(out)
}

} // verus!
