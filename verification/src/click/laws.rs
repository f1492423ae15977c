//! Laws of the generated items: the string literals written for the labels
//! and links stand for the very labels and links that were read.

use super::buttons::{escape_str, escaped, quoted};
use super::error::ClickFault;
use super::lex::{escape_char, is_ident_start, is_space, lex, lex_from, string_from, token_at, Tok};
use vstd::prelude::*;

verus! {

/// Escaping a text that begins with `c` writes `c` escaped, then the rest.
proof fn lemma_escape_front(c: char, w: Seq<char>)
    ensures
        escape_str(seq![c] + w) == escaped(c) + escape_str(w),
    decreases w.len(),
{
    if w.len() == 0 {
        assert(seq![c] + w =~= seq![c]);
        assert(seq![c].drop_last() =~= Seq::<char>::empty());
        assert(escape_str(Seq::<char>::empty()) =~= Seq::<char>::empty());
        assert(escaped(c) + escape_str(w) =~= escaped(c));
    } else {
        let cw = seq![c] + w;
        assert(cw.drop_last() =~= seq![c] + w.drop_last());
        assert(cw.last() == w.last());
        lemma_escape_front(c, w.drop_last());
        assert(escape_str(cw) =~= escaped(c) + escape_str(w));
    }
}

/// A string literal's body written by escaping `w` and closed by a quote
/// reads back as `w`, whatever comes before or after it.
proof fn lemma_read_escaped(prefix: Seq<char>, w: Seq<char>, rest: Seq<char>)
    ensures
        string_from(prefix + escape_str(w) + seq!['"'] + rest, prefix.len() as int) == Ok::<
            (Seq<char>, int),
            ClickFault,
        >((w, prefix.len() as int + escape_str(w).len() + 1)),
    decreases w.len(),
{
    let s = prefix + escape_str(w) + seq!['"'] + rest;
    let i = prefix.len() as int;
    if w.len() == 0 {
        assert(escape_str(w) =~= Seq::<char>::empty());
        assert(w =~= Seq::<char>::empty());
        assert(s[i] == '"');
    } else {
        let c = w[0];
        let w2 = w.drop_first();
        assert(w =~= seq![c] + w2);
        lemma_escape_front(c, w2);
        let e = escaped(c);
        let p2 = prefix + e;
        assert(s =~= p2 + escape_str(w2) + seq!['"'] + rest);
        lemma_read_escaped(p2, w2, rest);
        if c == '"' || c == '\\' || c == '\n' || c == '\r' || c == '\t' || c == '\0' {
            assert(e.len() == 2);
            assert(s[i] == '\\');
            assert(s[i + 1] == e[1]);
            assert(escape_char(e[1]) == Some(c));
            assert(string_from(s, i + 2) == Ok::<(Seq<char>, int), ClickFault>(
                (w2, p2.len() as int + escape_str(w2).len() + 1),
            ));
            assert(seq![c] + w2 =~= w);
            assert(escape_str(w).len() == 2 + escape_str(w2).len());
            assert(i + 1 < s.len());
        } else {
            assert(e =~= seq![c]);
            assert(s[i] == c);
            assert(seq![s[i]] + w2 =~= w);
            assert(escape_str(w).len() == 1 + escape_str(w2).len());
            assert(string_from(s, i + 1) == Ok::<(Seq<char>, int), ClickFault>(
                (w2, p2.len() as int + escape_str(w2).len() + 1),
            ));
        }
    }
}

/// The string literal written for a label or a link lexes back as one string
/// literal that stands for that label or link.
pub proof fn law_quoted_text_lexes_back(v: Seq<char>)
    ensures
        lex(quoted(v)) == Ok::<Seq<Tok>, ClickFault>(seq![Tok::Str(v)]),
{
    let s = quoted(v);
    let q = seq!['"'];
    lemma_read_escaped(q, v, Seq::<char>::empty());
    assert(q + escape_str(v) + seq!['"'] + Seq::<char>::empty() =~= s);
    assert(s[0] == '"');
    assert(!is_space(s[0]));
    assert(!is_ident_start(s[0]));
    assert(token_at(s, 0) == Ok::<(Tok, int), ClickFault>((Tok::Str(v), s.len() as int)));
    assert(lex_from(s, s.len() as int) == Ok::<Seq<Tok>, ClickFault>(Seq::empty()));
    assert(seq![Tok::Str(v)] + Seq::<Tok>::empty() =~= seq![Tok::Str(v)]);
}

} // verus!
