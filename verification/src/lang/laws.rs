//! Properties of language tables and of filling in messages.

use super::{fill_params, placeholder};
use crate::text::replace_all;
use vstd::prelude::*;

verus! {

/// Replacing a pattern whose first character does not occur leaves the text unchanged.
proof fn lemma_replace_absent(s: Seq<char>, pat: Seq<char>, rep: Seq<char>)
    requires
        pat.len() > 0,
        forall|i: int| 0 <= i < s.len() ==> s[i] != pat[0],
    ensures
        replace_all(s, pat, rep) == s,
    decreases s.len(),
{
    if s.len() >= pat.len() {
        assert(s.take(pat.len() as int)[0] == s[0]);
        assert(!(s.take(pat.len() as int) =~= pat));
        let t = s.drop_first();
        assert forall|i: int| 0 <= i < t.len() implies t[i] != pat[0] by {
            assert(t[i] == s[i + 1]);
        }
        lemma_replace_absent(t, pat, rep);
        assert(seq![s[0]] + t =~= s);
    }
}

/// Filling in a message with no parameters gives its text unchanged, which is
/// what running it without values gives.
pub proof fn law_no_parameters_no_change(base: Seq<char>)
    ensures
        fill_params(base, Seq::empty(), Seq::empty()) == base,
{
}

/// Filling in a message whose text holds no `[` leaves the text unchanged,
/// whatever the parameters and values.
pub proof fn law_text_without_placeholders(
    base: Seq<char>,
    names: Seq<Seq<char>>,
    values: Seq<Seq<char>>,
)
    requires
        forall|i: int| 0 <= i < base.len() ==> base[i] != '[',
        names.len() == values.len(),
    ensures
        fill_params(base, names, values) == base,
    decreases names.len(),
{
    if names.len() > 0 {
        law_text_without_placeholders(base, names.drop_last(), values.drop_last());
        let pat = placeholder(names.last());
        assert(pat[0] == '[');
        lemma_replace_absent(base, pat, values[names.len() - 1]);
    }
}

/// Reading a key of a map after setting it gives the value set, and setting
/// a key leaves every other key as it was.
pub proof fn law_read_after_write<V>(m: Map<Seq<char>, V>, key: Seq<char>, value: V, other: Seq<char>)
    requires
        other != key,
    ensures
        m.insert(key, value).contains_key(key),
        m.insert(key, value)[key] == value,
        m.insert(key, value).contains_key(other) == m.contains_key(other),
        m.contains_key(other) ==> m.insert(key, value)[other] == m[other],
{
}

/// Replacing a pattern in a text that begins with characters other than the
/// pattern's first keeps those characters in front.
proof fn lemma_replace_after_plain(a: Seq<char>, t: Seq<char>, pat: Seq<char>, rep: Seq<char>)
    requires
        pat.len() > 0,
        forall|i: int| 0 <= i < a.len() ==> a[i] != pat[0],
    ensures
        replace_all(a + t, pat, rep) == a + replace_all(t, pat, rep),
    decreases a.len(),
{
    if a.len() > 0 {
        let s = a + t;
        let a2 = a.drop_first();
        assert forall|i: int| 0 <= i < a2.len() implies a2[i] != pat[0] by {
            assert(a2[i] == a[i + 1]);
        }
        lemma_replace_after_plain(a2, t, pat, rep);
        assert(s.drop_first() =~= a2 + t);
        if s.len() >= pat.len() {
            assert(s.take(pat.len() as int)[0] == a[0]);
            assert(!(s.take(pat.len() as int) =~= pat));
        } else {
            assert(replace_all(a2 + t, pat, rep) == a2 + t) by {
                assert((a2 + t).len() < pat.len());
            }
            assert(replace_all(t, pat, rep) == t) by {
                assert(t.len() < pat.len());
            }
        }
        assert(seq![a[0]] + (a2 + replace_all(t, pat, rep)) =~= a + replace_all(t, pat, rep));
    }
}

/// Filling in a message whose text holds the placeholder of its one parameter,
/// with no other `[` around it, puts the value in the placeholder's place.
pub proof fn law_placeholder_filled(
    before: Seq<char>,
    after: Seq<char>,
    name: Seq<char>,
    value: Seq<char>,
)
    requires
        forall|i: int| 0 <= i < before.len() ==> before[i] != '[',
        forall|i: int| 0 <= i < after.len() ==> after[i] != '[',
    ensures
        fill_params(before + placeholder(name) + after, seq![name], seq![value]) == before + value
            + after,
{
    let pat = placeholder(name);
    let names = seq![name];
    let values = seq![value];
    assert(names.drop_last() =~= Seq::<Seq<char>>::empty());
    assert(values.drop_last() =~= Seq::<Seq<char>>::empty());
    assert(pat[0] == '[');
    let text = before + pat + after;
    assert(fill_params(text, Seq::empty(), Seq::empty()) == text);
    assert(text =~= before + (pat + after));
    lemma_replace_after_plain(before, pat + after, pat, value);
    let t = pat + after;
    assert(t.take(pat.len() as int) =~= pat);
    assert(t.skip(pat.len() as int) =~= after);
    lemma_replace_absent(after, pat, value);
    assert(replace_all(t, pat, value) == value + after);
    assert(before + (value + after) =~= before + value + after);
}

} // verus!
