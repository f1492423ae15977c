//! Character-level helpers on strings.

use vstd::prelude::*;
use vstd::utf8::{encode_scalar, encode_utf8};

verus! {

broadcast use vstd::string::group_string_axioms;

/// The characters of `s`, in order.
pub fn chars_of(s: &str) -> (r: Vec<char>)
    ensures
        r@ == s@,
{
    let mut r: Vec<char> = Vec::new();
    for c in it: s.chars()
        invariant
            it.seq() == s@,
            r@ == it.seq().take(it.index()),
    {
        r.push(c);
    }
    r
}

/// `String::push` of std, which appends the character `c` to `s`.
#[verifier::external_body]
pub(crate) fn push_char(s: &mut String, c: char)
    ensures
        final(s)@ == old(s)@.push(c),
{
    s.push(c);
}

/// The string made of the characters `cs`, in order.
pub fn string_of(cs: &[char]) -> (r: String)
    ensures
        r@ == cs@,
{
    let mut r = String::new();
    let mut i: usize = 0;
    while i < cs.len()
        invariant
            i <= cs@.len(),
            r@ == cs@.take(i as int),
        decreases cs.len() - i,
    {
        push_char(&mut r, cs[i]);
        proof {
            assert(cs@.take(i + 1) =~= cs@.take(i as int).push(cs@[i as int]));
        }
        i += 1;
    }
    assert(cs@.take(cs@.len() as int) =~= cs@);
    r
}

/// Whether `s` begins with `prefix`.
pub open spec fn starts_with(s: Seq<char>, prefix: Seq<char>) -> bool {
    prefix.len() <= s.len() && s.take(prefix.len() as int) =~= prefix
}

/// The position of the first `c` in `s`, if any.
pub open spec fn first_index_of(s: Seq<char>, c: char) -> Option<int> {
    if exists|i: int| 0 <= i < s.len() && s[i] == c {
        Some(choose|i: int| 0 <= i < s.len() && s[i] == c && forall|j: int| 0 <= j < i ==> s[j] != c)
    } else {
        None
    }
}

/// The first `c` in `s` is at position `i`.
pub proof fn lemma_first_index_of(s: Seq<char>, c: char, i: int)
    requires
        0 <= i < s.len(),
        s[i] == c,
        forall|j: int| 0 <= j < i ==> s[j] != c,
    ensures
        first_index_of(s, c) == Some(i),
{
    let k = choose|k: int| 0 <= k < s.len() && s[k] == c && forall|j: int| 0 <= j < k ==> s[j] != c;
    assert(0 <= k < s.len() && s[k] == c && forall|j: int| 0 <= j < k ==> s[j] != c);
    if k < i {
        assert(s[k] != c);
    } else if k > i {
        assert(s[i] != c);
    }
}

/// Some `c` is at position `i` or later in `s` and none is before `i`: then `s`
/// has a first `c`.
proof fn lemma_first_index_exists(s: Seq<char>, c: char, i: int)
    requires
        0 <= i <= s.len(),
        forall|j: int| 0 <= j < i ==> s[j] != c,
        exists|j: int| i <= j < s.len() && s[j] == c,
    ensures
        exists|k: int| 0 <= k < s.len() && s[k] == c && forall|j: int| 0 <= j < k ==> s[j] != c,
    decreases s.len() - i,
{
    if s[i] == c {
        assert(0 <= i < s.len() && s[i] == c && forall|j: int| 0 <= j < i ==> s[j] != c);
    } else {
        lemma_first_index_exists(s, c, i + 1);
    }
}

/// When `first_index_of` finds `c`, it is at a position of `s` that holds the
/// first `c`.
pub proof fn lemma_first_index_of_found(s: Seq<char>, c: char)
    ensures
        first_index_of(s, c) matches Some(k) ==> 0 <= k < s.len() && s[k] == c && forall|j: int|
            0 <= j < k ==> s[j] != c,
{
    if exists|i: int| 0 <= i < s.len() && s[i] == c {
        lemma_first_index_exists(s, c, 0);
    }
}

/// Whether the characters `s` from position `from` on begin with `prefix`.
pub fn starts_with_at(s: &[char], from: usize, prefix: &[char]) -> (r: bool)
    requires
        from <= s@.len(),
    ensures
        r == starts_with(s@.skip(from as int), prefix@),
{
    if prefix.len() > s.len() - from {
        return false;
    }
    let mut i: usize = 0;
    while i < prefix.len()
        invariant
            from + prefix@.len() <= s@.len(),
            s@.len() <= usize::MAX,
            i <= prefix@.len(),
            forall|j: int| 0 <= j < i ==> s@[from + j] == prefix@[j],
        decreases prefix.len() - i,
    {
        if s[from + i] != prefix[i] {
            assert(s@.skip(from as int).take(prefix@.len() as int)[i as int] != prefix@[i as int]);
            return false;
        }
        i += 1;
    }
    assert(s@.skip(from as int).take(prefix@.len() as int) =~= prefix@);
    true
}

/// The position, counted from `from`, of the first `c` in `s` after position `from`.
pub fn find_char_from(s: &[char], from: usize, c: char) -> (r: Option<usize>)
    requires
        from <= s@.len(),
    ensures
        match r {
            Some(k) => from + k < s@.len() && first_index_of(s@.skip(from as int), c) == Some(
                k as int,
            ),
            None => first_index_of(s@.skip(from as int), c) is None,
        },
{
    let ghost t = s@.skip(from as int);
    let mut i = from;
    while i < s.len()
        invariant
            from <= i <= s@.len(),
            t == s@.skip(from as int),
            forall|j: int| 0 <= j < i - from ==> t[j] != c,
        decreases s.len() - i,
    {
        if s[i] == c {
            proof {
                lemma_first_index_of(t, c, i - from);
            }
            return Some(i - from);
        }
        i += 1;
    }
    assert(!(exists|k: int| 0 <= k < t.len() && t[k] == c));
    None
}

/// Whether the two character sequences are equal.
pub fn chars_eq(a: &[char], b: &[char]) -> (r: bool)
    ensures
        r == (a@ == b@),
{
    if a.len() != b.len() {
        return false;
    }
    let mut i: usize = 0;
    while i < a.len()
        invariant
            a@.len() == b@.len(),
            i <= a@.len(),
            forall|j: int| 0 <= j < i ==> a@[j] == b@[j],
        decreases a.len() - i,
    {
        if a[i] != b[i] {
            return false;
        }
        i += 1;
    }
    assert(a@ =~= b@);
    true
}

/// Whether the two strings are equal.
pub fn str_eq(a: &str, b: &str) -> (r: bool)
    ensures
        r == (a@ == b@),
{
    let ca = chars_of(a);
    let cb = chars_of(b);
    chars_eq(ca.as_slice(), cb.as_slice())
}

/// The number of bytes of the UTF-8 encoding of `c`.
pub fn utf8_width(c: char) -> (w: usize)
    ensures
        w == encode_scalar(c as u32).len(),
        1 <= w <= 4,
{
    broadcast use vstd::utf8::char_is_scalar;

    let v = c as u32;
    if v < 0x80 {
        1
    } else if v < 0x800 {
        2
    } else if v < 0x10000 {
        3
    } else {
        4
    }
}

/// The UTF-8 encoding of a concatenation is the concatenation of the encodings.
pub proof fn lemma_encode_concat(a: Seq<char>, b: Seq<char>)
    ensures
        encode_utf8(a + b) == encode_utf8(a) + encode_utf8(b),
    decreases a.len(),
{
    if a.len() == 0 {
        assert(a + b =~= b);
        assert(encode_utf8(a) =~= Seq::<u8>::empty());
        assert(encode_utf8(a) + encode_utf8(b) =~= encode_utf8(b));
    } else {
        lemma_encode_concat(a.drop_first(), b);
        assert((a + b).drop_first() =~= a.drop_first() + b);
        assert((a + b)[0] == a[0]);
        assert(encode_utf8(a + b) =~= encode_utf8(a) + encode_utf8(b));
    }
}

/// The byte offset of the character at position `i + 1` is that of position `i`
/// plus the width of the character at `i`; no offset exceeds the whole length.
pub proof fn lemma_byte_offset_step(s: Seq<char>, i: int)
    requires
        0 <= i < s.len(),
    ensures
        encode_utf8(s.take(i + 1)).len() == encode_utf8(s.take(i)).len() + encode_scalar(
            s[i] as u32,
        ).len(),
        encode_utf8(s.take(i + 1)).len() <= encode_utf8(s).len(),
{
    let single = seq![s[i]];
    assert(s.take(i + 1) =~= s.take(i) + single);
    lemma_encode_concat(s.take(i), single);
    assert(single.drop_first().len() == 0);
    assert(encode_utf8(single) =~= encode_scalar(s[i] as u32) + encode_utf8(single.drop_first()));
    assert(s =~= s.take(i + 1) + s.skip(i + 1));
    lemma_encode_concat(s.take(i + 1), s.skip(i + 1));
}

/// `s` with every occurrence of the non-empty pattern `pat` replaced by
/// `rep`, occurrences being found from left to right without overlap.
pub open spec fn replace_all(s: Seq<char>, pat: Seq<char>, rep: Seq<char>) -> Seq<char>
    decreases s.len(),
{
    if pat.len() == 0 || s.len() < pat.len() {
        s
    } else if s.take(pat.len() as int) =~= pat {
        rep + replace_all(s.skip(pat.len() as int), pat, rep)
    } else {
        seq![s[0]] + replace_all(s.drop_first(), pat, rep)
    }
}

/// `s` with every occurrence of the non-empty pattern `pat` replaced by
/// `rep`, as std's `str::replace` does.
pub(crate) fn replace(s: &str, pat: &str, rep: &str) -> (r: String)
    requires
        pat@.len() > 0,
    ensures
        r@ == replace_all(s@, pat@, rep@),
{
    let cs = chars_of(s);
    let ps = chars_of(pat);
    let rs = chars_of(rep);
    let len = cs.len();
    let plen = ps.len();
    let mut out: Vec<char> = Vec::new();
    let mut i: usize = 0;
    assert(cs@.skip(0) =~= cs@);
    assert(out@ + replace_all(cs@, ps@, rs@) =~= replace_all(cs@, ps@, rs@));
    while i < len
        invariant
            cs@ == s@,
            ps@ == pat@,
            rs@ == rep@,
            len == cs@.len(),
            plen == ps@.len(),
            plen > 0,
            i <= len,
            out@ + replace_all(cs@.skip(i as int), ps@, rs@) == replace_all(s@, pat@, rep@),
        decreases len - i,
    {
        let ghost rest = cs@.skip(i as int);
        if len - i < plen {
            proof {
                assert(replace_all(rest, ps@, rs@) == rest);
            }
            let mut j = i;
            while j < len
                invariant
                    i <= j <= len,
                    len == cs@.len(),
                    out@ + cs@.skip(j as int) == replace_all(s@, pat@, rep@),
                decreases len - j,
            {
                proof {
                    assert(cs@.skip(j as int) =~= seq![cs@[j as int]] + cs@.skip(j + 1));
                }
                out.push(cs[j]);
                j += 1;
            }
            assert(cs@.skip(len as int).len() == 0);
            assert(out@ + cs@.skip(len as int) =~= out@);
            return string_of(out.as_slice());
        }
        if starts_with_at(cs.as_slice(), i, ps.as_slice()) {
            let ghost before = out@;
            let mut k: usize = 0;
            while k < rs.len()
                invariant
                    k <= rs@.len(),
                    out@ == before + rs@.take(k as int),
                decreases rs.len() - k,
            {
                out.push(rs[k]);
                proof {
                    assert(rs@.take(k + 1) =~= rs@.take(k as int).push(rs@[k as int]));
                }
                k += 1;
            }
            proof {
                assert(rs@.take(rs@.len() as int) =~= rs@);
                assert(rest.skip(plen as int) =~= cs@.skip(i + plen));
                assert(before + (rs@ + replace_all(cs@.skip(i + plen), ps@, rs@)) =~= out@
                    + replace_all(cs@.skip(i + plen), ps@, rs@));
            }
            i = i + plen;
        } else {
            let ghost before = out@;
            out.push(cs[i]);
            proof {
                assert(rest.drop_first() =~= cs@.skip(i + 1));
                assert(rest[0] == cs@[i as int]);
                assert(before + (seq![cs@[i as int]] + replace_all(cs@.skip(i + 1), ps@, rs@)) =~= out@
                    + replace_all(cs@.skip(i + 1), ps@, rs@));
            }
            i = i + 1;
        }
    }
    proof {
        assert(cs@.skip(len as int).len() == 0);
        assert(out@ + cs@.skip(len as int) =~= out@);
    }
    string_of(out.as_slice())
}

} // verus!
