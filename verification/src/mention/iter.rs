//! Iteration over the mentions that a string holds.

use super::error::str_views;
use super::parse::{parse_id_spec, ParseMention};
use crate::text::{
    chars_of, find_char_from, first_index_of, lemma_byte_offset_step, lemma_first_index_of_found, starts_with, starts_with_at,
    utf8_width,
};
use core::marker::PhantomData;
use vstd::prelude::*;
use vstd::string::StrSliceExecFns;
use vstd::utf8::encode_utf8;

verus! {

/// The byte offset in the UTF-8 encoding of `s` of the character at position `i`.
pub open spec fn byte_offset(s: Seq<char>, i: int) -> int {
    encode_utf8(s.take(i)).len() as int
}

/// Where reading stands after each sigil in turn was skipped at `q` when the
/// text there begins with it: whether one was skipped, and the new position.
pub open spec fn skip_sigils(s: Seq<char>, q: int, sigils: Seq<Seq<char>>) -> (bool, int)
    decreases sigils.len(),
{
    if sigils.len() == 0 {
        (false, q)
    } else {
        let (found, q2) = skip_sigils(s, q, sigils.drop_last());
        if starts_with(s.skip(q2), sigils.last()) {
            (true, q2 + sigils.last().len())
        } else {
            (found, q2)
        }
    }
}

#[verifier::opaque]
/// The next mention in `s` from position `p` on: the value, the positions of
/// its `<` and of its `>`, and the position where reading resumes. A `<`
/// followed by a sigil and later by a `>` is a candidate; a candidate that does
/// not parse is skipped, and reading resumes after its `>`.
pub open spec fn next_mention<T: ParseMention>(s: Seq<char>, p: int) -> Option<(T, int, int, int)>
    decreases s.len() - p,
{
    if p < 0 || p >= s.len() {
        None
    } else if s[p] != '<' {
        next_mention::<T>(s, p + 1)
    } else {
        let (found, q) = skip_sigils(s, p + 1, T::spec_sigils());
        if !found {
            next_mention::<T>(s, p + 1)
        } else {
            match first_index_of(s.skip(q), '>') {
                None => None,
                Some(k) => if q + k >= s.len() {
                    None
                } else {
                    let end = q + k;
                    match parse_id_spec(s.subrange(p, end + 1), T::spec_sigils()) {
                        Ok((id, sigil)) => Some((T::from_mention(id, sigil), p, end, end + 1)),
                        Err(_) => if p < end + 1 <= s.len() {
                            next_mention::<T>(s, end + 1)
                        } else {
                            None
                        },
                    }
                }
            }
        }
    }
}

/// Skipping sigils never moves backwards nor past the end, and moves only
/// when a sigil was skipped.
proof fn lemma_skip_sigils_bounds(s: Seq<char>, q: int, sigils: Seq<Seq<char>>)
    requires
        0 <= q <= s.len(),
    ensures
        q <= skip_sigils(s, q, sigils).1 <= s.len(),
        !skip_sigils(s, q, sigils).0 ==> skip_sigils(s, q, sigils).1 == q,
    decreases sigils.len(),
{
    if sigils.len() > 0 {
        lemma_skip_sigils_bounds(s, q, sigils.drop_last());
    }
}

/// One step of the search for the next mention, from position `p`.
proof fn lemma_next_mention_step<T: ParseMention>(s: Seq<char>, p: int)
    requires
        0 <= p < s.len(),
    ensures
        s[p] != '<' ==> next_mention::<T>(s, p) == next_mention::<T>(s, p + 1),
        s[p] == '<' && !skip_sigils(s, p + 1, T::spec_sigils()).0 ==> next_mention::<T>(s, p)
            == next_mention::<T>(s, p + 1),
        s[p] == '<' && skip_sigils(s, p + 1, T::spec_sigils()).0 ==> ({
            let q = skip_sigils(s, p + 1, T::spec_sigils()).1;
            match first_index_of(s.skip(q), '>') {
                None => next_mention::<T>(s, p) is None,
                Some(k) => q + k < s.len() ==> match parse_id_spec(
                    s.subrange(p, q + k + 1),
                    T::spec_sigils(),
                ) {
                    Ok((id, sigil)) => next_mention::<T>(s, p) == Some(
                        (T::from_mention(id, sigil), p, q + k, q + k + 1),
                    ),
                    Err(_) => next_mention::<T>(s, p) == next_mention::<T>(s, q + k + 1),
                },
            }
        }),
{
    reveal(next_mention);
    lemma_skip_sigils_bounds(s, p + 1, T::spec_sigils());
    let (found, q) = skip_sigils(s, p + 1, T::spec_sigils());
    lemma_first_index_of_found(s.skip(q), '>');
    if s[p] == '<' && found {
        assert(p + 1 <= q <= s.len());
        match first_index_of(s.skip(q), '>') {
            None => {},
            Some(k) => {
                if q + k < s.len() {
                    assert(p < q + k + 1 <= s.len());
                }
            },
        }
    }
}

/// Where no sigil begins at `q`, skipping sigils skips nothing.
proof fn lemma_skip_no_sigil(s: Seq<char>, q: int, sigils: Seq<Seq<char>>)
    requires
        forall|j: int| 0 <= j < sigils.len() ==> !starts_with(s.skip(q), #[trigger] sigils[j]),
    ensures
        skip_sigils(s, q, sigils) == (false, q),
    decreases sigils.len(),
{
    if sigils.len() > 0 {
        let d = sigils.drop_last();
        assert forall|j: int| 0 <= j < d.len() implies !starts_with(s.skip(q), #[trigger] d[j]) by {
            assert(d[j] == sigils[j]);
        }
        lemma_skip_no_sigil(s, q, d);
        assert(sigils.last() == sigils[sigils.len() - 1]);
    }
}

/// A character that does not begin a mention is passed over: a character
/// other than `<`, and a `<` that no sigil of `T` follows, start no candidate,
/// and the search goes on from the next character as if they were not there.
pub proof fn law_no_sigil_no_candidate<T: ParseMention>(s: Seq<char>, p: int)
    requires
        0 <= p < s.len(),
        s[p] != '<' || forall|j: int|
            0 <= j < T::spec_sigils().len() ==> !starts_with(
                s.skip(p + 1),
                #[trigger] T::spec_sigils()[j],
            ),
    ensures
        next_mention::<T>(s, p) == next_mention::<T>(s, p + 1),
{
    lemma_next_mention_step::<T>(s, p);
    if s[p] == '<' {
        lemma_skip_no_sigil(s, p + 1, T::spec_sigils());
    }
}

/// A mention that the search finds from position `p` lies at or after `p`:
/// it runs from a `<` to the first `>` after the `<` and the sigils that follow
/// it, its text parses as a mention of `T` with the value found, and reading
/// resumes just after it.
pub proof fn law_found_mention_parses<T: ParseMention>(s: Seq<char>, p: int)
    requires
        0 <= p,
    ensures
        next_mention::<T>(s, p) matches Some((v, start, end, resume)) ==> {
            &&& p <= start < end < s.len()
            &&& s[start] == '<'
            &&& s[end] == '>'
            &&& resume == end + 1
            &&& forall|j: int| start < j < end ==> s[j] != '>' || j < skip_sigils(
                s,
                start + 1,
                T::spec_sigils(),
            ).1
            &&& parse_id_spec(s.subrange(start, end + 1), T::spec_sigils()) matches Ok((id, sigil))
                && v == T::from_mention(id, sigil)
        },
    decreases s.len() - p,
{
    if p >= s.len() {
        lemma_next_mention_end::<T>(s, p);
    } else {
        lemma_next_mention_step::<T>(s, p);
        lemma_skip_sigils_bounds(s, p + 1, T::spec_sigils());
        let (found, q) = skip_sigils(s, p + 1, T::spec_sigils());
        if s[p] != '<' || !found {
            law_found_mention_parses::<T>(s, p + 1);
        } else {
            lemma_first_index_of_found(s.skip(q), '>');
            match first_index_of(s.skip(q), '>') {
                None => {},
                Some(k) => {
                    assert(s.skip(q)[k] == s[q + k]);
                    assert forall|j: int| p < j < q + k implies s[j] != '>' || j < q by {
                        if j >= q {
                            assert(s.skip(q)[j - q] == s[j]);
                        }
                    }
                    if q + k < s.len() {
                        match parse_id_spec(s.subrange(p, q + k + 1), T::spec_sigils()) {
                            Ok(_) => {},
                            Err(_) => {
                                law_found_mention_parses::<T>(s, q + k + 1);
                            },
                        }
                    }
                },
            }
        }
    }
}

/// Past the end of the string there is no mention.
proof fn lemma_next_mention_end<T: ParseMention>(s: Seq<char>, p: int)
    requires
        p >= s.len(),
    ensures
        next_mention::<T>(s, p) is None,
{
    reveal(next_mention);
}

/// Byte offsets grow with the position.
proof fn lemma_offset_monotone(s: Seq<char>, i: int, j: int)
    requires
        0 <= i <= j <= s.len(),
    ensures
        byte_offset(s, i) <= byte_offset(s, j),
    decreases j - i,
{
    if i < j {
        lemma_byte_offset_step(s, j - 1);
        lemma_offset_monotone(s, i, j - 1);
    }
}

/// The reading state of a [`MentionIter`]: the string, its characters, and
/// where reading resumes, in characters and in bytes.
#[derive(Debug)]
struct Scan<'a, T> {
    buf: &'a str,
    chars: Vec<char>,
    pos: usize,
    byte_pos: usize,
    phantom: PhantomData<T>,
}

impl<'a, T> Scan<'a, T> {
    /// The string and the position, counted in characters, where reading resumes.
    closed spec fn view(&self) -> (Seq<char>, int) {
        (self.buf@, self.pos as int)
    }

    /// The iterator's state agrees with its string.
    closed spec fn wf(&self) -> bool {
        &&& self.chars@ == self.buf@
        &&& self.pos <= self.chars@.len()
        &&& self.byte_pos == byte_offset(self.chars@, self.pos as int)
        &&& encode_utf8(self.chars@).len() <= usize::MAX
    }

    /// An iterator over the mentions in `buf`, from its start.
    fn new(buf: &'a str) -> (r: Self)
        requires
            encode_utf8(buf@).len() <= usize::MAX,
        ensures
            r@ == (buf@, 0int),
            r.wf(),
    {
        let chars = chars_of(buf);
        assert(chars@.take(0) =~= Seq::<char>::empty());
        assert(encode_utf8(Seq::<char>::empty()).len() == 0);
        Self { buf, chars, pos: 0, byte_pos: 0, phantom: PhantomData }
    }

    /// The whole string that is read.
    fn as_str(&self) -> (r: &'a str)
        ensures
            r@ == self@.0,
    {
        self.buf
    }

    /// Reads one character.
    fn advance(&mut self)
        requires
            old(self).wf(),
            old(self).pos < old(self).chars.len(),
        ensures
            final(self).wf(),
            final(self)@ == (old(self)@.0, old(self)@.1 + 1),
            old(self).byte_pos == byte_offset(old(self)@.0, old(self)@.1),
            final(self).chars@ == old(self).chars@,
    {
        proof {
            lemma_byte_offset_step(self.chars@, self.pos as int);
        }
        let w = utf8_width(self.chars[self.pos]);
        self.pos = self.pos + 1;
        self.byte_pos = self.byte_pos + w;
    }

    /// Reads characters up to position `target`.
    fn advance_to(&mut self, target: usize)
        requires
            old(self).wf(),
            old(self).pos <= target <= old(self).chars.len(),
        ensures
            final(self).wf(),
            final(self)@ == (old(self)@.0, target as int),
            final(self).chars@ == old(self).chars@,
    {
        while self.pos < target
            invariant
                self.wf(),
                self@.0 == old(self)@.0,
                self.chars@ == old(self).chars@,
                self.pos <= target <= self.chars.len(),
            decreases target - self.pos,
        {
            self.advance();
        }
    }
}

impl<'a, T: ParseMention> Scan<'a, T> {
    /// Skips, in turn, each sigil that the text at the current position begins with.
    fn read_sigils(&mut self) -> (found: bool)
        requires
            old(self).wf(),
        ensures
            final(self).wf(),
            final(self)@.0 == old(self)@.0,
            (found, final(self)@.1) == skip_sigils(old(self)@.0, old(self)@.1, T::spec_sigils()),
    {
        let ghost s = self@.0;
        let ghost q = self@.1;
        let sigils = T::sigils();
        let ghost views = str_views(sigils@);
        let mut found = false;
        let mut i: usize = 0;
        assert(views.take(0).len() == 0);
        while i < sigils.len()
            invariant
                self.wf(),
                self@.0 == s,
                i <= sigils@.len(),
                views == str_views(sigils@),
                views == T::spec_sigils(),
                (found, self@.1) == skip_sigils(s, q, views.take(i as int)),
            decreases sigils.len() - i,
        {
            let sc = chars_of(sigils[i]);
            assert(views[i as int] == sc@);
            let here = self.pos;
            if starts_with_at(self.chars.as_slice(), self.pos, sc.as_slice()) {
                found = true;
                let mut n: usize = 0;
                while n < sc.len()
                    invariant
                        self.wf(),
                        self@.0 == s,
                        n <= sc@.len(),
                        here + sc@.len() <= s.len(),
                        self@.1 == here + n,
                    decreases sc.len() - n,
                {
                    self.advance();
                    n += 1;
                }
            }
            proof {
                assert(views.take(i + 1).drop_last() =~= views.take(i as int));
                assert(views.take(i + 1).last() == views[i as int]);
            }
            i += 1;
        }
        assert(views.take(sigils@.len() as int) =~= views);
        found
    }

    #[verifier::rlimit(100)]
    /// Reads a candidate mention whose `<` is at position `start` (byte offset
    /// `start_byte`) and whose sigils were read: `None` when no `>` is left,
    /// `Some(None)` when the candidate does not parse, `Some(Some(..))` with the
    /// mention otherwise.
    fn read_candidate(&mut self, start: usize, start_byte: usize) -> (r: Option<
        Option<(T, usize, usize)>,
    >)
        requires
            old(self).wf(),
            start < old(self)@.1,
            start_byte == byte_offset(old(self)@.0, start as int),
        ensures
            final(self).wf(),
            final(self)@.0 == old(self)@.0,
            old(self)@.1 < final(self)@.1 <= old(self)@.0.len() || (r is None && final(self)@.1
                == old(self)@.0.len()),
            ({
                let s = old(self)@.0;
                let q = old(self)@.1;
                match first_index_of(s.skip(q), '>') {
                    None => r is None && final(self)@.1 == s.len(),
                    Some(k) => q + k < s.len() && final(self)@.1 == q + k + 1 && match parse_id_spec(
                        s.subrange(start as int, q + k + 1),
                        T::spec_sigils(),
                    ) {
                        Ok((id, sigil)) => r == Some(
                            Some(
                                (
                                    T::from_mention(id, sigil),
                                    start_byte,
                                    byte_offset(s, q + k) as usize,
                                ),
                            ),
                        ),
                        Err(_) => r == Some(None::<(T, usize, usize)>),
                    },
                }
            }),
    {
        let ghost s = self@.0;
        let len = self.chars.len();
        match find_char_from(self.chars.as_slice(), self.pos, '>') {
            None => {
                self.advance_to(len);
                None
            },
            Some(k) => {
                let end = self.pos + k;
                self.advance_to(end);
                let end_byte = self.byte_pos;
                self.advance();
                let candidate = self.buf.substring_char(start, end + 1);
                assert(candidate@ == s.subrange(start as int, end + 1));
                match T::parse(candidate) {
                    Ok(v) => Some(Some((v, start_byte, end_byte))),
                    Err(_) => Some(None),
                }
            },
        }
    }

    /// Reads from the current position up to the end of the next candidate
    /// mention or of the next character: `None` when no mention is left,
    /// `Some(Some(..))` with the next mention, `Some(None)` when the search
    /// goes on from the new position.
    #[verifier::rlimit(100)]
    fn step(&mut self) -> (r: Option<Option<(T, usize, usize)>>)
        requires
            old(self).wf(),
            old(self)@.1 < old(self)@.0.len(),
        ensures
            final(self).wf(),
            final(self)@.0 == old(self)@.0,
            old(self)@.1 < final(self)@.1 <= old(self)@.0.len(),
            match r {
                None => next_mention::<T>(old(self)@.0, old(self)@.1) is None && final(self)@.1
                    == old(self)@.0.len(),
                Some(None) => next_mention::<T>(old(self)@.0, old(self)@.1) == next_mention::<T>(
                    old(self)@.0,
                    final(self)@.1,
                ),
                Some(Some(m)) => next_mention::<T>(old(self)@.0, old(self)@.1) matches Some(
                    (v, start, end, resume),
                ) && m == (
                    v,
                    byte_offset(old(self)@.0, start) as usize,
                    byte_offset(old(self)@.0, end) as usize,
                ) && resume == final(self)@.1,
            },
    {
        let ghost s = self@.0;
        let start = self.pos;
        let start_byte = self.byte_pos;
        let c = self.chars[self.pos];
        self.advance();
        assert(s[start as int] == c);
        proof {
            lemma_next_mention_step::<T>(s, start as int);
            lemma_skip_sigils_bounds(s, start + 1, T::spec_sigils());
        }
        if c != '<' {
            return Some(None);
        }
        let found = self.read_sigils();
        if !found {
            return Some(None);
        }
        self.read_candidate(start, start_byte)
    }

    /// The next mention, with the byte offsets in the string of its `<` and
    /// its `>`; `None` when no mention is left.
    fn next(&mut self) -> (r: Option<(T, usize, usize)>)
        requires
            old(self).wf(),
        ensures
            final(self).wf(),
            final(self)@.0 == old(self)@.0,
            match next_mention::<T>(old(self)@.0, old(self)@.1) {
                None => r is None && final(self)@.1 == old(self)@.0.len(),
                Some((v, start, end, resume)) => r == Some(
                    (
                        v,
                        byte_offset(old(self)@.0, start) as usize,
                        byte_offset(old(self)@.0, end) as usize,
                    ),
                ) && final(self)@.1 == resume,
            },
    {
        let ghost s = self@.0;
        let ghost goal = next_mention::<T>(s, self@.1);
        loop
            invariant
                self.wf(),
                self@.0 == s,
                s == old(self)@.0,
                goal == next_mention::<T>(old(self)@.0, old(self)@.1),
                next_mention::<T>(s, self@.1) == goal,
                self@.1 <= s.len(),
            decreases s.len() - self@.1,
        {
            if self.pos >= self.chars.len() {
                proof {
                    lemma_next_mention_end::<T>(s, self@.1);
                }
                return None;
            }
            match self.step() {
                None => {
                    return None;
                },
                Some(Some(m)) => {
                    return Some(m);
                },
                Some(None) => {},
            }
        }
    }
}

/// The mentions of type `T` in a string, in order, with the byte offsets of
/// their `<` and `>`.
#[derive(Debug)]
pub struct MentionIter<'a, T> {
    scan: Scan<'a, T>,
}

impl<'a, T> MentionIter<'a, T> {
    /// The string and the position, counted in characters, where reading resumes.
    pub closed spec fn view(&self) -> (Seq<char>, int) {
        self.scan@
    }

    /// The reading state agrees with its string.
    #[verifier::type_invariant]
    spec fn wf(&self) -> bool {
        self.scan.wf()
    }

    /// An iterator over the mentions in `buf`, from its start.
    #[must_use]
    pub fn new(buf: &'a str) -> (r: Self)
        requires
            encode_utf8(buf@).len() <= usize::MAX,
        ensures
            r@ == (buf@, 0int),
    {
        MentionIter { scan: Scan::new(buf) }
    }

    /// The whole string that is read.
    #[must_use]
    pub fn as_str(&self) -> (r: &'a str)
        ensures
            r@ == self@.0,
    {
        self.scan.as_str()
    }
}

impl<'a, T: ParseMention> MentionIter<'a, T> {
    /// The next mention, with the byte offsets in the string of its `<` and
    /// its `>`; `None` when no mention is left.
    pub fn next(&mut self) -> (r: Option<(T, usize, usize)>)
        ensures
            final(self)@.0 == old(self)@.0,
            match next_mention::<T>(old(self)@.0, old(self)@.1) {
                None => r is None && final(self)@.1 == old(self)@.0.len(),
                Some((v, start, end, resume)) => r == Some(
                    (
                        v,
                        byte_offset(old(self)@.0, start) as usize,
                        byte_offset(old(self)@.0, end) as usize,
                    ),
                ) && final(self)@.1 == resume,
            },
    {
        proof {
            use_type_invariant(&*self);
        }
        proof {
            reveal_strlit("");
            assert(encode_utf8(""@) =~= Seq::<u8>::empty()) by {
                assert(""@ =~= Seq::<char>::empty());
            }
        }
        let mut taken = MentionIter { scan: Scan::new("") };
        std::mem::swap(&mut taken, self);
        proof {
            use_type_invariant(&taken);
        }
        let MentionIter { mut scan } = taken;
        let r = scan.next();
        *self = MentionIter { scan };
        r
    }
}

} // verus!
