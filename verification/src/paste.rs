//! The identifiers of pasted language files: strings of ASCII letters and
//! digits, drawn at random when a paste is made.

use rand::rngs::ThreadRng;
use rand::Rng;
use std::borrow::Cow;
use vstd::prelude::*;
use vstd::string::StringExecFns;

verus! {

#[verifier::external_type_specification]
#[verifier::external_body]
pub struct ExThreadRng(ThreadRng);

/// `rand::thread_rng` of the rand crate: a handle to the random number
/// generator of the current thread. Nothing is claimed of it.
#[verifier::external_body]
fn thread_rng() -> (r: ThreadRng) {
    rand::thread_rng()
}

/// `Rng::gen::<usize>` of the rand crate on the thread's generator: a random
/// `usize`. Nothing is claimed of the value, which can be any `usize`.
#[verifier::external_body]
fn gen_usize(rng: &mut ThreadRng) -> (r: usize) {
    rng.gen::<usize>()
}

/// The number of characters that an identifier is drawn from.
pub const BASE: usize = 62;

/// The character of the digit `d` in base 62: the ten digits, then the
/// upper-case letters, then the lower-case letters.
pub open spec fn base62_char(d: int) -> char {
    if d < 10 {
        (48 + d) as char
    } else if d < 36 {
        (65 + d - 10) as char
    } else {
        (97 + d - 36) as char
    }
}

/// Whether `c` is an ASCII letter or digit.
pub open spec fn is_ascii_alphanumeric(c: char) -> bool {
    ('0' <= c && c <= '9') || ('A' <= c && c <= 'Z') || ('a' <= c && c <= 'z')
}

/// Whether `s` is a valid paste identifier: every character is an ASCII
/// letter or digit.
pub open spec fn is_paste_id(s: Seq<char>) -> bool {
    forall|i: int| 0 <= i < s.len() ==> is_ascii_alphanumeric(#[trigger] s[i])
}

/// The identifier that the random draws `draws` give: one base-62 digit per
/// draw, the draw's remainder modulo 62.
pub open spec fn draws_text(draws: Seq<usize>) -> Seq<char> {
    draws.map_values(|d: usize| base62_char((d % 62) as int))
}

/// The digit of a base-62 character is an ASCII letter or digit.
proof fn lemma_base62_alphanumeric(d: int)
    requires
        0 <= d < 62,
    ensures
        is_ascii_alphanumeric(base62_char(d)),
{
    if d < 10 {
        assert(48 <= 48 + d <= 57);
        assert('0' as int == 48 && '9' as int == 57);
    } else if d < 36 {
        assert('A' as int == 65 && 'Z' as int == 90);
    } else {
        assert('a' as int == 97 && 'z' as int == 122);
    }
}

/// The character of the base-62 digit `d`.
fn digit_char(d: usize) -> (c: char)
    requires
        d < 62,
    ensures
        c == base62_char(d as int),
{
    let v: u8 = d as u8;
    if v < 10 {
        (48u8 + v) as char
    } else if v < 36 {
        (65u8 + v - 10) as char
    } else {
        (97u8 + v - 36) as char
    }
}

/// Whether `c` is an ASCII letter or digit.
fn ascii_alphanumeric(c: char) -> (r: bool)
    ensures
        r == is_ascii_alphanumeric(c),
{
    ('0' <= c && c <= '9') || ('A' <= c && c <= 'Z') || ('a' <= c && c <= 'z')
}

/// The identifier of a paste.
#[derive(Debug)]
pub struct PasteId<'a>(Cow<'a, str>);

impl<'a> PasteId<'a> {
    /// The characters of the identifier.
    pub closed spec fn view(&self) -> Seq<char> {
        self.0@
    }

    /// The characters of the identifier.
    pub fn as_str(&self) -> (r: &str)
        ensures
            r@ == self@,
    {
        match &self.0 {
            Cow::Borrowed(s) => s,
            Cow::Owned(s) => s.as_str(),
        }
    }

    /// The identifier that the random draws `draws` give.
    pub fn from_draws(draws: &[usize]) -> (r: PasteId<'static>)
        ensures
            r@ == draws_text(draws@),
    {
        let mut id = String::new();
        let len = draws.len();
        let mut i: usize = 0;
        while i < len
            invariant
                i <= len,
                len == draws@.len(),
                id@ == draws_text(draws@.take(i as int)),
            decreases len - i,
        {
            crate::text::push_char(&mut id, digit_char(draws[i] % BASE));
            proof {
                assert(draws_text(draws@.take(i + 1)) =~= draws_text(draws@.take(i as int)).push(
                    base62_char((draws@[i as int] % 62) as int),
                ));
            }
            i += 1;
        }
        assert(draws@.take(len as int) =~= draws@);
        PasteId(Cow::Owned(id))
    }

    /// A new identifier of `size` characters, each drawn at random.
    pub fn new(size: usize) -> (r: PasteId<'static>)
        ensures
            r@.len() == size,
            is_paste_id(r@),
    {
        let mut rng = thread_rng();
        let mut draws: Vec<usize> = Vec::new();
        let mut i: usize = 0;
        while i < size
            invariant
                i <= size,
                draws@.len() == i,
            decreases size - i,
        {
            draws.push(gen_usize(&mut rng));
            i += 1;
        }
        let r = PasteId::from_draws(draws.as_slice());
        proof {
            law_drawn_ids_are_valid(draws@);
        }
        r
    }

    /// The identifier `params`, or `params` itself back as the error when it
    /// holds a character that is not an ASCII letter or digit.
    pub fn from_param(params: &'a str) -> (r: Result<PasteId<'a>, &'a str>)
        ensures
            is_paste_id(params@) ==> (r matches Ok(id) && id@ == params@),
            !is_paste_id(params@) ==> (r matches Err(e) && e@ == params@),
    {
        let cs = crate::text::chars_of(params);
        let len = cs.len();
        let mut i: usize = 0;
        while i < len
            invariant
                i <= len,
                len == cs@.len(),
                cs@ == params@,
                forall|j: int| 0 <= j < i ==> is_ascii_alphanumeric(#[trigger] cs@[j]),
            decreases len - i,
        {
            if !ascii_alphanumeric(cs[i]) {
                return Err(params);
            }
            i += 1;
        }
        Ok(PasteId(Cow::Borrowed(params)))
    }
}

/// The number of characters of the identifier of a new paste.
pub const ID_LENGTH: usize = 3;

/// The greeting of the paste server to `name`: `Hello, name!`.
pub fn hello(name: &str) -> (r: String)
    ensures
        r@ == "Hello, "@ + name@ + "!"@,
{
    let mut s = String::new();
    s.append("Hello, ");
    s.append(name);
    s.append("!");
    s
}

/// Every identifier that random draws give is a valid paste identifier, so
/// that a paste made under it can be fetched under it again.
pub proof fn law_drawn_ids_are_valid(draws: Seq<usize>)
    ensures
        is_paste_id(draws_text(draws)),
        draws_text(draws).len() == draws.len(),
{
    assert forall|i: int| 0 <= i < draws_text(draws).len() implies is_ascii_alphanumeric(
        #[trigger] draws_text(draws)[i],
    ) by {
        lemma_base62_alphanumeric((draws[i] % 62) as int);
    }
}

} // verus!
