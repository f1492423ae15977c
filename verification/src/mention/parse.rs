//! Parsing mentions such as `<#123>`, `<:name:123>`, `<@&123>` and `<@123>`.
//!
//! A mention is a leading arrow `<`, a sigil that tells what is mentioned, the
//! snowflake of what is mentioned (for an emoji, after its name and a second
//! `:`), and a trailing arrow `>`.

use super::error::{str_views, ErrorTypeModel, ParseMentionError, ParseMentionErrorType};
use super::iter::MentionIter;
use super::MentionType;
use crate::decimal::{parse_u64, parse_u64_spec, IntErrorKind};
use crate::model::{ChannelId, EmojiId, RoleId, UserId};
use crate::text::{chars_of, find_char_from, first_index_of, starts_with, starts_with_at, str_eq};
use vstd::prelude::*;
use vstd::slice::slice_subrange;
use vstd::string::StrSliceExecFns;
use vstd::utf8::encode_utf8;

verus! {

/// The position in `sigils` of the first sigil that `rest` begins with, if any.
pub open spec fn first_sigil(rest: Seq<char>, sigils: Seq<Seq<char>>) -> Option<int> {
    if exists|j: int| 0 <= j < sigils.len() && starts_with(rest, #[trigger] sigils[j]) {
        Some(
            choose|j: int|
                0 <= j < sigils.len() && starts_with(rest, #[trigger] sigils[j]) && forall|k: int|
                    0 <= k < j ==> !starts_with(rest, #[trigger] sigils[k]),
        )
    } else {
        None
    }
}

/// What parsing `buf` as a mention with one of the `sigils` gives: the id and
/// the sigil found, or the error and its source.
pub open spec fn parse_id_spec(buf: Seq<char>, sigils: Seq<Seq<char>>) -> Result<
    (u64, Seq<char>),
    (ErrorTypeModel, Option<IntErrorKind>),
> {
    if buf.len() == 0 || buf[0] != '<' {
        Err(
            (
                ErrorTypeModel::LeadingArrow {
                    found: if buf.len() == 0 {
                        None
                    } else {
                        Some(buf[0])
                    },
                },
                None,
            ),
        )
    } else {
        let rest = buf.drop_first();
        match first_sigil(rest, sigils) {
            None => Err(
                (
                    ErrorTypeModel::Sigil {
                        expected: sigils,
                        found: if rest.len() == 0 {
                            None
                        } else {
                            Some(rest[0])
                        },
                    },
                    None,
                ),
            ),
            Some(j) => parse_after_sigil_spec(rest.skip(sigils[j].len() as int), sigils[j]),
        }
    }
}

/// What parsing gives once the sigil `sigil` was read and `after` follows it:
/// for an emoji, the name up to a second `:` is passed over; then the id runs
/// up to the trailing `>`.
pub open spec fn parse_after_sigil_spec(after: Seq<char>, sigil: Seq<char>) -> Result<
    (u64, Seq<char>),
    (ErrorTypeModel, Option<IntErrorKind>),
> {
    let body = if sigil == seq![':'] {
        match first_index_of(after, ':') {
            Some(k) => Some(after.skip(k + 1)),
            None => None,
        }
    } else {
        Some(after)
    };
    match body {
        None => Err((ErrorTypeModel::PartMissing { expected: 2, found: 1 }, None)),
        Some(body) => parse_body_spec(body, sigil),
    }
}

/// What parsing gives for the id part `body` of a mention with sigil `sigil`:
/// the id runs up to the first `>`.
pub open spec fn parse_body_spec(body: Seq<char>, sigil: Seq<char>) -> Result<
    (u64, Seq<char>),
    (ErrorTypeModel, Option<IntErrorKind>),
> {
    match first_index_of(body, '>') {
        None => Err((ErrorTypeModel::TrailingArrow { found: None }, None)),
        Some(t) => {
            let digits = body.take(t);
            match parse_u64_spec(digits) {
                Ok(id) => Ok((id, sigil)),
                Err(e) => Err((ErrorTypeModel::IdNotU64 { found: digits }, Some(e))),
            }
        },
    }
}

/// The plain content of a result of `parse_id`.
pub open spec fn parse_id_view(r: Result<(u64, &str), ParseMentionError>) -> Result<
    (u64, Seq<char>),
    (ErrorTypeModel, Option<IntErrorKind>),
> {
    match r {
        Ok((id, sigil)) => Ok((id, sigil@)),
        Err(e) => Err(e@),
    }
}

/// Whether the value `r` is what parsing gave: `expected`, with the value that
/// `from_mention` builds from an id and a sigil on success.
pub open spec fn parse_outcome<T>(
    r: Result<T, ParseMentionError>,
    expected: Result<(u64, Seq<char>), (ErrorTypeModel, Option<IntErrorKind>)>,
    from_mention: spec_fn(u64, Seq<char>) -> T,
) -> bool {
    match expected {
        Ok((id, sigil)) => r matches Ok(v) && v == from_mention(id, sigil),
        Err(e) => r matches Err(err) && err@ == e,
    }
}

/// The types that can be parsed from a mention.
pub trait Sealed {

}

impl Sealed for ChannelId {

}

impl Sealed for EmojiId {

}

impl Sealed for MentionType {

}

impl Sealed for RoleId {

}

impl Sealed for UserId {

}

/// Parsing of a mention into the identifier it holds.
pub trait ParseMention: Sealed + Sized {
    /// The sigils that can begin a mention of this type, in the order tried.
    spec fn spec_sigils() -> Seq<Seq<char>>;

    /// The value that a mention with id `id` and sigil `sigil` stands for.
    spec fn from_mention(id: u64, sigil: Seq<char>) -> Self;

    /// The sigils that can begin a mention of this type, in the order tried.
    fn sigils() -> (r: &'static [&'static str])
        ensures
            str_views(r@) == Self::spec_sigils(),
    ;

    /// Parses `buf` as a mention of this type.
    fn parse(buf: &str) -> (r: Result<Self, ParseMentionError<'_>>)
        ensures
            parse_outcome(
                r,
                parse_id_spec(buf@, Self::spec_sigils()),
                |id: u64, sigil: Seq<char>| Self::from_mention(id, sigil),
            ),
    ;

    /// The mentions of this type in `buf`, in order.
    #[must_use]
    fn iter(buf: &str) -> (r: MentionIter<'_, Self>)
        requires
            encode_utf8(buf@).len() <= usize::MAX,
        ensures
            r@ == (buf@, 0int),
    {
        MentionIter::new(buf)
    }
}

/// Parses `buf` as a mention with one of the `sigils`, tried in order: the id
/// and the sigil that begins the mention.
pub fn parse_id<'a>(buf: &'a str, sigils: &'a [&'a str]) -> (r: Result<
    (u64, &'a str),
    ParseMentionError<'a>,
>)
    ensures
        parse_id_view(r) == parse_id_spec(buf@, str_views(sigils@)),
{
    let chars = chars_of(buf);
    let cs = chars.as_slice();
    if cs.len() == 0 {
        return Err(ParseMentionError::new(ParseMentionErrorType::LeadingArrow { found: None }, None));
    }
    if cs[0] != '<' {
        return Err(
            ParseMentionError::new(ParseMentionErrorType::LeadingArrow { found: Some(cs[0]) }, None),
        );
    }
    assert(cs@.skip(1) =~= buf@.drop_first());
    match find_sigil(cs, sigils) {
        Some(j) => {
            let sigil = sigils[j];
            let sc = chars_of(sigil);
            assert(str_views(sigils@)[j as int] == sc@);
            assert(cs@.skip(1 + sc@.len() as int) =~= buf@.drop_first().skip(sc@.len() as int));
            parse_after_sigil(buf, cs, 1 + sc.len(), sigil)
        },
        None => {
            let next = if cs.len() > 1 {
                Some(cs[1])
            } else {
                None
            };
            Err(
                ParseMentionError::new(
                    ParseMentionErrorType::Sigil { expected: sigils, found: next },
                    None,
                ),
            )
        },
    }
}

/// Parses the rest of the mention `buf`, whose characters are `cs`, from
/// position `pos` on, just after the sigil `sigil`.
fn parse_after_sigil<'a>(buf: &'a str, cs: &[char], pos: usize, sigil: &'a str) -> (r: Result<
    (u64, &'a str),
    ParseMentionError<'a>,
>)
    requires
        cs@ == buf@,
        pos <= cs@.len(),
    ensures
        parse_id_view(r) == parse_after_sigil_spec(buf@.skip(pos as int), sigil@),
{
    let ghost after = buf@.skip(pos as int);
    let len = cs.len();
    let sc = chars_of(sigil);
    let is_colon = sc.len() == 1 && sc[0] == ':';
    proof {
        if sc@.len() == 1 && sc@[0] == ':' {
            assert(sc@ =~= seq![':']);
        }
    }
    assert(is_colon == (sigil@ == seq![':']));
    let mut pos = pos;
    if is_colon {
        match emoji_sigil_present(cs, pos) {
            Some(next) => {
                assert(cs@.skip(next as int) =~= after.skip(next - pos));
                pos = next;
            },
            None => {
                return Err(
                    ParseMentionError::new(
                        ParseMentionErrorType::PartMissing { found: 1, expected: 2 },
                        None,
                    ),
                );
            },
        }
    }
    assert(cs@.skip(pos as int) =~= buf@.skip(pos as int));
    parse_body(buf, cs, pos, sigil)
}

/// Parses the id part of the mention `buf`, whose characters are `cs`, from
/// position `pos` on, for a mention with sigil `sigil`.
fn parse_body<'a>(buf: &'a str, cs: &[char], pos: usize, sigil: &'a str) -> (r: Result<
    (u64, &'a str),
    ParseMentionError<'a>,
>)
    requires
        cs@ == buf@,
        pos <= cs@.len(),
    ensures
        parse_id_view(r) == parse_body_spec(buf@.skip(pos as int), sigil@),
{
    let len = cs.len();
    let t = match find_char_from(cs, pos, '>') {
        Some(t) => t,
        None => {
            return Err(
                ParseMentionError::new(ParseMentionErrorType::TrailingArrow { found: None }, None),
            );
        },
    };
    let digits = slice_subrange(cs, pos, pos + t);
    assert(digits@ =~= cs@.skip(pos as int).take(t as int));
    match parse_u64(digits) {
        Ok(id) => Ok((id, sigil)),
        Err(e) => {
            let remaining = buf.substring_char(pos, pos + t);
            Err(ParseMentionError::new(ParseMentionErrorType::IdNotU64 { found: remaining }, Some(e)))
        },
    }
}

/// The position in `sigils` of the first sigil that the characters after the
/// leading `<` of `cs` begin with.
fn find_sigil(cs: &[char], sigils: &[&str]) -> (r: Option<usize>)
    requires
        cs@.len() >= 1,
    ensures
        match r {
            Some(j) => j < sigils@.len() && first_sigil(cs@.skip(1), str_views(sigils@)) == Some(
                j as int,
            ) && starts_with(cs@.skip(1), str_views(sigils@)[j as int]),
            None => first_sigil(cs@.skip(1), str_views(sigils@)) is None,
        },
{
    let ghost rest = cs@.skip(1);
    let ghost views = str_views(sigils@);
    let mut j: usize = 0;
    while j < sigils.len()
        invariant
            j <= sigils@.len(),
            cs@.len() >= 1,
            rest == cs@.skip(1),
            views == str_views(sigils@),
            forall|k: int| 0 <= k < j ==> !starts_with(rest, #[trigger] views[k]),
        decreases sigils.len() - j,
    {
        let sc = chars_of(sigils[j]);
        assert(views[j as int] == sc@);
        if starts_with_at(cs, 1, sc.as_slice()) {
            proof {
                let c = choose|k: int|
                    0 <= k < views.len() && starts_with(rest, #[trigger] views[k]) && forall|i: int|
                        0 <= i < k ==> !starts_with(rest, #[trigger] views[i]);
                assert(0 <= c < views.len() && starts_with(rest, views[c]));
                if c < j {
                    assert(!starts_with(rest, views[c]));
                } else if c > j {
                    assert(!starts_with(rest, views[j as int]));
                }
            }
            return Some(j);
        }
        j += 1;
    }
    assert(!(exists|k: int| 0 <= k < views.len() && starts_with(rest, #[trigger] views[k])));
    None
}

/// The position just after the first `:` in `chars` from position `from` on,
/// if there is one: the end of an emoji's name.
pub fn emoji_sigil_present(chars: &[char], from: usize) -> (r: Option<usize>)
    requires
        from <= chars@.len(),
    ensures
        match r {
            Some(p) => first_index_of(chars@.skip(from as int), ':') == Some(p - from - 1) && from
                < p <= chars@.len(),
            None => first_index_of(chars@.skip(from as int), ':') is None,
        },
{
    let len = chars.len();
    match find_char_from(chars, from, ':') {
        Some(k) => Some(from + k + 1),
        None => None,
    }
}

/// Whether `s` is one of the strings of `list`.
fn contains_str(list: &[&str], s: &str) -> (r: bool)
    ensures
        r == str_views(list@).contains(s@),
{
    let mut i: usize = 0;
    while i < list.len()
        invariant
            i <= list@.len(),
            forall|k: int| 0 <= k < i ==> (#[trigger] str_views(list@)[k]) != s@,
        decreases list.len() - i,
    {
        if str_eq(list[i], s) {
            assert(str_views(list@)[i as int] == s@);
            return true;
        }
        i += 1;
    }
    false
}

/// Some sigil at position `i` or later begins `rest`, and none before `i`
/// does: then there is a first sigil that begins `rest`.
proof fn lemma_first_sigil_exists(rest: Seq<char>, sigils: Seq<Seq<char>>, i: int)
    requires
        0 <= i <= sigils.len(),
        forall|k: int| 0 <= k < i ==> !starts_with(rest, #[trigger] sigils[k]),
        exists|j: int| i <= j < sigils.len() && starts_with(rest, #[trigger] sigils[j]),
    ensures
        exists|j: int|
            0 <= j < sigils.len() && starts_with(rest, #[trigger] sigils[j]) && forall|k: int|
                0 <= k < j ==> !starts_with(rest, #[trigger] sigils[k]),
    decreases sigils.len() - i,
{
    if starts_with(rest, sigils[i]) {
        assert(0 <= i < sigils.len() && starts_with(rest, sigils[i]) && forall|k: int|
            0 <= k < i ==> !starts_with(rest, #[trigger] sigils[k]));
    } else {
        lemma_first_sigil_exists(rest, sigils, i + 1);
    }
}

/// When `first_sigil` finds a sigil, it is the first one that begins `rest`.
proof fn lemma_first_sigil(rest: Seq<char>, sigils: Seq<Seq<char>>)
    ensures
        first_sigil(rest, sigils) matches Some(j) ==> 0 <= j < sigils.len() && starts_with(
            rest,
            sigils[j],
        ),
{
    if exists|j: int| 0 <= j < sigils.len() && starts_with(rest, #[trigger] sigils[j]) {
        lemma_first_sigil_exists(rest, sigils, 0);
    }
}

/// A successful parse gives back one of the sigils it was given.
proof fn lemma_parsed_sigil_is_given(buf: Seq<char>, sigils: Seq<Seq<char>>)
    ensures
        parse_id_spec(buf, sigils) matches Ok((id, sigil)) ==> sigils.contains(sigil),
{
    if buf.len() > 0 && buf[0] == '<' {
        let rest = buf.drop_first();
        lemma_first_sigil(rest, sigils);
        if let Some(j) = first_sigil(rest, sigils) {
            assert(0 <= j < sigils.len());
            let after = rest.skip(sigils[j].len() as int);
            if let Ok((id, sigil)) = parse_after_sigil_spec(after, sigils[j]) {
                assert(sigil == sigils[j]);
            }
        }
    }
}

/// The mention type that a sigil of `MentionType`'s list stands for.
fn mention_type_of(id: u64, found: &str) -> (r: MentionType)
    requires
        MentionType::spec_sigils().contains(found@),
    ensures
        r == MentionType::from_mention(id, found@),
{
    let channel = ChannelId::sigils();
    let emoji = EmojiId::sigils();
    let role = RoleId::sigils();
    let user = UserId::sigils();
    assert(str_views(channel@)[0] == seq!['#']);
    assert(str_views(emoji@)[0] == seq![':']);
    assert(str_views(role@)[0] == seq!['@', '&']);
    assert(str_views(user@)[0] == seq!['@', '!']);
    assert(str_views(user@)[1] == seq!['@']);
    if contains_str(channel, found) {
        return MentionType::Channel(ChannelId(id));
    }
    if contains_str(emoji, found) {
        return MentionType::Emoji(EmojiId(id));
    }
    if contains_str(role, found) {
        return MentionType::Role(RoleId(id));
    }
    if contains_str(user, found) {
        assert(found@ != seq!['#'] && found@ != seq![':'] && found@ != seq!['@', '&']);
        return MentionType::User(UserId(id));
    }
    proof {
        let views = MentionType::spec_sigils();
        let k = choose|k: int| 0 <= k < views.len() && views[k] == found@;
        assert(0 <= k < views.len() && views[k] == found@);
        if k == 4 || k == 3 {
            assert(str_views(user@).contains(found@));
        } else if k == 2 {
            assert(str_views(role@).contains(found@));
        } else if k == 1 {
            assert(str_views(emoji@).contains(found@));
        } else {
            assert(str_views(channel@).contains(found@));
        }
    }
    vstd::pervasive::unreached()
}

impl ParseMention for ChannelId {
    open spec fn spec_sigils() -> Seq<Seq<char>> {
        seq![seq!['#']]
    }

    open spec fn from_mention(id: u64, sigil: Seq<char>) -> Self {
        ChannelId(id)
    }

    fn sigils() -> (r: &'static [&'static str]) {
        let r: &'static [&'static str] = &["#"];
        proof {
            reveal_strlit("#");
        }
        assert(str_views(r@)[0] == seq!['#']);
        assert(str_views(r@) =~= Self::spec_sigils());
        r
    }

    fn parse(buf: &str) -> (r: Result<Self, ParseMentionError<'_>>) {
        match parse_id(buf, Self::sigils()) {
            Ok((id, _)) => Ok(ChannelId(id)),
            Err(e) => Err(e),
        }
    }
}

impl ParseMention for EmojiId {
    open spec fn spec_sigils() -> Seq<Seq<char>> {
        seq![seq![':']]
    }

    open spec fn from_mention(id: u64, sigil: Seq<char>) -> Self {
        EmojiId(id)
    }

    fn sigils() -> (r: &'static [&'static str]) {
        let r: &'static [&'static str] = &[":"];
        proof {
            reveal_strlit(":");
        }
        assert(str_views(r@)[0] == seq![':']);
        assert(str_views(r@) =~= Self::spec_sigils());
        r
    }

    fn parse(buf: &str) -> (r: Result<Self, ParseMentionError<'_>>) {
        match parse_id(buf, Self::sigils()) {
            Ok((id, _)) => Ok(EmojiId(id)),
            Err(e) => Err(e),
        }
    }
}

impl ParseMention for RoleId {
    open spec fn spec_sigils() -> Seq<Seq<char>> {
        seq![seq!['@', '&']]
    }

    open spec fn from_mention(id: u64, sigil: Seq<char>) -> Self {
        RoleId(id)
    }

    fn sigils() -> (r: &'static [&'static str]) {
        let r: &'static [&'static str] = &["@&"];
        proof {
            reveal_strlit("@&");
        }
        assert(str_views(r@)[0] == seq!['@', '&']);
        assert(str_views(r@) =~= Self::spec_sigils());
        r
    }

    fn parse(buf: &str) -> (r: Result<Self, ParseMentionError<'_>>) {
        match parse_id(buf, Self::sigils()) {
            Ok((id, _)) => Ok(RoleId(id)),
            Err(e) => Err(e),
        }
    }
}

impl ParseMention for UserId {
    open spec fn spec_sigils() -> Seq<Seq<char>> {
        seq![seq!['@', '!'], seq!['@']]
    }

    open spec fn from_mention(id: u64, sigil: Seq<char>) -> Self {
        UserId(id)
    }

    fn sigils() -> (r: &'static [&'static str]) {
        let r: &'static [&'static str] = &["@!", "@"];
        proof {
            reveal_strlit("@!");
            reveal_strlit("@");
        }
        assert(str_views(r@)[0] == seq!['@', '!']);
        assert(str_views(r@)[1] == seq!['@']);
        assert(str_views(r@) =~= Self::spec_sigils());
        r
    }

    fn parse(buf: &str) -> (r: Result<Self, ParseMentionError<'_>>) {
        match parse_id(buf, Self::sigils()) {
            Ok((id, _)) => Ok(UserId(id)),
            Err(e) => Err(e),
        }
    }
}

impl ParseMention for MentionType {
    open spec fn spec_sigils() -> Seq<Seq<char>> {
        seq![seq!['#'], seq![':'], seq!['@', '&'], seq!['@', '!'], seq!['@']]
    }

    open spec fn from_mention(id: u64, sigil: Seq<char>) -> Self {
        if sigil == seq!['#'] {
            MentionType::Channel(ChannelId(id))
        } else if sigil == seq![':'] {
            MentionType::Emoji(EmojiId(id))
        } else if sigil == seq!['@', '&'] {
            MentionType::Role(RoleId(id))
        } else {
            MentionType::User(UserId(id))
        }
    }

    fn sigils() -> (r: &'static [&'static str]) {
        let r: &'static [&'static str] = &["#", ":", "@&", "@!", "@"];
        proof {
            reveal_strlit("#");
            reveal_strlit(":");
            reveal_strlit("@&");
            reveal_strlit("@!");
            reveal_strlit("@");
        }
        assert(str_views(r@)[0] == seq!['#']);
        assert(str_views(r@)[1] == seq![':']);
        assert(str_views(r@)[2] == seq!['@', '&']);
        assert(str_views(r@)[3] == seq!['@', '!']);
        assert(str_views(r@)[4] == seq!['@']);
        assert(str_views(r@) =~= Self::spec_sigils());
        r
    }

    fn parse(buf: &str) -> (r: Result<Self, ParseMentionError<'_>>) {
        let (id, found) = match parse_id(buf, Self::sigils()) {
            Ok(parsed) => parsed,
            Err(e) => {
                return Err(e);
            },
        };
        proof {
            lemma_parsed_sigil_is_given(buf@, Self::spec_sigils());
        }
        Ok(mention_type_of(id, found))
    }
}

} // verus!
