//! Formatting an identifier as a mention and parsing the mention gives the
//! identifier back.

use super::fmt::{channel_mention, emoji_mention, role_mention, user_mention};
use super::parse::{first_sigil, parse_body_spec, parse_id_spec, ParseMention};
use super::MentionType;
use crate::decimal::{decimal_chars, is_digit, law_decimal_roundtrip};
use crate::model::{ChannelId, EmojiId, RoleId, UserId};
use crate::text::{first_index_of, lemma_first_index_of, starts_with};
use vstd::prelude::*;

verus! {

/// The id part of a formatted mention reads back as the id.
proof fn lemma_body(id: u64, sigil: Seq<char>)
    ensures
        parse_body_spec(decimal_chars(id as nat) + seq!['>'], sigil) == Ok::<
            (u64, Seq<char>),
            (super::error::ErrorTypeModel, Option<crate::decimal::IntErrorKind>),
        >((id, sigil)),
{
    let d = decimal_chars(id as nat);
    let body = d + seq!['>'];
    crate::decimal::lemma_decimal_digits(id as nat);
    assert forall|j: int| 0 <= j < d.len() implies body[j] != '>' by {
        assert(body[j] == d[j]);
        assert(is_digit(d[j]));
    }
    lemma_first_index_of(body, '>', d.len() as int);
    assert(body.take(d.len() as int) =~= d);
    law_decimal_roundtrip(id);
}

/// The sigil at position `j` is the first one that begins `rest`.
proof fn lemma_first_sigil_is(rest: Seq<char>, sigils: Seq<Seq<char>>, j: int)
    requires
        0 <= j < sigils.len(),
        starts_with(rest, sigils[j]),
        forall|k: int| 0 <= k < j ==> !starts_with(rest, #[trigger] sigils[k]),
    ensures
        first_sigil(rest, sigils) == Some(j),
{
    let c = choose|k: int|
        0 <= k < sigils.len() && starts_with(rest, #[trigger] sigils[k]) && forall|i: int|
            0 <= i < k ==> !starts_with(rest, #[trigger] sigils[i]);
    assert(0 <= c < sigils.len() && starts_with(rest, sigils[c]));
    if c < j {
        assert(!starts_with(rest, sigils[c]));
    } else if c > j {
        assert(!starts_with(rest, sigils[j]));
    }
}

/// A mention formatted by a prefix, an id and `>` parses as the id when its
/// sigil (the prefix without `<`) is the sigil at position `j`.
proof fn lemma_plain_roundtrip(id: u64, sigil: Seq<char>, sigils: Seq<Seq<char>>, j: int)
    requires
        0 <= j < sigils.len(),
        sigils[j] == sigil,
        sigil != seq![':'],
        forall|k: int| 0 <= k < j ==> !starts_with(sigil + decimal_chars(id as nat) + seq!['>'], #[trigger] sigils[k]),
    ensures
        parse_id_spec(seq!['<'] + sigil + decimal_chars(id as nat) + seq!['>'], sigils) == Ok::<
            (u64, Seq<char>),
            (super::error::ErrorTypeModel, Option<crate::decimal::IntErrorKind>),
        >((id, sigil)),
{
    let d = decimal_chars(id as nat);
    let buf = seq!['<'] + sigil + d + seq!['>'];
    let rest = buf.drop_first();
    assert(rest =~= sigil + d + seq!['>']);
    assert(rest.take(sigil.len() as int) =~= sigil);
    lemma_first_sigil_is(rest, sigils, j);
    assert(rest.skip(sigil.len() as int) =~= d + seq!['>']);
    lemma_body(id, sigil);
}

/// Parsing the mention of a channel gives the channel back.
pub proof fn law_channel_mention_roundtrip(id: u64)
    ensures
        parse_id_spec(channel_mention(id), ChannelId::spec_sigils()) == Ok::<
            (u64, Seq<char>),
            (super::error::ErrorTypeModel, Option<crate::decimal::IntErrorKind>),
        >((id, seq!['#'])),
        ChannelId::from_mention(id, seq!['#']) == ChannelId(id),
{
    reveal_strlit("<#");
    reveal_strlit(">");
    assert(channel_mention(id) =~= seq!['<'] + seq!['#'] + decimal_chars(id as nat) + seq!['>']);
    assert(seq!['#'] != seq![':']);
    lemma_plain_roundtrip(id, seq!['#'], ChannelId::spec_sigils(), 0);
}

/// Parsing the mention of a role gives the role back.
pub proof fn law_role_mention_roundtrip(id: u64)
    ensures
        parse_id_spec(role_mention(id), RoleId::spec_sigils()) == Ok::<
            (u64, Seq<char>),
            (super::error::ErrorTypeModel, Option<crate::decimal::IntErrorKind>),
        >((id, seq!['@', '&'])),
        RoleId::from_mention(id, seq!['@', '&']) == RoleId(id),
{
    reveal_strlit("<@&");
    reveal_strlit(">");
    assert(role_mention(id) =~= seq!['<'] + seq!['@', '&'] + decimal_chars(id as nat) + seq!['>']);
    assert(seq!['@', '&'] != seq![':']);
    lemma_plain_roundtrip(id, seq!['@', '&'], RoleId::spec_sigils(), 0);
}

/// Parsing the mention of a user gives the user back.
pub proof fn law_user_mention_roundtrip(id: u64)
    ensures
        parse_id_spec(user_mention(id), UserId::spec_sigils()) == Ok::<
            (u64, Seq<char>),
            (super::error::ErrorTypeModel, Option<crate::decimal::IntErrorKind>),
        >((id, seq!['@'])),
        UserId::from_mention(id, seq!['@']) == UserId(id),
{
    reveal_strlit("<@");
    reveal_strlit(">");
    let d = decimal_chars(id as nat);
    assert(user_mention(id) =~= seq!['<'] + seq!['@'] + d + seq!['>']);
    assert(seq!['@'] != seq![':']);
    let rest = seq!['@'] + d + seq!['>'];
    crate::decimal::lemma_decimal_digits(id as nat);
    assert(rest[1] == d[0]);
    assert(is_digit(d[0]));
    assert(!starts_with(rest, seq!['@', '!'])) by {
        if starts_with(rest, seq!['@', '!']) {
            assert(rest.take(2)[1] == '!');
        }
    }
    lemma_plain_roundtrip(id, seq!['@'], UserId::spec_sigils(), 1);
}

/// What follows the sigil of an emoji's mention reads as the emoji's id.
#[verifier::rlimit(100)]
proof fn lemma_emoji_after(id: u64)
    ensures
        super::parse::parse_after_sigil_spec(
            seq!['e', 'm', 'o', 'j', 'i', ':'] + decimal_chars(id as nat) + seq!['>'],
            seq![':'],
        ) == Ok::<
            (u64, Seq<char>),
            (super::error::ErrorTypeModel, Option<crate::decimal::IntErrorKind>),
        >((id, seq![':'])),
{
    let d = decimal_chars(id as nat);
    let after = seq!['e', 'm', 'o', 'j', 'i', ':'] + d + seq!['>'];
    lemma_first_index_of(after, ':', 5);
    assert(after.skip(6) =~= d + seq!['>']);
    lemma_body(id, seq![':']);
}

/// The mention of an emoji parses as the emoji's id when the sigil at
/// position `j` is `:` and no sigil before it begins the mention.
proof fn lemma_emoji_roundtrip(id: u64, sigils: Seq<Seq<char>>, j: int)
    requires
        0 <= j < sigils.len(),
        sigils[j] == seq![':'],
        forall|k: int|
            0 <= k < j ==> !starts_with(
                seq![':', 'e', 'm', 'o', 'j', 'i', ':'] + decimal_chars(id as nat) + seq!['>'],
                #[trigger] sigils[k],
            ),
    ensures
        parse_id_spec(emoji_mention(id), sigils) == Ok::<
            (u64, Seq<char>),
            (super::error::ErrorTypeModel, Option<crate::decimal::IntErrorKind>),
        >((id, seq![':'])),
{
    reveal_strlit("<:emoji:");
    reveal_strlit(">");
    let d = decimal_chars(id as nat);
    let buf = seq!['<', ':', 'e', 'm', 'o', 'j', 'i', ':'] + d + seq!['>'];
    assert(emoji_mention(id) =~= buf);
    let rest = buf.drop_first();
    assert(rest =~= seq![':', 'e', 'm', 'o', 'j', 'i', ':'] + d + seq!['>']);
    assert(rest.take(1) =~= seq![':']);
    lemma_first_sigil_is(rest, sigils, j);
    assert(rest.skip(1) =~= seq!['e', 'm', 'o', 'j', 'i', ':'] + d + seq!['>']);
    lemma_emoji_after(id);
}

/// Parsing the mention of an emoji gives the emoji back.
pub proof fn law_emoji_mention_roundtrip(id: u64)
    ensures
        parse_id_spec(emoji_mention(id), EmojiId::spec_sigils()) == Ok::<
            (u64, Seq<char>),
            (super::error::ErrorTypeModel, Option<crate::decimal::IntErrorKind>),
        >((id, seq![':'])),
        EmojiId::from_mention(id, seq![':']) == EmojiId(id),
{
    lemma_emoji_roundtrip(id, EmojiId::spec_sigils(), 0);
}

/// The mention of a channel parses, among all the sigils, with the sigil `#`.
proof fn lemma_type_channel(id: u64)
    ensures
        MentionType::from_mention(id, seq!['#']) == MentionType::Channel(ChannelId(id)),
        parse_id_spec(channel_mention(id), MentionType::spec_sigils()) == Ok::<
            (u64, Seq<char>),
            (super::error::ErrorTypeModel, Option<crate::decimal::IntErrorKind>),
        >((id, seq!['#'])),
{
    let d = decimal_chars(id as nat);
    reveal_strlit("<#");
    reveal_strlit(">");
    assert(channel_mention(id) =~= seq!['<'] + seq!['#'] + d + seq!['>']);
    assert(seq!['#'] != seq![':']);
    lemma_plain_roundtrip(id, seq!['#'], MentionType::spec_sigils(), 0);
}

/// The mention of a role parses, among all the sigils, with the sigil `@&`.
proof fn lemma_type_role(id: u64)
    ensures
        MentionType::from_mention(id, seq!['@', '&']) == MentionType::Role(RoleId(id)),
        parse_id_spec(role_mention(id), MentionType::spec_sigils()) == Ok::<
            (u64, Seq<char>),
            (super::error::ErrorTypeModel, Option<crate::decimal::IntErrorKind>),
        >((id, seq!['@', '&'])),
{
    let sigils = MentionType::spec_sigils();
    let d = decimal_chars(id as nat);
    reveal_strlit("<@&");
    reveal_strlit(">");
    assert(role_mention(id) =~= seq!['<'] + seq!['@', '&'] + d + seq!['>']);
    let rr = seq!['@', '&'] + d + seq!['>'];
    assert(!starts_with(rr, seq!['#'])) by {
        if starts_with(rr, seq!['#']) {
            assert(rr.take(1)[0] == '#');
        }
    }
    assert(!starts_with(rr, seq![':'])) by {
        if starts_with(rr, seq![':']) {
            assert(rr.take(1)[0] == ':');
        }
    }
    lemma_plain_roundtrip(id, seq!['@', '&'], sigils, 2);
    assert(seq!['@', '&'] != seq!['#']);
    assert(seq!['@', '&'] != seq![':']);
}

/// The mention of a user parses, among all the sigils, with the sigil `@`.
proof fn lemma_type_user(id: u64)
    ensures
        MentionType::from_mention(id, seq!['@']) == MentionType::User(UserId(id)),
        parse_id_spec(user_mention(id), MentionType::spec_sigils()) == Ok::<
            (u64, Seq<char>),
            (super::error::ErrorTypeModel, Option<crate::decimal::IntErrorKind>),
        >((id, seq!['@'])),
{
    let sigils = MentionType::spec_sigils();
    let d = decimal_chars(id as nat);
    crate::decimal::lemma_decimal_digits(id as nat);
    assert(is_digit(d[0]));
    reveal_strlit("<@");
    reveal_strlit(">");
    assert(user_mention(id) =~= seq!['<'] + seq!['@'] + d + seq!['>']);
    let ur = seq!['@'] + d + seq!['>'];
    assert(ur[1] == d[0]);
    assert forall|k: int| 0 <= k < 4 implies !starts_with(ur, #[trigger] sigils[k]) by {
        if starts_with(ur, sigils[k]) {
            assert(ur.take(sigils[k].len() as int)[0] == sigils[k][0]);
            if k >= 2 {
                assert(ur.take(2)[1] == sigils[k][1]);
            }
        }
    }
    lemma_plain_roundtrip(id, seq!['@'], sigils, 4);
    assert(seq!['@'] != seq!['#']);
    assert(seq!['@'] != seq![':']);
    assert(seq!['@'].len() != seq!['@', '&'].len());
}

/// The mention of an emoji parses, among all the sigils, with the sigil `:`.
proof fn lemma_type_emoji(id: u64)
    ensures
        MentionType::from_mention(id, seq![':']) == MentionType::Emoji(EmojiId(id)),
        parse_id_spec(emoji_mention(id), MentionType::spec_sigils()) == Ok::<
            (u64, Seq<char>),
            (super::error::ErrorTypeModel, Option<crate::decimal::IntErrorKind>),
        >((id, seq![':'])),
{
    let sigils = MentionType::spec_sigils();
    let rest = seq![':', 'e', 'm', 'o', 'j', 'i', ':'] + decimal_chars(id as nat) + seq!['>'];
    assert(!starts_with(rest, seq!['#'])) by {
        if starts_with(rest, seq!['#']) {
            assert(rest.take(1)[0] == '#');
        }
    }
    assert forall|k: int| 0 <= k < 1 implies !starts_with(rest, #[trigger] sigils[k]) by {
        assert(sigils[0] == seq!['#']);
    }
    lemma_emoji_roundtrip(id, sigils, 1);
    assert(seq![':'] != seq!['#']);
}

/// Parsing any formatted mention as a mention of unknown type gives the
/// right kind of identifier back.
#[verifier::rlimit(100)]
pub proof fn law_mention_type_roundtrip(id: u64)
    ensures
        parse_id_spec(channel_mention(id), MentionType::spec_sigils()) matches Ok((i, s))
            && MentionType::from_mention(i, s) == MentionType::Channel(ChannelId(id)),
        parse_id_spec(role_mention(id), MentionType::spec_sigils()) matches Ok((i, s))
            && MentionType::from_mention(i, s) == MentionType::Role(RoleId(id)),
        parse_id_spec(user_mention(id), MentionType::spec_sigils()) matches Ok((i, s))
            && MentionType::from_mention(i, s) == MentionType::User(UserId(id)),
        parse_id_spec(emoji_mention(id), MentionType::spec_sigils()) matches Ok((i, s))
            && MentionType::from_mention(i, s) == MentionType::Emoji(EmojiId(id)),
{
    lemma_type_channel(id);
    lemma_type_role(id);
    lemma_type_user(id);
    lemma_type_emoji(id);
}

} // verus!
