//! Formatting identifiers as mentions: `<#id>` for a channel, `<:emoji:id>`
//! for an emoji, `<@&id>` for a role and `<@id>` for a user.

use crate::decimal::{decimal_chars, push_decimal};
use crate::model::{ChannelId, EmojiId, RoleId, UserId};
use vstd::prelude::*;
use vstd::string::StringExecFns;

verus! {

/// The mention of a channel.
pub open spec fn channel_mention(id: u64) -> Seq<char> {
    "<#"@ + decimal_chars(id as nat) + ">"@
}

/// The mention of an emoji.
pub open spec fn emoji_mention(id: u64) -> Seq<char> {
    "<:emoji:"@ + decimal_chars(id as nat) + ">"@
}

/// The mention of a role.
pub open spec fn role_mention(id: u64) -> Seq<char> {
    "<@&"@ + decimal_chars(id as nat) + ">"@
}

/// The mention of a user.
pub open spec fn user_mention(id: u64) -> Seq<char> {
    "<@"@ + decimal_chars(id as nat) + ">"@
}

/// An identifier, to be written out as a mention.
#[derive(Debug, Clone, Copy, PartialEq, Eq)]
pub struct MentionFormat<T>(T);

impl<T> MentionFormat<T> {
    /// The identifier that is mentioned.
    pub closed spec fn value(self) -> T {
        self.0
    }
}

/// `prefix`, the decimal notation of `id` and `>`.
fn mention_text(prefix: &str, id: u64) -> (r: String)
    ensures
        r@ == prefix@ + decimal_chars(id as nat) + ">"@,
{
    let mut s = String::new();
    s.append(prefix);
    push_decimal(&mut s, id);
    s.append(">");
    s
}

impl MentionFormat<ChannelId> {
    /// The mention, such as `<#123>`.
    pub fn to_string(&self) -> (r: String)
        ensures
            r@ == channel_mention(self.value().0),
    {
        mention_text("<#", self.0.0)
    }
}

impl MentionFormat<EmojiId> {
    /// The mention, such as `<:emoji:123>`.
    pub fn to_string(&self) -> (r: String)
        ensures
            r@ == emoji_mention(self.value().0),
    {
        mention_text("<:emoji:", self.0.0)
    }
}

impl MentionFormat<RoleId> {
    /// The mention, such as `<@&123>`.
    pub fn to_string(&self) -> (r: String)
        ensures
            r@ == role_mention(self.value().0),
    {
        mention_text("<@&", self.0.0)
    }
}

impl MentionFormat<UserId> {
    /// The mention, such as `<@123>`.
    pub fn to_string(&self) -> (r: String)
        ensures
            r@ == user_mention(self.value().0),
    {
        mention_text("<@", self.0.0)
    }
}

/// Something that can be mentioned through an identifier of type `T`.
pub trait Mention<T = Self> {
    /// The identifier through which this is mentioned.
    spec fn mentioned(&self) -> T;

    /// The identifier, to be written out as a mention.
    fn mention(&self) -> (r: MentionFormat<T>)
        ensures
            r.value() == self.mentioned(),
    ;
}

impl<T, M: Mention<T>> Mention<T> for &M {
    open spec fn mentioned(&self) -> T {
        (**self).mentioned()
    }

    fn mention(&self) -> (r: MentionFormat<T>)
        ensures
            r.value() == (**self).mentioned(),
    {
        (*self).mention()
    }
}

impl Mention for ChannelId {
    open spec fn mentioned(&self) -> ChannelId {
        *self
    }

    fn mention(&self) -> (r: MentionFormat<ChannelId>)
        ensures
            r.value() == *self,
    {
        MentionFormat(*self)
    }
}

impl Mention for EmojiId {
    open spec fn mentioned(&self) -> EmojiId {
        *self
    }

    fn mention(&self) -> (r: MentionFormat<EmojiId>)
        ensures
            r.value() == *self,
    {
        MentionFormat(*self)
    }
}

impl Mention for RoleId {
    open spec fn mentioned(&self) -> RoleId {
        *self
    }

    fn mention(&self) -> (r: MentionFormat<RoleId>)
        ensures
            r.value() == *self,
    {
        MentionFormat(*self)
    }
}

impl Mention for UserId {
    open spec fn mentioned(&self) -> UserId {
        *self
    }

    fn mention(&self) -> (r: MentionFormat<UserId>)
        ensures
            r.value() == *self,
    {
        MentionFormat(*self)
    }
}

} // verus!
