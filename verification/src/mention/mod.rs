//! Discord mentions: formatting identifiers as mentions and parsing mentions
//! back into identifiers.

pub mod error;
pub mod fmt;
pub mod iter;
pub mod laws;
pub mod parse;

use crate::decimal::{decimal_chars, u64_to_string};
use crate::model::{ChannelId, EmojiId, RoleId, UserId};
use vstd::prelude::*;

verus! {

/// What a mention refers to.
#[derive(Debug, Clone, Copy, PartialEq, Eq, Structural)]
#[non_exhaustive]
pub enum MentionType {
    Channel(ChannelId),
    Emoji(EmojiId),
    Role(RoleId),
    User(UserId),
}

impl MentionType {
    /// The snowflake of what is mentioned.
    pub open spec fn id(self) -> u64 {
        match self {
            MentionType::Channel(id) => id.0,
            MentionType::Emoji(id) => id.0,
            MentionType::Role(id) => id.0,
            MentionType::User(id) => id.0,
        }
    }

    /// The snowflake of what is mentioned, in decimal.
    pub fn to_string(&self) -> (r: String)
        ensures
            r@ == decimal_chars(self.id() as nat),
    {
        match self {
            MentionType::Channel(id) => u64_to_string(id.0),
            MentionType::Emoji(id) => u64_to_string(id.0),
            MentionType::Role(id) => u64_to_string(id.0),
            MentionType::User(id) => u64_to_string(id.0),
        }
    }
}

} // verus!
