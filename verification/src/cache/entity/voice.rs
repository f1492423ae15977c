//! The voice state entity: where a user is connected to voice in a guild.

use super::{option_str_eq, Entity};
use crate::cache::source::VoiceState;
use crate::model::{ChannelId, GuildId, UserId};
use vstd::prelude::*;

verus! {

/// The voice state of a user in a guild.
#[derive(Debug, Clone, PartialEq, Eq)]
pub struct VoiceStateEntity {
    pub channel_id: Option<ChannelId>,
    pub deaf: bool,
    pub guild_id: GuildId,
    pub mute: bool,
    pub self_deaf: bool,
    pub self_mute: bool,
    pub self_stream: bool,
    pub session_id: String,
    pub suppress: bool,
    pub token: Option<String>,
    pub user_id: UserId,
}

/// The entity of the voice state `value.0` in the guild `value.1`.
impl From<(VoiceState, GuildId)> for VoiceStateEntity {
    fn from(value: (VoiceState, GuildId)) -> (r: Self) {
        VoiceStateEntity {
            channel_id: value.0.channel_id,
            deaf: value.0.deaf,
            guild_id: value.1,
            mute: value.0.mute,
            self_deaf: value.0.self_deaf,
            self_mute: value.0.self_mute,
            self_stream: value.0.self_stream,
            session_id: value.0.session_id,
            suppress: value.0.suppress,
            token: value.0.token,
            user_id: value.0.user_id,
        }
    }
}

impl vstd::std_specs::convert::FromSpecImpl<(VoiceState, GuildId)> for VoiceStateEntity {
    open spec fn obeys_from_spec() -> bool {
        true
    }

    open spec fn from_spec(value: (VoiceState, GuildId)) -> Self {
        VoiceStateEntity {
            channel_id: value.0.channel_id,
            deaf: value.0.deaf,
            guild_id: value.1,
            mute: value.0.mute,
            self_deaf: value.0.self_deaf,
            self_mute: value.0.self_mute,
            self_stream: value.0.self_stream,
            session_id: value.0.session_id,
            suppress: value.0.suppress,
            token: value.0.token,
            user_id: value.0.user_id,
        }
    }
}

/// A voice state entity equals a voice state when they agree on every field,
/// the state's guild being given.
impl PartialEq<VoiceState> for VoiceStateEntity {
    fn eq(&self, other: &VoiceState) -> (r: bool) {
        let same_channel = match (self.channel_id, other.channel_id) {
            (Some(a), Some(b)) => a.0 == b.0,
            (None, None) => true,
            _ => false,
        };
        let same_guild = match other.guild_id {
            Some(g) => g.0 == self.guild_id.0,
            None => false,
        };
        same_channel && self.deaf == other.deaf && same_guild && self.mute == other.mute
            && self.self_deaf == other.self_deaf && self.self_mute == other.self_mute
            && self.self_stream == other.self_stream && crate::text::str_eq(
            self.session_id.as_str(),
            other.session_id.as_str(),
        ) && self.suppress == other.suppress && option_str_eq(&self.token, &other.token)
            && self.user_id.0 == other.user_id.0
    }
}

impl vstd::std_specs::cmp::PartialEqSpecImpl<VoiceState> for VoiceStateEntity {
    open spec fn obeys_eq_spec() -> bool {
        true
    }

    open spec fn eq_spec(&self, other: &VoiceState) -> bool {
        &&& self.channel_id == other.channel_id
        &&& self.deaf == other.deaf
        &&& Some(self.guild_id) == other.guild_id
        &&& self.mute == other.mute
        &&& self.self_deaf == other.self_deaf
        &&& self.self_mute == other.self_mute
        &&& self.self_stream == other.self_stream
        &&& self.session_id@ == other.session_id@
        &&& self.suppress == other.suppress
        &&& crate::cache::entity::guild::same_text(self.token, other.token)
        &&& self.user_id == other.user_id
    }
}

impl Entity for VoiceStateEntity {
    type Id = (GuildId, UserId);

    open spec fn spec_id(&self) -> (GuildId, UserId) {
        (self.guild_id, self.user_id)
    }

    fn id(&self) -> (r: (GuildId, UserId)) {
        (self.guild_id, self.user_id)
    }
}

} // verus!
