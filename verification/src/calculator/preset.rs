//! Groups of permissions that the calculator treats together.

use crate::permissions::{
    ADD_REACTIONS, ADMINISTRATOR, ATTACH_FILES, BAN_MEMBERS, CHANGE_NICKNAME, CONNECT,
    CREATE_INVITE, DEAFEN_MEMBERS, EMBED_LINKS, KICK_MEMBERS, MANAGE_CHANNELS, MANAGE_EMOJIS,
    MANAGE_GUILD, MANAGE_MESSAGES, MANAGE_NICKNAMES, MANAGE_ROLES, MANAGE_WEBHOOKS,
    MENTION_EVERYONE, MOVE_MEMBERS, MUTE_MEMBERS, PRIORITY_SPEAKER, READ_MESSAGE_HISTORY,
    REQUEST_TO_SPEAK, SEND_MESSAGES, SEND_TTS_MESSAGES, SPEAK, STREAM, USE_EXTERNAL_EMOJIS,
    USE_SLASH_COMMANDS, USE_VAD, VIEW_AUDIT_LOG, VIEW_CHANNEL, VIEW_GUILD_INSIGHTS,
};
use vstd::prelude::*;

verus! {

/// Permissions that only make sense when a member can send messages.
pub const PERMISSIONS_MESSAGING: u64 = ATTACH_FILES | EMBED_LINKS | MENTION_EVERYONE
    | SEND_TTS_MESSAGES;

/// Permissions that apply to a whole guild and never to a single channel.
pub const PERMISSIONS_ROOT_ONLY: u64 = ADMINISTRATOR | BAN_MEMBERS | CHANGE_NICKNAME | KICK_MEMBERS
    | MANAGE_EMOJIS | MANAGE_GUILD | MANAGE_NICKNAMES | VIEW_AUDIT_LOG | VIEW_GUILD_INSIGHTS;

/// Permissions that belong to stage channels and to no other kind of channel.
pub const PERMISSIONS_STAGE_ONLY: u64 = PERMISSIONS_STAGE & !PERMISSIONS_TEXT & !PERMISSIONS_VOICE;

/// Permissions that belong to text channels and to no other kind of channel.
pub const PERMISSIONS_TEXT_ONLY: u64 = PERMISSIONS_TEXT & !PERMISSIONS_STAGE & !PERMISSIONS_VOICE;

/// Permissions that belong to voice channels and to no other kind of channel.
pub const PERMISSIONS_VOICE_ONLY: u64 = PERMISSIONS_VOICE & !PERMISSIONS_STAGE & !PERMISSIONS_TEXT;

/// Permissions that a stage channel can grant.
pub const PERMISSIONS_STAGE: u64 = CONNECT | CREATE_INVITE | MANAGE_CHANNELS | MANAGE_ROLES
    | MOVE_MEMBERS | MUTE_MEMBERS | REQUEST_TO_SPEAK | VIEW_CHANNEL;

/// Permissions that a text channel can grant.
pub const PERMISSIONS_TEXT: u64 = ADD_REACTIONS | ATTACH_FILES | CREATE_INVITE | EMBED_LINKS
    | MANAGE_CHANNELS | MANAGE_MESSAGES | MANAGE_ROLES | MANAGE_WEBHOOKS | MENTION_EVERYONE
    | READ_MESSAGE_HISTORY | SEND_MESSAGES | SEND_TTS_MESSAGES | USE_EXTERNAL_EMOJIS
    | USE_SLASH_COMMANDS | VIEW_CHANNEL;

/// Permissions that a voice channel can grant.
pub const PERMISSIONS_VOICE: u64 = CONNECT | CREATE_INVITE | DEAFEN_MEMBERS | MANAGE_CHANNELS
    | MANAGE_ROLES | MOVE_MEMBERS | MUTE_MEMBERS | PRIORITY_SPEAKER | SPEAK | STREAM | USE_VAD
    | VIEW_CHANNEL;

/// The channel-kind presets single out exactly these permissions.
pub proof fn lemma_preset_values()
    ensures
        PERMISSIONS_STAGE_ONLY == REQUEST_TO_SPEAK,
        PERMISSIONS_TEXT_ONLY == ADD_REACTIONS | ATTACH_FILES | EMBED_LINKS | MANAGE_MESSAGES
            | MANAGE_WEBHOOKS | MENTION_EVERYONE | READ_MESSAGE_HISTORY | SEND_MESSAGES
            | SEND_TTS_MESSAGES | USE_EXTERNAL_EMOJIS | USE_SLASH_COMMANDS,
        PERMISSIONS_VOICE_ONLY == DEAFEN_MEMBERS | PRIORITY_SPEAKER | SPEAK | STREAM | USE_VAD,
{
    assert(PERMISSIONS_STAGE_ONLY == REQUEST_TO_SPEAK) by (bit_vector);
    assert(PERMISSIONS_TEXT_ONLY == ADD_REACTIONS | ATTACH_FILES | EMBED_LINKS | MANAGE_MESSAGES
        | MANAGE_WEBHOOKS | MENTION_EVERYONE | READ_MESSAGE_HISTORY | SEND_MESSAGES
        | SEND_TTS_MESSAGES | USE_EXTERNAL_EMOJIS | USE_SLASH_COMMANDS) by (bit_vector);
    assert(PERMISSIONS_VOICE_ONLY == DEAFEN_MEMBERS | PRIORITY_SPEAKER | SPEAK | STREAM | USE_VAD)
        by (bit_vector);
}

} // verus!
