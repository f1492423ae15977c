//! The Discord values that the cache's entities are made from, holding as
//! plain values what the cache reads of them.
//!
//! Values that the cache only carries along, such as embeds, activities and
//! the guild settings enums, keep the type of the Discord model.

use crate::model::{
    ApplicationId, AttachmentId, ChannelId, ChannelType, EmojiId, GuildId, MessageId,
    PermissionOverwrite, RoleId, UserId, WebhookId,
};
use crate::permissions::Permissions;
use twilight_model::channel::embed::Embed;
use twilight_model::channel::message::{MessageActivity, MessageReaction, MessageType};
use twilight_model::gateway::presence::{Activity, ClientStatus};
use twilight_model::guild::{
    DefaultMessageNotificationLevel, ExplicitContentFilter, MfaLevel, PremiumTier,
    VerificationLevel,
};
use twilight_model::user::PremiumType;
use vstd::prelude::*;

verus! {

#[verifier::external_type_specification]
#[verifier::external_body]
pub struct ExEmbed(Embed);

#[verifier::external_type_specification]
#[verifier::external_body]
pub struct ExMessageActivity(MessageActivity);

#[verifier::external_type_specification]
#[verifier::external_body]
pub struct ExMessageReaction(MessageReaction);

#[verifier::external_type_specification]
#[verifier::external_body]
pub struct ExMessageType(MessageType);

#[verifier::external_type_specification]
#[verifier::external_body]
pub struct ExActivity(Activity);

#[verifier::external_type_specification]
#[verifier::external_body]
pub struct ExClientStatus(ClientStatus);

#[verifier::external_type_specification]
#[verifier::external_body]
pub struct ExDefaultMessageNotificationLevel(DefaultMessageNotificationLevel);

#[verifier::external_type_specification]
#[verifier::external_body]
pub struct ExExplicitContentFilter(ExplicitContentFilter);

#[verifier::external_type_specification]
#[verifier::external_body]
pub struct ExMfaLevel(MfaLevel);

#[verifier::external_type_specification]
#[verifier::external_body]
pub struct ExPremiumTier(PremiumTier);

#[verifier::external_type_specification]
#[verifier::external_body]
pub struct ExVerificationLevel(VerificationLevel);

#[verifier::external_type_specification]
#[verifier::external_body]
pub struct ExPremiumType(PremiumType);

/// `Clone::clone` of twilight-model for `Embed`. Nothing is claimed of the copy.
pub assume_specification[ <Embed as Clone>::clone ](value: &Embed) -> Embed;

/// `Clone::clone` of twilight-model for `MessageActivity`. Nothing is claimed of the copy.
pub assume_specification[ <MessageActivity as Clone>::clone ](value: &MessageActivity) -> MessageActivity;

/// `Clone::clone` of twilight-model for `MessageReaction`. Nothing is claimed of the copy.
pub assume_specification[ <MessageReaction as Clone>::clone ](value: &MessageReaction) -> MessageReaction;

/// `Clone::clone` of twilight-model for `MessageType`. Nothing is claimed of the copy.
pub assume_specification[ <MessageType as Clone>::clone ](value: &MessageType) -> MessageType;

/// `Clone::clone` of twilight-model for `Activity`. Nothing is claimed of the copy.
pub assume_specification[ <Activity as Clone>::clone ](value: &Activity) -> Activity;

/// `Clone::clone` of twilight-model for `ClientStatus`. Nothing is claimed of the copy.
pub assume_specification[ <ClientStatus as Clone>::clone ](value: &ClientStatus) -> ClientStatus;

/// `Clone::clone` of twilight-model for `DefaultMessageNotificationLevel`. Nothing is claimed of the copy.
pub assume_specification[ <DefaultMessageNotificationLevel as Clone>::clone ](value: &DefaultMessageNotificationLevel) -> DefaultMessageNotificationLevel;

/// `Clone::clone` of twilight-model for `ExplicitContentFilter`. Nothing is claimed of the copy.
pub assume_specification[ <ExplicitContentFilter as Clone>::clone ](value: &ExplicitContentFilter) -> ExplicitContentFilter;

/// `Clone::clone` of twilight-model for `MfaLevel`. Nothing is claimed of the copy.
pub assume_specification[ <MfaLevel as Clone>::clone ](value: &MfaLevel) -> MfaLevel;

/// `Clone::clone` of twilight-model for `PremiumTier`. Nothing is claimed of the copy.
pub assume_specification[ <PremiumTier as Clone>::clone ](value: &PremiumTier) -> PremiumTier;

/// `Clone::clone` of twilight-model for `VerificationLevel`. Nothing is claimed of the copy.
pub assume_specification[ <VerificationLevel as Clone>::clone ](value: &VerificationLevel) -> VerificationLevel;

/// `Clone::clone` of twilight-model for `PremiumType`. Nothing is claimed of the copy.
pub assume_specification[ <PremiumType as Clone>::clone ](value: &PremiumType) -> PremiumType;

/// A user, by what the cache reads of it.
#[derive(Debug, Clone, PartialEq, Eq)]
pub struct User {
    pub avatar: Option<String>,
    pub bot: bool,
    pub discriminator: String,
    pub id: UserId,
    pub name: String,
}

/// A user, or only its identifier.
#[derive(Debug, Clone, PartialEq, Eq)]
pub enum UserOrId {
    User(User),
    UserId { id: UserId },
}

/// The online status of a user.
#[derive(Debug, Clone, Copy, PartialEq, Eq, Structural, Hash)]
pub enum Status {
    DoNotDisturb,
    Idle,
    Invisible,
    Offline,
    Online,
}

/// A file attached to a message.
#[derive(Debug, Clone, PartialEq, Eq)]
pub struct Attachment {
    pub content_type: Option<String>,
    pub filename: String,
    pub height: Option<u64>,
    pub id: AttachmentId,
    pub proxy_url: String,
    pub size: u64,
    pub url: String,
    pub width: Option<u64>,
}

/// A channel that a message mentions.
#[derive(Debug, Clone, PartialEq, Eq)]
pub struct ChannelMention {
    pub guild_id: GuildId,
    pub id: ChannelId,
    pub kind: ChannelType,
    pub name: String,
}

/// A message.
#[derive(Debug, Clone)]
pub struct Message {
    pub activity: Option<MessageActivity>,
    pub application_id: Option<ApplicationId>,
    pub attachments: Vec<Attachment>,
    pub author: User,
    pub channel_id: ChannelId,
    pub content: String,
    pub edited_timestamp: Option<String>,
    pub embeds: Vec<Embed>,
    pub flags: Option<u64>,
    pub guild_id: Option<GuildId>,
    pub id: MessageId,
    pub kind: MessageType,
    pub mention_channels: Vec<ChannelMention>,
    pub mention_everyone: bool,
    pub mention_roles: Vec<RoleId>,
    pub mentions: Vec<User>,
    pub pinned: bool,
    pub reactions: Vec<MessageReaction>,
    pub timestamp: String,
    pub tts: bool,
    pub webhook_id: Option<WebhookId>,
}

/// The fields of a message that an update changes; an absent field is unchanged.
#[derive(Debug, Clone)]
pub struct MessageUpdate {
    pub attachments: Option<Vec<Attachment>>,
    pub author: Option<User>,
    pub channel_id: ChannelId,
    pub content: Option<String>,
    pub edited_timestamp: Option<String>,
    pub embeds: Option<Vec<Embed>>,
    pub guild_id: Option<GuildId>,
    pub id: MessageId,
    pub kind: Option<MessageType>,
    pub mention_everyone: Option<bool>,
    pub mention_roles: Option<Vec<RoleId>>,
    pub mentions: Option<Vec<User>>,
    pub pinned: Option<bool>,
    pub timestamp: Option<String>,
    pub tts: Option<bool>,
}

/// A member of a guild.
#[derive(Debug, Clone, PartialEq, Eq)]
pub struct Member {
    pub deaf: bool,
    pub guild_id: GuildId,
    pub hoisted_role: Option<RoleId>,
    pub joined_at: Option<String>,
    pub mute: bool,
    pub nick: Option<String>,
    pub pending: bool,
    pub premium_since: Option<String>,
    pub roles: Vec<RoleId>,
    pub user: User,
}

/// The new state of a member of a guild.
#[derive(Debug, Clone, PartialEq, Eq)]
pub struct MemberUpdate {
    pub guild_id: GuildId,
    pub deaf: Option<bool>,
    pub joined_at: String,
    pub mute: Option<bool>,
    pub nick: Option<String>,
    pub pending: bool,
    pub premium_since: Option<String>,
    pub roles: Vec<RoleId>,
    pub user: User,
}

/// The presence of a user in a guild.
#[derive(Debug, Clone)]
pub struct Presence {
    pub activities: Vec<Activity>,
    pub client_status: ClientStatus,
    pub guild_id: GuildId,
    pub status: Status,
    pub user: UserOrId,
}

/// A change of the presence of a user in a guild.
#[derive(Debug, Clone)]
pub struct PresenceUpdate {
    pub activities: Vec<Activity>,
    pub client_status: ClientStatus,
    pub game: Option<Activity>,
    pub guild_id: GuildId,
    pub status: Status,
    pub user: UserOrId,
}

/// The voice state of a user.
#[derive(Debug, Clone, PartialEq, Eq)]
pub struct VoiceState {
    pub channel_id: Option<ChannelId>,
    pub deaf: bool,
    pub guild_id: Option<GuildId>,
    pub mute: bool,
    pub self_deaf: bool,
    pub self_mute: bool,
    pub self_stream: bool,
    pub session_id: String,
    pub suppress: bool,
    pub token: Option<String>,
    pub user_id: UserId,
}

/// A custom emoji of a guild.
#[derive(Debug, Clone, PartialEq, Eq)]
pub struct Emoji {
    pub animated: bool,
    pub available: bool,
    pub id: EmojiId,
    pub managed: bool,
    pub name: String,
    pub require_colons: bool,
    pub roles: Vec<RoleId>,
    pub user: Option<User>,
}

/// A role of a guild.
#[derive(Debug, Clone, PartialEq, Eq)]
pub struct Role {
    pub color: u32,
    pub hoist: bool,
    pub id: RoleId,
    pub managed: bool,
    pub mentionable: bool,
    pub name: String,
    pub permissions: Permissions,
    pub position: i64,
}

/// A category of channels in a guild.
#[derive(Debug, Clone, PartialEq, Eq)]
pub struct CategoryChannel {
    pub guild_id: Option<GuildId>,
    pub id: ChannelId,
    pub kind: ChannelType,
    pub name: String,
    pub permission_overwrites: Vec<PermissionOverwrite>,
    pub position: i64,
}

/// A group direct message channel.
#[derive(Debug, Clone, PartialEq, Eq)]
pub struct Group {
    pub application_id: Option<ApplicationId>,
    pub icon: Option<String>,
    pub id: ChannelId,
    pub kind: ChannelType,
    pub last_message_id: Option<MessageId>,
    pub last_pin_timestamp: Option<String>,
    pub name: Option<String>,
    pub owner_id: UserId,
    pub recipients: Vec<User>,
}

/// A direct message channel.
#[derive(Debug, Clone, PartialEq, Eq)]
pub struct PrivateChannel {
    pub id: ChannelId,
    pub last_message_id: Option<MessageId>,
    pub last_pin_timestamp: Option<String>,
    pub kind: ChannelType,
    pub recipients: Vec<User>,
}

/// A voice channel of a guild.
#[derive(Debug, Clone, PartialEq, Eq)]
pub struct VoiceChannel {
    pub bitrate: u64,
    pub guild_id: Option<GuildId>,
    pub id: ChannelId,
    pub kind: ChannelType,
    pub name: String,
    pub parent_id: Option<ChannelId>,
    pub permission_overwrites: Vec<PermissionOverwrite>,
    pub position: i64,
    pub user_limit: Option<u64>,
}

/// The user that the bot is logged in as.
#[derive(Debug, Clone)]
pub struct CurrentUser {
    pub avatar: Option<String>,
    pub bot: bool,
    pub discriminator: String,
    pub email: Option<String>,
    pub flags: Option<u64>,
    pub id: UserId,
    pub mfa_enabled: bool,
    pub name: String,
    pub premium_type: Option<PremiumType>,
    pub public_flags: Option<u64>,
    pub verified: Option<bool>,
}

/// A guild.
#[derive(Debug, Clone)]
pub struct Guild {
    pub afk_channel_id: Option<ChannelId>,
    pub afk_timeout: u64,
    pub application_id: Option<ApplicationId>,
    pub approximate_member_count: Option<u64>,
    pub approximate_presence_count: Option<u64>,
    pub banner: Option<String>,
    pub default_message_notifications: DefaultMessageNotificationLevel,
    pub description: Option<String>,
    pub discovery_splash: Option<String>,
    pub explicit_content_filter: ExplicitContentFilter,
    pub features: Vec<String>,
    pub icon: Option<String>,
    pub id: GuildId,
    pub joined_at: Option<String>,
    pub large: bool,
    pub max_members: Option<u64>,
    pub max_presences: Option<u64>,
    pub max_video_channel_users: Option<u64>,
    pub member_count: Option<u64>,
    pub mfa_level: MfaLevel,
    pub name: String,
    pub owner_id: UserId,
    pub owner: Option<bool>,
    pub permissions: Option<Permissions>,
    pub preferred_locale: String,
    pub premium_subscription_count: Option<u64>,
    pub premium_tier: PremiumTier,
    pub rules_channel_id: Option<ChannelId>,
    pub splash: Option<String>,
    pub system_channel_flags: u64,
    pub system_channel_id: Option<ChannelId>,
    pub unavailable: bool,
    pub vanity_url_code: Option<String>,
    pub verification_level: VerificationLevel,
    pub widget_channel_id: Option<ChannelId>,
    pub widget_enabled: Option<bool>,
}

/// The fields of a guild that an update gives.
#[derive(Debug, Clone)]
pub struct PartialGuild {
    pub id: GuildId,
    pub afk_channel_id: Option<ChannelId>,
    pub afk_timeout: u64,
    pub application_id: Option<ApplicationId>,
    pub banner: Option<String>,
    pub default_message_notifications: DefaultMessageNotificationLevel,
    pub description: Option<String>,
    pub discovery_splash: Option<String>,
    pub explicit_content_filter: ExplicitContentFilter,
    pub features: Vec<String>,
    pub icon: Option<String>,
    pub max_members: Option<u64>,
    pub max_presences: Option<u64>,
    pub member_count: Option<u64>,
    pub mfa_level: MfaLevel,
    pub name: String,
    pub owner_id: UserId,
    pub owner: Option<bool>,
    pub permissions: Option<Permissions>,
    pub preferred_locale: String,
    pub premium_subscription_count: Option<u64>,
    pub premium_tier: PremiumTier,
    pub rules_channel_id: Option<ChannelId>,
    pub splash: Option<String>,
    pub system_channel_flags: u64,
    pub system_channel_id: Option<ChannelId>,
    pub verification_level: VerificationLevel,
    pub vanity_url_code: Option<String>,
    pub widget_channel_id: Option<ChannelId>,
    pub widget_enabled: Option<bool>,
}

} // verus!
