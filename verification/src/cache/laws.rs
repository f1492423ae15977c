//! Laws of the cache's entities: an entity made from a value equals that
//! value, and applying the same update twice changes nothing more.

use super::emoji::CachedEmoji;
use super::entity::channel::{
    AttachmentEntity, CategoryChannelEntity, PrivateChannelEntity, VoiceChannelEntity,
};
use super::entity::user::CurrentUserEntity;
use super::entity::gateway::PresenceEntity;
use super::entity::guild::{
    guild_after, member_after, EmojiEntity, GuildEntity, MemberEntity, RoleEntity,
};
use super::entity::voice::VoiceStateEntity;
use super::entity::Entity;
use super::source::{
    Attachment, CategoryChannel, CurrentUser, Emoji, Guild, Member, MemberUpdate, PartialGuild,
    Presence, PrivateChannel, Role, VoiceChannel, VoiceState,
};
use crate::model::{GuildId, MessageId};
use vstd::prelude::*;
use vstd::std_specs::cmp::PartialEqSpec;
use vstd::std_specs::convert::FromSpec;

verus! {

/// The entity made from a member equals that member, and is known by the
/// member's guild and user.
pub proof fn law_member_entity_equals_member(member: Member)
    ensures
        <MemberEntity as FromSpec<Member>>::from_spec(member).eq_spec(&member),
        <MemberEntity as FromSpec<Member>>::from_spec(member).spec_id() == (
            member.guild_id,
            member.user.id,
        ),
{
}

/// The entity made from an emoji of a guild equals that emoji, and is known by
/// the emoji's identifier.
pub proof fn law_emoji_entity_equals_emoji(guild_id: GuildId, emoji: Emoji)
    ensures
        <EmojiEntity as FromSpec<(GuildId, Emoji)>>::from_spec((guild_id, emoji)).eq_spec(&emoji),
        <EmojiEntity as FromSpec<(GuildId, Emoji)>>::from_spec((guild_id, emoji)).spec_id()
            == emoji.id,
{
}

/// The entity made from a presence equals that presence.
pub proof fn law_presence_entity_equals_presence(presence: Presence)
    ensures
        <PresenceEntity as FromSpec<Presence>>::from_spec(presence).eq_spec(&presence),
{
}

/// The entity made from a voice state in the guild that the state names
/// equals that voice state.
pub proof fn law_voice_state_entity_equals_state(state: VoiceState, guild_id: GuildId)
    requires
        state.guild_id == Some(guild_id),
    ensures
        <VoiceStateEntity as FromSpec<(VoiceState, GuildId)>>::from_spec((state, guild_id)).eq_spec(
            &state,
        ),
{
}

/// The cached form of an emoji equals the emoji; turning it back into an
/// emoji gives the emoji again when the emoji's creator is unknown.
pub proof fn law_cached_emoji_roundtrip(emoji: Emoji)
    ensures
        <CachedEmoji as FromSpec<Emoji>>::from_spec(emoji).eq_spec(&emoji),
        emoji.user is None ==> <Emoji as FromSpec<CachedEmoji>>::from_spec(
            <CachedEmoji as FromSpec<Emoji>>::from_spec(emoji),
        ) == emoji,
{
}

/// Turning a cached emoji into an emoji and back gives the cached emoji again.
pub proof fn law_emoji_cached_roundtrip(cached: CachedEmoji)
    ensures
        <CachedEmoji as FromSpec<Emoji>>::from_spec(
            <Emoji as FromSpec<CachedEmoji>>::from_spec(cached),
        ) == cached,
{
}

/// Applying the same update to a guild twice gives what applying it once gives.
pub proof fn law_guild_update_idempotent(guild: GuildEntity, update: PartialGuild)
    ensures
        guild_after(guild_after(guild, update), update) == guild_after(guild, update),
{
}

/// Applying the same update to a member twice gives what applying it once gives.
pub proof fn law_member_update_idempotent(member: MemberEntity, update: MemberUpdate)
    ensures
        member_after(member_after(member, update), update) == member_after(member, update),
{
}

/// The entity of a guild, once updated, is known by the update's identifier,
/// and keeps what only a full guild tells: its size flags and its join date.
pub proof fn law_guild_update_keeps_join_data(guild: Guild, update: PartialGuild)
    ensures
        ({
            let e = <GuildEntity as FromSpec<Guild>>::from_spec(guild);
            let u = guild_after(e, update);
            &&& u.spec_id() == update.id
            &&& u.joined_at == guild.joined_at
            &&& u.large == guild.large
            &&& u.unavailable == guild.unavailable
            &&& u.approximate_member_count == guild.approximate_member_count
        }),
{
}

/// Updating a guild takes each field that the update always carries from the
/// update, takes each optional field from the update where the update gives
/// it and keeps the guild's own otherwise, and keeps what only a full guild
/// tells.
pub proof fn law_guild_update_fields(guild: GuildEntity, update: PartialGuild)
    ensures
        ({
            let after = guild_after(guild, update);
            &&& update.afk_channel_id is Some ==> after.afk_channel_id == update.afk_channel_id
            &&& update.afk_channel_id is None ==> after.afk_channel_id == guild.afk_channel_id
            &&& after.afk_timeout == update.afk_timeout
            &&& update.application_id is Some ==> after.application_id == update.application_id
            &&& update.application_id is None ==> after.application_id == guild.application_id
            &&& after.approximate_member_count == guild.approximate_member_count
            &&& after.approximate_presence_count == guild.approximate_presence_count
            &&& update.banner is Some ==> after.banner == update.banner
            &&& update.banner is None ==> after.banner == guild.banner
            &&& after.default_message_notifications == update.default_message_notifications
            &&& update.description is Some ==> after.description == update.description
            &&& update.description is None ==> after.description == guild.description
            &&& update.discovery_splash is Some ==> after.discovery_splash == update.discovery_splash
            &&& update.discovery_splash is None ==> after.discovery_splash == guild.discovery_splash
            &&& after.explicit_content_filter == update.explicit_content_filter
            &&& after.features == update.features
            &&& update.icon is Some ==> after.icon == update.icon
            &&& update.icon is None ==> after.icon == guild.icon
            &&& after.id == update.id
            &&& after.joined_at == guild.joined_at
            &&& after.large == guild.large
            &&& update.max_members is Some ==> after.max_members == update.max_members
            &&& update.max_members is None ==> after.max_members == guild.max_members
            &&& update.max_presences is Some ==> after.max_presences == update.max_presences
            &&& update.max_presences is None ==> after.max_presences == guild.max_presences
            &&& after.max_video_channel_users == guild.max_video_channel_users
            &&& update.member_count is Some ==> after.member_count == update.member_count
            &&& update.member_count is None ==> after.member_count == guild.member_count
            &&& after.mfa_level == update.mfa_level
            &&& after.name == update.name
            &&& after.owner_id == update.owner_id
            &&& update.owner is Some ==> after.owner == update.owner
            &&& update.owner is None ==> after.owner == guild.owner
            &&& update.permissions is Some ==> after.permissions == update.permissions
            &&& update.permissions is None ==> after.permissions == guild.permissions
            &&& after.preferred_locale == update.preferred_locale
            &&& update.premium_subscription_count is Some ==> after.premium_subscription_count == update.premium_subscription_count
            &&& update.premium_subscription_count is None ==> after.premium_subscription_count == guild.premium_subscription_count
            &&& after.premium_tier == update.premium_tier
            &&& update.rules_channel_id is Some ==> after.rules_channel_id == update.rules_channel_id
            &&& update.rules_channel_id is None ==> after.rules_channel_id == guild.rules_channel_id
            &&& update.splash is Some ==> after.splash == update.splash
            &&& update.splash is None ==> after.splash == guild.splash
            &&& after.system_channel_flags == update.system_channel_flags
            &&& update.system_channel_id is Some ==> after.system_channel_id == update.system_channel_id
            &&& update.system_channel_id is None ==> after.system_channel_id == guild.system_channel_id
            &&& after.unavailable == guild.unavailable
            &&& update.vanity_url_code is Some ==> after.vanity_url_code == update.vanity_url_code
            &&& update.vanity_url_code is None ==> after.vanity_url_code == guild.vanity_url_code
            &&& after.verification_level == update.verification_level
            &&& update.widget_channel_id is Some ==> after.widget_channel_id == update.widget_channel_id
            &&& update.widget_channel_id is None ==> after.widget_channel_id == guild.widget_channel_id
            &&& update.widget_enabled is Some ==> after.widget_enabled == update.widget_enabled
            &&& update.widget_enabled is None ==> after.widget_enabled == guild.widget_enabled
        }),
{
}

/// The entity made from an attachment of a message holds that attachment's fields, and the message's identifier.
pub proof fn law_attachment_entity_fields(value: (MessageId, Attachment))
    ensures
        ({
            let e = <AttachmentEntity as FromSpec<(MessageId, Attachment)>>::from_spec(value);
            &&& e.filename == value.1.filename
            &&& e.height == value.1.height
            &&& e.id == value.1.id
            &&& e.message_id == value.0
            &&& e.proxy_url == value.1.proxy_url
            &&& e.size == value.1.size
            &&& e.url == value.1.url
            &&& e.width == value.1.width
        }),
{
}

/// The entity made from a category channel holds each field of that channel.
pub proof fn law_category_channel_entity_fields(channel: CategoryChannel)
    ensures
        ({
            let e = <CategoryChannelEntity as FromSpec<CategoryChannel>>::from_spec(channel);
            &&& e.guild_id == channel.guild_id
            &&& e.id == channel.id
            &&& e.kind == channel.kind
            &&& e.name == channel.name
            &&& e.permission_overwrites == channel.permission_overwrites
            &&& e.position == channel.position
        }),
{
}

/// The entity made from a voice channel holds each field of that channel: its category, its position and its limits among them.
pub proof fn law_voice_channel_entity_fields(channel: VoiceChannel)
    ensures
        ({
            let e = <VoiceChannelEntity as FromSpec<VoiceChannel>>::from_spec(channel);
            &&& e.bitrate == channel.bitrate
            &&& e.guild_id == channel.guild_id
            &&& e.id == channel.id
            &&& e.kind == channel.kind
            &&& e.name == channel.name
            &&& e.permission_overwrites == channel.permission_overwrites
            &&& e.parent_id == channel.parent_id
            &&& e.position == channel.position
            &&& e.user_limit == channel.user_limit
        }),
{
}

/// The entity made from a guild holds each field of that guild.
pub proof fn law_guild_entity_fields(guild: Guild)
    ensures
        ({
            let e = <GuildEntity as FromSpec<Guild>>::from_spec(guild);
            &&& e.afk_channel_id == guild.afk_channel_id
            &&& e.afk_timeout == guild.afk_timeout
            &&& e.application_id == guild.application_id
            &&& e.approximate_member_count == guild.approximate_member_count
            &&& e.approximate_presence_count == guild.approximate_presence_count
            &&& e.banner == guild.banner
            &&& e.default_message_notifications == guild.default_message_notifications
            &&& e.description == guild.description
            &&& e.discovery_splash == guild.discovery_splash
            &&& e.explicit_content_filter == guild.explicit_content_filter
            &&& e.features == guild.features
            &&& e.icon == guild.icon
            &&& e.id == guild.id
            &&& e.joined_at == guild.joined_at
            &&& e.large == guild.large
            &&& e.max_members == guild.max_members
            &&& e.max_presences == guild.max_presences
            &&& e.max_video_channel_users == guild.max_video_channel_users
            &&& e.member_count == guild.member_count
            &&& e.mfa_level == guild.mfa_level
            &&& e.name == guild.name
            &&& e.owner_id == guild.owner_id
            &&& e.owner == guild.owner
            &&& e.permissions == guild.permissions
            &&& e.preferred_locale == guild.preferred_locale
            &&& e.premium_subscription_count == guild.premium_subscription_count
            &&& e.premium_tier == guild.premium_tier
            &&& e.rules_channel_id == guild.rules_channel_id
            &&& e.splash == guild.splash
            &&& e.system_channel_flags == guild.system_channel_flags
            &&& e.system_channel_id == guild.system_channel_id
            &&& e.unavailable == guild.unavailable
            &&& e.vanity_url_code == guild.vanity_url_code
            &&& e.verification_level == guild.verification_level
            &&& e.widget_channel_id == guild.widget_channel_id
            &&& e.widget_enabled == guild.widget_enabled
        }),
{
}

/// The entity made from a role of a guild holds that role's fields, and the guild's identifier.
pub proof fn law_role_entity_fields(value: (Role, GuildId))
    ensures
        ({
            let e = <RoleEntity as FromSpec<(Role, GuildId)>>::from_spec(value);
            &&& e.color == value.0.color
            &&& e.guild_id == value.1
            &&& e.hoist == value.0.hoist
            &&& e.id == value.0.id
            &&& e.managed == value.0.managed
            &&& e.mentionable == value.0.mentionable
            &&& e.name == value.0.name
            &&& e.permissions == value.0.permissions
            &&& e.position == value.0.position
        }),
{
}

/// The entity made from the current user holds each field of that user.
pub proof fn law_current_user_entity_fields(user: CurrentUser)
    ensures
        ({
            let e = <CurrentUserEntity as FromSpec<CurrentUser>>::from_spec(user);
            &&& e.avatar == user.avatar
            &&& e.bot == user.bot
            &&& e.discriminator == user.discriminator
            &&& e.email == user.email
            &&& e.flags == user.flags
            &&& e.id == user.id
            &&& e.mfa_enabled == user.mfa_enabled
            &&& e.name == user.name
            &&& e.premium_type == user.premium_type
            &&& e.public_flags == user.public_flags
            &&& e.verified == user.verified
        }),
{
}

/// The entity made from a direct message channel holds that channel's
/// fields, and as its recipient the first of the channel's recipients, if any.
pub proof fn law_private_channel_entity_fields(channel: PrivateChannel)
    ensures
        ({
            let e = <PrivateChannelEntity as FromSpec<PrivateChannel>>::from_spec(channel);
            &&& e.id == channel.id
            &&& e.last_message_id == channel.last_message_id
            &&& e.last_pin_timestamp == channel.last_pin_timestamp
            &&& e.kind == channel.kind
            &&& channel.recipients@.len() > 0 ==> e.recipient_id == Some(channel.recipients@[0].id)
            &&& channel.recipients@.len() == 0 ==> e.recipient_id is None
        }),
{
}

/// Updating a member takes the guild, the roles, the user and the join date
/// from the update, takes the nickname and the boost date from the update
/// where it gives them and keeps the member's own otherwise, and keeps the
/// rest.
pub proof fn law_member_update_fields(member: MemberEntity, update: MemberUpdate)
    ensures
        ({
            let after = member_after(member, update);
            &&& after.guild_id == update.guild_id
            &&& after.joined_at == Some(update.joined_at)
            &&& after.role_ids == update.roles
            &&& after.user_id == update.user.id
            &&& update.nick is Some ==> after.nick == update.nick
            &&& update.nick is None ==> after.nick == member.nick
            &&& update.premium_since is Some ==> after.premium_since == update.premium_since
            &&& update.premium_since is None ==> after.premium_since == member.premium_since
            &&& after.deaf == member.deaf
            &&& after.hoisted_role_id == member.hoisted_role_id
            &&& after.mute == member.mute
            &&& after.pending == member.pending
        }),
{
}

} // verus!
