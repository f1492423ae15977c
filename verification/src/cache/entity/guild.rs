//! The entities of guilds, their emojis, members and roles.

use super::{option_or, option_str_eq, option_user_id_eq, or, role_ids_eq, Entity};
use crate::cache::source::{Emoji, Guild, Member, MemberUpdate, PartialGuild, Role};
use crate::model::{ApplicationId, ChannelId, EmojiId, GuildId, RoleId, UserId};
use crate::permissions::Permissions;
use twilight_model::guild::{
    DefaultMessageNotificationLevel, ExplicitContentFilter, MfaLevel, PremiumTier,
    VerificationLevel,
};
use vstd::prelude::*;

verus! {

/// A guild.
#[derive(Debug, Clone, PartialEq, Eq)]
pub struct GuildEntity {
    pub afk_channel_id: Option<ChannelId>,
    pub afk_timeout: u64,
    pub application_id: Option<ApplicationId>,
    pub approximate_member_count: Option<u64>,
    pub approximate_presence_count: Option<u64>,
    pub banner: Option<String>,
    pub default_message_notifications: DefaultMessageNotificationLevel,
    pub description: Option<String>,
    pub discovery_splash: Option<String>,
    pub explicit_content_filter: ExplicitContentFilter,
    pub features: Vec<String>,
    pub icon: Option<String>,
    pub id: GuildId,
    pub joined_at: Option<String>,
    pub large: bool,
    pub max_members: Option<u64>,
    pub max_presences: Option<u64>,
    pub max_video_channel_users: Option<u64>,
    pub member_count: Option<u64>,
    pub mfa_level: MfaLevel,
    pub name: String,
    pub owner_id: UserId,
    pub owner: Option<bool>,
    pub permissions: Option<Permissions>,
    pub preferred_locale: String,
    pub premium_subscription_count: Option<u64>,
    pub premium_tier: PremiumTier,
    pub rules_channel_id: Option<ChannelId>,
    pub splash: Option<String>,
    pub system_channel_flags: u64,
    pub system_channel_id: Option<ChannelId>,
    pub unavailable: bool,
    pub vanity_url_code: Option<String>,
    pub verification_level: VerificationLevel,
    pub widget_channel_id: Option<ChannelId>,
    pub widget_enabled: Option<bool>,
}

/// The entity of a guild.
impl From<Guild> for GuildEntity {
    fn from(guild: Guild) -> (r: Self) {
        GuildEntity {
            afk_channel_id: guild.afk_channel_id,
            afk_timeout: guild.afk_timeout,
            application_id: guild.application_id,
            approximate_member_count: guild.approximate_member_count,
            approximate_presence_count: guild.approximate_presence_count,
            banner: guild.banner,
            default_message_notifications: guild.default_message_notifications,
            description: guild.description,
            discovery_splash: guild.discovery_splash,
            explicit_content_filter: guild.explicit_content_filter,
            features: guild.features,
            icon: guild.icon,
            id: guild.id,
            joined_at: guild.joined_at,
            large: guild.large,
            max_members: guild.max_members,
            max_presences: guild.max_presences,
            max_video_channel_users: guild.max_video_channel_users,
            member_count: guild.member_count,
            mfa_level: guild.mfa_level,
            name: guild.name,
            owner_id: guild.owner_id,
            owner: guild.owner,
            permissions: guild.permissions,
            preferred_locale: guild.preferred_locale,
            premium_subscription_count: guild.premium_subscription_count,
            premium_tier: guild.premium_tier,
            rules_channel_id: guild.rules_channel_id,
            splash: guild.splash,
            system_channel_flags: guild.system_channel_flags,
            system_channel_id: guild.system_channel_id,
            unavailable: guild.unavailable,
            vanity_url_code: guild.vanity_url_code,
            verification_level: guild.verification_level,
            widget_channel_id: guild.widget_channel_id,
            widget_enabled: guild.widget_enabled,
        }
    }
}

impl vstd::std_specs::convert::FromSpecImpl<Guild> for GuildEntity {
    open spec fn obeys_from_spec() -> bool {
        true
    }

    open spec fn from_spec(guild: Guild) -> Self {
        GuildEntity {
            afk_channel_id: guild.afk_channel_id,
            afk_timeout: guild.afk_timeout,
            application_id: guild.application_id,
            approximate_member_count: guild.approximate_member_count,
            approximate_presence_count: guild.approximate_presence_count,
            banner: guild.banner,
            default_message_notifications: guild.default_message_notifications,
            description: guild.description,
            discovery_splash: guild.discovery_splash,
            explicit_content_filter: guild.explicit_content_filter,
            features: guild.features,
            icon: guild.icon,
            id: guild.id,
            joined_at: guild.joined_at,
            large: guild.large,
            max_members: guild.max_members,
            max_presences: guild.max_presences,
            max_video_channel_users: guild.max_video_channel_users,
            member_count: guild.member_count,
            mfa_level: guild.mfa_level,
            name: guild.name,
            owner_id: guild.owner_id,
            owner: guild.owner,
            permissions: guild.permissions,
            preferred_locale: guild.preferred_locale,
            premium_subscription_count: guild.premium_subscription_count,
            premium_tier: guild.premium_tier,
            rules_channel_id: guild.rules_channel_id,
            splash: guild.splash,
            system_channel_flags: guild.system_channel_flags,
            system_channel_id: guild.system_channel_id,
            unavailable: guild.unavailable,
            vanity_url_code: guild.vanity_url_code,
            verification_level: guild.verification_level,
            widget_channel_id: guild.widget_channel_id,
            widget_enabled: guild.widget_enabled,
        }
    }
}

/// The guild `entity` after the update `update`: the fields that the update
/// always gives replace the guild's, each optional field that it gives
/// replaces the guild's, and the fields that it does not give are kept.
pub open spec fn guild_after(entity: GuildEntity, update: PartialGuild) -> GuildEntity {
    GuildEntity {
        afk_channel_id: or(update.afk_channel_id, entity.afk_channel_id),
        afk_timeout: update.afk_timeout,
        application_id: or(update.application_id, entity.application_id),
        approximate_member_count: entity.approximate_member_count,
        approximate_presence_count: entity.approximate_presence_count,
        banner: or(update.banner, entity.banner),
        default_message_notifications: update.default_message_notifications,
        description: or(update.description, entity.description),
        discovery_splash: or(update.discovery_splash, entity.discovery_splash),
        explicit_content_filter: update.explicit_content_filter,
        features: update.features,
        icon: or(update.icon, entity.icon),
        id: update.id,
        joined_at: entity.joined_at,
        large: entity.large,
        max_members: or(update.max_members, entity.max_members),
        max_presences: or(update.max_presences, entity.max_presences),
        max_video_channel_users: entity.max_video_channel_users,
        member_count: or(update.member_count, entity.member_count),
        mfa_level: update.mfa_level,
        name: update.name,
        owner_id: update.owner_id,
        owner: or(update.owner, entity.owner),
        permissions: or(update.permissions, entity.permissions),
        preferred_locale: update.preferred_locale,
        premium_subscription_count: or(update.premium_subscription_count, entity.premium_subscription_count),
        premium_tier: update.premium_tier,
        rules_channel_id: or(update.rules_channel_id, entity.rules_channel_id),
        splash: or(update.splash, entity.splash),
        system_channel_flags: update.system_channel_flags,
        system_channel_id: or(update.system_channel_id, entity.system_channel_id),
        unavailable: entity.unavailable,
        vanity_url_code: or(update.vanity_url_code, entity.vanity_url_code),
        verification_level: update.verification_level,
        widget_channel_id: or(update.widget_channel_id, entity.widget_channel_id),
        widget_enabled: or(update.widget_enabled, entity.widget_enabled),
    }
}

impl GuildEntity {
    /// The guild after the update `update`.
    pub fn update(self, update: PartialGuild) -> (r: Self)
        ensures
            r == guild_after(self, update),
    {
        GuildEntity {
            afk_channel_id: option_or(update.afk_channel_id, self.afk_channel_id),
            afk_timeout: update.afk_timeout,
            application_id: option_or(update.application_id, self.application_id),
            approximate_member_count: self.approximate_member_count,
            approximate_presence_count: self.approximate_presence_count,
            banner: option_or(update.banner, self.banner),
            default_message_notifications: update.default_message_notifications,
            description: option_or(update.description, self.description),
            discovery_splash: option_or(update.discovery_splash, self.discovery_splash),
            explicit_content_filter: update.explicit_content_filter,
            features: update.features,
            icon: option_or(update.icon, self.icon),
            id: update.id,
            joined_at: self.joined_at,
            large: self.large,
            max_members: option_or(update.max_members, self.max_members),
            max_presences: option_or(update.max_presences, self.max_presences),
            max_video_channel_users: self.max_video_channel_users,
            member_count: option_or(update.member_count, self.member_count),
            mfa_level: update.mfa_level,
            name: update.name,
            owner_id: update.owner_id,
            owner: option_or(update.owner, self.owner),
            permissions: option_or(update.permissions, self.permissions),
            preferred_locale: update.preferred_locale,
            premium_subscription_count: option_or(update.premium_subscription_count, self.premium_subscription_count),
            premium_tier: update.premium_tier,
            rules_channel_id: option_or(update.rules_channel_id, self.rules_channel_id),
            splash: option_or(update.splash, self.splash),
            system_channel_flags: update.system_channel_flags,
            system_channel_id: option_or(update.system_channel_id, self.system_channel_id),
            unavailable: self.unavailable,
            vanity_url_code: option_or(update.vanity_url_code, self.vanity_url_code),
            verification_level: update.verification_level,
            widget_channel_id: option_or(update.widget_channel_id, self.widget_channel_id),
            widget_enabled: option_or(update.widget_enabled, self.widget_enabled),
        }
    }
}

impl Entity for GuildEntity {
    type Id = GuildId;

    open spec fn spec_id(&self) -> GuildId {
        self.id
    }

    fn id(&self) -> (r: GuildId) {
        self.id
    }
}

/// A custom emoji of a guild.
#[derive(Debug, Clone, PartialEq, Eq)]
pub struct EmojiEntity {
    pub animated: bool,
    pub available: bool,
    pub guild_id: GuildId,
    pub id: EmojiId,
    pub managed: bool,
    pub name: String,
    pub require_colons: bool,
    pub role_ids: Vec<RoleId>,
    pub user_id: Option<UserId>,
}

/// The entity of the emoji `value.1` of the guild `value.0`: its creator is
/// kept by identifier.
impl From<(GuildId, Emoji)> for EmojiEntity {
    fn from(value: (GuildId, Emoji)) -> (r: Self) {
        let user_id = match &value.1.user {
            Some(user) => Some(user.id),
            None => None,
        };
        EmojiEntity {
            animated: value.1.animated,
            available: value.1.available,
            guild_id: value.0,
            id: value.1.id,
            managed: value.1.managed,
            name: value.1.name,
            require_colons: value.1.require_colons,
            role_ids: value.1.roles,
            user_id,
        }
    }
}

impl vstd::std_specs::convert::FromSpecImpl<(GuildId, Emoji)> for EmojiEntity {
    open spec fn obeys_from_spec() -> bool {
        true
    }

    open spec fn from_spec(value: (GuildId, Emoji)) -> Self {
        EmojiEntity {
            animated: value.1.animated,
            available: value.1.available,
            guild_id: value.0,
            id: value.1.id,
            managed: value.1.managed,
            name: value.1.name,
            require_colons: value.1.require_colons,
            role_ids: value.1.roles,
            user_id: match value.1.user {
                Some(user) => Some(user.id),
                None => None,
            },
        }
    }
}

/// An emoji entity equals an emoji when they agree on the identifier, the
/// flags other than `managed`, the name, the roles and the creator.
impl PartialEq<Emoji> for EmojiEntity {
    fn eq(&self, other: &Emoji) -> (r: bool) {
        let other_user = match &other.user {
            Some(user) => Some(user.id),
            None => None,
        };
        self.id.0 == other.id.0 && self.animated == other.animated && crate::text::str_eq(
            self.name.as_str(),
            other.name.as_str(),
        ) && self.require_colons == other.require_colons && role_ids_eq(&self.role_ids, &other.roles)
            && option_user_id_eq(self.user_id, other_user) && self.available == other.available
    }
}

impl vstd::std_specs::cmp::PartialEqSpecImpl<Emoji> for EmojiEntity {
    open spec fn obeys_eq_spec() -> bool {
        true
    }

    open spec fn eq_spec(&self, other: &Emoji) -> bool {
        &&& self.id == other.id
        &&& self.animated == other.animated
        &&& self.name@ == other.name@
        &&& self.require_colons == other.require_colons
        &&& self.role_ids@ == other.roles@
        &&& self.user_id == match other.user {
            Some(user) => Some(user.id),
            None => None,
        }
        &&& self.available == other.available
    }
}

impl Entity for EmojiEntity {
    type Id = EmojiId;

    open spec fn spec_id(&self) -> EmojiId {
        self.id
    }

    fn id(&self) -> (r: EmojiId) {
        self.id
    }
}

/// A member of a guild.
#[derive(Debug, Clone, PartialEq, Eq)]
pub struct MemberEntity {
    pub deaf: bool,
    pub guild_id: GuildId,
    pub hoisted_role_id: Option<RoleId>,
    pub joined_at: Option<String>,
    pub mute: bool,
    pub nick: Option<String>,
    pub pending: bool,
    pub premium_since: Option<String>,
    pub role_ids: Vec<RoleId>,
    pub user_id: UserId,
}

/// The entity of a member: the user is kept by identifier.
impl From<Member> for MemberEntity {
    fn from(member: Member) -> (r: Self) {
        MemberEntity {
            deaf: member.deaf,
            guild_id: member.guild_id,
            hoisted_role_id: member.hoisted_role,
            joined_at: member.joined_at,
            mute: member.mute,
            nick: member.nick,
            pending: member.pending,
            premium_since: member.premium_since,
            role_ids: member.roles,
            user_id: member.user.id,
        }
    }
}

impl vstd::std_specs::convert::FromSpecImpl<Member> for MemberEntity {
    open spec fn obeys_from_spec() -> bool {
        true
    }

    open spec fn from_spec(member: Member) -> Self {
        MemberEntity {
            deaf: member.deaf,
            guild_id: member.guild_id,
            hoisted_role_id: member.hoisted_role,
            joined_at: member.joined_at,
            mute: member.mute,
            nick: member.nick,
            pending: member.pending,
            premium_since: member.premium_since,
            role_ids: member.roles,
            user_id: member.user.id,
        }
    }
}

/// A member entity equals a member when they agree on the deafened and muted
/// flags, the join date, the nickname, the pending flag, the boost date and
/// the roles; the guild, the hoisted role and the user are not compared.
impl PartialEq<Member> for MemberEntity {
    fn eq(&self, other: &Member) -> (r: bool) {
        self.deaf == other.deaf && option_str_eq(&self.joined_at, &other.joined_at) && self.mute
            == other.mute && option_str_eq(&self.nick, &other.nick) && self.pending
            == other.pending && option_str_eq(&self.premium_since, &other.premium_since)
            && role_ids_eq(&self.role_ids, &other.roles)
    }
}

/// Whether two optional strings hold the same characters.
pub open spec fn same_text(a: Option<String>, b: Option<String>) -> bool {
    match (a, b) {
        (Some(x), Some(y)) => x@ == y@,
        (None, None) => true,
        _ => false,
    }
}

impl vstd::std_specs::cmp::PartialEqSpecImpl<Member> for MemberEntity {
    open spec fn obeys_eq_spec() -> bool {
        true
    }

    open spec fn eq_spec(&self, other: &Member) -> bool {
        &&& self.deaf == other.deaf
        &&& same_text(self.joined_at, other.joined_at)
        &&& self.mute == other.mute
        &&& same_text(self.nick, other.nick)
        &&& self.pending == other.pending
        &&& same_text(self.premium_since, other.premium_since)
        &&& self.role_ids@ == other.roles@
    }
}

/// The member `entity` after the update `update`: the guild, the join date,
/// the roles and the user are the update's, the nickname and the boost date
/// are the update's when it gives them, and the rest is kept.
pub open spec fn member_after(entity: MemberEntity, update: MemberUpdate) -> MemberEntity {
    MemberEntity {
        guild_id: update.guild_id,
        joined_at: Some(update.joined_at),
        nick: or(update.nick, entity.nick),
        premium_since: or(update.premium_since, entity.premium_since),
        role_ids: update.roles,
        user_id: update.user.id,
        deaf: entity.deaf,
        hoisted_role_id: entity.hoisted_role_id,
        mute: entity.mute,
        pending: entity.pending,
    }
}

impl MemberEntity {
    /// The member after the update `update`.
    #[must_use]
    pub fn update(self, update: MemberUpdate) -> (r: Self)
        ensures
            r == member_after(self, update),
    {
        MemberEntity {
            guild_id: update.guild_id,
            joined_at: Some(update.joined_at),
            nick: option_or(update.nick, self.nick),
            premium_since: option_or(update.premium_since, self.premium_since),
            role_ids: update.roles,
            user_id: update.user.id,
            deaf: self.deaf,
            hoisted_role_id: self.hoisted_role_id,
            mute: self.mute,
            pending: self.pending,
        }
    }
}

impl Entity for MemberEntity {
    type Id = (GuildId, UserId);

    open spec fn spec_id(&self) -> (GuildId, UserId) {
        (self.guild_id, self.user_id)
    }

    fn id(&self) -> (r: (GuildId, UserId)) {
        (self.guild_id, self.user_id)
    }
}

/// A role of a guild.
#[derive(Debug, Clone, PartialEq, Eq)]
pub struct RoleEntity {
    pub color: u32,
    pub guild_id: GuildId,
    pub hoist: bool,
    pub id: RoleId,
    pub managed: bool,
    pub mentionable: bool,
    pub name: String,
    pub permissions: Permissions,
    pub position: i64,
}

/// The entity of the role `value.0` of the guild `value.1`.
impl From<(Role, GuildId)> for RoleEntity {
    fn from(value: (Role, GuildId)) -> (r: Self) {
        RoleEntity {
            color: value.0.color,
            guild_id: value.1,
            hoist: value.0.hoist,
            id: value.0.id,
            managed: value.0.managed,
            mentionable: value.0.mentionable,
            name: value.0.name,
            permissions: value.0.permissions,
            position: value.0.position,
        }
    }
}

impl vstd::std_specs::convert::FromSpecImpl<(Role, GuildId)> for RoleEntity {
    open spec fn obeys_from_spec() -> bool {
        true
    }

    open spec fn from_spec(value: (Role, GuildId)) -> Self {
        RoleEntity {
            color: value.0.color,
            guild_id: value.1,
            hoist: value.0.hoist,
            id: value.0.id,
            managed: value.0.managed,
            mentionable: value.0.mentionable,
            name: value.0.name,
            permissions: value.0.permissions,
            position: value.0.position,
        }
    }
}

impl Entity for RoleEntity {
    type Id = RoleId;

    open spec fn spec_id(&self) -> RoleId {
        self.id
    }

    fn id(&self) -> (r: RoleId) {
        self.id
    }
}

} // verus!
