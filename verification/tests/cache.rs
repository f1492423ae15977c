use starlight::cache::config::{Config, ResourceType, ALL_RESOURCES, CHANNEL, EMOJI};
use starlight::cache::emoji::CachedEmoji;
use starlight::cache::entity::channel::{
    AttachmentEntity, GroupEntity, MessageEntity, PrivateChannelEntity,
};
use starlight::cache::entity::gateway::{get_user_id, PresenceEntity};
use starlight::cache::entity::guild::{EmojiEntity, GuildEntity, MemberEntity, RoleEntity};
use starlight::cache::entity::user::CurrentUserEntity;
use starlight::cache::keys::{UnqliteEntity, UnqliteSingleEntity};
use starlight::cache::entity::voice::VoiceStateEntity;
use starlight::cache::entity::Entity;
use starlight::cache::in_memory::builder::{InMemoryBackend, InMemoryBackendBuilder};
use starlight::cache::in_memory::config::{EntityType, ALL_ENTITIES, GUILD, MEMBER};
use starlight::cache::repository::{NoopRepository, Repository};
use starlight::cache::source::{
    Attachment, ChannelMention, Emoji, Group, Member, MemberUpdate, Message, MessageUpdate,
    Presence, PresenceUpdate, PrivateChannel, Role, Status, User, UserOrId, VoiceState,
};
use twilight_model::channel::message::MessageType;
use twilight_model::gateway::presence::ClientStatus;
use twilight_model::guild::{
    DefaultMessageNotificationLevel, ExplicitContentFilter, MfaLevel, PremiumTier,
    VerificationLevel,
};
use starlight::cache::widget::{
    widget_channel_step, FetchAnswer, WidgetAction, WidgetChannelKind, WidgetSearch,
};
use starlight::model::{
    AttachmentId, ChannelId, ChannelType, EmojiId, GuildId, MessageId, RoleId, UserId,
};
use starlight::permissions::Permissions;

fn user(id: u64) -> User {
    User {
        avatar: None,
        bot: false,
        discriminator: "0001".to_string(),
        id: UserId(id),
        name: format!("user{}", id),
    }
}

#[test]
fn eq_emoji() {
    let emoji = Emoji {
        id: EmojiId(123),
        animated: true,
        name: "foo".to_owned(),
        managed: false,
        require_colons: true,
        roles: vec![],
        user: None,
        available: true,
    };
    let cached = CachedEmoji {
        id: EmojiId(123),
        animated: true,
        name: "foo".to_owned(),
        managed: false,
        require_colons: true,
        roles: vec![],
        available: true,
    };
    assert_eq!(cached, emoji);
}

#[test]
fn from_emoji() {
    let emoji = Emoji {
        id: EmojiId(123),
        animated: true,
        name: "foo".to_owned(),
        managed: false,
        require_colons: true,
        roles: vec![RoleId(123)],
        available: true,
        user: None,
    };
    assert_eq!(
        CachedEmoji::from(emoji),
        CachedEmoji {
            id: EmojiId(123),
            animated: true,
            name: "foo".to_owned(),
            managed: false,
            require_colons: true,
            roles: vec![RoleId(123)],
            available: true
        }
    );
}

#[test]
fn into_emoji() {
    let cached_emoji = CachedEmoji {
        id: EmojiId(123),
        animated: true,
        name: "foo".to_owned(),
        managed: false,
        require_colons: true,
        roles: vec![],
        available: true,
    };
    let emoji: Emoji = cached_emoji.into();
    assert_eq!(
        emoji,
        Emoji {
            id: EmojiId(123),
            animated: true,
            name: "foo".to_owned(),
            managed: false,
            require_colons: true,
            roles: vec![],
            user: None,
            available: true,
        }
    )
}

#[test]
fn cache_config_defaults_and_changes() {
    let mut config = Config::new();
    assert_eq!(config.message_cache_size(), 100);
    assert_eq!(config.resource_types().bits(), ALL_RESOURCES);
    *config.message_cache_size_mut() = 5;
    *config.resource_types_mut() = ResourceType::from_bits_truncate(CHANNEL | EMOJI);
    assert_eq!(config.message_cache_size(), 5);
    assert!(config.resource_types().contains(ResourceType::from_bits_truncate(EMOJI)));
    assert_eq!(Config::default(), Config::new());
}

#[test]
fn flag_sets() {
    let mut set = ResourceType::empty();
    assert!(set.is_empty());
    set.insert(ResourceType::from_bits_truncate(CHANNEL));
    set.insert(ResourceType::from_bits_truncate(EMOJI));
    assert_eq!(set.bits(), CHANNEL | EMOJI);
    set.remove(ResourceType::from_bits_truncate(CHANNEL));
    assert_eq!(set.bits(), EMOJI);
    assert!(ResourceType::all().is_all());
    assert_eq!(ResourceType::from_bits_truncate(u64::MAX).bits(), ALL_RESOURCES);
    assert_eq!(EntityType::from_bits_truncate(u64::MAX).bits(), ALL_ENTITIES);
}

#[test]
fn in_memory_builder() {
    let mut builder = InMemoryBackendBuilder::new();
    assert_eq!(builder.config().message_cache_size(), 100);
    assert_eq!(builder.config().entity_types().bits(), ALL_ENTITIES);
    builder
        .entity_types(EntityType::from_bits_truncate(GUILD | MEMBER))
        .message_cache_size(10);
    let config = builder.config();
    assert_eq!(config.message_cache_size(), 10);
    assert_eq!(config.entity_types().bits(), GUILD | MEMBER);
}

#[test]
fn member_entities() {
    let member = Member {
        deaf: false,
        guild_id: GuildId(1),
        hoisted_role: Some(RoleId(4)),
        joined_at: Some("2021".to_string()),
        mute: true,
        nick: Some("nick".to_string()),
        pending: false,
        premium_since: None,
        roles: vec![RoleId(4), RoleId(5)],
        user: user(9),
    };
    let entity = MemberEntity::from(member.clone());
    assert!(entity == member);
    assert_eq!(entity.id(), (GuildId(1), UserId(9)));
    let update = MemberUpdate {
        guild_id: GuildId(1),
        deaf: Some(true),
        joined_at: "2022".to_string(),
        mute: None,
        nick: None,
        pending: true,
        premium_since: Some("2023".to_string()),
        roles: vec![RoleId(6)],
        user: user(9),
    };
    let updated = entity.clone().update(update.clone());
    assert_eq!(updated.joined_at.as_deref(), Some("2022"));
    assert_eq!(updated.nick.as_deref(), Some("nick"));
    assert_eq!(updated.premium_since.as_deref(), Some("2023"));
    assert_eq!(updated.role_ids, vec![RoleId(6)]);
    assert!(!updated.deaf);
    assert!(updated.mute);
    assert!(!(updated == member));
    assert_eq!(updated.clone().update(update), updated);
}

#[test]
fn emoji_and_role_entities() {
    let emoji = Emoji {
        animated: false,
        available: true,
        id: EmojiId(3),
        managed: true,
        name: "wave".to_string(),
        require_colons: true,
        roles: vec![RoleId(1)],
        user: Some(user(5)),
    };
    let entity = EmojiEntity::from((GuildId(2), emoji.clone()));
    assert_eq!(entity.user_id, Some(UserId(5)));
    assert_eq!(entity.guild_id, GuildId(2));
    assert!(entity == emoji);
    assert_eq!(entity.id(), EmojiId(3));
    let role = Role {
        color: 0xff,
        hoist: true,
        id: RoleId(8),
        managed: false,
        mentionable: true,
        name: "mods".to_string(),
        permissions: Permissions::all(),
        position: -1,
    };
    let entity = RoleEntity::from((role, GuildId(2)));
    assert_eq!(entity.guild_id, GuildId(2));
    assert_eq!(entity.position, -1);
    assert_eq!(entity.id(), RoleId(8));
}

#[test]
fn channel_entities() {
    let attachment = Attachment {
        content_type: None,
        filename: "a.png".to_string(),
        height: Some(1),
        id: AttachmentId(4),
        proxy_url: "p".to_string(),
        size: 10,
        url: "u".to_string(),
        width: None,
    };
    let entity = AttachmentEntity::from((MessageId(6), attachment));
    assert_eq!(entity.message_id, MessageId(6));
    assert_eq!(entity.filename, "a.png");
    let group = Group {
        application_id: None,
        icon: None,
        id: ChannelId(11),
        kind: ChannelType::Group,
        last_message_id: None,
        last_pin_timestamp: None,
        name: Some("friends".to_string()),
        owner_id: UserId(1),
        recipients: vec![user(1), user(2), user(3)],
    };
    let entity = GroupEntity::from_group(group);
    assert_eq!(entity.recipient_ids, vec![UserId(1), UserId(2), UserId(3)]);
    let private = PrivateChannel {
        id: ChannelId(12),
        last_message_id: Some(MessageId(1)),
        last_pin_timestamp: None,
        kind: ChannelType::Private,
        recipients: vec![user(7), user(8)],
    };
    let entity = PrivateChannelEntity::from(private);
    assert_eq!(entity.recipient_id, Some(UserId(7)));
    let empty = PrivateChannel {
        id: ChannelId(13),
        last_message_id: None,
        last_pin_timestamp: None,
        kind: ChannelType::Private,
        recipients: vec![],
    };
    assert_eq!(PrivateChannelEntity::from(empty).recipient_id, None);
}

fn message() -> Message {
    Message {
        activity: None,
        application_id: None,
        attachments: vec![Attachment {
            content_type: None,
            filename: "f".to_string(),
            height: None,
            id: AttachmentId(21),
            proxy_url: "p".to_string(),
            size: 1,
            url: "u".to_string(),
            width: None,
        }],
        author: user(1),
        channel_id: ChannelId(2),
        content: "hello <#2>".to_string(),
        edited_timestamp: None,
        embeds: vec![],
        flags: None,
        guild_id: Some(GuildId(3)),
        id: MessageId(4),
        kind: MessageType::Regular,
        mention_channels: vec![ChannelMention {
            guild_id: GuildId(3),
            id: ChannelId(2),
            kind: ChannelType::GuildText,
            name: "general".to_string(),
        }],
        mention_everyone: false,
        mention_roles: vec![RoleId(5)],
        mentions: vec![user(6), user(7)],
        pinned: false,
        reactions: vec![],
        timestamp: "t0".to_string(),
        tts: false,
        webhook_id: None,
    }
}

#[test]
fn message_entities() {
    let entity = MessageEntity::from_message(message());
    assert_eq!(entity.attachments, vec![AttachmentId(21)]);
    assert_eq!(entity.author_id, UserId(1));
    assert_eq!(entity.mention_channels, vec![ChannelId(2)]);
    assert_eq!(entity.mentions, vec![UserId(6), UserId(7)]);
    assert_eq!(entity.id(), MessageId(4));
    let update = MessageUpdate {
        attachments: Some(vec![]),
        author: None,
        channel_id: ChannelId(2),
        content: Some("edited".to_string()),
        edited_timestamp: Some("t1".to_string()),
        embeds: None,
        guild_id: None,
        id: MessageId(4),
        kind: None,
        mention_everyone: None,
        mention_roles: None,
        mentions: Some(vec![user(8)]),
        pinned: Some(true),
        timestamp: None,
        tts: None,
    };
    let updated = entity.update(update);
    assert!(updated.attachments.is_empty());
    assert_eq!(updated.author_id, UserId(1));
    assert_eq!(updated.content, "edited");
    assert_eq!(updated.edited_timestamp.as_deref(), Some("t1"));
    assert_eq!(updated.guild_id, Some(GuildId(3)));
    assert_eq!(updated.mentions, vec![UserId(8)]);
    assert!(updated.pinned);
    assert_eq!(updated.timestamp, "t0");
    assert_eq!(updated.mention_roles, vec![RoleId(5)]);
}

#[test]
fn voice_states_and_presences() {
    let state = VoiceState {
        channel_id: Some(ChannelId(3)),
        deaf: false,
        guild_id: Some(GuildId(1)),
        mute: false,
        self_deaf: true,
        self_mute: false,
        self_stream: false,
        session_id: "s".to_string(),
        suppress: false,
        token: None,
        user_id: UserId(4),
    };
    let entity = VoiceStateEntity::from((state.clone(), GuildId(1)));
    assert!(entity == state);
    let other_guild = VoiceStateEntity::from((state.clone(), GuildId(2)));
    assert!(!(other_guild == state));
    assert_eq!(get_user_id(&UserOrId::UserId { id: UserId(3) }), UserId(3));
    assert_eq!(get_user_id(&UserOrId::User(user(5))), UserId(5));
    let status = ClientStatus { desktop: None, mobile: None, web: None };
    let presence = Presence {
        activities: vec![],
        client_status: status.clone(),
        guild_id: GuildId(1),
        status: Status::Online,
        user: UserOrId::User(user(5)),
    };
    let entity = PresenceEntity::from(presence.clone());
    assert_eq!(entity.user_id, UserId(5));
    assert!(entity == presence);
    assert_eq!(entity.id(), (GuildId(1), UserId(5)));
    let update = PresenceUpdate {
        activities: vec![],
        client_status: status,
        game: None,
        guild_id: GuildId(1),
        status: Status::Idle,
        user: UserOrId::UserId { id: UserId(5) },
    };
    let entity = PresenceEntity::from_update(update);
    assert_eq!(entity.status, Status::Idle);
    assert!(entity.activities.is_empty());
    assert!(!(entity == presence));
}

#[test]
fn noop_repository_holds_nothing() {
    let repo = NoopRepository::new(7u8);
    assert_eq!(*repo.backend(), 7);
    let got: Option<MemberEntity> = repo.get_entity((GuildId(1), UserId(1)));
    assert!(got.is_none());
    let all: Vec<RoleEntity> = repo.list_entities();
    assert!(all.is_empty());
}

#[test]
fn widget_search_steps() {
    assert_eq!(
        widget_channel_step(WidgetSearch::Guild, FetchAnswer::Guild(Some(Some(ChannelId(5))))),
        WidgetAction::Fetch(WidgetSearch::Text(ChannelId(5)))
    );
    assert_eq!(
        widget_channel_step(WidgetSearch::Guild, FetchAnswer::Guild(Some(None))),
        WidgetAction::NotFound
    );
    assert_eq!(
        widget_channel_step(WidgetSearch::Guild, FetchAnswer::Guild(None)),
        WidgetAction::NotFound
    );
    assert_eq!(
        widget_channel_step(WidgetSearch::Text(ChannelId(5)), FetchAnswer::Channel(false)),
        WidgetAction::Fetch(WidgetSearch::Voice(ChannelId(5)))
    );
    assert_eq!(
        widget_channel_step(WidgetSearch::Voice(ChannelId(5)), FetchAnswer::Channel(true)),
        WidgetAction::Found(WidgetChannelKind::Voice, ChannelId(5))
    );
    assert_eq!(
        widget_channel_step(WidgetSearch::Category(ChannelId(5)), FetchAnswer::Channel(false)),
        WidgetAction::NotFound
    );
    assert_eq!(
        widget_channel_step(WidgetSearch::Text(ChannelId(5)), FetchAnswer::Failed),
        WidgetAction::Fail
    );
}

#[test]
fn store_keys() {
    assert_eq!(AttachmentEntity::key(AttachmentId(12)), b"at:12".to_vec());
    assert_eq!(GuildEntity::key(GuildId(0)), b"g:0".to_vec());
    assert_eq!(MemberEntity::key((GuildId(1), UserId(23))), b"m:1:23".to_vec());
    assert_eq!(VoiceStateEntity::key((GuildId(4), UserId(5))), b"v:4:5".to_vec());
    assert_eq!(PresenceEntity::key((GuildId(4), UserId(5))), b"pr:4:5".to_vec());
    assert_eq!(MessageEntity::key(MessageId(u64::MAX)), b"ms:18446744073709551615".to_vec());
    assert_eq!(CurrentUserEntity::key(), b"uc");
    assert_ne!(MemberEntity::key((GuildId(12), UserId(3))), MemberEntity::key((GuildId(1), UserId(23))));
}

fn guild_value() -> starlight::cache::source::Guild {
    starlight::cache::source::Guild {
        afk_channel_id: Some(ChannelId(1)),
        afk_timeout: 300,
        application_id: None,
        approximate_member_count: Some(40),
        approximate_presence_count: None,
        banner: Some("banner".to_string()),
        default_message_notifications: DefaultMessageNotificationLevel::All,
        description: None,
        discovery_splash: None,
        explicit_content_filter: ExplicitContentFilter::None,
        features: vec!["NEWS".to_string()],
        icon: None,
        id: GuildId(9),
        joined_at: Some("2020".to_string()),
        large: true,
        max_members: None,
        max_presences: None,
        max_video_channel_users: None,
        member_count: Some(40),
        mfa_level: MfaLevel::None,
        name: "guild".to_string(),
        owner_id: UserId(2),
        owner: None,
        permissions: None,
        preferred_locale: "en-US".to_string(),
        premium_subscription_count: None,
        premium_tier: PremiumTier::None,
        rules_channel_id: None,
        splash: None,
        system_channel_flags: 0,
        system_channel_id: None,
        unavailable: false,
        vanity_url_code: None,
        verification_level: VerificationLevel::Low,
        widget_channel_id: Some(ChannelId(5)),
        widget_enabled: Some(true),
    }
}

fn guild_update() -> starlight::cache::source::PartialGuild {
    starlight::cache::source::PartialGuild {
        id: GuildId(9),
        afk_channel_id: None,
        afk_timeout: 60,
        application_id: None,
        banner: None,
        default_message_notifications: DefaultMessageNotificationLevel::Mentions,
        description: Some("about".to_string()),
        discovery_splash: None,
        explicit_content_filter: ExplicitContentFilter::AllMembers,
        features: vec![],
        icon: None,
        max_members: Some(100),
        max_presences: None,
        member_count: None,
        mfa_level: MfaLevel::Elevated,
        name: "renamed".to_string(),
        owner_id: UserId(3),
        owner: None,
        permissions: None,
        preferred_locale: "fr".to_string(),
        premium_subscription_count: None,
        premium_tier: PremiumTier::Tier1,
        rules_channel_id: Some(ChannelId(7)),
        splash: None,
        system_channel_flags: 1,
        system_channel_id: None,
        verification_level: VerificationLevel::High,
        vanity_url_code: None,
        widget_channel_id: None,
        widget_enabled: None,
    }
}

#[test]
fn guild_entities_update() {
    let entity = GuildEntity::from(guild_value());
    assert_eq!(entity.id(), GuildId(9));
    assert_eq!(entity.name, "guild");
    let updated = entity.update(guild_update());
    assert_eq!(updated.name, "renamed");
    assert_eq!(updated.afk_timeout, 60);
    assert_eq!(updated.afk_channel_id, Some(ChannelId(1)));
    assert_eq!(updated.banner.as_deref(), Some("banner"));
    assert_eq!(updated.description.as_deref(), Some("about"));
    assert_eq!(updated.max_members, Some(100));
    assert_eq!(updated.member_count, Some(40));
    assert_eq!(updated.rules_channel_id, Some(ChannelId(7)));
    assert_eq!(updated.widget_channel_id, Some(ChannelId(5)));
    assert!(updated.features.is_empty());
    assert_eq!(updated.owner_id, UserId(3));
    assert_eq!(updated.joined_at.as_deref(), Some("2020"));
    assert!(updated.large);
    assert_eq!(updated.approximate_member_count, Some(40));
    assert_eq!(updated.mfa_level, MfaLevel::Elevated);
    assert_eq!(updated.clone().update(guild_update()), updated);
}

#[test]
fn noop_repository_reads_through_the_store_trait() {
    let repo = NoopRepository::new(());
    let got: Option<RoleEntity> = Repository::<RoleEntity>::get(&repo, RoleId(3));
    assert!(got.is_none());
    let all: Vec<MemberEntity> = Repository::<MemberEntity>::list(&repo);
    assert!(all.is_empty());
}

#[test]
fn in_memory_backends_keep_their_configuration() {
    let backend = InMemoryBackend::new();
    assert_eq!(backend.config().message_cache_size(), 100);
    assert_eq!(backend.config().entity_types().bits(), ALL_ENTITIES);
    assert_eq!(InMemoryBackend::default().config().message_cache_size(), 100);
    let mut builder = InMemoryBackend::builder();
    builder.entity_types(EntityType::from_bits_truncate(GUILD)).message_cache_size(3);
    let built = builder.build();
    assert_eq!(built.config().message_cache_size(), 3);
    assert_eq!(built.config().entity_types().bits(), GUILD);
    assert_eq!(built.clone().config().message_cache_size(), 3);
}
