use starlight::calculator::bitops;
use starlight::calculator::preset::{
    PERMISSIONS_STAGE_ONLY, PERMISSIONS_TEXT_ONLY, PERMISSIONS_VOICE_ONLY,
};
use starlight::calculator::{member_has_role, PermissionCalculator};
use starlight::model::{
    ChannelType, GuildId, PermissionOverwrite, PermissionOverwriteType, RoleId, UserId,
};
use starlight::permissions::{
    Permissions, ADD_REACTIONS, ADMINISTRATOR, ATTACH_FILES, BAN_MEMBERS, CONNECT,
    DEAFEN_MEMBERS, EMBED_LINKS, KICK_MEMBERS, MANAGE_MESSAGES, MANAGE_WEBHOOKS,
    MENTION_EVERYONE, PRIORITY_SPEAKER, READ_MESSAGE_HISTORY, REQUEST_TO_SPEAK, SEND_MESSAGES,
    SEND_TTS_MESSAGES, SPEAK, STREAM, USE_EXTERNAL_EMOJIS, USE_SLASH_COMMANDS, USE_VAD,
    VIEW_CHANNEL,
};

const GUILD_ID: GuildId = GuildId(1);
const USER_ID: UserId = UserId(2);

fn perms(bits: u64) -> Permissions {
    Permissions::from_bits_truncate(bits)
}

#[test]
fn insert() {
    let actual = bitops::insert(perms(KICK_MEMBERS), perms(BAN_MEMBERS | CONNECT));
    let expected = perms(BAN_MEMBERS | CONNECT | KICK_MEMBERS);
    assert_eq!(actual, expected);
}

#[test]
fn remove() {
    let actual = bitops::remove(perms(BAN_MEMBERS | KICK_MEMBERS), perms(BAN_MEMBERS));
    assert_eq!(actual, perms(KICK_MEMBERS));
}

#[test]
fn remove_nonexistent() {
    let actual = bitops::remove(perms(KICK_MEMBERS), perms(BAN_MEMBERS));
    assert_eq!(actual, perms(KICK_MEMBERS));
}

#[test]
fn owner_is_admin() {
    let member_roles: &[(RoleId, Permissions)] = &[];
    let calculator = PermissionCalculator::new(GUILD_ID, USER_ID, perms(SEND_MESSAGES), member_roles)
        .owner_id(USER_ID);
    assert_eq!(Permissions::all(), calculator.root());
}

#[test]
fn view_channel_deny_implicit() {
    let everyone_role = perms(MENTION_EVERYONE | SEND_MESSAGES);
    let member_roles = &[(RoleId(3), Permissions::empty())];
    {
        let overwrites = &[PermissionOverwrite {
            allow: perms(SEND_TTS_MESSAGES),
            deny: perms(VIEW_CHANNEL),
            kind: PermissionOverwriteType::Role(RoleId(3)),
        }];
        let calculated = PermissionCalculator::new(GUILD_ID, USER_ID, everyone_role, member_roles)
            .in_channel(ChannelType::GuildText, overwrites);
        assert_eq!(calculated, Permissions::empty());
    }
    {
        let overwrites = &[PermissionOverwrite {
            allow: perms(SEND_TTS_MESSAGES),
            deny: perms(VIEW_CHANNEL),
            kind: PermissionOverwriteType::Member(UserId(2)),
        }];
        let calculated = PermissionCalculator::new(GUILD_ID, USER_ID, everyone_role, member_roles)
            .in_channel(ChannelType::GuildText, overwrites);
        assert_eq!(calculated, Permissions::empty());
    }
}

#[test]
fn remove_text_and_stage_perms_when_voice() {
    let everyone_role = perms(CONNECT);
    let member_roles = &[(RoleId(3), perms(SEND_MESSAGES))];
    let calculated = PermissionCalculator::new(GUILD_ID, USER_ID, everyone_role, member_roles)
        .in_channel(ChannelType::GuildVoice, &[]);
    assert_eq!(calculated, perms(CONNECT));
}

#[test]
fn remove_audio_perms_when_text() {
    let everyone_role = perms(CONNECT);
    let member_roles = &[(RoleId(3), perms(SEND_MESSAGES))];
    let calculated = PermissionCalculator::new(GUILD_ID, USER_ID, everyone_role, member_roles)
        .in_channel(ChannelType::GuildText, &[]);
    assert_eq!(calculated, perms(CONNECT | SEND_MESSAGES));
}

#[test]
fn deny_send_messages_removes_related() {
    let everyone_role = perms(MANAGE_MESSAGES | EMBED_LINKS | MENTION_EVERYONE);
    let member_roles = &[(RoleId(3), Permissions::empty())];
    let overwrites = &[PermissionOverwrite {
        allow: perms(ATTACH_FILES),
        deny: perms(SEND_MESSAGES),
        kind: PermissionOverwriteType::Role(RoleId(3)),
    }];
    let calculated = PermissionCalculator::new(GUILD_ID, USER_ID, everyone_role, member_roles)
        .in_channel(ChannelType::GuildText, overwrites);
    assert_eq!(calculated, perms(MANAGE_MESSAGES));
}

#[test]
fn admin() {
    let roles = &[(RoleId(3), perms(ADMINISTRATOR))];
    let calc = PermissionCalculator::new(GUILD_ID, USER_ID, Permissions::empty(), roles);
    assert!(calc.root().is_all());
    let perms = calc.in_channel(ChannelType::GuildText, Default::default());
    assert!(perms.is_all());
}

#[test]
fn permissions_stage_only() {
    assert_eq!(REQUEST_TO_SPEAK, PERMISSIONS_STAGE_ONLY);
}

#[test]
fn permissions_text_only() {
    let expected = ADD_REACTIONS
        | ATTACH_FILES
        | EMBED_LINKS
        | MANAGE_MESSAGES
        | MANAGE_WEBHOOKS
        | MENTION_EVERYONE
        | READ_MESSAGE_HISTORY
        | SEND_MESSAGES
        | SEND_TTS_MESSAGES
        | USE_EXTERNAL_EMOJIS
        | USE_SLASH_COMMANDS;
    assert_eq!(expected, PERMISSIONS_TEXT_ONLY);
}

#[test]
fn permissions_voice_only() {
    let expected = DEAFEN_MEMBERS | PRIORITY_SPEAKER | SPEAK | STREAM | USE_VAD;
    assert_eq!(expected, PERMISSIONS_VOICE_ONLY);
}

#[test]
fn member_roles_are_found() {
    let roles = &[(RoleId(3), Permissions::empty()), (RoleId(5), perms(SPEAK))];
    assert!(member_has_role(roles, RoleId(5)));
    assert!(!member_has_role(roles, RoleId(4)));
}

#[test]
fn owner_holds_everything_in_a_hidden_channel() {
    let roles: &[(RoleId, Permissions)] = &[];
    let overwrites = &[PermissionOverwrite {
        allow: Permissions::empty(),
        deny: perms(VIEW_CHANNEL),
        kind: PermissionOverwriteType::Member(USER_ID),
    }];
    let calc = PermissionCalculator::new(GUILD_ID, USER_ID, Permissions::empty(), roles)
        .owner_id(USER_ID);
    assert!(calc.in_channel(ChannelType::GuildText, overwrites).is_all());
}

#[test]
fn member_overwrite_beats_role_overwrite() {
    let roles = &[(RoleId(3), Permissions::empty())];
    let overwrites = &[
        PermissionOverwrite {
            allow: Permissions::empty(),
            deny: perms(ADD_REACTIONS),
            kind: PermissionOverwriteType::Role(RoleId(3)),
        },
        PermissionOverwrite {
            allow: perms(ADD_REACTIONS),
            deny: Permissions::empty(),
            kind: PermissionOverwriteType::Member(USER_ID),
        },
    ];
    let calc = PermissionCalculator::new(GUILD_ID, USER_ID, perms(VIEW_CHANNEL), roles);
    assert_eq!(
        calc.in_channel(ChannelType::GuildText, overwrites),
        perms(VIEW_CHANNEL | ADD_REACTIONS)
    );
}

#[test]
fn everyone_overwrite_applies_to_all() {
    let roles: &[(RoleId, Permissions)] = &[];
    let overwrites = &[PermissionOverwrite {
        allow: perms(EMBED_LINKS),
        deny: Permissions::empty(),
        kind: PermissionOverwriteType::Role(RoleId(GUILD_ID.0)),
    }];
    let calc = PermissionCalculator::new(GUILD_ID, USER_ID, perms(VIEW_CHANNEL), roles);
    assert_eq!(
        calc.in_channel(ChannelType::GuildText, overwrites),
        perms(VIEW_CHANNEL | EMBED_LINKS)
    );
}

#[test]
fn undefined_bits_are_dropped() {
    let p = Permissions::from_bits_truncate(u64::MAX);
    assert!(p.is_all());
    assert_eq!(p.bits(), 0x1_FFFF_FFFF);
    assert!(Permissions::empty().is_empty());
    assert!(p.contains(perms(SPEAK | CONNECT)));
}

#[test]
fn insert_twice_is_insert_once() {
    let once = bitops::insert(perms(SPEAK), perms(CONNECT));
    let twice = bitops::insert(once, perms(CONNECT));
    assert_eq!(once, twice);
    assert_eq!(bitops::remove(bitops::insert(perms(SPEAK), perms(CONNECT)), perms(CONNECT)), perms(SPEAK));
}
