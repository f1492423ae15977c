//! The entities of channels and messages.

use super::{option_or, or, or_value, value_or, Entity};
use crate::cache::source::{
    Attachment, CategoryChannel, ChannelMention, Group, Message, MessageUpdate, PrivateChannel,
    User, VoiceChannel,
};
use crate::model::{
    ApplicationId, AttachmentId, ChannelId, ChannelType, GuildId, MessageId, PermissionOverwrite,
    RoleId, UserId, WebhookId,
};
use twilight_model::channel::embed::Embed;
use twilight_model::channel::message::{MessageActivity, MessageReaction, MessageType};
use vstd::prelude::*;

verus! {

/// A file attached to a message.
#[derive(Debug, Clone, PartialEq, Eq)]
pub struct AttachmentEntity {
    pub filename: String,
    pub height: Option<u64>,
    pub id: AttachmentId,
    pub message_id: MessageId,
    pub proxy_url: String,
    pub size: u64,
    pub url: String,
    pub width: Option<u64>,
}

/// The attachment `value.1` of the message `value.0`.
impl From<(MessageId, Attachment)> for AttachmentEntity {
    fn from(value: (MessageId, Attachment)) -> (r: Self) {
        AttachmentEntity {
            filename: value.1.filename,
            height: value.1.height,
            id: value.1.id,
            message_id: value.0,
            proxy_url: value.1.proxy_url,
            size: value.1.size,
            url: value.1.url,
            width: value.1.width,
        }
    }
}

impl vstd::std_specs::convert::FromSpecImpl<(MessageId, Attachment)> for AttachmentEntity {
    open spec fn obeys_from_spec() -> bool {
        true
    }

    open spec fn from_spec(value: (MessageId, Attachment)) -> Self {
        AttachmentEntity {
            filename: value.1.filename,
            height: value.1.height,
            id: value.1.id,
            message_id: value.0,
            proxy_url: value.1.proxy_url,
            size: value.1.size,
            url: value.1.url,
            width: value.1.width,
        }
    }
}

impl Entity for AttachmentEntity {
    type Id = AttachmentId;

    open spec fn spec_id(&self) -> AttachmentId {
        self.id
    }

    fn id(&self) -> (r: AttachmentId) {
        self.id
    }
}

/// A category of channels in a guild.
#[derive(Debug, Clone, PartialEq, Eq)]
pub struct CategoryChannelEntity {
    pub guild_id: Option<GuildId>,
    pub id: ChannelId,
    pub kind: ChannelType,
    pub name: String,
    pub permission_overwrites: Vec<PermissionOverwrite>,
    pub position: i64,
}

/// The entity of a category channel.
impl From<CategoryChannel> for CategoryChannelEntity {
    fn from(channel: CategoryChannel) -> (r: Self) {
        CategoryChannelEntity {
            guild_id: channel.guild_id,
            id: channel.id,
            kind: channel.kind,
            name: channel.name,
            permission_overwrites: channel.permission_overwrites,
            position: channel.position,
        }
    }
}

impl vstd::std_specs::convert::FromSpecImpl<CategoryChannel> for CategoryChannelEntity {
    open spec fn obeys_from_spec() -> bool {
        true
    }

    open spec fn from_spec(channel: CategoryChannel) -> Self {
        CategoryChannelEntity {
            guild_id: channel.guild_id,
            id: channel.id,
            kind: channel.kind,
            name: channel.name,
            permission_overwrites: channel.permission_overwrites,
            position: channel.position,
        }
    }
}

impl Entity for CategoryChannelEntity {
    type Id = ChannelId;

    open spec fn spec_id(&self) -> ChannelId {
        self.id
    }

    fn id(&self) -> (r: ChannelId) {
        self.id
    }
}

/// A voice channel of a guild.
#[derive(Debug, Clone, PartialEq, Eq)]
pub struct VoiceChannelEntity {
    pub bitrate: u64,
    pub guild_id: Option<GuildId>,
    pub id: ChannelId,
    pub kind: ChannelType,
    pub name: String,
    pub permission_overwrites: Vec<PermissionOverwrite>,
    pub parent_id: Option<ChannelId>,
    pub position: i64,
    pub user_limit: Option<u64>,
}

/// The entity of a voice channel.
impl From<VoiceChannel> for VoiceChannelEntity {
    fn from(channel: VoiceChannel) -> (r: Self) {
        VoiceChannelEntity {
            bitrate: channel.bitrate,
            guild_id: channel.guild_id,
            id: channel.id,
            kind: channel.kind,
            name: channel.name,
            permission_overwrites: channel.permission_overwrites,
            parent_id: channel.parent_id,
            position: channel.position,
            user_limit: channel.user_limit,
        }
    }
}

impl vstd::std_specs::convert::FromSpecImpl<VoiceChannel> for VoiceChannelEntity {
    open spec fn obeys_from_spec() -> bool {
        true
    }

    open spec fn from_spec(channel: VoiceChannel) -> Self {
        VoiceChannelEntity {
            bitrate: channel.bitrate,
            guild_id: channel.guild_id,
            id: channel.id,
            kind: channel.kind,
            name: channel.name,
            permission_overwrites: channel.permission_overwrites,
            parent_id: channel.parent_id,
            position: channel.position,
            user_limit: channel.user_limit,
        }
    }
}

impl Entity for VoiceChannelEntity {
    type Id = ChannelId;

    open spec fn spec_id(&self) -> ChannelId {
        self.id
    }

    fn id(&self) -> (r: ChannelId) {
        self.id
    }
}

/// A direct message channel.
#[derive(Debug, Clone, PartialEq, Eq)]
pub struct PrivateChannelEntity {
    pub id: ChannelId,
    pub last_message_id: Option<MessageId>,
    pub last_pin_timestamp: Option<String>,
    pub kind: ChannelType,
    pub recipient_id: Option<UserId>,
}

/// The first of the users `users`, by identifier.
pub open spec fn first_user_id(users: Seq<User>) -> Option<UserId> {
    if users.len() > 0 {
        Some(users[0].id)
    } else {
        None
    }
}

/// The entity of a direct message channel: its recipient is the first of the
/// channel's recipients.
impl From<PrivateChannel> for PrivateChannelEntity {
    fn from(channel: PrivateChannel) -> (r: Self) {
        let recipient_id = if channel.recipients.len() > 0 {
            Some(channel.recipients[0].id)
        } else {
            None
        };
        PrivateChannelEntity {
            id: channel.id,
            last_message_id: channel.last_message_id,
            last_pin_timestamp: channel.last_pin_timestamp,
            kind: channel.kind,
            recipient_id,
        }
    }
}

impl vstd::std_specs::convert::FromSpecImpl<PrivateChannel> for PrivateChannelEntity {
    open spec fn obeys_from_spec() -> bool {
        true
    }

    open spec fn from_spec(channel: PrivateChannel) -> Self {
        PrivateChannelEntity {
            id: channel.id,
            last_message_id: channel.last_message_id,
            last_pin_timestamp: channel.last_pin_timestamp,
            kind: channel.kind,
            recipient_id: first_user_id(channel.recipients@),
        }
    }
}

impl Entity for PrivateChannelEntity {
    type Id = ChannelId;

    open spec fn spec_id(&self) -> ChannelId {
        self.id
    }

    fn id(&self) -> (r: ChannelId) {
        self.id
    }
}

/// A group direct message channel.
#[derive(Debug, Clone, PartialEq, Eq)]
pub struct GroupEntity {
    pub application_id: Option<ApplicationId>,
    pub icon: Option<String>,
    pub id: ChannelId,
    pub kind: ChannelType,
    pub last_message_id: Option<MessageId>,
    pub last_pin_timestamp: Option<String>,
    pub name: Option<String>,
    pub owner_id: UserId,
    pub recipient_ids: Vec<UserId>,
}

/// The identifiers of the users `users`, in order.
pub open spec fn user_ids(users: Seq<User>) -> Seq<UserId> {
    users.map_values(|u: User| u.id)
}

/// The identifiers of the users `users`, in order.
pub fn collect_user_ids(users: &Vec<User>) -> (r: Vec<UserId>)
    ensures
        r@ == user_ids(users@),
{
    let mut r: Vec<UserId> = Vec::new();
    let mut i: usize = 0;
    while i < users.len()
        invariant
            i <= users@.len(),
            r@ == user_ids(users@.take(i as int)),
        decreases users.len() - i,
    {
        r.push(users[i].id);
        proof {
            assert(user_ids(users@.take(i + 1)) =~= user_ids(users@.take(i as int)).push(
                users@[i as int].id,
            ));
        }
        i += 1;
    }
    assert(users@.take(users@.len() as int) =~= users@);
    r
}

impl GroupEntity {
    /// The entity of a group channel: the recipients are kept by identifier.
    pub fn from_group(group: Group) -> (r: Self)
        ensures
            r.application_id == group.application_id,
            r.icon == group.icon,
            r.id == group.id,
            r.kind == group.kind,
            r.last_message_id == group.last_message_id,
            r.last_pin_timestamp == group.last_pin_timestamp,
            r.name == group.name,
            r.owner_id == group.owner_id,
            r.recipient_ids@ == user_ids(group.recipients@),
    {
        let recipient_ids = collect_user_ids(&group.recipients);
        GroupEntity {
            application_id: group.application_id,
            icon: group.icon,
            id: group.id,
            kind: group.kind,
            last_message_id: group.last_message_id,
            last_pin_timestamp: group.last_pin_timestamp,
            name: group.name,
            owner_id: group.owner_id,
            recipient_ids,
        }
    }
}

impl Entity for GroupEntity {
    type Id = ChannelId;

    open spec fn spec_id(&self) -> ChannelId {
        self.id
    }

    fn id(&self) -> (r: ChannelId) {
        self.id
    }
}

/// A message.
#[derive(Debug, Clone, PartialEq, Eq)]
pub struct MessageEntity {
    pub activity: Option<MessageActivity>,
    pub application_id: Option<ApplicationId>,
    pub attachments: Vec<AttachmentId>,
    pub author_id: UserId,
    pub channel_id: ChannelId,
    pub content: String,
    pub edited_timestamp: Option<String>,
    pub embeds: Vec<Embed>,
    pub flags: Option<u64>,
    pub guild_id: Option<GuildId>,
    pub id: MessageId,
    pub kind: MessageType,
    pub mention_channels: Vec<ChannelId>,
    pub mention_everyone: bool,
    pub mention_roles: Vec<RoleId>,
    pub mentions: Vec<UserId>,
    pub pinned: bool,
    pub reactions: Vec<MessageReaction>,
    pub timestamp: String,
    pub tts: bool,
    pub webhook_id: Option<WebhookId>,
}

/// The identifiers of the attachments `attachments`, in order.
pub open spec fn attachment_ids(attachments: Seq<Attachment>) -> Seq<AttachmentId> {
    attachments.map_values(|a: Attachment| a.id)
}

/// The identifiers of the mentioned channels `channels`, in order.
pub open spec fn channel_ids(channels: Seq<ChannelMention>) -> Seq<ChannelId> {
    channels.map_values(|c: ChannelMention| c.id)
}

/// The identifiers of the attachments `attachments`, in order.
fn collect_attachment_ids(attachments: &Vec<Attachment>) -> (r: Vec<AttachmentId>)
    ensures
        r@ == attachment_ids(attachments@),
{
    let mut r: Vec<AttachmentId> = Vec::new();
    let mut i: usize = 0;
    while i < attachments.len()
        invariant
            i <= attachments@.len(),
            r@ == attachment_ids(attachments@.take(i as int)),
        decreases attachments.len() - i,
    {
        r.push(attachments[i].id);
        proof {
            assert(attachment_ids(attachments@.take(i + 1)) =~= attachment_ids(
                attachments@.take(i as int),
            ).push(attachments@[i as int].id));
        }
        i += 1;
    }
    assert(attachments@.take(attachments@.len() as int) =~= attachments@);
    r
}

/// The identifiers of the mentioned channels `channels`, in order.
fn collect_channel_ids(channels: &Vec<ChannelMention>) -> (r: Vec<ChannelId>)
    ensures
        r@ == channel_ids(channels@),
{
    let mut r: Vec<ChannelId> = Vec::new();
    let mut i: usize = 0;
    while i < channels.len()
        invariant
            i <= channels@.len(),
            r@ == channel_ids(channels@.take(i as int)),
        decreases channels.len() - i,
    {
        r.push(channels[i].id);
        proof {
            assert(channel_ids(channels@.take(i + 1)) =~= channel_ids(channels@.take(i as int)).push(
                channels@[i as int].id,
            ));
        }
        i += 1;
    }
    assert(channels@.take(channels@.len() as int) =~= channels@);
    r
}

impl MessageEntity {
    /// The entity of a message: the attachments, the mentioned channels and
    /// the mentioned users are kept by identifier, and the author by its
    /// identifier.
    pub fn from_message(message: Message) -> (r: Self)
        ensures
            r.activity == message.activity,
            r.application_id == message.application_id,
            r.channel_id == message.channel_id,
            r.content == message.content,
            r.edited_timestamp == message.edited_timestamp,
            r.embeds == message.embeds,
            r.flags == message.flags,
            r.guild_id == message.guild_id,
            r.id == message.id,
            r.kind == message.kind,
            r.mention_everyone == message.mention_everyone,
            r.mention_roles == message.mention_roles,
            r.pinned == message.pinned,
            r.reactions == message.reactions,
            r.timestamp == message.timestamp,
            r.tts == message.tts,
            r.webhook_id == message.webhook_id,
            r.attachments@ == attachment_ids(message.attachments@),
            r.author_id == message.author.id,
            r.mention_channels@ == channel_ids(message.mention_channels@),
            r.mentions@ == user_ids(message.mentions@),
    {
        let attachments = collect_attachment_ids(&message.attachments);
        let mention_channels = collect_channel_ids(&message.mention_channels);
        let mentions = collect_user_ids(&message.mentions);
        MessageEntity {
            attachments,
            author_id: message.author.id,
            mention_channels,
            mentions,
            activity: message.activity,
            application_id: message.application_id,
            channel_id: message.channel_id,
            content: message.content,
            edited_timestamp: message.edited_timestamp,
            embeds: message.embeds,
            flags: message.flags,
            guild_id: message.guild_id,
            id: message.id,
            kind: message.kind,
            mention_everyone: message.mention_everyone,
            mention_roles: message.mention_roles,
            pinned: message.pinned,
            reactions: message.reactions,
            timestamp: message.timestamp,
            tts: message.tts,
            webhook_id: message.webhook_id,
        }
    }

    /// The message after the update `update`: the channel and the identifier
    /// are the update's, each other field that the update gives replaces the
    /// message's, and the fields that it does not give are kept.
    pub fn update(self, update: MessageUpdate) -> (r: Self)
        ensures
            r.attachments@ == match update.attachments {
                Some(a) => attachment_ids(a@),
                None => self.attachments@,
            },
            r.author_id == match update.author {
                Some(a) => a.id,
                None => self.author_id,
            },
            r.channel_id == update.channel_id,
            r.content == or_value(update.content, self.content),
            r.edited_timestamp == or(update.edited_timestamp, self.edited_timestamp),
            r.embeds == or_value(update.embeds, self.embeds),
            r.guild_id == or(update.guild_id, self.guild_id),
            r.id == update.id,
            r.kind == or_value(update.kind, self.kind),
            r.mention_everyone == or_value(update.mention_everyone, self.mention_everyone),
            r.mention_roles == or_value(update.mention_roles, self.mention_roles),
            r.mentions@ == match update.mentions {
                Some(m) => user_ids(m@),
                None => self.mentions@,
            },
            r.pinned == or_value(update.pinned, self.pinned),
            r.timestamp == or_value(update.timestamp, self.timestamp),
            r.tts == or_value(update.tts, self.tts),
            r.activity == self.activity,
            r.application_id == self.application_id,
            r.flags == self.flags,
            r.mention_channels == self.mention_channels,
            r.reactions == self.reactions,
            r.webhook_id == self.webhook_id,
    {
        let attachments = match &update.attachments {
            Some(a) => collect_attachment_ids(a),
            None => self.attachments,
        };
        let mentions = match &update.mentions {
            Some(m) => collect_user_ids(m),
            None => self.mentions,
        };
        let author_id = match &update.author {
            Some(a) => a.id,
            None => self.author_id,
        };
        MessageEntity {
            attachments,
            author_id,
            channel_id: update.channel_id,
            content: value_or(update.content, self.content),
            edited_timestamp: option_or(update.edited_timestamp, self.edited_timestamp),
            embeds: value_or(update.embeds, self.embeds),
            guild_id: option_or(update.guild_id, self.guild_id),
            id: update.id,
            kind: value_or(update.kind, self.kind),
            mention_everyone: value_or(update.mention_everyone, self.mention_everyone),
            mention_roles: value_or(update.mention_roles, self.mention_roles),
            mentions,
            pinned: value_or(update.pinned, self.pinned),
            timestamp: value_or(update.timestamp, self.timestamp),
            tts: value_or(update.tts, self.tts),
            activity: self.activity,
            application_id: self.application_id,
            flags: self.flags,
            mention_channels: self.mention_channels,
            reactions: self.reactions,
            webhook_id: self.webhook_id,
        }
    }
}

impl Entity for MessageEntity {
    type Id = MessageId;

    open spec fn spec_id(&self) -> MessageId {
        self.id
    }

    fn id(&self) -> (r: MessageId) {
        self.id
    }
}

} // verus!
