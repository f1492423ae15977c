//! Plain-value models of the Discord identifiers and channel data that the
//! library's logic reads.
//!
//! Every identifier is a snowflake: a `u64` wrapped in a type of its own so that
//! identifiers of different resources are not mixed up.

use crate::permissions::Permissions;
use vstd::prelude::*;

verus! {

#[derive(Clone, Copy, Debug, Default, PartialEq, Eq, Structural, Hash, PartialOrd, Ord)]
pub struct ApplicationId(pub u64);

#[derive(Clone, Copy, Debug, Default, PartialEq, Eq, Structural, Hash, PartialOrd, Ord)]
pub struct AttachmentId(pub u64);

#[derive(Clone, Copy, Debug, Default, PartialEq, Eq, Structural, Hash, PartialOrd, Ord)]
pub struct AuditLogEntryId(pub u64);

#[derive(Clone, Copy, Debug, Default, PartialEq, Eq, Structural, Hash, PartialOrd, Ord)]
pub struct ChannelId(pub u64);

#[derive(Clone, Copy, Debug, Default, PartialEq, Eq, Structural, Hash, PartialOrd, Ord)]
pub struct CommandId(pub u64);

#[derive(Clone, Copy, Debug, Default, PartialEq, Eq, Structural, Hash, PartialOrd, Ord)]
pub struct EmojiId(pub u64);

#[derive(Clone, Copy, Debug, Default, PartialEq, Eq, Structural, Hash, PartialOrd, Ord)]
pub struct GenericId(pub u64);

#[derive(Clone, Copy, Debug, Default, PartialEq, Eq, Structural, Hash, PartialOrd, Ord)]
pub struct GuildId(pub u64);

#[derive(Clone, Copy, Debug, Default, PartialEq, Eq, Structural, Hash, PartialOrd, Ord)]
pub struct IntegrationId(pub u64);

#[derive(Clone, Copy, Debug, Default, PartialEq, Eq, Structural, Hash, PartialOrd, Ord)]
pub struct InteractionId(pub u64);

#[derive(Clone, Copy, Debug, Default, PartialEq, Eq, Structural, Hash, PartialOrd, Ord)]
pub struct MessageId(pub u64);

#[derive(Clone, Copy, Debug, Default, PartialEq, Eq, Structural, Hash, PartialOrd, Ord)]
pub struct RoleId(pub u64);

#[derive(Clone, Copy, Debug, Default, PartialEq, Eq, Structural, Hash, PartialOrd, Ord)]
pub struct StageId(pub u64);

#[derive(Clone, Copy, Debug, Default, PartialEq, Eq, Structural, Hash, PartialOrd, Ord)]
pub struct UserId(pub u64);

#[derive(Clone, Copy, Debug, Default, PartialEq, Eq, Structural, Hash, PartialOrd, Ord)]
pub struct WebhookId(pub u64);

/// An identifier type: a snowflake wrapped in a type of its own.
pub trait Snowflake: Sized + Copy {
    /// The snowflake that the identifier holds.
    spec fn snowflake(&self) -> u64;

    /// The identifier that holds `value`.
    spec fn spec_from_snowflake(value: u64) -> Self;

    /// The identifier that holds `value` holds `value`.
    proof fn lemma_from_snowflake(value: u64)
        ensures
            Self::spec_from_snowflake(value).snowflake() == value,
    ;

    /// The identifier that holds `value`.
    fn from_snowflake(value: u64) -> (r: Self)
        ensures
            r == Self::spec_from_snowflake(value),
            r.snowflake() == value,
    ;

    /// The snowflake that the identifier holds.
    fn get_snowflake(&self) -> (r: u64)
        ensures
            r == self.snowflake(),
    ;
}

impl Snowflake for ApplicationId {
    open spec fn snowflake(&self) -> u64 {
        self.0
    }

    open spec fn spec_from_snowflake(value: u64) -> Self {
        ApplicationId(value)
    }

    proof fn lemma_from_snowflake(value: u64) {
    }

    fn from_snowflake(value: u64) -> (r: Self) {
        ApplicationId(value)
    }

    fn get_snowflake(&self) -> (r: u64) {
        self.0
    }
}

impl Snowflake for AttachmentId {
    open spec fn snowflake(&self) -> u64 {
        self.0
    }

    open spec fn spec_from_snowflake(value: u64) -> Self {
        AttachmentId(value)
    }

    proof fn lemma_from_snowflake(value: u64) {
    }

    fn from_snowflake(value: u64) -> (r: Self) {
        AttachmentId(value)
    }

    fn get_snowflake(&self) -> (r: u64) {
        self.0
    }
}

impl Snowflake for AuditLogEntryId {
    open spec fn snowflake(&self) -> u64 {
        self.0
    }

    open spec fn spec_from_snowflake(value: u64) -> Self {
        AuditLogEntryId(value)
    }

    proof fn lemma_from_snowflake(value: u64) {
    }

    fn from_snowflake(value: u64) -> (r: Self) {
        AuditLogEntryId(value)
    }

    fn get_snowflake(&self) -> (r: u64) {
        self.0
    }
}

impl Snowflake for ChannelId {
    open spec fn snowflake(&self) -> u64 {
        self.0
    }

    open spec fn spec_from_snowflake(value: u64) -> Self {
        ChannelId(value)
    }

    proof fn lemma_from_snowflake(value: u64) {
    }

    fn from_snowflake(value: u64) -> (r: Self) {
        ChannelId(value)
    }

    fn get_snowflake(&self) -> (r: u64) {
        self.0
    }
}

impl Snowflake for CommandId {
    open spec fn snowflake(&self) -> u64 {
        self.0
    }

    open spec fn spec_from_snowflake(value: u64) -> Self {
        CommandId(value)
    }

    proof fn lemma_from_snowflake(value: u64) {
    }

    fn from_snowflake(value: u64) -> (r: Self) {
        CommandId(value)
    }

    fn get_snowflake(&self) -> (r: u64) {
        self.0
    }
}

impl Snowflake for EmojiId {
    open spec fn snowflake(&self) -> u64 {
        self.0
    }

    open spec fn spec_from_snowflake(value: u64) -> Self {
        EmojiId(value)
    }

    proof fn lemma_from_snowflake(value: u64) {
    }

    fn from_snowflake(value: u64) -> (r: Self) {
        EmojiId(value)
    }

    fn get_snowflake(&self) -> (r: u64) {
        self.0
    }
}

impl Snowflake for GenericId {
    open spec fn snowflake(&self) -> u64 {
        self.0
    }

    open spec fn spec_from_snowflake(value: u64) -> Self {
        GenericId(value)
    }

    proof fn lemma_from_snowflake(value: u64) {
    }

    fn from_snowflake(value: u64) -> (r: Self) {
        GenericId(value)
    }

    fn get_snowflake(&self) -> (r: u64) {
        self.0
    }
}

impl Snowflake for GuildId {
    open spec fn snowflake(&self) -> u64 {
        self.0
    }

    open spec fn spec_from_snowflake(value: u64) -> Self {
        GuildId(value)
    }

    proof fn lemma_from_snowflake(value: u64) {
    }

    fn from_snowflake(value: u64) -> (r: Self) {
        GuildId(value)
    }

    fn get_snowflake(&self) -> (r: u64) {
        self.0
    }
}

impl Snowflake for IntegrationId {
    open spec fn snowflake(&self) -> u64 {
        self.0
    }

    open spec fn spec_from_snowflake(value: u64) -> Self {
        IntegrationId(value)
    }

    proof fn lemma_from_snowflake(value: u64) {
    }

    fn from_snowflake(value: u64) -> (r: Self) {
        IntegrationId(value)
    }

    fn get_snowflake(&self) -> (r: u64) {
        self.0
    }
}

impl Snowflake for InteractionId {
    open spec fn snowflake(&self) -> u64 {
        self.0
    }

    open spec fn spec_from_snowflake(value: u64) -> Self {
        InteractionId(value)
    }

    proof fn lemma_from_snowflake(value: u64) {
    }

    fn from_snowflake(value: u64) -> (r: Self) {
        InteractionId(value)
    }

    fn get_snowflake(&self) -> (r: u64) {
        self.0
    }
}

impl Snowflake for MessageId {
    open spec fn snowflake(&self) -> u64 {
        self.0
    }

    open spec fn spec_from_snowflake(value: u64) -> Self {
        MessageId(value)
    }

    proof fn lemma_from_snowflake(value: u64) {
    }

    fn from_snowflake(value: u64) -> (r: Self) {
        MessageId(value)
    }

    fn get_snowflake(&self) -> (r: u64) {
        self.0
    }
}

impl Snowflake for RoleId {
    open spec fn snowflake(&self) -> u64 {
        self.0
    }

    open spec fn spec_from_snowflake(value: u64) -> Self {
        RoleId(value)
    }

    proof fn lemma_from_snowflake(value: u64) {
    }

    fn from_snowflake(value: u64) -> (r: Self) {
        RoleId(value)
    }

    fn get_snowflake(&self) -> (r: u64) {
        self.0
    }
}

impl Snowflake for StageId {
    open spec fn snowflake(&self) -> u64 {
        self.0
    }

    open spec fn spec_from_snowflake(value: u64) -> Self {
        StageId(value)
    }

    proof fn lemma_from_snowflake(value: u64) {
    }

    fn from_snowflake(value: u64) -> (r: Self) {
        StageId(value)
    }

    fn get_snowflake(&self) -> (r: u64) {
        self.0
    }
}

impl Snowflake for UserId {
    open spec fn snowflake(&self) -> u64 {
        self.0
    }

    open spec fn spec_from_snowflake(value: u64) -> Self {
        UserId(value)
    }

    proof fn lemma_from_snowflake(value: u64) {
    }

    fn from_snowflake(value: u64) -> (r: Self) {
        UserId(value)
    }

    fn get_snowflake(&self) -> (r: u64) {
        self.0
    }
}

impl Snowflake for WebhookId {
    open spec fn snowflake(&self) -> u64 {
        self.0
    }

    open spec fn spec_from_snowflake(value: u64) -> Self {
        WebhookId(value)
    }

    proof fn lemma_from_snowflake(value: u64) {
    }

    fn from_snowflake(value: u64) -> (r: Self) {
        WebhookId(value)
    }

    fn get_snowflake(&self) -> (r: u64) {
        self.0
    }
}

/// The kind of a channel.
#[derive(Clone, Copy, Debug, PartialEq, Eq, Structural, Hash)]
pub enum ChannelType {
    GuildText,
    Private,
    GuildVoice,
    Group,
    GuildCategory,
    GuildNews,
    GuildStore,
    GuildStageVoice,
}

/// Whom a permission overwrite applies to.
#[derive(Clone, Copy, Debug, PartialEq, Eq, Structural, Hash)]
pub enum PermissionOverwriteType {
    Member(UserId),
    Role(RoleId),
}

/// Permissions that a channel grants or takes away from a member or a role.
#[derive(Clone, Copy, Debug, PartialEq, Eq, Structural, Hash)]
pub struct PermissionOverwrite {
    pub allow: Permissions,
    pub deny: Permissions,
    pub kind: PermissionOverwriteType,
}

} // verus!
