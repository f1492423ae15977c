//! Guild permission flags, modelled on the 33 permission bits of the Discord API.
//!
//! The flag constants are the raw bits; a [`Permissions`] value is a set of them.

use vstd::prelude::*;

verus! {

pub const CREATE_INVITE: u64 = 0x0000_0001;
pub const KICK_MEMBERS: u64 = 0x0000_0002;
pub const BAN_MEMBERS: u64 = 0x0000_0004;
pub const ADMINISTRATOR: u64 = 0x0000_0008;
pub const MANAGE_CHANNELS: u64 = 0x0000_0010;
pub const MANAGE_GUILD: u64 = 0x0000_0020;
pub const ADD_REACTIONS: u64 = 0x0000_0040;
pub const VIEW_AUDIT_LOG: u64 = 0x0000_0080;
pub const PRIORITY_SPEAKER: u64 = 0x0000_0100;
pub const STREAM: u64 = 0x0000_0200;
pub const VIEW_CHANNEL: u64 = 0x0000_0400;
pub const SEND_MESSAGES: u64 = 0x0000_0800;
pub const SEND_TTS_MESSAGES: u64 = 0x0000_1000;
pub const MANAGE_MESSAGES: u64 = 0x0000_2000;
pub const EMBED_LINKS: u64 = 0x0000_4000;
pub const ATTACH_FILES: u64 = 0x0000_8000;
pub const READ_MESSAGE_HISTORY: u64 = 0x0001_0000;
pub const MENTION_EVERYONE: u64 = 0x0002_0000;
pub const USE_EXTERNAL_EMOJIS: u64 = 0x0004_0000;
pub const VIEW_GUILD_INSIGHTS: u64 = 0x0008_0000;
pub const CONNECT: u64 = 0x0010_0000;
pub const SPEAK: u64 = 0x0020_0000;
pub const MUTE_MEMBERS: u64 = 0x0040_0000;
pub const DEAFEN_MEMBERS: u64 = 0x0080_0000;
pub const MOVE_MEMBERS: u64 = 0x0100_0000;
pub const USE_VAD: u64 = 0x0200_0000;
pub const CHANGE_NICKNAME: u64 = 0x0400_0000;
pub const MANAGE_NICKNAMES: u64 = 0x0800_0000;
pub const MANAGE_ROLES: u64 = 0x1000_0000;
pub const MANAGE_WEBHOOKS: u64 = 0x2000_0000;
pub const MANAGE_EMOJIS: u64 = 0x4000_0000;
pub const USE_SLASH_COMMANDS: u64 = 0x8000_0000;
pub const REQUEST_TO_SPEAK: u64 = 0x1_0000_0000;

/// Every permission bit that is defined: the union of the constants above.
pub const ALL_BITS: u64 = 0x1_FFFF_FFFF;

/// A set of permission flags. It never holds a bit outside `ALL_BITS`.
#[derive(Clone, Copy, Debug, PartialEq, Eq, Structural, Hash)]
pub struct Permissions {
    bits: u64,
}

/// The bit set `bits` with every undefined bit cleared.
pub open spec fn truncate(bits: u64) -> u64 {
    bits & ALL_BITS
}

impl Permissions {
    /// The bits of this set.
    pub closed spec fn view(self) -> u64 {
        self.bits & ALL_BITS
    }

    /// A permission set holds defined bits only.
    pub proof fn lemma_defined_bits(self)
        ensures
            self@ & ALL_BITS == self@,
            self@ <= ALL_BITS,
    {
        let b = self.bits;
        assert((b & ALL_BITS) & ALL_BITS == b & ALL_BITS) by (bit_vector);
        assert(b & ALL_BITS <= ALL_BITS) by (bit_vector);
    }

    #[verifier::type_invariant]
    closed spec fn well_formed(self) -> bool {
        self.bits & ALL_BITS == self.bits
    }

    /// The raw bits of the set.
    pub fn bits(&self) -> (r: u64)
        ensures
            r == self@,
            r & ALL_BITS == r,
    {
        proof {
            use_type_invariant(self);
        }
        self.bits
    }

    /// The set of the defined bits among `bits`; undefined bits are dropped.
    pub fn from_bits_truncate(bits: u64) -> (r: Permissions)
        ensures
            r@ == truncate(bits),
    {
        let b = bits & ALL_BITS;
        assert(b & ALL_BITS == b) by (bit_vector)
            requires
                b == bits & ALL_BITS,
        ;
        Permissions { bits: b }
    }

    /// The empty set.
    pub fn empty() -> (r: Permissions)
        ensures
            r@ == 0,
    {
        assert(0u64 & ALL_BITS == 0u64) by (bit_vector);
        Permissions { bits: 0 }
    }

    /// The set of every defined permission.
    pub fn all() -> (r: Permissions)
        ensures
            r@ == ALL_BITS,
    {
        assert(ALL_BITS & ALL_BITS == ALL_BITS) by (bit_vector);
        Permissions { bits: ALL_BITS }
    }

    /// Whether every bit of `other` is in this set.
    pub fn contains(&self, other: Permissions) -> (r: bool)
        ensures
            r == (self@ & other@ == other@),
    {
        proof {
            use_type_invariant(self);
            use_type_invariant(&other);
        }
        self.bits & other.bits == other.bits
    }

    /// Whether this set holds every defined permission.
    pub fn is_all(&self) -> (r: bool)
        ensures
            r == (self@ == ALL_BITS),
    {
        proof {
            use_type_invariant(self);
        }
        self.bits == ALL_BITS
    }

    /// Whether this set is empty.
    pub fn is_empty(&self) -> (r: bool)
        ensures
            r == (self@ == 0),
    {
        proof {
            use_type_invariant(self);
        }
        self.bits == 0
    }
}

} // verus!
