//! Which entities the in-memory cache holds, and how many messages it keeps.

use crate::flags::lemma_mask;
use vstd::prelude::*;

verus! {

pub const ATTACHMENT: u64 = 1 << 0;
pub const CHANNEL_CATEGORY: u64 = 1 << 1;
pub const CHANNEL_GROUP: u64 = 1 << 2;
pub const CHANNEL_PRIVATE: u64 = 1 << 3;
pub const CHANNEL_TEXT: u64 = 1 << 4;
pub const CHANNEL_STAGE: u64 = 1 << 5;
pub const CHANNEL_VOICE: u64 = 1 << 6;
pub const EMOJI: u64 = 1 << 7;
pub const GUILD: u64 = 1 << 8;
pub const MEMBER: u64 = 1 << 9;
pub const MESSAGE: u64 = 1 << 10;
pub const PRESENCE: u64 = 1 << 11;
pub const ROLE: u64 = 1 << 12;
pub const USER: u64 = 1 << 13;
pub const USER_CURRENT: u64 = 1 << 14;
pub const VOICE_STATE: u64 = 1 << 15;

/// Every entity flag that is defined: the union of the constants above.
pub const ALL_ENTITIES: u64 = 0xFFFF;

/// A set of kinds of entities that the in-memory cache holds.
/// It never holds a bit outside `ALL_ENTITIES`.
#[derive(Clone, Copy, Debug, PartialEq, Eq, Structural, Hash)]
pub struct EntityType {
    bits: u64,
}

impl EntityType {
    /// The bits of this set.
    pub closed spec fn view(self) -> u64 {
        self.bits
    }

    #[verifier::type_invariant]
    closed spec fn well_formed(self) -> bool {
        self.bits & ALL_ENTITIES == self.bits
    }

    /// The raw bits of the set.
    pub fn bits(&self) -> (r: u64)
        ensures
            r == self@,
            r & ALL_ENTITIES == r,
    {
        proof {
            use_type_invariant(self);
        }
        self.bits
    }

    /// The set of the defined bits among `bits`; undefined bits are dropped.
    pub fn from_bits_truncate(bits: u64) -> (r: Self)
        ensures
            r@ == bits & ALL_ENTITIES,
    {
        proof {
            lemma_mask(bits, 0, ALL_ENTITIES);
        }
        EntityType { bits: bits & ALL_ENTITIES }
    }

    /// The empty set.
    pub fn empty() -> (r: Self)
        ensures
            r@ == 0,
    {
        proof {
            lemma_mask(0, 0, ALL_ENTITIES);
        }
        EntityType { bits: 0 }
    }

    /// The set of every defined flag.
    pub fn all() -> (r: Self)
        ensures
            r@ == ALL_ENTITIES,
    {
        proof {
            lemma_mask(0, 0, ALL_ENTITIES);
        }
        EntityType { bits: ALL_ENTITIES }
    }

    /// Whether every flag of `other` is in this set.
    pub fn contains(&self, other: Self) -> (r: bool)
        ensures
            r == (self@ & other@ == other@),
    {
        self.bits & other.bits == other.bits
    }

    /// Whether this set is empty.
    pub fn is_empty(&self) -> (r: bool)
        ensures
            r == (self@ == 0),
    {
        self.bits == 0
    }

    /// Whether this set holds every defined flag.
    pub fn is_all(&self) -> (r: bool)
        ensures
            r == (self@ == ALL_ENTITIES),
    {
        self.bits == ALL_ENTITIES
    }

    /// Adds the flags of `other` to this set.
    pub fn insert(&mut self, other: Self)
        ensures
            final(self)@ == old(self)@ | other@,
    {
        proof {
            use_type_invariant(&*self);
            use_type_invariant(&other);
            lemma_mask(self.bits, other.bits, ALL_ENTITIES);
        }
        self.bits = self.bits | other.bits;
    }

    /// Takes the flags of `other` out of this set.
    pub fn remove(&mut self, other: Self)
        ensures
            final(self)@ == old(self)@ & !other@,
    {
        proof {
            use_type_invariant(&*self);
            use_type_invariant(&other);
            lemma_mask(self.bits, other.bits, ALL_ENTITIES);
        }
        self.bits = self.bits & !other.bits;
    }
}

/// How many messages the in-memory cache keeps when nothing else is said.
pub const DEFAULT_MESSAGE_CACHE_SIZE: usize = 100;

/// What the in-memory cache holds: the kinds of entities, and how many
/// messages it keeps.
#[derive(Debug, Clone, Copy, PartialEq, Eq, Structural)]
pub struct Config {
    entity_types: EntityType,
    message_cache_size: usize,
}

impl Config {
    /// The entity types and the message cache size.
    pub closed spec fn view(&self) -> (u64, usize) {
        (self.entity_types@, self.message_cache_size)
    }

    /// The kinds of entities that the cache holds.
    #[must_use]
    pub fn entity_types(&self) -> (r: EntityType)
        ensures
            r@ == self@.0,
    {
        self.entity_types
    }

    /// A mutable reference to the kinds of entities that the cache holds.
    pub fn entity_types_mut(&mut self) -> (r: &mut EntityType)
        ensures
            r@ == old(self)@.0,
            final(self)@ == (final(r)@, old(self)@.1),
    {
        &mut self.entity_types
    }

    /// How many messages the cache keeps.
    #[must_use]
    pub fn message_cache_size(&self) -> (r: usize)
        ensures
            r == self@.1,
    {
        self.message_cache_size
    }

    /// A mutable reference to how many messages the cache keeps.
    pub fn message_cache_size_mut(&mut self) -> (r: &mut usize)
        ensures
            *r == old(self)@.1,
            final(self)@ == (old(self)@.0, *final(r)),
    {
        &mut self.message_cache_size
    }
}

impl Default for Config {
    fn default() -> (r: Self)
        ensures
            r@ == (ALL_ENTITIES, DEFAULT_MESSAGE_CACHE_SIZE),
    {
        Config { entity_types: EntityType::all(), message_cache_size: DEFAULT_MESSAGE_CACHE_SIZE }
    }
}

} // verus!
