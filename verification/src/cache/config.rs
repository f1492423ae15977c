//! Which resources the cache holds, and how many messages it keeps.

use crate::flags::lemma_mask;
use vstd::prelude::*;

verus! {

pub const CHANNEL: u64 = 1 << 0;
pub const EMOJI: u64 = 1 << 1;
pub const GUILD: u64 = 1 << 2;
pub const MEMBER: u64 = 1 << 3;
pub const MESSAGE: u64 = 1 << 4;
pub const PRESENCE: u64 = 1 << 5;
pub const REACTION: u64 = 1 << 6;
pub const ROLE: u64 = 1 << 7;
pub const USER_CURRENT: u64 = 1 << 8;
pub const USER: u64 = 1 << 9;
pub const VOICE_STATE: u64 = 1 << 10;
pub const STAGE_INSTANCE: u64 = 1 << 11;
pub const INTEGRATION: u64 = 1 << 12;

/// Every resource flag that is defined: the union of the constants above.
pub const ALL_RESOURCES: u64 = 0x1FFF;

/// A set of kinds of resources that the cache holds.
/// It never holds a bit outside `ALL_RESOURCES`.
#[derive(Clone, Copy, Debug, PartialEq, Eq, Structural, Hash)]
pub struct ResourceType {
    bits: u64,
}

impl ResourceType {
    /// The bits of this set.
    pub closed spec fn view(self) -> u64 {
        self.bits
    }

    #[verifier::type_invariant]
    closed spec fn well_formed(self) -> bool {
        self.bits & ALL_RESOURCES == self.bits
    }

    /// The raw bits of the set.
    pub fn bits(&self) -> (r: u64)
        ensures
            r == self@,
            r & ALL_RESOURCES == r,
    {
        proof {
            use_type_invariant(self);
        }
        self.bits
    }

    /// The set of the defined bits among `bits`; undefined bits are dropped.
    pub fn from_bits_truncate(bits: u64) -> (r: Self)
        ensures
            r@ == bits & ALL_RESOURCES,
    {
        proof {
            lemma_mask(bits, 0, ALL_RESOURCES);
        }
        ResourceType { bits: bits & ALL_RESOURCES }
    }

    /// The empty set.
    pub fn empty() -> (r: Self)
        ensures
            r@ == 0,
    {
        proof {
            lemma_mask(0, 0, ALL_RESOURCES);
        }
        ResourceType { bits: 0 }
    }

    /// The set of every defined flag.
    pub fn all() -> (r: Self)
        ensures
            r@ == ALL_RESOURCES,
    {
        proof {
            lemma_mask(0, 0, ALL_RESOURCES);
        }
        ResourceType { bits: ALL_RESOURCES }
    }

    /// Whether every flag of `other` is in this set.
    pub fn contains(&self, other: Self) -> (r: bool)
        ensures
            r == (self@ & other@ == other@),
    {
        self.bits & other.bits == other.bits
    }

    /// Whether this set is empty.
    pub fn is_empty(&self) -> (r: bool)
        ensures
            r == (self@ == 0),
    {
        self.bits == 0
    }

    /// Whether this set holds every defined flag.
    pub fn is_all(&self) -> (r: bool)
        ensures
            r == (self@ == ALL_RESOURCES),
    {
        self.bits == ALL_RESOURCES
    }

    /// Adds the flags of `other` to this set.
    pub fn insert(&mut self, other: Self)
        ensures
            final(self)@ == old(self)@ | other@,
    {
        proof {
            use_type_invariant(&*self);
            use_type_invariant(&other);
            lemma_mask(self.bits, other.bits, ALL_RESOURCES);
        }
        self.bits = self.bits | other.bits;
    }

    /// Takes the flags of `other` out of this set.
    pub fn remove(&mut self, other: Self)
        ensures
            final(self)@ == old(self)@ & !other@,
    {
        proof {
            use_type_invariant(&*self);
            use_type_invariant(&other);
            lemma_mask(self.bits, other.bits, ALL_RESOURCES);
        }
        self.bits = self.bits & !other.bits;
    }
}

/// How many messages the cache keeps when nothing else is said.
pub const DEFAULT_MESSAGE_CACHE_SIZE: usize = 100;

/// What the cache holds: the kinds of resources, and how many messages it keeps.
#[derive(Debug, Clone, Copy, PartialEq, Eq, Structural)]
pub struct Config {
    resource_types: ResourceType,
    message_cache_size: usize,
}

impl Config {
    /// The resource types and the message cache size.
    pub closed spec fn view(&self) -> (u64, usize) {
        (self.resource_types@, self.message_cache_size)
    }

    /// The configuration that caches every resource and keeps 100 messages.
    #[must_use]
    pub fn new() -> (r: Self)
        ensures
            r@ == (ALL_RESOURCES, DEFAULT_MESSAGE_CACHE_SIZE),
    {
        Config { resource_types: ResourceType::all(), message_cache_size: DEFAULT_MESSAGE_CACHE_SIZE }
    }

    /// How many messages the cache keeps.
    #[must_use]
    pub fn message_cache_size(&self) -> (r: usize)
        ensures
            r == self@.1,
    {
        self.message_cache_size
    }

    /// A mutable reference to how many messages the cache keeps.
    pub fn message_cache_size_mut(&mut self) -> (r: &mut usize)
        ensures
            *r == old(self)@.1,
            final(self)@ == (old(self)@.0, *final(r)),
    {
        &mut self.message_cache_size
    }

    /// The kinds of resources that the cache holds.
    #[must_use]
    pub fn resource_types(&self) -> (r: ResourceType)
        ensures
            r@ == self@.0,
    {
        self.resource_types
    }

    /// A mutable reference to the kinds of resources that the cache holds.
    pub fn resource_types_mut(&mut self) -> (r: &mut ResourceType)
        ensures
            r@ == old(self)@.0,
            final(self)@ == (final(r)@, old(self)@.1),
    {
        &mut self.resource_types
    }
}

impl Default for Config {
    fn default() -> (r: Self)
        ensures
            r@ == (ALL_RESOURCES, DEFAULT_MESSAGE_CACHE_SIZE),
    {
        Config::new()
    }
}

} // verus!
