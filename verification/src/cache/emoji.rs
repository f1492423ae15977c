//! The form in which the cache keeps a custom emoji.

use super::entity::role_ids_eq;
use super::source::Emoji;
use crate::model::{EmojiId, RoleId};
use vstd::prelude::*;

verus! {

/// A custom emoji as the cache keeps it: everything but its creator.
#[derive(Debug, Clone, PartialEq, Eq)]
pub struct CachedEmoji {
    pub id: EmojiId,
    pub animated: bool,
    pub name: String,
    pub managed: bool,
    pub require_colons: bool,
    pub roles: Vec<RoleId>,
    pub available: bool,
}

/// A cached emoji equals an emoji when they agree on every field that the
/// cache keeps.
impl PartialEq<Emoji> for CachedEmoji {
    fn eq(&self, other: &Emoji) -> (r: bool) {
        self.id.0 == other.id.0 && self.animated == other.animated && self.managed
            == other.managed && crate::text::str_eq(self.name.as_str(), other.name.as_str())
            && self.require_colons == other.require_colons && role_ids_eq(&self.roles, &other.roles)
            && self.available == other.available
    }
}

impl vstd::std_specs::cmp::PartialEqSpecImpl<Emoji> for CachedEmoji {
    open spec fn obeys_eq_spec() -> bool {
        true
    }

    open spec fn eq_spec(&self, other: &Emoji) -> bool {
        &&& self.id == other.id
        &&& self.animated == other.animated
        &&& self.managed == other.managed
        &&& self.name@ == other.name@
        &&& self.require_colons == other.require_colons
        &&& self.roles@ == other.roles@
        &&& self.available == other.available
    }
}

/// The cached form of an emoji: its creator is dropped.
impl From<Emoji> for CachedEmoji {
    fn from(value: Emoji) -> (r: Self) {
        CachedEmoji {
            id: value.id,
            animated: value.animated,
            managed: value.managed,
            name: value.name,
            require_colons: value.require_colons,
            roles: value.roles,
            available: value.available,
        }
    }
}

impl vstd::std_specs::convert::FromSpecImpl<Emoji> for CachedEmoji {
    open spec fn obeys_from_spec() -> bool {
        true
    }

    open spec fn from_spec(value: Emoji) -> Self {
        CachedEmoji {
            id: value.id,
            animated: value.animated,
            managed: value.managed,
            name: value.name,
            require_colons: value.require_colons,
            roles: value.roles,
            available: value.available,
        }
    }
}

/// The emoji that a cached emoji stands for; its creator is unknown.
impl From<CachedEmoji> for Emoji {
    fn from(value: CachedEmoji) -> (r: Self) {
        Emoji {
            id: value.id,
            animated: value.animated,
            managed: value.managed,
            name: value.name,
            require_colons: value.require_colons,
            roles: value.roles,
            user: None,
            available: value.available,
        }
    }
}

impl vstd::std_specs::convert::FromSpecImpl<CachedEmoji> for Emoji {
    open spec fn obeys_from_spec() -> bool {
        true
    }

    open spec fn from_spec(value: CachedEmoji) -> Self {
        Emoji {
            id: value.id,
            animated: value.animated,
            managed: value.managed,
            name: value.name,
            require_colons: value.require_colons,
            roles: value.roles,
            user: None,
            available: value.available,
        }
    }
}

} // verus!
