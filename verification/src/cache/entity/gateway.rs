//! The presence entity: what a user is doing in a guild.

use super::Entity;
use crate::cache::source::{Presence, PresenceUpdate, Status, UserOrId};
use crate::model::{GuildId, UserId};
use twilight_model::gateway::presence::{Activity, ClientStatus};
use vstd::prelude::*;

verus! {

/// `==` of twilight-model on two lists of activities, which compares them
/// element by element with the `PartialEq` that twilight-model derives for
/// `Activity` and its parts. The contract claims that the answer is whether
/// the two lists are the same.
#[verifier::external_body]
fn activities_eq(a: &Vec<Activity>, b: &Vec<Activity>) -> (r: bool)
    ensures
        r == (a@ == b@),
{
    a == b
}

/// `==` of twilight-model on two client statuses, the `PartialEq` that
/// twilight-model derives for `ClientStatus`. The contract claims that the
/// answer is whether the two statuses are the same.
#[verifier::external_body]
fn client_status_eq(a: &ClientStatus, b: &ClientStatus) -> (r: bool)
    ensures
        r == (*a == *b),
{
    a == b
}

/// The identifier of a user given in full or by identifier.
pub open spec fn user_id_of(user: UserOrId) -> UserId {
    match user {
        UserOrId::User(u) => u.id,
        UserOrId::UserId { id } => id,
    }
}

/// The identifier of a user given in full or by identifier.
pub fn get_user_id(user_or_id: &UserOrId) -> (r: UserId)
    ensures
        r == user_id_of(*user_or_id),
{
    match user_or_id {
        UserOrId::User(user) => user.id,
        UserOrId::UserId { id } => *id,
    }
}

/// The presence of a user in a guild.
#[derive(Debug, Clone, PartialEq, Eq)]
pub struct PresenceEntity {
    pub activities: Vec<Activity>,
    pub client_status: ClientStatus,
    pub guild_id: GuildId,
    pub status: Status,
    pub user_id: UserId,
}

/// The entity of a presence: the user is kept by identifier.
impl From<Presence> for PresenceEntity {
    fn from(presence: Presence) -> (r: Self) {
        let user_id = get_user_id(&presence.user);
        PresenceEntity {
            activities: presence.activities,
            client_status: presence.client_status,
            guild_id: presence.guild_id,
            status: presence.status,
            user_id,
        }
    }
}

impl vstd::std_specs::convert::FromSpecImpl<Presence> for PresenceEntity {
    open spec fn obeys_from_spec() -> bool {
        true
    }

    open spec fn from_spec(presence: Presence) -> Self {
        PresenceEntity {
            activities: presence.activities,
            client_status: presence.client_status,
            guild_id: presence.guild_id,
            status: presence.status,
            user_id: user_id_of(presence.user),
        }
    }
}

impl PresenceEntity {
    /// The entity of a change of presence: the game, if any, comes before the
    /// other activities, and the user is kept by identifier.
    pub fn from_update(presence: PresenceUpdate) -> (r: Self)
        ensures
            r.activities@ == match presence.game {
                Some(g) => seq![g],
                None => Seq::<Activity>::empty(),
            } + presence.activities@,
            r.client_status == presence.client_status,
            r.guild_id == presence.guild_id,
            r.status == presence.status,
            r.user_id == user_id_of(presence.user),
    {
        let mut presence = presence;
        let user_id = get_user_id(&presence.user);
        let mut activities: Vec<Activity> = Vec::new();
        if let Some(game) = presence.game {
            activities.push(game);
        }
        activities.append(&mut presence.activities);
        PresenceEntity {
            activities,
            client_status: presence.client_status,
            guild_id: presence.guild_id,
            status: presence.status,
            user_id,
        }
    }
}

/// A presence entity equals a presence when they agree on every field, the
/// user taken by identifier.
impl PartialEq<Presence> for PresenceEntity {
    fn eq(&self, other: &Presence) -> (r: bool) {
        activities_eq(&self.activities, &other.activities) && client_status_eq(
            &self.client_status,
            &other.client_status,
        ) && self.guild_id.0 == other.guild_id.0 && self.status == other.status && self.user_id.0
            == get_user_id(&other.user).0
    }
}

impl vstd::std_specs::cmp::PartialEqSpecImpl<Presence> for PresenceEntity {
    open spec fn obeys_eq_spec() -> bool {
        true
    }

    open spec fn eq_spec(&self, other: &Presence) -> bool {
        &&& self.activities@ == other.activities@
        &&& self.client_status == other.client_status
        &&& self.guild_id == other.guild_id
        &&& self.status == other.status
        &&& self.user_id == user_id_of(other.user)
    }
}

impl Entity for PresenceEntity {
    type Id = (GuildId, UserId);

    open spec fn spec_id(&self) -> (GuildId, UserId) {
        (self.guild_id, self.user_id)
    }

    fn id(&self) -> (r: (GuildId, UserId)) {
        (self.guild_id, self.user_id)
    }
}

} // verus!
