//! Stores of entities, and the store that keeps nothing.

use super::entity::channel::{AttachmentEntity, CategoryChannelEntity};
use super::entity::gateway::PresenceEntity;
use super::entity::Entity;
use vstd::prelude::*;

verus! {

/// A store of entities of type `E`, each known by its identifier.
pub trait Repository<E: Entity> {
    /// Whether the store drops every entity put into it, so that it never
    /// holds one.
    spec fn keeps_nothing(&self) -> bool;

    /// The entity known by `entity_id`, if the store holds one.
    fn get(&self, entity_id: E::Id) -> (r: Option<E>)
        ensures
            self.keeps_nothing() ==> r is None,
    ;

    /// Every entity that the store holds.
    fn list(&self) -> (r: Vec<E>)
        ensures
            self.keeps_nothing() ==> r@.len() == 0,
    ;

    /// Takes the entity known by `entity_id` out of the store.
    fn remove(&self, entity_id: E::Id);

    /// Puts `entity` into the store, in place of any entity with its identifier.
    fn upsert(&self, entity: E);
}

/// A store that holds at most one entity of type `E`.
pub trait SingleEntityRepository<E: Entity> {
    /// The entity, if the store holds one.
    fn get(&self) -> Option<E>;

    /// Takes the entity out of the store.
    fn remove(&self);

    /// Puts `entity` into the store, in place of any entity it held.
    fn upsert(&self, entity: E);
}

/// A store of attachments.
pub trait AttachmentRepository: Repository<AttachmentEntity> {

}

/// A store of category channels.
pub trait CategoryChannelRepository: Repository<CategoryChannelEntity> {

}

/// A store of presences.
pub trait PresenceRepository: Repository<PresenceEntity> {

}

/// A store that keeps nothing: every entity put into it is dropped, and it
/// never holds one.
#[derive(Debug, Clone)]
pub struct NoopRepository<B>(B);

impl<B> NoopRepository<B> {
    /// The backend that the store belongs to.
    pub closed spec fn view(&self) -> B {
        self.0
    }

    /// A store of the backend `backend` that keeps nothing.
    pub fn new(backend: B) -> (r: Self)
        ensures
            r@ == backend,
    {
        NoopRepository(backend)
    }

    /// The backend that the store belongs to.
    pub fn backend(&self) -> (r: &B)
        ensures
            *r == self@,
    {
        &self.0
    }
}

impl<B> NoopRepository<B> {
    /// The entity known by `entity_id`: there is never one.
    pub fn get_entity<E: Entity>(&self, entity_id: E::Id) -> (r: Option<E>)
        ensures
            r is None,
    {
        None
    }

    /// Every entity that the store holds: there is none.
    pub fn list_entities<E: Entity>(&self) -> (r: Vec<E>)
        ensures
            r@.len() == 0,
    {
        Vec::new()
    }
}

impl<B, E: Entity> Repository<E> for NoopRepository<B> {
    open spec fn keeps_nothing(&self) -> bool {
        true
    }

    fn get(&self, entity_id: E::Id) -> Option<E> {
        self.get_entity(entity_id)
    }

    fn list(&self) -> Vec<E> {
        self.list_entities()
    }

    fn remove(&self, entity_id: E::Id) {
    }

    fn upsert(&self, entity: E) {
    }
}

impl<B> AttachmentRepository for NoopRepository<B> {

}

impl<B> CategoryChannelRepository for NoopRepository<B> {

}

impl<B> PresenceRepository for NoopRepository<B> {

}

} // verus!
