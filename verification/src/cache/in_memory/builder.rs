//! The in-memory cache backend, its builder, and its error.

use super::config::{Config, EntityType, ALL_ENTITIES, DEFAULT_MESSAGE_CACHE_SIZE};
use vstd::prelude::*;
use vstd::string::StringExecFns;

verus! {

/// The error of the in-memory backend. No operation of the backend fails, so
/// no value of it is ever made.
#[derive(Debug, Clone, Copy, PartialEq, Eq, Structural)]
#[non_exhaustive]
pub struct InMemoryBackendError;

/// The message that describes an [`InMemoryBackendError`].
pub open spec fn in_memory_backend_error_message() -> Seq<char> {
    "this can't be constructed"@
}

impl InMemoryBackendError {
    /// The message that describes the error.
    pub fn to_string(&self) -> (r: String)
        ensures
            r@ == in_memory_backend_error_message(),
    {
        let mut s = String::new();
        s.append("this can't be constructed");
        assert(s@ =~= in_memory_backend_error_message());
        s
    }
}

/// Builds the configuration of an in-memory backend.
#[derive(Debug, Clone, Copy)]
pub struct InMemoryBackendBuilder(Config);

impl InMemoryBackendBuilder {
    /// The configuration built so far: the entity types and the message cache size.
    pub closed spec fn view(&self) -> (u64, usize) {
        self.0@
    }

    /// A builder with the default configuration: every entity type, and 100
    /// messages.
    #[must_use]
    pub fn new() -> (r: Self)
        ensures
            r@ == (ALL_ENTITIES, DEFAULT_MESSAGE_CACHE_SIZE),
    {
        InMemoryBackendBuilder(Config::default())
    }

    /// Sets the kinds of entities that the cache holds.
    pub fn entity_types(&mut self, entity_types: EntityType) -> (r: &mut Self)
        ensures
            r@ == (entity_types@, old(self)@.1),
            final(self)@ == final(r)@,
    {
        *self.0.entity_types_mut() = entity_types;
        self
    }

    /// Sets how many messages the cache keeps.
    pub fn message_cache_size(&mut self, message_cache_size: usize) -> (r: &mut Self)
        ensures
            r@ == (old(self)@.0, message_cache_size),
            final(self)@ == final(r)@,
    {
        *self.0.message_cache_size_mut() = message_cache_size;
        self
    }

    /// The configuration that was built.
    #[must_use]
    pub fn config(&self) -> (r: Config)
        ensures
            r@ == self@,
    {
        self.0
    }

    /// The backend with the configuration that was built.
    #[must_use]
    pub fn build(self) -> (r: InMemoryBackend)
        ensures
            r@ == self@,
    {
        InMemoryBackend(self.0)
    }
}

impl Default for InMemoryBackendBuilder {
    fn default() -> (r: Self)
        ensures
            r@ == (ALL_ENTITIES, DEFAULT_MESSAGE_CACHE_SIZE),
    {
        InMemoryBackendBuilder::new()
    }
}

/// A cache backend that keeps its entities in memory, with its configuration:
/// which kinds of entities it holds and how many messages it keeps.
#[derive(Debug, Clone)]
pub struct InMemoryBackend(Config);

impl InMemoryBackend {
    /// The configuration: the entity types and the message cache size.
    pub closed spec fn view(&self) -> (u64, usize) {
        self.0@
    }

    /// A backend with the default configuration: every entity type, and 100
    /// messages.
    #[must_use]
    pub fn new() -> (r: Self)
        ensures
            r@ == (ALL_ENTITIES, DEFAULT_MESSAGE_CACHE_SIZE),
    {
        InMemoryBackend(Config::default())
    }

    /// A builder of a backend, with the default configuration.
    #[must_use]
    pub fn builder() -> (r: InMemoryBackendBuilder)
        ensures
            r@ == (ALL_ENTITIES, DEFAULT_MESSAGE_CACHE_SIZE),
    {
        InMemoryBackendBuilder::new()
    }

    /// The configuration of the backend.
    #[must_use]
    pub fn config(&self) -> (r: Config)
        ensures
            r@ == self@,
    {
        self.0
    }
}

impl Default for InMemoryBackend {
    fn default() -> (r: Self)
        ensures
            r@ == (ALL_ENTITIES, DEFAULT_MESSAGE_CACHE_SIZE),
    {
        InMemoryBackend::new()
    }
}

} // verus!
