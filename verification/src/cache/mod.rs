//! The cache of Discord resources: its configuration, the Discord values it
//! reads, the entities it stores and the keys they are stored under, and the
//! search for a guild's widget channel.

pub mod config;
pub mod in_memory;
pub mod source;
pub mod entity;
pub mod emoji;
pub mod laws;
pub mod repository;
pub mod widget;
pub mod keys;
