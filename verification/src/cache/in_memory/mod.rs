//! The in-memory cache backend.

pub mod config;
pub mod builder;
