//! Verified core logic of the starlight Discord bot: permission calculation,
//! mention parsing and formatting, language tables, identifiers, the cache's
//! configuration and entities, click command buttons, and paste identifiers.

pub mod permissions;
pub mod model;
pub mod calculator;
pub mod text;
pub mod decimal;
pub mod mention;
pub mod lang;
pub mod star_error;
pub mod constella;
pub mod nebula;
pub mod args;
pub mod flags;
pub mod cache;
pub mod click;
pub mod paste;
pub mod proxy;
