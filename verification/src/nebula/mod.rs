//! Identifiers that convert between the identifier types of the Discord model,
//! and leaking values to the end of the program.
//!
//! [`id::Id`] holds a nonzero snowflake; [`snowflake::Id`] holds any snowflake
//! and is what the cache stores identifiers as.

pub mod id;
pub mod leak;
pub mod snowflake;
