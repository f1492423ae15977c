//! Click commands: the buttons that a `buttons` attribute declares, read from
//! the attribute's arguments, and the items generated for them.

pub mod error;
pub mod lex;
pub mod link;
pub mod parse;
pub mod buttons;
pub mod lit;
pub mod laws;
