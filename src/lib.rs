//! A small line-oriented key-value store: a command parser, a string map
//! and the decision step of an interactive session.

pub mod text;
pub mod errors;
pub mod command;
pub mod store;
pub mod session;
