//! A conversational session engine: an append-only history of role-tagged
//! turns, a provider table, and the interpretation of input lines.

pub mod adapter;
pub mod command;
pub mod history;
pub mod interpreter;
pub mod provider;
pub mod session;
pub mod text;
