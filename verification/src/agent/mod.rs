//! The agent: its states, its protocol and the rules that move it.

pub mod error;
pub mod states;
pub mod brain;
pub mod events;
pub mod protocol;
pub mod claims;
pub mod agent;
pub mod actions;
pub mod handlers;
pub mod commands;
pub mod runloop;
pub mod proofs;
pub mod builder;
pub mod system;
pub mod output;
