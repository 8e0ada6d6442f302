//! Adapters that turn the agent's events into the frames of a streaming
//! protocol, and the bookkeeping of sessions.

pub mod simple;
pub mod completion;
pub mod response;
pub mod trace;
pub mod session;
pub mod query;
