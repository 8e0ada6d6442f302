//! Configuration values: the providers of a model and the tools of an agent.

pub mod config;
pub mod agent;
