//! Execution core of an interactive coding assistant: the conversation
//! trace, permission claims, the agent state machine, the per-call tool
//! protocol and the event adapters, each with a machine-checked contract.

pub mod text;
pub mod json;
pub mod sys;
pub mod chat;
pub mod tools;
pub mod agent;
pub mod config;
pub mod http;
pub mod llm;
pub mod runners;
pub mod headless;
