//! What can go wrong in an agent.

use vstd::prelude::*;
use crate::text::prefixed;

verus! {

#[derive(Debug, PartialEq)]
pub enum AgentError {
    /// The model could not be reached or answered with a failure.
    LlmError(String),
    /// An answer of a kind that the caller did not expect.
    InvalidResponse(String),
    /// The agent is not in a state in which the request makes sense.
    InvalidState(String),
    ExecutionError(String),
    ConfigurationError(String),
    /// The channel to or from the agent is closed.
    SessionClosed,
    /// No answer came within the time allowed.
    TimeoutError,
}

pub ghost enum AgentErrorView {
    LlmError(Seq<char>),
    InvalidResponse(Seq<char>),
    InvalidState(Seq<char>),
    ExecutionError(Seq<char>),
    ConfigurationError(Seq<char>),
    SessionClosed,
    TimeoutError,
}

impl AgentErrorView {
    /// The sentence that reports the error.
    pub open spec fn text(self) -> Seq<char> {
        match self {
            AgentErrorView::LlmError(m) => "LLM error: "@ + m,
            AgentErrorView::InvalidResponse(m) => "Invalid response: "@ + m,
            AgentErrorView::InvalidState(m) => "Invalid state: "@ + m,
            AgentErrorView::ExecutionError(m) => "Execution error: "@ + m,
            AgentErrorView::ConfigurationError(m) => "Configuration error: "@ + m,
            AgentErrorView::SessionClosed => "Session closed"@,
            AgentErrorView::TimeoutError => "Timeout"@,
        }
    }
}

impl DeepView for AgentError {
    type V = AgentErrorView;

    open spec fn deep_view(&self) -> AgentErrorView {
        match self {
            AgentError::LlmError(m) => AgentErrorView::LlmError(m@),
            AgentError::InvalidResponse(m) => AgentErrorView::InvalidResponse(m@),
            AgentError::InvalidState(m) => AgentErrorView::InvalidState(m@),
            AgentError::ExecutionError(m) => AgentErrorView::ExecutionError(m@),
            AgentError::ConfigurationError(m) => AgentErrorView::ConfigurationError(m@),
            AgentError::SessionClosed => AgentErrorView::SessionClosed,
            AgentError::TimeoutError => AgentErrorView::TimeoutError,
        }
    }
}

impl Clone for AgentError {
    fn clone(&self) -> (r: Self)
        ensures
            r.deep_view() == self.deep_view(),
    {
        match self {
            AgentError::LlmError(m) => AgentError::LlmError(m.clone()),
            AgentError::InvalidResponse(m) => AgentError::InvalidResponse(m.clone()),
            AgentError::InvalidState(m) => AgentError::InvalidState(m.clone()),
            AgentError::ExecutionError(m) => AgentError::ExecutionError(m.clone()),
            AgentError::ConfigurationError(m) => AgentError::ConfigurationError(m.clone()),
            AgentError::SessionClosed => AgentError::SessionClosed,
            AgentError::TimeoutError => AgentError::TimeoutError,
        }
    }
}

impl AgentError {
    /// The sentence that reports the error.
    pub fn to_string(&self) -> (r: String)
        ensures
            r@ == self.deep_view().text(),
    {
        match self {
            AgentError::LlmError(m) => prefixed("LLM error: ", m.as_str()),
            AgentError::InvalidResponse(m) => prefixed("Invalid response: ", m.as_str()),
            AgentError::InvalidState(m) => prefixed("Invalid state: ", m.as_str()),
            AgentError::ExecutionError(m) => prefixed("Execution error: ", m.as_str()),
            AgentError::ConfigurationError(m) => prefixed("Configuration error: ", m.as_str()),
            AgentError::SessionClosed => String::from_str("Session closed"),
            AgentError::TimeoutError => String::from_str("Timeout"),
        }
    }
}

} // verus!
