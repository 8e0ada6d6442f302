//! What the agent tells its observers, and what its parts tell each other.

use vstd::prelude::*;
use crate::agent::brain::{ThinkerDecision, ThinkerDecisionView};
use crate::agent::error::{AgentError, AgentErrorView};
use crate::agent::states::{PublicAgentState, PublicAgentStateView};
use crate::chat::{ChatMessage, ChatMessageView};
use crate::tools::{ToolCall, ToolCallView, ToolResult, ToolResultView};

verus! {

/// What an agent may ask of its user.
#[derive(Debug, PartialEq)]
pub enum UserRequest {
    Text { prompt: String },
    Choice { prompt: String, options: Vec<String> },
    Confirmation { prompt: String },
}

pub ghost enum UserRequestView {
    Text { prompt: Seq<char> },
    Choice { prompt: Seq<char>, options: Seq<Seq<char>> },
    Confirmation { prompt: Seq<char> },
}

impl DeepView for UserRequest {
    type V = UserRequestView;

    open spec fn deep_view(&self) -> UserRequestView {
        match self {
            UserRequest::Text { prompt } => UserRequestView::Text { prompt: prompt@ },
            UserRequest::Choice { prompt, options } => UserRequestView::Choice {
                prompt: prompt@,
                options: options.deep_view(),
            },
            UserRequest::Confirmation { prompt } => UserRequestView::Confirmation {
                prompt: prompt@,
            },
        }
    }
}

impl Clone for UserRequest {
    fn clone(&self) -> (r: Self)
        ensures
            r.deep_view() == self.deep_view(),
    {
        match self {
            UserRequest::Text { prompt } => UserRequest::Text { prompt: prompt.clone() },
            UserRequest::Choice { prompt, options } => {
                let copy = options.clone();
                assert(copy.deep_view() =~= options.deep_view());
                UserRequest::Choice { prompt: prompt.clone(), options: copy }
            },
            UserRequest::Confirmation { prompt } => UserRequest::Confirmation {
                prompt: prompt.clone(),
            },
        }
    }
}

/// The user's answer to a `UserRequest`.
#[derive(Debug, PartialEq)]
pub enum UserResponse {
    Text(String),
    /// The index of the chosen option.
    Choice(usize),
    Confirmation(bool),
    Cancel,
    /// Nobody is there to answer.
    NoUser,
}

pub ghost enum UserResponseView {
    Text(Seq<char>),
    Choice(usize),
    Confirmation(bool),
    Cancel,
    NoUser,
}

impl DeepView for UserResponse {
    type V = UserResponseView;

    open spec fn deep_view(&self) -> UserResponseView {
        match self {
            UserResponse::Text(t) => UserResponseView::Text(t@),
            UserResponse::Choice(i) => UserResponseView::Choice(*i),
            UserResponse::Confirmation(b) => UserResponseView::Confirmation(*b),
            UserResponse::Cancel => UserResponseView::Cancel,
            UserResponse::NoUser => UserResponseView::NoUser,
        }
    }
}

impl Clone for UserResponse {
    fn clone(&self) -> (r: Self)
        ensures
            r.deep_view() == self.deep_view(),
    {
        match self {
            UserResponse::Text(t) => UserResponse::Text(t.clone()),
            UserResponse::Choice(i) => UserResponse::Choice(*i),
            UserResponse::Confirmation(b) => UserResponse::Confirmation(*b),
            UserResponse::Cancel => UserResponse::Cancel,
            UserResponse::NoUser => UserResponse::NoUser,
        }
    }
}

/// A request to run one tool call, shown to the user.
#[derive(Debug, PartialEq)]
pub struct PermissionRequest {
    pub tool_name: String,
    pub operation: String,
    pub call: ToolCall,
    /// What the tool would do, where it can tell.
    pub preview: Option<ToolResult>,
}

pub ghost struct PermissionRequestView {
    pub tool_name: Seq<char>,
    pub operation: Seq<char>,
    pub call: ToolCallView,
    pub preview: Option<ToolResultView>,
}

impl DeepView for PermissionRequest {
    type V = PermissionRequestView;

    open spec fn deep_view(&self) -> PermissionRequestView {
        PermissionRequestView {
            tool_name: self.tool_name@,
            operation: self.operation@,
            call: self.call.deep_view(),
            preview: self.preview.deep_view(),
        }
    }
}

impl Clone for PermissionRequest {
    fn clone(&self) -> (r: Self)
        ensures
            r.deep_view() == self.deep_view(),
    {
        PermissionRequest {
            tool_name: self.tool_name.clone(),
            operation: self.operation.clone(),
            call: self.call.clone(),
            preview: self.preview.clone(),
        }
    }
}

/// The user's answer to a `PermissionRequest`.
#[derive(Debug, Clone, Copy, PartialEq, Eq, Structural)]
pub enum PermissionResponse {
    /// Run this call.
    Allow,
    /// Run this call and every later call of the tool.
    AllowAlways,
    Forbidden,
    Deny,
    /// Nobody can be asked: refused for safety.
    NoPermissionSystem,
}

impl PermissionResponse {
    /// `Allow` and `AllowAlways` let the call run; every other answer refuses it.
    pub open spec fn grants(self) -> bool {
        self is Allow || self is AllowAlways
    }

    /// Whether the answer lets the call run.
    pub fn is_granted(&self) -> (r: bool)
        ensures
            r == self.grants(),
    {
        match self {
            PermissionResponse::Allow => true,
            PermissionResponse::AllowAlways => true,
            _ => false,
        }
    }
}

/// Events that the parts of an agent send each other.
#[derive(Debug, PartialEq)]
#[allow(inconsistent_fields)]
pub enum InternalAgentEvent {
    AgentInitialized,
    /// Stop the work in progress.
    CancelTask,
    /// Start thinking.
    ThinkingStart,
    /// The brain has answered.
    BrainResult { result: Result<ThinkerDecision, AgentError> },
    ToolCallStarted { timestamp: i64, call: ToolCall },
    ToolCallCompleted { duration: i64, call: ToolCall, result: ToolResult },
    /// Every tool call of the turn has ended.
    ToolsCompleted { any_denied: bool },
    UserResponseReceived { request_id: String, response: UserResponse },
    PermissionResponseReceived { request_id: String, response: PermissionResponse },
}

#[allow(inconsistent_fields)]
pub ghost enum InternalAgentEventView {
    AgentInitialized,
    CancelTask,
    ThinkingStart,
    BrainResult { result: Result<ThinkerDecisionView, AgentErrorView> },
    ToolCallStarted { timestamp: i64, call: ToolCallView },
    ToolCallCompleted { duration: i64, call: ToolCallView, result: ToolResultView },
    ToolsCompleted { any_denied: bool },
    UserResponseReceived { request_id: Seq<char>, response: UserResponseView },
    PermissionResponseReceived { request_id: Seq<char>, response: PermissionResponse },
}

impl DeepView for InternalAgentEvent {
    type V = InternalAgentEventView;

    open spec fn deep_view(&self) -> InternalAgentEventView {
        match self {
            InternalAgentEvent::AgentInitialized => InternalAgentEventView::AgentInitialized,
            InternalAgentEvent::CancelTask => InternalAgentEventView::CancelTask,
            InternalAgentEvent::ThinkingStart => InternalAgentEventView::ThinkingStart,
            InternalAgentEvent::BrainResult { result } => InternalAgentEventView::BrainResult {
                result: match result {
                    Ok(d) => Ok(d.deep_view()),
                    Err(e) => Err(e.deep_view()),
                },
            },
            InternalAgentEvent::ToolCallStarted { timestamp, call } =>
                InternalAgentEventView::ToolCallStarted {
                    timestamp: *timestamp,
                    call: call.deep_view(),
                },
            InternalAgentEvent::ToolCallCompleted { duration, call, result } =>
                InternalAgentEventView::ToolCallCompleted {
                    duration: *duration,
                    call: call.deep_view(),
                    result: result.deep_view(),
                },
            InternalAgentEvent::ToolsCompleted { any_denied } =>
                InternalAgentEventView::ToolsCompleted { any_denied: *any_denied },
            InternalAgentEvent::UserResponseReceived { request_id, response } =>
                InternalAgentEventView::UserResponseReceived {
                    request_id: request_id@,
                    response: response.deep_view(),
                },
            InternalAgentEvent::PermissionResponseReceived { request_id, response } =>
                InternalAgentEventView::PermissionResponseReceived {
                    request_id: request_id@,
                    response: *response,
                },
        }
    }
}

impl Clone for InternalAgentEvent {
    fn clone(&self) -> (r: Self)
        ensures
            r.deep_view() == self.deep_view(),
    {
        match self {
            InternalAgentEvent::AgentInitialized => InternalAgentEvent::AgentInitialized,
            InternalAgentEvent::CancelTask => InternalAgentEvent::CancelTask,
            InternalAgentEvent::ThinkingStart => InternalAgentEvent::ThinkingStart,
            InternalAgentEvent::BrainResult { result } => InternalAgentEvent::BrainResult {
                result: match result {
                    Ok(d) => Ok(d.clone()),
                    Err(e) => Err(e.clone()),
                },
            },
            InternalAgentEvent::ToolCallStarted { timestamp, call } =>
                InternalAgentEvent::ToolCallStarted { timestamp: *timestamp, call: call.clone() },
            InternalAgentEvent::ToolCallCompleted { duration, call, result } =>
                InternalAgentEvent::ToolCallCompleted {
                    duration: *duration,
                    call: call.clone(),
                    result: result.clone(),
                },
            InternalAgentEvent::ToolsCompleted { any_denied } =>
                InternalAgentEvent::ToolsCompleted { any_denied: *any_denied },
            InternalAgentEvent::UserResponseReceived { request_id, response } =>
                InternalAgentEvent::UserResponseReceived {
                    request_id: request_id.clone(),
                    response: response.clone(),
                },
            InternalAgentEvent::PermissionResponseReceived { request_id, response } =>
                InternalAgentEvent::PermissionResponseReceived {
                    request_id: request_id.clone(),
                    response: *response,
                },
        }
    }
}

/// Events that the agent publishes. Times are milliseconds since the
/// epoch, durations milliseconds.
#[derive(Debug, PartialEq)]
#[allow(inconsistent_fields)]
pub enum AgentEvent {
    StatusChanged { old_status: PublicAgentState, new_status: PublicAgentState },
    ThinkingStart,
    /// The brain's message, or why it has none.
    BrainResult { timestamp: i64, thought: Result<ChatMessage, AgentError> },
    ToolCallStarted { timestamp: i64, call: ToolCall },
    ToolCallCompleted { duration: i64, call: ToolCall, result: ToolResult },
    UserInput { input: String },
    UserInputRequired { request_id: String, request: UserRequest },
    PermissionRequired { request_id: String, request: PermissionRequest },
    Error { error: String },
    Completed { success: bool, message: String },
    TokenUsage { input_tokens: u32, output_tokens: u32 },
}

#[allow(inconsistent_fields)]
pub ghost enum AgentEventView {
    StatusChanged { old_status: PublicAgentStateView, new_status: PublicAgentStateView },
    ThinkingStart,
    BrainResult { timestamp: i64, thought: Result<ChatMessageView, AgentErrorView> },
    ToolCallStarted { timestamp: i64, call: ToolCallView },
    ToolCallCompleted { duration: i64, call: ToolCallView, result: ToolResultView },
    UserInput { input: Seq<char> },
    UserInputRequired { request_id: Seq<char>, request: UserRequestView },
    PermissionRequired { request_id: Seq<char>, request: PermissionRequestView },
    Error { error: Seq<char> },
    Completed { success: bool, message: Seq<char> },
    TokenUsage { input_tokens: u32, output_tokens: u32 },
}

impl DeepView for AgentEvent {
    type V = AgentEventView;

    open spec fn deep_view(&self) -> AgentEventView {
        match self {
            AgentEvent::StatusChanged { old_status, new_status } => AgentEventView::StatusChanged {
                old_status: old_status.deep_view(),
                new_status: new_status.deep_view(),
            },
            AgentEvent::ThinkingStart => AgentEventView::ThinkingStart,
            AgentEvent::BrainResult { timestamp, thought } => AgentEventView::BrainResult {
                timestamp: *timestamp,
                thought: match thought {
                    Ok(m) => Ok(m.deep_view()),
                    Err(e) => Err(e.deep_view()),
                },
            },
            AgentEvent::ToolCallStarted { timestamp, call } => AgentEventView::ToolCallStarted {
                timestamp: *timestamp,
                call: call.deep_view(),
            },
            AgentEvent::ToolCallCompleted { duration, call, result } =>
                AgentEventView::ToolCallCompleted {
                    duration: *duration,
                    call: call.deep_view(),
                    result: result.deep_view(),
                },
            AgentEvent::UserInput { input } => AgentEventView::UserInput { input: input@ },
            AgentEvent::UserInputRequired { request_id, request } =>
                AgentEventView::UserInputRequired {
                    request_id: request_id@,
                    request: request.deep_view(),
                },
            AgentEvent::PermissionRequired { request_id, request } =>
                AgentEventView::PermissionRequired {
                    request_id: request_id@,
                    request: request.deep_view(),
                },
            AgentEvent::Error { error } => AgentEventView::Error { error: error@ },
            AgentEvent::Completed { success, message } => AgentEventView::Completed {
                success: *success,
                message: message@,
            },
            AgentEvent::TokenUsage { input_tokens, output_tokens } => AgentEventView::TokenUsage {
                input_tokens: *input_tokens,
                output_tokens: *output_tokens,
            },
        }
    }
}

impl Clone for AgentEvent {
    fn clone(&self) -> (r: Self)
        ensures
            r.deep_view() == self.deep_view(),
    {
        match self {
            AgentEvent::StatusChanged { old_status, new_status } => AgentEvent::StatusChanged {
                old_status: old_status.clone(),
                new_status: new_status.clone(),
            },
            AgentEvent::ThinkingStart => AgentEvent::ThinkingStart,
            AgentEvent::BrainResult { timestamp, thought } => AgentEvent::BrainResult {
                timestamp: *timestamp,
                thought: match thought {
                    Ok(m) => Ok(m.clone()),
                    Err(e) => Err(e.clone()),
                },
            },
            AgentEvent::ToolCallStarted { timestamp, call } => AgentEvent::ToolCallStarted {
                timestamp: *timestamp,
                call: call.clone(),
            },
            AgentEvent::ToolCallCompleted { duration, call, result } =>
                AgentEvent::ToolCallCompleted {
                    duration: *duration,
                    call: call.clone(),
                    result: result.clone(),
                },
            AgentEvent::UserInput { input } => AgentEvent::UserInput { input: input.clone() },
            AgentEvent::UserInputRequired { request_id, request } =>
                AgentEvent::UserInputRequired {
                    request_id: request_id.clone(),
                    request: request.clone(),
                },
            AgentEvent::PermissionRequired { request_id, request } =>
                AgentEvent::PermissionRequired {
                    request_id: request_id.clone(),
                    request: request.clone(),
                },
            AgentEvent::Error { error } => AgentEvent::Error { error: error.clone() },
            AgentEvent::Completed { success, message } => AgentEvent::Completed {
                success: *success,
                message: message.clone(),
            },
            AgentEvent::TokenUsage { input_tokens, output_tokens } => AgentEvent::TokenUsage {
                input_tokens: *input_tokens,
                output_tokens: *output_tokens,
            },
        }
    }
}

} // verus!
