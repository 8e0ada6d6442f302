//! Commands to a running agent and its answers.

use vstd::prelude::*;
use crate::agent::error::{AgentError, AgentErrorView};
use crate::agent::events::{PermissionResponse, UserResponse, UserResponseView};
use crate::agent::states::{PublicAgentState, PublicAgentStateView};
use crate::chat::{ChatMessage, ChatMessageView, ToolCallMethod};

verus! {

/// A command sent to a running agent.
#[derive(Debug, PartialEq)]
#[allow(inconsistent_fields)]
pub enum AgentRequest {
    /// Stop the agent for good.
    Terminate,
    /// Stop the work in progress and wait.
    StopCurrentTask,
    GetState,
    /// Stop the work in progress, add the user's message and go on.
    SendUserInput { input: String },
    /// Stop the work in progress, add the messages and go on.
    SendTrace { messages: Vec<ChatMessage> },
    /// Set the way tool calls are encoded, or ask for it.
    SwitchToolCallMethod { method: Option<ToolCallMethod> },
    UserQueryResponse { request_id: String, response: UserResponse },
    UserPermissionResponse { request_id: String, response: PermissionResponse },
    /// Answer once the agent waits for input.
    WaitTurn,
    /// `Some(true)` enables sudo, `Some(false)` disables it, `None` asks.
    Sudo(Option<bool>),
    /// Close the command channel for every controller, for good.
    Droping,
}

#[allow(inconsistent_fields)]
pub ghost enum AgentRequestView {
    Terminate,
    StopCurrentTask,
    GetState,
    SendUserInput { input: Seq<char> },
    SendTrace { messages: Seq<ChatMessageView> },
    SwitchToolCallMethod { method: Option<ToolCallMethod> },
    UserQueryResponse { request_id: Seq<char>, response: UserResponseView },
    UserPermissionResponse { request_id: Seq<char>, response: PermissionResponse },
    WaitTurn,
    Sudo(Option<bool>),
    Droping,
}

impl AgentRequestView {
    /// The commands that stop the work in progress.
    pub open spec fn is_cancelling(self) -> bool {
        self is Terminate || self is StopCurrentTask || self is SendUserInput || self is SendTrace
    }
}

impl DeepView for AgentRequest {
    type V = AgentRequestView;

    open spec fn deep_view(&self) -> AgentRequestView {
        match self {
            AgentRequest::Terminate => AgentRequestView::Terminate,
            AgentRequest::StopCurrentTask => AgentRequestView::StopCurrentTask,
            AgentRequest::GetState => AgentRequestView::GetState,
            AgentRequest::SendUserInput { input } => AgentRequestView::SendUserInput {
                input: input@,
            },
            AgentRequest::SendTrace { messages } => AgentRequestView::SendTrace {
                messages: messages.deep_view(),
            },
            AgentRequest::SwitchToolCallMethod { method } =>
                AgentRequestView::SwitchToolCallMethod { method: *method },
            AgentRequest::UserQueryResponse { request_id, response } =>
                AgentRequestView::UserQueryResponse {
                    request_id: request_id@,
                    response: response.deep_view(),
                },
            AgentRequest::UserPermissionResponse { request_id, response } =>
                AgentRequestView::UserPermissionResponse {
                    request_id: request_id@,
                    response: *response,
                },
            AgentRequest::WaitTurn => AgentRequestView::WaitTurn,
            AgentRequest::Sudo(op) => AgentRequestView::Sudo(*op),
            AgentRequest::Droping => AgentRequestView::Droping,
        }
    }
}

impl Clone for AgentRequest {
    fn clone(&self) -> (r: Self)
        ensures
            r.deep_view() == self.deep_view(),
    {
        match self {
            AgentRequest::Terminate => AgentRequest::Terminate,
            AgentRequest::StopCurrentTask => AgentRequest::StopCurrentTask,
            AgentRequest::GetState => AgentRequest::GetState,
            AgentRequest::SendUserInput { input } => AgentRequest::SendUserInput {
                input: input.clone(),
            },
            AgentRequest::SendTrace { messages } => {
                let copy = messages.clone();
                assert(copy.deep_view() =~= messages.deep_view());
                AgentRequest::SendTrace { messages: copy }
            },
            AgentRequest::SwitchToolCallMethod { method } => AgentRequest::SwitchToolCallMethod {
                method: *method,
            },
            AgentRequest::UserQueryResponse { request_id, response } =>
                AgentRequest::UserQueryResponse {
                    request_id: request_id.clone(),
                    response: response.clone(),
                },
            AgentRequest::UserPermissionResponse { request_id, response } =>
                AgentRequest::UserPermissionResponse {
                    request_id: request_id.clone(),
                    response: *response,
                },
            AgentRequest::WaitTurn => AgentRequest::WaitTurn,
            AgentRequest::Sudo(op) => AgentRequest::Sudo(*op),
            AgentRequest::Droping => AgentRequest::Droping,
        }
    }
}

/// The agent's answer to a command.
#[derive(Debug, PartialEq)]
pub enum AgentResponse {
    Ack,
    Method { method: ToolCallMethod },
    State { state: PublicAgentState },
    SudoStatus { enabled: bool },
    Error { error: String },
}

pub ghost enum AgentResponseView {
    Ack,
    Method { method: ToolCallMethod },
    State { state: PublicAgentStateView },
    SudoStatus { enabled: bool },
    Error { error: Seq<char> },
}

impl DeepView for AgentResponse {
    type V = AgentResponseView;

    open spec fn deep_view(&self) -> AgentResponseView {
        match self {
            AgentResponse::Ack => AgentResponseView::Ack,
            AgentResponse::Method { method } => AgentResponseView::Method { method: *method },
            AgentResponse::State { state } => AgentResponseView::State {
                state: state.deep_view(),
            },
            AgentResponse::SudoStatus { enabled } => AgentResponseView::SudoStatus {
                enabled: *enabled,
            },
            AgentResponse::Error { error } => AgentResponseView::Error { error: error@ },
        }
    }
}

impl Clone for AgentResponse {
    fn clone(&self) -> (r: Self)
        ensures
            r.deep_view() == self.deep_view(),
    {
        match self {
            AgentResponse::Ack => AgentResponse::Ack,
            AgentResponse::Method { method } => AgentResponse::Method { method: *method },
            AgentResponse::State { state } => AgentResponse::State { state: state.clone() },
            AgentResponse::SudoStatus { enabled } => AgentResponse::SudoStatus {
                enabled: *enabled,
            },
            AgentResponse::Error { error } => AgentResponse::Error { error: error.clone() },
        }
    }
}

/// How sending a command went.
#[derive(Debug, PartialEq)]
pub enum SendOutcome {
    /// The command could not be sent: the agent takes no commands.
    NotSent,
    /// No answer came within the time allowed.
    TimedOut,
    /// The agent dropped the command without an answer.
    Unanswered,
    Answered(AgentResponse),
}

/// How a controller reads the answers to its commands.
pub struct AgentController {}

impl AgentController {
    /// The time allowed for an answer, in milliseconds.
    pub open spec fn reply_timeout_ms() -> u64 {
        1000
    }

    /// The time allowed for an answer, in milliseconds.
    pub fn timeout_ms() -> (r: u64)
        ensures
            r == Self::reply_timeout_ms(),
    {
        1000
    }

    /// What sending a command comes to: the answer, or `SessionClosed`
    /// where the command could not be sent, `TimeoutError` where no
    /// answer came in time, `ExecutionError` where the agent dropped
    /// the command.
    pub fn send(outcome: SendOutcome) -> (r: Result<AgentResponse, AgentError>)
        ensures
            match outcome {
                SendOutcome::NotSent => r is Err && r->Err_0.deep_view()
                    == AgentErrorView::SessionClosed,
                SendOutcome::TimedOut => r is Err && r->Err_0.deep_view()
                    == AgentErrorView::TimeoutError,
                SendOutcome::Unanswered => r is Err && r->Err_0.deep_view()
                    == AgentErrorView::ExecutionError("Command response channel closed"@),
                SendOutcome::Answered(response) => r is Ok && r->Ok_0.deep_view()
                    == response.deep_view(),
            },
    {
        match outcome {
            SendOutcome::NotSent => Err(AgentError::SessionClosed),
            SendOutcome::TimedOut => Err(AgentError::TimeoutError),
            SendOutcome::Unanswered => Err(
                AgentError::ExecutionError(String::from_str("Command response channel closed")),
            ),
            SendOutcome::Answered(response) => Ok(response),
        }
    }

    /// Reads the answer to `SwitchToolCallMethod`: the method in force, or
    /// `InvalidResponse` for any other answer.
    pub fn set_method(response: AgentResponse) -> (r: Result<ToolCallMethod, AgentError>)
        ensures
            match response.deep_view() {
                AgentResponseView::Method { method } => r == Ok::<ToolCallMethod, AgentError>(
                    method,
                ),
                _ => r is Err && r->Err_0.deep_view() == AgentErrorView::InvalidResponse(
                    "Expected Method response"@,
                ),
            },
    {
        match response {
            AgentResponse::Method { method } => Ok(method),
            _ => Err(AgentError::InvalidResponse(String::from_str("Expected Method response"))),
        }
    }

    /// Reads the answer to `GetState`: the state, or `InvalidResponse` for
    /// any other answer.
    pub fn get_state(response: AgentResponse) -> (r: Result<PublicAgentState, AgentError>)
        ensures
            match response.deep_view() {
                AgentResponseView::State { state } => r is Ok && r->Ok_0.deep_view() == state,
                _ => r is Err && r->Err_0.deep_view() == AgentErrorView::InvalidResponse(
                    "Expected State response"@,
                ),
            },
    {
        match response {
            AgentResponse::State { state } => Ok(state),
            _ => Err(AgentError::InvalidResponse(String::from_str("Expected State response"))),
        }
    }

    /// Reads the answer to `WaitTurn`: `Ack` is success, `Error` carries
    /// the agent's message as an `ExecutionError`, any other answer is an
    /// `InvalidResponse`.
    pub fn wait_turn(response: AgentResponse) -> (r: Result<(), AgentError>)
        ensures
            match response.deep_view() {
                AgentResponseView::Ack => r is Ok,
                AgentResponseView::Error { error } => r is Err && r->Err_0.deep_view()
                    == AgentErrorView::ExecutionError(error),
                _ => r is Err && r->Err_0.deep_view() == AgentErrorView::InvalidResponse(
                    "Expected Ack response for WaitTurn"@,
                ),
            },
    {
        match response {
            AgentResponse::Ack => Ok(()),
            AgentResponse::Error { error } => Err(AgentError::ExecutionError(error)),
            _ => Err(
                AgentError::InvalidResponse(String::from_str("Expected Ack response for WaitTurn")),
            ),
        }
    }

    /// Reads the answer to a `Sudo` command: whether sudo is on, or
    /// `InvalidResponse` for any other answer.
    pub fn is_sudo(response: AgentResponse) -> (r: Result<bool, AgentError>)
        ensures
            match response.deep_view() {
                AgentResponseView::SudoStatus { enabled } => r == Ok::<bool, AgentError>(enabled),
                _ => r is Err && r->Err_0.deep_view() == AgentErrorView::InvalidResponse(
                    "Expected SudoStatus response"@,
                ),
            },
    {
        match response {
            AgentResponse::SudoStatus { enabled } => Ok(enabled),
            _ => Err(AgentError::InvalidResponse(String::from_str("Expected SudoStatus response"))),
        }
    }
}

} // verus!
