//! What a brain hands back: a message and what to do next.

use vstd::prelude::*;
use crate::chat::{ChatMessage, ChatMessageView};

verus! {

/// What the agent does after a message without tool calls.
#[derive(Debug, Clone, Copy, PartialEq, Eq, Structural)]
pub enum ThinkerFlowControl {
    /// Think again at once.
    AgentContinue,
    /// Wait for input.
    AgentPause,
}

/// One decision of the brain. Where the message holds tool calls the flow
/// is not looked at: the tools run.
#[derive(Debug, PartialEq)]
pub struct ThinkerDecision {
    pub message: ChatMessage,
    pub flow: ThinkerFlowControl,
    /// Input and output tokens spent on the decision.
    pub token_usage: Option<(u32, u32)>,
}

pub ghost struct ThinkerDecisionView {
    pub message: ChatMessageView,
    pub flow: ThinkerFlowControl,
    pub token_usage: Option<(u32, u32)>,
}

impl DeepView for ThinkerDecision {
    type V = ThinkerDecisionView;

    open spec fn deep_view(&self) -> ThinkerDecisionView {
        ThinkerDecisionView {
            message: self.message.deep_view(),
            flow: self.flow,
            token_usage: self.token_usage,
        }
    }
}

impl Clone for ThinkerDecision {
    fn clone(&self) -> (r: Self)
        ensures
            r.deep_view() == self.deep_view(),
    {
        ThinkerDecision {
            message: self.message.clone(),
            flow: self.flow,
            token_usage: self.token_usage,
        }
    }
}

impl ThinkerDecision {
    /// A decision to pause after `message`.
    pub fn new(message: ChatMessage) -> (r: Self)
        ensures
            r.deep_view() == (ThinkerDecisionView {
                message: message.deep_view(),
                flow: ThinkerFlowControl::AgentPause,
                token_usage: None,
            }),
    {
        ThinkerDecision { message, flow: ThinkerFlowControl::AgentPause, token_usage: None }
    }

    pub fn agent_continue(message: ChatMessage) -> (r: Self)
        ensures
            r.deep_view() == (ThinkerDecisionView {
                message: message.deep_view(),
                flow: ThinkerFlowControl::AgentContinue,
                token_usage: None,
            }),
    {
        ThinkerDecision { message, flow: ThinkerFlowControl::AgentContinue, token_usage: None }
    }

    pub fn agent_pause(message: ChatMessage) -> (r: Self)
        ensures
            r.deep_view() == (ThinkerDecisionView {
                message: message.deep_view(),
                flow: ThinkerFlowControl::AgentPause,
                token_usage: None,
            }),
    {
        ThinkerDecision { message, flow: ThinkerFlowControl::AgentPause, token_usage: None }
    }

    pub fn agent_continue_with_tokens(
        message: ChatMessage,
        input_tokens: u32,
        output_tokens: u32,
    ) -> (r: Self)
        ensures
            r.deep_view() == (ThinkerDecisionView {
                message: message.deep_view(),
                flow: ThinkerFlowControl::AgentContinue,
                token_usage: Some((input_tokens, output_tokens)),
            }),
    {
        ThinkerDecision {
            message,
            flow: ThinkerFlowControl::AgentContinue,
            token_usage: Some((input_tokens, output_tokens)),
        }
    }

    pub fn agent_pause_with_tokens(
        message: ChatMessage,
        input_tokens: u32,
        output_tokens: u32,
    ) -> (r: Self)
        ensures
            r.deep_view() == (ThinkerDecisionView {
                message: message.deep_view(),
                flow: ThinkerFlowControl::AgentPause,
                token_usage: Some((input_tokens, output_tokens)),
            }),
    {
        ThinkerDecision {
            message,
            flow: ThinkerFlowControl::AgentPause,
            token_usage: Some((input_tokens, output_tokens)),
        }
    }

    /// The message alone.
    pub fn unwrap(self) -> (r: ChatMessage)
        ensures
            r.deep_view() == self.deep_view().message,
    {
        self.message
    }
}

} // verus!
