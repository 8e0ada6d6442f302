//! Running one agent from the command line, without a terminal interface.

use vstd::prelude::*;
use crate::chat::{ChatMessage, ChatMessageContent, ChatMessageContentView, ChatMessageView};

verus! {

/// The kind of agent to run.
#[derive(Debug, Clone, Copy, PartialEq, Eq, Structural)]
pub enum AgentKind {
    Coder,
    Searcher,
}

/// A run from the command line.
#[derive(Debug, PartialEq)]
pub struct AppHeadless {
    kind: AgentKind,
}

/// What is printed of a conversation that has ended: the text of its
/// last message, if the assistant or a tool wrote it as plain text.
pub open spec fn last_answer(trace: Seq<ChatMessageView>) -> Option<Seq<char>> {
    if trace.len() == 0 {
        None
    } else {
        match trace.last() {
            ChatMessageView::Assistant {
                content: Some(ChatMessageContentView::Text(text)),
                ..
            } => Some(text),
            ChatMessageView::Tool { content: ChatMessageContentView::Text(text), .. } => Some(text),
            _ => None,
        }
    }
}

/// Whether a command that ended with this exit code is looked into: not
/// one that succeeded, and not one that a signal ended.
pub open spec fn worth_fixing(exit_code: i32) -> bool {
    exit_code != 0 && exit_code < 128
}

impl AppHeadless {
    /// A run of the coder.
    pub fn new() -> (r: Self)
        ensures
            r.kind() == AgentKind::Coder,
    {
        AppHeadless { kind: AgentKind::Coder }
    }

    pub closed spec fn kind(&self) -> AgentKind {
        self.kind
    }

    /// The kind of agent that is run.
    pub fn agent_kind(&self) -> (r: AgentKind)
        ensures
            r == self.kind(),
    {
        self.kind
    }

    /// What is printed of a conversation that has ended.
    pub fn answer(trace: &Vec<ChatMessage>) -> (r: Option<String>)
        ensures
            r.deep_view() == last_answer(trace.deep_view()),
    {
        let n = trace.len();
        if n == 0 {
            return None;
        }
        assert(trace.deep_view().last() == trace@[n - 1].deep_view());
        match &trace[n - 1] {
            ChatMessage::Assistant { content: Some(ChatMessageContent::Text(text)), .. } => Some(
                text.clone(),
            ),
            ChatMessage::Tool { content: ChatMessageContent::Text(text), .. } => Some(text.clone()),
            _ => None,
        }
    }

    /// Whether a command that ended with this exit code is looked into.
    pub fn should_fix(exit_code: i32) -> (r: bool)
        ensures
            r == worth_fixing(exit_code),
    {
        exit_code != 0 && exit_code < 128
    }
}

} // verus!
