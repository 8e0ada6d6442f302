//! The adapter of the chat completion protocol. Tool calls are shown as
//! reasoning; the assistant's last text is sent when the agent completes.

use vstd::prelude::*;
use crate::agent::events::{AgentEvent, AgentEventView};
use crate::chat::{ChatMessage, ChatMessageContent, ChatMessageContentView, ChatMessageView};
use crate::sys::{new_uuid_v4, unix_seconds};
use crate::text::{first_line, first_line_of, prefixed};
use crate::tools::{ToolResult, ToolResultView};

verus! {

/// Why a stream of chunks ends.
#[derive(Debug, Clone, Copy, PartialEq, Eq, Structural)]
pub enum FinishReason {
    StopSequenceReached,
    TokenLimitReached,
    ContentFilterFlagged,
    ToolCalls,
    EndTurn,
}

/// What one chunk adds to the assistant's message.
#[derive(Debug, PartialEq)]
pub struct DeltaChatMessage {
    pub content: Option<String>,
    pub reasoning_content: Option<String>,
}

pub ghost struct DeltaChatMessageView {
    pub content: Option<Seq<char>>,
    pub reasoning_content: Option<Seq<char>>,
}

impl DeepView for DeltaChatMessage {
    type V = DeltaChatMessageView;

    open spec fn deep_view(&self) -> DeltaChatMessageView {
        DeltaChatMessageView {
            content: self.content.deep_view(),
            reasoning_content: self.reasoning_content.deep_view(),
        }
    }
}

/// One choice of a chunk.
#[derive(Debug, PartialEq)]
pub struct ChatCompletionChunkChoice {
    pub index: Option<u32>,
    pub delta: DeltaChatMessage,
    pub finish_reason: Option<FinishReason>,
}

pub ghost struct ChatCompletionChunkChoiceView {
    pub index: Option<u32>,
    pub delta: DeltaChatMessageView,
    pub finish_reason: Option<FinishReason>,
}

impl DeepView for ChatCompletionChunkChoice {
    type V = ChatCompletionChunkChoiceView;

    open spec fn deep_view(&self) -> ChatCompletionChunkChoiceView {
        ChatCompletionChunkChoiceView {
            index: self.index,
            delta: self.delta.deep_view(),
            finish_reason: self.finish_reason,
        }
    }
}

/// The tokens that a chunk reports: those of the prompt, those of the
/// completion and their sum.
pub type ChunkUsage = (u32, u32, u32);

/// One chunk of the stream. The adapter sends one choice, at index zero,
/// and reports neither usage nor a fingerprint of the system.
#[derive(Debug, PartialEq)]
pub struct ChatCompletionChunkResponse {
    pub id: Option<String>,
    pub object: String,
    pub created: u32,
    pub model: String,
    pub choices: Vec<ChatCompletionChunkChoice>,
    pub usage: Option<ChunkUsage>,
    pub system_fingerprint: Option<String>,
}

pub ghost struct ChatCompletionChunkResponseView {
    pub id: Option<Seq<char>>,
    pub object: Seq<char>,
    pub created: u32,
    pub model: Seq<char>,
    pub choices: Seq<ChatCompletionChunkChoiceView>,
    pub usage: Option<ChunkUsage>,
    pub system_fingerprint: Option<Seq<char>>,
}

impl DeepView for ChatCompletionChunkResponse {
    type V = ChatCompletionChunkResponseView;

    open spec fn deep_view(&self) -> ChatCompletionChunkResponseView {
        ChatCompletionChunkResponseView {
            id: self.id.deep_view(),
            object: self.object@,
            created: self.created,
            model: self.model@,
            choices: self.choices.deep_view(),
            usage: self.usage,
            system_fingerprint: self.system_fingerprint.deep_view(),
        }
    }
}

/// The chunk that carries one delta.
pub open spec fn chunk_of(
    id: Seq<char>,
    created: u32,
    model: Seq<char>,
    delta: DeltaChatMessageView,
    finish_reason: Option<FinishReason>,
) -> ChatCompletionChunkResponseView {
    ChatCompletionChunkResponseView {
        id: Some(id),
        object: "chat.completion.chunk"@,
        created,
        model,
        choices: seq![ChatCompletionChunkChoiceView { index: Some(0u32), delta, finish_reason }],
        usage: None,
        system_fingerprint: None,
    }
}

/// The adapter. It remembers the assistant's last text.
#[derive(Debug, PartialEq)]
pub struct ChatCompletionFormatter {
    pub model: String,
    pub created: u32,
    accumulated_text: String,
}

pub ghost struct ChatCompletionFormatterView {
    pub model: Seq<char>,
    pub created: u32,
    pub accumulated_text: Seq<char>,
}

/// How the end of a tool call is shown: in one line.
pub open spec fn tool_end_note(tool_name: Seq<char>, result: ToolResultView) -> Seq<char> {
    match result {
        ToolResultView::Success { .. } => "[tool succeeded: "@ + tool_name + "]"@,
        ToolResultView::Error { error, .. } => "[tool failed: "@ + tool_name + " - "@
            + first_line_of(error) + "]"@,
        ToolResultView::Denied => "[tool denied: "@ + tool_name + "]"@,
    }
}

impl ChatCompletionFormatterView {
    /// The text that the adapter remembers after the event: the text of
    /// the assistant's message, or the message of a completion unless it
    /// is empty.
    pub open spec fn remembered(self, event: AgentEventView) -> Seq<char> {
        match event {
            AgentEventView::BrainResult {
                thought: Ok(
                    ChatMessageView::Assistant {
                        content: Some(ChatMessageContentView::Text(text)),
                        ..
                    },
                ),
                ..
            } => text,
            AgentEventView::Completed { message, .. } => if message.len() > 0 {
                message
            } else {
                self.accumulated_text
            },
            _ => self.accumulated_text,
        }
    }

    /// What the chunk for the event adds and whether it ends the stream;
    /// `None` where the event is not shown.
    pub open spec fn delta(self, event: AgentEventView) -> Option<
        (DeltaChatMessageView, Option<FinishReason>),
    > {
        match event {
            AgentEventView::ToolCallStarted { call, .. } => Some(
                (
                    DeltaChatMessageView {
                        content: None,
                        reasoning_content: Some("[toolcall: "@ + call.tool_name + "]"@),
                    },
                    None,
                ),
            ),
            AgentEventView::ToolCallCompleted { call, result, .. } => Some(
                (
                    DeltaChatMessageView {
                        content: None,
                        reasoning_content: Some(tool_end_note(call.tool_name, result)),
                    },
                    None,
                ),
            ),
            AgentEventView::Completed { .. } => Some(
                (
                    DeltaChatMessageView {
                        content: Some(self.remembered(event)),
                        reasoning_content: None,
                    },
                    Some(FinishReason::StopSequenceReached),
                ),
            ),
            AgentEventView::Error { error } => Some(
                (
                    DeltaChatMessageView {
                        content: Some("Error: "@ + error),
                        reasoning_content: None,
                    },
                    Some(FinishReason::StopSequenceReached),
                ),
            ),
            _ => None,
        }
    }

    /// The chunk for the event, under the id made of `fresh_id`.
    pub open spec fn chunk(self, event: AgentEventView, fresh_id: Seq<char>) -> Option<
        ChatCompletionChunkResponseView,
    > {
        match self.delta(event) {
            Some((delta, finish_reason)) => Some(
                chunk_of("chatcmpl-"@ + fresh_id, self.created, self.model, delta, finish_reason),
            ),
            None => None,
        }
    }
}

impl DeepView for ChatCompletionFormatter {
    type V = ChatCompletionFormatterView;

    closed spec fn deep_view(&self) -> ChatCompletionFormatterView {
        ChatCompletionFormatterView {
            model: self.model@,
            created: self.created,
            accumulated_text: self.accumulated_text@,
        }
    }
}

impl ChatCompletionFormatter {
    /// An adapter created at the given time, in seconds since the epoch.
    pub fn created_at(model: String, created: u32) -> (r: Self)
        ensures
            r.deep_view() == (ChatCompletionFormatterView {
                model: model@,
                created,
                accumulated_text: Seq::empty(),
            }),
    {
        ChatCompletionFormatter { model, created, accumulated_text: String::new() }
    }

    /// An adapter created now. The time of creation is the clock's, cut
    /// to 32 bits.
    pub fn new(model: String) -> (r: Self)
        ensures
            exists|created: u32|
                r.deep_view() == (ChatCompletionFormatterView {
                    model: model@,
                    created,
                    accumulated_text: Seq::empty(),
                }),
    {
        let secs = unix_seconds();
        let created = (secs % 0x1_0000_0000) as u32;
        Self::created_at(model, created)
    }

    fn create_chunk(
        &self,
        delta: DeltaChatMessage,
        finish_reason: Option<FinishReason>,
        fresh_id: &str,
    ) -> (r: ChatCompletionChunkResponse)
        ensures
            r.deep_view() == chunk_of(
                "chatcmpl-"@ + fresh_id@,
                self.deep_view().created,
                self.deep_view().model,
                delta.deep_view(),
                finish_reason,
            ),
    {
        let mut choices: Vec<ChatCompletionChunkChoice> = Vec::new();
        choices.push(ChatCompletionChunkChoice { index: Some(0), delta, finish_reason });
        assert(choices.deep_view() =~= seq![
            ChatCompletionChunkChoiceView {
                index: Some(0u32),
                delta: delta.deep_view(),
                finish_reason,
            },
        ]);
        ChatCompletionChunkResponse {
            id: Some(prefixed("chatcmpl-", fresh_id)),
            object: String::from_str("chat.completion.chunk"),
            created: self.created,
            model: self.model.clone(),
            choices,
            usage: None,
            system_fingerprint: None,
        }
    }

    fn bracketed(opening: &str, tool_name: &str) -> (r: String)
        ensures
            r@ == opening@ + tool_name@ + "]"@,
    {
        let mut text = String::from_str(opening);
        text.append(tool_name);
        text.append("]");
        text
    }

    /// The chunk for the event, if the event is shown, under the id made
    /// of `fresh_id`.
    pub fn format_event_with(&mut self, event: AgentEvent, fresh_id: &str) -> (r: Option<
        ChatCompletionChunkResponse,
    >)
        ensures
            final(self).deep_view() == (ChatCompletionFormatterView {
                accumulated_text: old(self).deep_view().remembered(event.deep_view()),
                ..old(self).deep_view()
            }),
            r.deep_view() == old(self).deep_view().chunk(event.deep_view(), fresh_id@),
    {
        match event {
            AgentEvent::BrainResult { thought, .. } => {
                match thought {
                    Ok(ChatMessage::Assistant { content: Some(ChatMessageContent::Text(text)), .. }) => {
                        self.accumulated_text = text;
                    },
                    _ => {},
                }
                None
            },
            AgentEvent::ToolCallStarted { call, .. } => {
                let delta = DeltaChatMessage {
                    content: None,
                    reasoning_content: Some(
                        Self::bracketed("[toolcall: ", call.tool_name.as_str()),
                    ),
                };
                Some(self.create_chunk(delta, None, fresh_id))
            },
            AgentEvent::ToolCallCompleted { call, result, .. } => {
                let thinking_text = match &result {
                    ToolResult::Success { .. } => Self::bracketed(
                        "[tool succeeded: ",
                        call.tool_name.as_str(),
                    ),
                    ToolResult::Error { error, .. } => {
                        let mut text = String::from_str("[tool failed: ");
                        text.append(call.tool_name.as_str());
                        text.append(" - ");
                        text.append(first_line(error.as_str()));
                        text.append("]");
                        text
                    },
                    ToolResult::Denied => Self::bracketed(
                        "[tool denied: ",
                        call.tool_name.as_str(),
                    ),
                };
                let delta = DeltaChatMessage {
                    content: None,
                    reasoning_content: Some(thinking_text),
                };
                Some(self.create_chunk(delta, None, fresh_id))
            },
            AgentEvent::Completed { message, .. } => {
                if message.as_str().unicode_len() > 0 {
                    self.accumulated_text = message;
                }
                let delta = DeltaChatMessage {
                    content: Some(self.accumulated_text.clone()),
                    reasoning_content: None,
                };
                Some(self.create_chunk(delta, Some(FinishReason::StopSequenceReached), fresh_id))
            },
            AgentEvent::Error { error } => {
                let delta = DeltaChatMessage {
                    content: Some(prefixed("Error: ", error.as_str())),
                    reasoning_content: None,
                };
                Some(self.create_chunk(delta, Some(FinishReason::StopSequenceReached), fresh_id))
            },
            _ => None,
        }
    }

    /// The chunk for the event, if the event is shown, under a fresh
    /// random id.
    pub fn format_event(&mut self, event: AgentEvent, _session_id: &str) -> (r: Option<
        ChatCompletionChunkResponse,
    >)
        ensures
            final(self).deep_view() == (ChatCompletionFormatterView {
                accumulated_text: old(self).deep_view().remembered(event.deep_view()),
                ..old(self).deep_view()
            }),
            exists|fresh_id: Seq<char>|
                r.deep_view() == old(self).deep_view().chunk(event.deep_view(), fresh_id),
    {
        let fresh_id = new_uuid_v4();
        self.format_event_with(event, fresh_id.as_str())
    }
}

} // verus!
