//! Chat messages and the conversation trace.

use vstd::prelude::*;

verus! {

/// How tool calls are encoded in a request to the model.
#[derive(Debug, Clone, Copy, PartialEq, Eq, Structural)]
pub enum ToolCallMethod {
    /// Native function calling, the model decides.
    FunctionCall,
    /// Native function calling, a call is required.
    FunctionCallRequired,
    /// Tool calls carried in a structured JSON answer.
    StructuredOutput,
}

/// The body of a chat message.
#[derive(Debug, PartialEq)]
pub enum ChatMessageContent {
    Text(String),
    /// A list of content parts, kept as its JSON text.
    ContentPart(String),
    Empty,
}

pub ghost enum ChatMessageContentView {
    Text(Seq<char>),
    ContentPart(Seq<char>),
    Empty,
}

impl DeepView for ChatMessageContent {
    type V = ChatMessageContentView;

    open spec fn deep_view(&self) -> ChatMessageContentView {
        match self {
            ChatMessageContent::Text(t) => ChatMessageContentView::Text(t@),
            ChatMessageContent::ContentPart(p) => ChatMessageContentView::ContentPart(p@),
            ChatMessageContent::Empty => ChatMessageContentView::Empty,
        }
    }
}

impl Clone for ChatMessageContent {
    fn clone(&self) -> (r: Self)
        ensures
            r.deep_view() == self.deep_view(),
    {
        match self {
            ChatMessageContent::Text(t) => ChatMessageContent::Text(t.clone()),
            ChatMessageContent::ContentPart(p) => ChatMessageContent::ContentPart(p.clone()),
            ChatMessageContent::Empty => ChatMessageContent::Empty,
        }
    }
}

/// A tool call as the model wrote it: the arguments are still JSON text.
#[derive(Debug, PartialEq)]
pub struct LlmToolCall {
    pub id: String,
    pub name: String,
    pub arguments: String,
}

pub ghost struct LlmToolCallView {
    pub id: Seq<char>,
    pub name: Seq<char>,
    pub arguments: Seq<char>,
}

impl DeepView for LlmToolCall {
    type V = LlmToolCallView;

    open spec fn deep_view(&self) -> LlmToolCallView {
        LlmToolCallView { id: self.id@, name: self.name@, arguments: self.arguments@ }
    }
}

impl Clone for LlmToolCall {
    fn clone(&self) -> (r: Self)
        ensures
            r.deep_view() == self.deep_view(),
    {
        LlmToolCall {
            id: self.id.clone(),
            name: self.name.clone(),
            arguments: self.arguments.clone(),
        }
    }
}

/// One message of the conversation.
#[derive(Debug, PartialEq)]
#[allow(inconsistent_fields)]
pub enum ChatMessage {
    Developer { content: ChatMessageContent, name: Option<String> },
    System { content: ChatMessageContent, name: Option<String> },
    User { content: ChatMessageContent, name: Option<String> },
    Assistant {
        content: Option<ChatMessageContent>,
        reasoning_content: Option<String>,
        refusal: Option<String>,
        name: Option<String>,
        tool_calls: Option<Vec<LlmToolCall>>,
    },
    Tool { content: ChatMessageContent, tool_call_id: String },
}

#[allow(inconsistent_fields)]
pub ghost enum ChatMessageView {
    Developer { content: ChatMessageContentView, name: Option<Seq<char>> },
    System { content: ChatMessageContentView, name: Option<Seq<char>> },
    User { content: ChatMessageContentView, name: Option<Seq<char>> },
    Assistant {
        content: Option<ChatMessageContentView>,
        reasoning_content: Option<Seq<char>>,
        refusal: Option<Seq<char>>,
        name: Option<Seq<char>>,
        tool_calls: Option<Seq<LlmToolCallView>>,
    },
    Tool { content: ChatMessageContentView, tool_call_id: Seq<char> },
}

impl DeepView for ChatMessage {
    type V = ChatMessageView;

    open spec fn deep_view(&self) -> ChatMessageView {
        match self {
            ChatMessage::Developer { content, name } => ChatMessageView::Developer {
                content: content.deep_view(),
                name: name.deep_view(),
            },
            ChatMessage::System { content, name } => ChatMessageView::System {
                content: content.deep_view(),
                name: name.deep_view(),
            },
            ChatMessage::User { content, name } => ChatMessageView::User {
                content: content.deep_view(),
                name: name.deep_view(),
            },
            ChatMessage::Assistant { content, reasoning_content, refusal, name, tool_calls } =>
                ChatMessageView::Assistant {
                    content: content.deep_view(),
                    reasoning_content: reasoning_content.deep_view(),
                    refusal: refusal.deep_view(),
                    name: name.deep_view(),
                    tool_calls: tool_calls.deep_view(),
                },
            ChatMessage::Tool { content, tool_call_id } => ChatMessageView::Tool {
                content: content.deep_view(),
                tool_call_id: tool_call_id@,
            },
        }
    }
}

impl Clone for ChatMessage {
    fn clone(&self) -> (r: Self)
        ensures
            r.deep_view() == self.deep_view(),
    {
        match self {
            ChatMessage::Developer { content, name } => ChatMessage::Developer {
                content: content.clone(),
                name: name.clone(),
            },
            ChatMessage::System { content, name } => ChatMessage::System {
                content: content.clone(),
                name: name.clone(),
            },
            ChatMessage::User { content, name } => ChatMessage::User {
                content: content.clone(),
                name: name.clone(),
            },
            ChatMessage::Assistant { content, reasoning_content, refusal, name, tool_calls } => {
                let calls = tool_calls.clone();
                assert(calls.deep_view() == tool_calls.deep_view()) by {
                    if tool_calls is Some {
                        assert(calls.unwrap().deep_view() =~= tool_calls.unwrap().deep_view());
                    }
                }
                ChatMessage::Assistant {
                    content: content.clone(),
                    reasoning_content: reasoning_content.clone(),
                    refusal: refusal.clone(),
                    name: name.clone(),
                    tool_calls: calls,
                }
            },
            ChatMessage::Tool { content, tool_call_id } => ChatMessage::Tool {
                content: content.clone(),
                tool_call_id: tool_call_id.clone(),
            },
        }
    }
}

impl ChatMessageView {
    /// An assistant message that lists a tool call with this id.
    pub open spec fn has_call(self, call_id: Seq<char>) -> bool {
        match self {
            ChatMessageView::Assistant { tool_calls: Some(calls), .. } => exists|k: int|
                0 <= k < calls.len() && (#[trigger] calls[k]).id == call_id,
            _ => false,
        }
    }

    /// The tool calls that the message asks for; none unless an assistant
    /// wrote it.
    pub open spec fn calls(self) -> Seq<LlmToolCallView> {
        match self {
            ChatMessageView::Assistant { tool_calls: Some(calls), .. } => calls,
            _ => Seq::empty(),
        }
    }
}

/// Whether the last message of the conversation is the user's.
pub open spec fn last_is_user(trace: Seq<ChatMessageView>) -> bool {
    trace.len() > 0 && trace.last() is User
}

/// Some message among the first `upto` lists a tool call with this id.
pub open spec fn call_known_before(
    trace: Seq<ChatMessageView>,
    upto: int,
    call_id: Seq<char>,
) -> bool {
    exists|j: int| 0 <= j < upto && j < trace.len() && (#[trigger] trace[j]).has_call(call_id)
}

/// Some message of the conversation lists a tool call with this id.
pub open spec fn call_known(trace: Seq<ChatMessageView>, call_id: Seq<char>) -> bool {
    call_known_before(trace, trace.len() as int, call_id)
}

/// Every tool message answers a call that an earlier assistant message
/// lists.
pub open spec fn tool_messages_answer_calls(trace: Seq<ChatMessageView>) -> bool {
    forall|i: int|
        0 <= i < trace.len() ==> match #[trigger] trace[i] {
            ChatMessageView::Tool { tool_call_id, .. } => call_known_before(trace, i, tool_call_id),
            _ => true,
        }
}

impl ChatMessage {
    /// A user message with this text.
    pub fn user(text: String) -> (r: ChatMessage)
        ensures
            r.deep_view() == (ChatMessageView::User {
                content: ChatMessageContentView::Text(text@),
                name: None,
            }),
    {
        ChatMessage::User { content: ChatMessageContent::Text(text), name: None }
    }

    /// An assistant message with this text and no tool call.
    pub fn assistant(text: String) -> (r: ChatMessage)
        ensures
            r.deep_view() == (ChatMessageView::Assistant {
                content: Some(ChatMessageContentView::Text(text@)),
                reasoning_content: None,
                refusal: None,
                name: None,
                tool_calls: None,
            }),
    {
        ChatMessage::Assistant {
            content: Some(ChatMessageContent::Text(text)),
            reasoning_content: None,
            refusal: None,
            name: None,
            tool_calls: None,
        }
    }

    /// The message that answers the tool call `tool_call_id`.
    pub fn tool(tool_call_id: String, text: String) -> (r: ChatMessage)
        ensures
            r.deep_view() == (ChatMessageView::Tool {
                content: ChatMessageContentView::Text(text@),
                tool_call_id: tool_call_id@,
            }),
    {
        ChatMessage::Tool { content: ChatMessageContent::Text(text), tool_call_id }
    }

    pub fn is_user(&self) -> (r: bool)
        ensures
            r == (self.deep_view() is User),
    {
        match self {
            ChatMessage::User { .. } => true,
            _ => false,
        }
    }
}

} // verus!
