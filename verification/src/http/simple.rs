//! The adapter of the simple multimodal protocol.

use vstd::prelude::*;
use crate::agent::events::{AgentEvent, AgentEventView};
use crate::chat::{ChatMessage, ChatMessageContent, ChatMessageContentView, ChatMessageView};
use crate::config::config::NamedValues;
use crate::json::{json_text, json_to_string, JsonModel, JsonValue};
use crate::tools::{ToolResult, ToolResultView};

verus! {

/// A tool call as the protocol shows it: every argument as text.
#[derive(Debug, PartialEq)]
pub struct ToolCall {
    pub tool: String,
    pub args: NamedValues,
    pub output: Option<String>,
}

pub ghost struct ToolCallView {
    pub tool: Seq<char>,
    pub args: Seq<(Seq<char>, Seq<char>)>,
    pub output: Option<Seq<char>>,
}

impl DeepView for ToolCall {
    type V = ToolCallView;

    open spec fn deep_view(&self) -> ToolCallView {
        ToolCallView {
            tool: self.tool@,
            args: self.args.deep_view(),
            output: self.output.deep_view(),
        }
    }
}

/// The result of a tool call as the protocol shows it: its text or its
/// error. The protocol's other kinds of result are never used.
#[derive(Debug, PartialEq)]
pub struct ToolCallResult {
    pub text: Option<String>,
    pub error: Option<String>,
}

pub ghost struct ToolCallResultView {
    pub text: Option<Seq<char>>,
    pub error: Option<Seq<char>>,
}

impl DeepView for ToolCallResult {
    type V = ToolCallResultView;

    open spec fn deep_view(&self) -> ToolCallResultView {
        ToolCallResultView { text: self.text.deep_view(), error: self.error.deep_view() }
    }
}

/// One frame of the stream.
#[derive(Debug, PartialEq)]
pub struct MultiModalStreamingResponse {
    pub id: String,
    pub model: String,
    pub assistant: Option<String>,
    pub call: Option<ToolCall>,
    pub result: Option<ToolCallResult>,
}

pub ghost struct MultiModalStreamingResponseView {
    pub id: Seq<char>,
    pub model: Seq<char>,
    pub assistant: Option<Seq<char>>,
    pub call: Option<ToolCallView>,
    pub result: Option<ToolCallResultView>,
}

impl DeepView for MultiModalStreamingResponse {
    type V = MultiModalStreamingResponseView;

    open spec fn deep_view(&self) -> MultiModalStreamingResponseView {
        MultiModalStreamingResponseView {
            id: self.id@,
            model: self.model@,
            assistant: self.assistant.deep_view(),
            call: self.call.deep_view(),
            result: self.result.deep_view(),
        }
    }
}

/// An argument as text: a string as it is, any other value in its
/// compact JSON rendering.
pub open spec fn argument_text(value: JsonModel) -> Seq<char> {
    match value {
        JsonModel::String(s) => s,
        other => json_text(other),
    }
}

/// The arguments of a call as text: the members of an object under their
/// names; any other value whole, under the name `params`.
pub open spec fn arguments_of(params: JsonModel) -> Seq<(Seq<char>, Seq<char>)> {
    match params {
        JsonModel::Object(members) => Seq::new(
            members.len(),
            |i: int| (members[i].name, argument_text(members[i].value)),
        ),
        other => seq![("params"@, json_text(other))],
    }
}

/// The arguments of a call as text.
pub fn parameters_to_args(params: &JsonValue) -> (r: NamedValues)
    ensures
        r.deep_view() == arguments_of(params.deep_view()),
        match *params {
            JsonValue::Object(members) => crate::text::distinct_keys(members@)
                ==> crate::text::distinct_keys(r@),
            _ => crate::text::distinct_keys(r@),
        },
{
    let mut args: NamedValues = Vec::new();
    match params {
        JsonValue::Object(members) => {
            let mut i: usize = 0;
            while i < members.len()
                invariant
                    *params == JsonValue::Object(*members),
                    i <= members.len(),
                    args.len() == i,
                    forall|j: int|
                        0 <= j < i ==> (#[trigger] args@[j]).deep_view() == (
                            members@[j].0@,
                            argument_text(members@[j].1.deep_view()),
                        ),
                    forall|j: int| 0 <= j < i ==> (#[trigger] args@[j]).0@ == members@[j].0@,
                decreases members.len() - i,
            {
                proof {
                    crate::json::lemma_json_view(members@[i as int].1);
                }
                let value_text = match &members[i].1 {
                    JsonValue::String(s) => s.clone(),
                    other => json_to_string(other),
                };
                args.push((members[i].0.clone(), value_text));
                i += 1;
            }
            proof {
                crate::json::lemma_json_view(*params);
                let shown = arguments_of(params.deep_view());
                let listed = params.deep_view()->Object_0;
                assert(listed.len() == members.len());
                assert(shown.len() == members.len());
                assert forall|j: int| 0 <= j < members.len() implies args.deep_view()[j]
                    == shown[j] by {
                    assert(listed[j] == (crate::json::JsonMember {
                        name: members@[j].0@,
                        value: members@[j].1.deep_view(),
                    }));
                    assert(args.deep_view()[j] == args@[j].deep_view());
                }
            }
            assert(args.deep_view() =~= arguments_of(params.deep_view()));
        },
        other => {
            proof {
                crate::json::lemma_json_view(*params);
            }
            args.push((String::from_str("params"), json_to_string(other)));
            assert(args.deep_view() =~= arguments_of(params.deep_view()));
        },
    }
    args
}

/// What the protocol shows of a tool result: a success as text, a
/// failure as its message, a denial as `Tool call denied`.
pub open spec fn shown_result(result: ToolResultView) -> ToolCallResultView {
    match result {
        ToolResultView::Success { output, .. } => ToolCallResultView {
            text: Some(output),
            error: None,
        },
        ToolResultView::Error { error, .. } => ToolCallResultView {
            text: None,
            error: Some(error),
        },
        ToolResultView::Denied => ToolCallResultView {
            text: None,
            error: Some("Tool call denied"@),
        },
    }
}

/// The output shown with a finished call: that of a success, else nothing.
pub open spec fn shown_output(result: ToolResultView) -> Seq<char> {
    match result {
        ToolResultView::Success { output, .. } => output,
        _ => Seq::empty(),
    }
}

/// The frame that an event becomes, if it becomes one. The text of the
/// assistant, the start and the end of a tool call, the completion and
/// an error are shown; everything else is passed over.
pub open spec fn simple_frame(model: Seq<char>, event: AgentEventView, session_id: Seq<char>)
    -> Option<MultiModalStreamingResponseView> {
    let blank = MultiModalStreamingResponseView {
        id: session_id,
        model,
        assistant: None,
        call: None,
        result: None,
    };
    match event {
        AgentEventView::BrainResult {
            thought: Ok(
                ChatMessageView::Assistant {
                    content: Some(ChatMessageContentView::Text(text)),
                    ..
                },
            ),
            ..
        } => Some(MultiModalStreamingResponseView { assistant: Some(text), ..blank }),
        AgentEventView::ToolCallStarted { call, .. } => Some(
            MultiModalStreamingResponseView {
                call: Some(
                    ToolCallView {
                        tool: call.tool_name,
                        args: arguments_of(call.parameters),
                        output: None,
                    },
                ),
                ..blank
            },
        ),
        AgentEventView::ToolCallCompleted { call, result, .. } => Some(
            MultiModalStreamingResponseView {
                call: Some(
                    ToolCallView {
                        tool: call.tool_name,
                        args: arguments_of(call.parameters),
                        output: Some(shown_output(result)),
                    },
                ),
                result: Some(shown_result(result)),
                ..blank
            },
        ),
        AgentEventView::Completed { message, .. } => Some(
            MultiModalStreamingResponseView { assistant: Some(message), ..blank },
        ),
        AgentEventView::Error { error } => Some(
            MultiModalStreamingResponseView {
                result: Some(ToolCallResultView { text: None, error: Some(error) }),
                ..blank
            },
        ),
        _ => None,
    }
}

/// The adapter: it keeps the model's name and nothing else.
#[derive(Debug, PartialEq)]
pub struct SimpleFormatter {
    pub model: String,
}

impl SimpleFormatter {
    pub fn new(model: String) -> (r: Self)
        ensures
            r.model == model,
    {
        SimpleFormatter { model }
    }

    fn blank(&self, session_id: &str) -> (r: MultiModalStreamingResponse)
        ensures
            r.deep_view() == (MultiModalStreamingResponseView {
                id: session_id@,
                model: self.model@,
                assistant: None,
                call: None,
                result: None,
            }),
    {
        MultiModalStreamingResponse {
            id: session_id.to_owned(),
            model: self.model.clone(),
            assistant: None,
            call: None,
            result: None,
        }
    }

    /// The frame that the event becomes, if it becomes one.
    pub fn format_event(&mut self, event: AgentEvent, session_id: &str) -> (r: Option<
        MultiModalStreamingResponse,
    >)
        ensures
            final(self).model == old(self).model,
            r.deep_view() == simple_frame(old(self).model@, event.deep_view(), session_id@),
    {
        match event {
            AgentEvent::BrainResult { thought, .. } => {
                match thought {
                    Ok(ChatMessage::Assistant { content: Some(ChatMessageContent::Text(text)), .. }) => {
                        let mut frame = self.blank(session_id);
                        frame.assistant = Some(text);
                        Some(frame)
                    },
                    _ => None,
                }
            },
            AgentEvent::ToolCallStarted { call, .. } => {
                let mut frame = self.blank(session_id);
                frame.call = Some(
                    ToolCall {
                        tool: call.tool_name.clone(),
                        args: parameters_to_args(&call.parameters),
                        output: None,
                    },
                );
                Some(frame)
            },
            AgentEvent::ToolCallCompleted { call, result, .. } => {
                let (tool_result, output_str) = match result {
                    ToolResult::Success { output, .. } => (
                        ToolCallResult { text: Some(output.clone()), error: None },
                        output,
                    ),
                    ToolResult::Error { error, .. } => (
                        ToolCallResult { text: None, error: Some(error) },
                        String::new(),
                    ),
                    ToolResult::Denied => (
                        ToolCallResult {
                            text: None,
                            error: Some(String::from_str("Tool call denied")),
                        },
                        String::new(),
                    ),
                };
                let mut frame = self.blank(session_id);
                frame.call = Some(
                    ToolCall {
                        tool: call.tool_name.clone(),
                        args: parameters_to_args(&call.parameters),
                        output: Some(output_str),
                    },
                );
                frame.result = Some(tool_result);
                Some(frame)
            },
            AgentEvent::Completed { message, .. } => {
                let mut frame = self.blank(session_id);
                frame.assistant = Some(message);
                Some(frame)
            },
            AgentEvent::Error { error } => {
                let mut frame = self.blank(session_id);
                frame.result = Some(ToolCallResult { text: None, error: Some(error) });
                Some(frame)
            },
            _ => None,
        }
    }
}

} // verus!
