//! The adapter of the response protocol: a stream of numbered events
//! around one response object that fills up as the agent works.

use vstd::prelude::*;
use crate::agent::events::{AgentEvent, AgentEventView};
use crate::chat::{ChatMessage, ChatMessageContent, ChatMessageContentView, ChatMessageView};
use crate::config::agent::clone_named_values;
use crate::config::config::NamedValues;
use crate::json::{json_text, json_to_string, JsonModel, JsonValue};
use crate::sys::{new_uuid_v4, unix_seconds};
use crate::text::{prefixed, str_eq};
use crate::tools::{ToolCall, ToolCallView, ToolResult};

verus! {

/// The kinds of event of the stream.
#[derive(Debug, Clone, Copy, PartialEq, Eq, Structural)]
pub enum ResponseEventType {
    ResponseCreated,
    ResponseInProgress,
    ResponseOutputItemAdded,
    ResponseOutputItemDone,
    ResponseOutputTextDelta,
    ResponseCompleted,
}

/// Where a response stands.
#[derive(Debug, Clone, Copy, PartialEq, Eq, Structural)]
pub enum ReasoningStatus {
    Completed,
    Failed,
    InProgress,
    Incomplete,
}

/// Where one item of a response stands.
#[derive(Debug, Clone, Copy, PartialEq, Eq, Structural)]
pub enum InputItemStatus {
    InProgress,
    Completed,
    Incomplete,
}

/// One item of a response: a message of the assistant, completed, or a
/// tool call.
#[derive(Debug, PartialEq)]
pub enum ResponseOutput {
    Message { id: String, text: String },
    FunctionToolCall {
        id: String,
        call_id: String,
        name: String,
        arguments: String,
        status: InputItemStatus,
    },
}

#[allow(inconsistent_fields)]
pub ghost enum ResponseOutputView {
    Message { id: Seq<char>, text: Seq<char> },
    FunctionToolCall {
        id: Seq<char>,
        call_id: Seq<char>,
        name: Seq<char>,
        arguments: Seq<char>,
        status: InputItemStatus,
    },
}

impl DeepView for ResponseOutput {
    type V = ResponseOutputView;

    open spec fn deep_view(&self) -> ResponseOutputView {
        match self {
            ResponseOutput::Message { id, text } => ResponseOutputView::Message {
                id: id@,
                text: text@,
            },
            ResponseOutput::FunctionToolCall { id, call_id, name, arguments, status } =>
                ResponseOutputView::FunctionToolCall {
                    id: id@,
                    call_id: call_id@,
                    name: name@,
                    arguments: arguments@,
                    status: *status,
                },
        }
    }
}

impl Clone for ResponseOutput {
    fn clone(&self) -> (r: Self)
        ensures
            r.deep_view() == self.deep_view(),
    {
        match self {
            ResponseOutput::Message { id, text } => ResponseOutput::Message {
                id: id.clone(),
                text: text.clone(),
            },
            ResponseOutput::FunctionToolCall { id, call_id, name, arguments, status } =>
                ResponseOutput::FunctionToolCall {
                    id: id.clone(),
                    call_id: call_id.clone(),
                    name: name.clone(),
                    arguments: arguments.clone(),
                    status: *status,
                },
        }
    }
}

/// What a request asked for and its response repeats. The two
/// temperatures are kept as the bits of their single-precision values.
#[derive(Debug, PartialEq)]
pub struct ResponsePayload {
    pub instructions: Option<String>,
    pub metadata: Option<NamedValues>,
    pub temperature_bits: Option<u32>,
    pub max_output_tokens: Option<u32>,
    pub parallel_tool_calls: Option<bool>,
    pub reasoning: Option<JsonValue>,
    pub text: Option<JsonValue>,
    pub tool_choice: Option<JsonValue>,
    pub tools: Option<Vec<JsonValue>>,
    pub top_p_bits: Option<u32>,
    pub truncation: Option<JsonValue>,
    pub user: Option<String>,
}

pub ghost struct ResponsePayloadView {
    pub instructions: Option<Seq<char>>,
    pub metadata: Option<Seq<(Seq<char>, Seq<char>)>>,
    pub temperature_bits: Option<u32>,
    pub max_output_tokens: Option<u32>,
    pub parallel_tool_calls: Option<bool>,
    pub reasoning: Option<JsonModel>,
    pub text: Option<JsonModel>,
    pub tool_choice: Option<JsonModel>,
    pub tools: Option<Seq<JsonModel>>,
    pub top_p_bits: Option<u32>,
    pub truncation: Option<JsonModel>,
    pub user: Option<Seq<char>>,
}

impl DeepView for ResponsePayload {
    type V = ResponsePayloadView;

    open spec fn deep_view(&self) -> ResponsePayloadView {
        ResponsePayloadView {
            instructions: self.instructions.deep_view(),
            metadata: self.metadata.deep_view(),
            temperature_bits: self.temperature_bits,
            max_output_tokens: self.max_output_tokens,
            parallel_tool_calls: self.parallel_tool_calls,
            reasoning: self.reasoning.deep_view(),
            text: self.text.deep_view(),
            tool_choice: self.tool_choice.deep_view(),
            tools: self.tools.deep_view(),
            top_p_bits: self.top_p_bits,
            truncation: self.truncation.deep_view(),
            user: self.user.deep_view(),
        }
    }
}

impl ResponsePayloadView {
    /// The tools that a response names: those of the request, none where
    /// the request names none.
    pub open spec fn tools_or_none(self) -> Seq<JsonModel> {
        match self.tools {
            Some(tools) => tools,
            None => Seq::empty(),
        }
    }
}

impl Clone for ResponsePayload {
    fn clone(&self) -> (r: Self)
        ensures
            r.deep_view() == self.deep_view(),
    {
        let tools = match &self.tools {
            Some(tools) => {
                let copy = tools.clone();
                assert(copy.deep_view() =~= tools.deep_view());
                Some(copy)
            },
            None => None,
        };
        let metadata = match &self.metadata {
            Some(values) => Some(clone_named_values(values)),
            None => None,
        };
        ResponsePayload {
            instructions: self.instructions.clone(),
            metadata,
            temperature_bits: self.temperature_bits,
            max_output_tokens: self.max_output_tokens,
            parallel_tool_calls: self.parallel_tool_calls,
            reasoning: self.reasoning.clone(),
            text: self.text.clone(),
            tool_choice: self.tool_choice.clone(),
            tools,
            top_p_bits: self.top_p_bits,
            truncation: self.truncation.clone(),
            user: self.user.clone(),
        }
    }
}

impl ResponsePayload {
    /// A request that asks for nothing in particular.
    pub fn empty() -> (r: Self)
        ensures
            r.deep_view() == (ResponsePayloadView {
                instructions: None,
                metadata: None,
                temperature_bits: None,
                max_output_tokens: None,
                parallel_tool_calls: None,
                reasoning: None,
                text: None,
                tool_choice: None,
                tools: None,
                top_p_bits: None,
                truncation: None,
                user: None,
            }),
    {
        ResponsePayload {
            instructions: None,
            metadata: None,
            temperature_bits: None,
            max_output_tokens: None,
            parallel_tool_calls: None,
            reasoning: None,
            text: None,
            tool_choice: None,
            tools: None,
            top_p_bits: None,
            truncation: None,
            user: None,
        }
    }
}

/// The tokens that a response reports.
#[derive(Debug, Clone, Copy, PartialEq, Eq)]
pub struct ResponseUsage {
    pub completion_tokens: Option<u32>,
    pub prompt_tokens: Option<u32>,
    pub total_tokens: u32,
}

/// The usage that the adapter reports: no token counted.
pub open spec fn no_usage() -> ResponseUsage {
    ResponseUsage { completion_tokens: Some(0u32), prompt_tokens: Some(0u32), total_tokens: 0 }
}

/// The response as the adapter fills it: what it made itself, what the
/// request asked for, and no error.
#[derive(Debug, PartialEq)]
pub struct ResponseObject {
    pub id: String,
    pub object: String,
    pub created_at: u32,
    pub model: String,
    pub status: ReasoningStatus,
    pub output: Vec<ResponseOutput>,
    /// What the request asked for, repeated.
    pub request: ResponsePayload,
    /// The tools of the request; none where it names none.
    pub tools: Vec<JsonValue>,
    pub previous_response_id: Option<String>,
    pub usage: ResponseUsage,
}

pub ghost struct ResponseObjectView {
    pub id: Seq<char>,
    pub object: Seq<char>,
    pub created_at: u32,
    pub model: Seq<char>,
    pub status: ReasoningStatus,
    pub output: Seq<ResponseOutputView>,
    pub request: ResponsePayloadView,
    pub tools: Seq<JsonModel>,
    pub previous_response_id: Option<Seq<char>>,
    pub usage: ResponseUsage,
}

impl DeepView for ResponseObject {
    type V = ResponseObjectView;

    open spec fn deep_view(&self) -> ResponseObjectView {
        ResponseObjectView {
            id: self.id@,
            object: self.object@,
            created_at: self.created_at,
            model: self.model@,
            status: self.status,
            output: self.output.deep_view(),
            request: self.request.deep_view(),
            tools: self.tools.deep_view(),
            previous_response_id: self.previous_response_id.deep_view(),
            usage: self.usage,
        }
    }
}

/// What an event of the stream carries.
#[derive(Debug, PartialEq)]
pub enum ResponseEventData {
    Response { sequence_number: u32, response: ResponseObject },
    OutputItem { sequence_number: u32, output_index: usize, item: ResponseOutput },
    TextDelta {
        sequence_number: u32,
        item_id: String,
        output_index: usize,
        content_index: usize,
        delta: String,
    },
}

pub ghost enum ResponseEventDataView {
    Response { sequence_number: u32, response: ResponseObjectView },
    OutputItem { sequence_number: u32, output_index: usize, item: ResponseOutputView },
    TextDelta {
        sequence_number: u32,
        item_id: Seq<char>,
        output_index: usize,
        content_index: usize,
        delta: Seq<char>,
    },
}

impl DeepView for ResponseEventData {
    type V = ResponseEventDataView;

    open spec fn deep_view(&self) -> ResponseEventDataView {
        match self {
            ResponseEventData::Response { sequence_number, response } =>
                ResponseEventDataView::Response {
                    sequence_number: *sequence_number,
                    response: response.deep_view(),
                },
            ResponseEventData::OutputItem { sequence_number, output_index, item } =>
                ResponseEventDataView::OutputItem {
                    sequence_number: *sequence_number,
                    output_index: *output_index,
                    item: item.deep_view(),
                },
            ResponseEventData::TextDelta {
                sequence_number,
                item_id,
                output_index,
                content_index,
                delta,
            } => ResponseEventDataView::TextDelta {
                sequence_number: *sequence_number,
                item_id: item_id@,
                output_index: *output_index,
                content_index: *content_index,
                delta: delta@,
            },
        }
    }
}

/// One event of the stream.
#[derive(Debug, PartialEq)]
pub struct ResponseStreamEvent {
    pub event_type: ResponseEventType,
    pub data: ResponseEventData,
}

pub ghost struct ResponseStreamEventView {
    pub event_type: ResponseEventType,
    pub data: ResponseEventDataView,
}

impl DeepView for ResponseStreamEvent {
    type V = ResponseStreamEventView;

    open spec fn deep_view(&self) -> ResponseStreamEventView {
        ResponseStreamEventView { event_type: self.event_type, data: self.data.deep_view() }
    }
}

impl ResponseEventType {
    /// The name under which events of this kind are sent.
    pub open spec fn name(self) -> Seq<char> {
        match self {
            ResponseEventType::ResponseCreated => "response.created"@,
            ResponseEventType::ResponseInProgress => "response.in_progress"@,
            ResponseEventType::ResponseOutputItemAdded => "response.output_item.added"@,
            ResponseEventType::ResponseOutputItemDone => "response.output_item.done"@,
            ResponseEventType::ResponseOutputTextDelta => "response.output_text.delta"@,
            ResponseEventType::ResponseCompleted => "response.completed"@,
        }
    }
}

impl ResponseStreamEvent {
    pub fn created(sequence_number: u32, response: ResponseObject) -> (r: Self)
        ensures
            r.deep_view() == (ResponseStreamEventView {
                event_type: ResponseEventType::ResponseCreated,
                data: ResponseEventDataView::Response {
                    sequence_number,
                    response: response.deep_view(),
                },
            }),
    {
        ResponseStreamEvent {
            event_type: ResponseEventType::ResponseCreated,
            data: ResponseEventData::Response { sequence_number, response },
        }
    }

    pub fn in_progress(sequence_number: u32, response: ResponseObject) -> (r: Self)
        ensures
            r.deep_view() == (ResponseStreamEventView {
                event_type: ResponseEventType::ResponseInProgress,
                data: ResponseEventDataView::Response {
                    sequence_number,
                    response: response.deep_view(),
                },
            }),
    {
        ResponseStreamEvent {
            event_type: ResponseEventType::ResponseInProgress,
            data: ResponseEventData::Response { sequence_number, response },
        }
    }

    pub fn output_item_added(sequence_number: u32, output_index: usize, item: ResponseOutput) -> (r:
        Self)
        ensures
            r.deep_view() == (ResponseStreamEventView {
                event_type: ResponseEventType::ResponseOutputItemAdded,
                data: ResponseEventDataView::OutputItem {
                    sequence_number,
                    output_index,
                    item: item.deep_view(),
                },
            }),
    {
        ResponseStreamEvent {
            event_type: ResponseEventType::ResponseOutputItemAdded,
            data: ResponseEventData::OutputItem { sequence_number, output_index, item },
        }
    }

    pub fn output_item_done(sequence_number: u32, output_index: usize, item: ResponseOutput) -> (r:
        Self)
        ensures
            r.deep_view() == (ResponseStreamEventView {
                event_type: ResponseEventType::ResponseOutputItemDone,
                data: ResponseEventDataView::OutputItem {
                    sequence_number,
                    output_index,
                    item: item.deep_view(),
                },
            }),
    {
        ResponseStreamEvent {
            event_type: ResponseEventType::ResponseOutputItemDone,
            data: ResponseEventData::OutputItem { sequence_number, output_index, item },
        }
    }

    pub fn output_text_delta(
        sequence_number: u32,
        item_id: String,
        output_index: usize,
        content_index: usize,
        delta: String,
    ) -> (r: Self)
        ensures
            r.deep_view() == (ResponseStreamEventView {
                event_type: ResponseEventType::ResponseOutputTextDelta,
                data: ResponseEventDataView::TextDelta {
                    sequence_number,
                    item_id: item_id@,
                    output_index,
                    content_index,
                    delta: delta@,
                },
            }),
    {
        ResponseStreamEvent {
            event_type: ResponseEventType::ResponseOutputTextDelta,
            data: ResponseEventData::TextDelta {
                sequence_number,
                item_id,
                output_index,
                content_index,
                delta,
            },
        }
    }

    pub fn completed(sequence_number: u32, response: ResponseObject) -> (r: Self)
        ensures
            r.deep_view() == (ResponseStreamEventView {
                event_type: ResponseEventType::ResponseCompleted,
                data: ResponseEventDataView::Response {
                    sequence_number,
                    response: response.deep_view(),
                },
            }),
    {
        ResponseStreamEvent {
            event_type: ResponseEventType::ResponseCompleted,
            data: ResponseEventData::Response { sequence_number, response },
        }
    }

    /// The name under which the event is sent.
    pub fn event_name(&self) -> (r: &'static str)
        ensures
            r@ == self.event_type.name(),
    {
        match self.event_type {
            ResponseEventType::ResponseCreated => "response.created",
            ResponseEventType::ResponseInProgress => "response.in_progress",
            ResponseEventType::ResponseOutputItemAdded => "response.output_item.added",
            ResponseEventType::ResponseOutputItemDone => "response.output_item.done",
            ResponseEventType::ResponseOutputTextDelta => "response.output_text.delta",
            ResponseEventType::ResponseCompleted => "response.completed",
        }
    }
}

/// The adapter: the number of the next event, the items so far, and the
/// assistant's last text.
#[derive(Debug, PartialEq)]
pub struct ResponseFormatter {
    pub model: String,
    pub created_at: u32,
    pub payload: ResponsePayload,
    sequence: u32,
    output: Vec<ResponseOutput>,
    accumulated_text: String,
    initial_event_sent: bool,
}

pub ghost struct ResponseFormatterView {
    pub model: Seq<char>,
    pub created_at: u32,
    pub payload: ResponsePayloadView,
    pub sequence: u32,
    pub output: Seq<ResponseOutputView>,
    pub accumulated_text: Seq<char>,
    pub initial_event_sent: bool,
}

/// The adapter after an event, and the event of the stream that it
/// sends, if any.
pub ghost struct Formatted {
    pub formatter: ResponseFormatterView,
    pub sent: Option<ResponseStreamEventView>,
}

/// The position of the first tool call with this id among the items.
pub open spec fn tool_item_position(output: Seq<ResponseOutputView>, id: Seq<char>) -> Option<int>
    decreases output.len(),
{
    if output.len() == 0 {
        None
    } else if output[0] matches ResponseOutputView::FunctionToolCall { id: item_id, .. }
        && item_id == id {
        Some(0)
    } else {
        match tool_item_position(output.skip(1), id) {
            Some(i) => Some(i + 1),
            None => None,
        }
    }
}

/// `tool_item_position` finds a tool call with the id, and none stands
/// before it.
pub proof fn lemma_tool_item_position(output: Seq<ResponseOutputView>, id: Seq<char>)
    ensures
        match tool_item_position(output, id) {
            Some(i) => 0 <= i < output.len() && is_tool_item(output[i], id) && forall|j: int|
                0 <= j < i ==> !is_tool_item(output[j], id),
            None => forall|j: int| 0 <= j < output.len() ==> !is_tool_item(output[j], id),
        },
    decreases output.len(),
{
    if output.len() > 0 && !is_tool_item(output[0], id) {
        let rest = output.skip(1);
        lemma_tool_item_position(rest, id);
        match tool_item_position(rest, id) {
            Some(i) => {
                assert forall|j: int| 0 <= j < i + 1 implies !is_tool_item(output[j], id) by {
                    if j > 0 {
                        assert(rest[j - 1] == output[j]);
                    }
                }
            },
            None => {
                assert forall|j: int| 0 <= j < output.len() implies !is_tool_item(
                    output[j],
                    id,
                ) by {
                    if j > 0 {
                        assert(rest[j - 1] == output[j]);
                    }
                }
            },
        }
    }
}

/// Whether the item is a tool call with this id.
pub open spec fn is_tool_item(item: ResponseOutputView, id: Seq<char>) -> bool {
    item matches ResponseOutputView::FunctionToolCall { id: item_id, .. } && item_id == id
}

/// The item that shows a tool call.
pub open spec fn tool_item(call: ToolCallView, status: InputItemStatus) -> ResponseOutputView {
    ResponseOutputView::FunctionToolCall {
        id: call.tool_call_id,
        call_id: call.tool_call_id,
        name: call.tool_name,
        arguments: json_text(call.parameters),
        status,
    }
}

/// The number after `n`; after the greatest comes zero.
pub open spec fn next_number(n: u32) -> u32 {
    if n == u32::MAX {
        0
    } else {
        (n + 1) as u32
    }
}

impl ResponseFormatterView {
    /// The response object with the given status and items.
    pub open spec fn response(
        self,
        session_id: Seq<char>,
        status: ReasoningStatus,
        output: Seq<ResponseOutputView>,
    ) -> ResponseObjectView {
        ResponseObjectView {
            id: session_id,
            object: "response"@,
            created_at: self.created_at,
            model: self.model,
            status,
            output,
            request: self.payload,
            tools: self.payload.tools_or_none(),
            previous_response_id: None,
            usage: no_usage(),
        }
    }

    /// The stream is closed with the response: the assistant's last text
    /// joins the items as a message under `fresh_id`, and the response is
    /// sent whole under the current number, which stays.
    pub open spec fn close(self, session_id: Seq<char>, status: ReasoningStatus, fresh_id: Seq<char>)
        -> Formatted {
        let output = self.output.push(
            ResponseOutputView::Message { id: fresh_id, text: self.accumulated_text },
        );
        let after = ResponseFormatterView { output, ..self };
        Formatted {
            formatter: after,
            sent: Some(
                ResponseStreamEventView {
                    event_type: ResponseEventType::ResponseCompleted,
                    data: ResponseEventDataView::Response {
                        sequence_number: self.sequence,
                        response: after.response(session_id, status, output),
                    },
                },
            ),
        }
    }

    /// What the adapter makes of an event. The first event, whatever it
    /// is, only opens the stream. After that: the assistant's text and
    /// the brain's failures are remembered; the start of a tool call adds
    /// an item; its end completes the item, if there is one; the
    /// completion of the agent and its pausing close the stream.
    pub open spec fn format(self, event: AgentEventView, session_id: Seq<char>, fresh_id: Seq<char>)
        -> Formatted {
        if !self.initial_event_sent {
            Formatted {
                formatter: ResponseFormatterView {
                    initial_event_sent: true,
                    sequence: next_number(self.sequence),
                    ..self
                },
                sent: Some(
                    ResponseStreamEventView {
                        event_type: ResponseEventType::ResponseCreated,
                        data: ResponseEventDataView::Response {
                            sequence_number: self.sequence,
                            response: self.response(
                                session_id,
                                ReasoningStatus::InProgress,
                                Seq::empty(),
                            ),
                        },
                    },
                ),
            }
        } else {
            match event {
                AgentEventView::BrainResult { thought, .. } => Formatted {
                    formatter: ResponseFormatterView {
                        accumulated_text: match thought {
                            Ok(
                                ChatMessageView::Assistant {
                                    content: Some(ChatMessageContentView::Text(text)),
                                    ..
                                },
                            ) => text,
                            Ok(_) => self.accumulated_text,
                            Err(error) => "Error: "@ + error.text(),
                        },
                        ..self
                    },
                    sent: None,
                },
                AgentEventView::ToolCallStarted { call, .. } => {
                    let item = tool_item(call, InputItemStatus::InProgress);
                    Formatted {
                        formatter: ResponseFormatterView {
                            output: self.output.push(item),
                            sequence: next_number(self.sequence),
                            ..self
                        },
                        sent: Some(
                            ResponseStreamEventView {
                                event_type: ResponseEventType::ResponseOutputItemAdded,
                                data: ResponseEventDataView::OutputItem {
                                    sequence_number: self.sequence,
                                    output_index: self.output.len() as usize,
                                    item,
                                },
                            },
                        ),
                    }
                },
                AgentEventView::ToolCallCompleted { call, result, .. } => {
                    let item = tool_item(
                        call,
                        if result is Success {
                            InputItemStatus::Completed
                        } else {
                            InputItemStatus::Incomplete
                        },
                    );
                    match tool_item_position(self.output, call.tool_call_id) {
                        Some(index) => Formatted {
                            formatter: ResponseFormatterView {
                                output: self.output.update(index, item),
                                sequence: next_number(self.sequence),
                                ..self
                            },
                            sent: Some(
                                ResponseStreamEventView {
                                    event_type: ResponseEventType::ResponseOutputItemDone,
                                    data: ResponseEventDataView::OutputItem {
                                        sequence_number: self.sequence,
                                        output_index: index as usize,
                                        item,
                                    },
                                },
                            ),
                        },
                        None => Formatted { formatter: self, sent: None },
                    }
                },
                AgentEventView::Completed { message, success } => ResponseFormatterView {
                    accumulated_text: if message.len() > 0 {
                        message
                    } else {
                        self.accumulated_text
                    },
                    ..self
                }.close(
                    session_id,
                    if success {
                        ReasoningStatus::Completed
                    } else {
                        ReasoningStatus::Failed
                    },
                    fresh_id,
                ),
                AgentEventView::StatusChanged { new_status, .. } => if new_status is Paused {
                    self.close(session_id, ReasoningStatus::Incomplete, fresh_id)
                } else {
                    Formatted { formatter: self, sent: None }
                },
                _ => Formatted { formatter: self, sent: None },
            }
        }
    }
}

impl DeepView for ResponseFormatter {
    type V = ResponseFormatterView;

    closed spec fn deep_view(&self) -> ResponseFormatterView {
        ResponseFormatterView {
            model: self.model@,
            created_at: self.created_at,
            payload: self.payload.deep_view(),
            sequence: self.sequence,
            output: self.output.deep_view(),
            accumulated_text: self.accumulated_text@,
            initial_event_sent: self.initial_event_sent,
        }
    }
}

impl ResponseFormatter {
    /// An adapter for the request, created at the given time, in seconds
    /// since the epoch: nothing sent, nothing remembered.
    pub fn created_at(model: String, payload: ResponsePayload, created_at: u32) -> (r: Self)
        ensures
            r.deep_view() == (ResponseFormatterView {
                model: model@,
                created_at,
                payload: payload.deep_view(),
                sequence: 0,
                output: Seq::empty(),
                accumulated_text: Seq::empty(),
                initial_event_sent: false,
            }),
    {
        let r = ResponseFormatter {
            model,
            created_at,
            payload,
            sequence: 0,
            output: Vec::new(),
            accumulated_text: String::new(),
            initial_event_sent: false,
        };
        assert(r.output.deep_view() =~= Seq::empty());
        r
    }

    /// An adapter for the request, created now. The time of creation is
    /// the clock's, cut to 32 bits.
    pub fn new(model: String, payload: ResponsePayload) -> (r: Self)
        ensures
            exists|created_at: u32|
                r.deep_view() == (ResponseFormatterView {
                    model: model@,
                    created_at,
                    payload: payload.deep_view(),
                    sequence: 0,
                    output: Seq::empty(),
                    accumulated_text: Seq::empty(),
                    initial_event_sent: false,
                }),
    {
        let secs = unix_seconds();
        let created_at = (secs % 0x1_0000_0000) as u32;
        Self::created_at(model, payload, created_at)
    }

    fn build_response_object(&self, session_id: &str, status: ReasoningStatus, output: Vec<
        ResponseOutput,
    >) -> (r: ResponseObject)
        ensures
            r.deep_view() == self.deep_view().response(session_id@, status, output.deep_view()),
    {
        let tools = match &self.payload.tools {
            Some(tools) => {
                let copy = tools.clone();
                assert(copy.deep_view() =~= tools.deep_view());
                copy
            },
            None => {
                let none: Vec<JsonValue> = Vec::new();
                assert(none.deep_view() =~= Seq::<JsonModel>::empty());
                none
            },
        };
        ResponseObject {
            id: session_id.to_owned(),
            object: String::from_str("response"),
            created_at: self.created_at,
            model: self.model.clone(),
            status,
            output,
            request: self.payload.clone(),
            tools,
            previous_response_id: None,
            usage: ResponseUsage {
                completion_tokens: Some(0),
                prompt_tokens: Some(0),
                total_tokens: 0,
            },
        }
    }

    fn bump(&mut self)
        ensures
            final(self).deep_view() == (ResponseFormatterView {
                sequence: next_number(old(self).deep_view().sequence),
                ..old(self).deep_view()
            }),
    {
        if self.sequence == u32::MAX {
            self.sequence = 0;
        } else {
            self.sequence = self.sequence + 1;
        }
    }

    fn tool_item(call: &ToolCall, status: InputItemStatus) -> (r: ResponseOutput)
        ensures
            r.deep_view() == tool_item(call.deep_view(), status),
    {
        ResponseOutput::FunctionToolCall {
            id: call.tool_call_id.clone(),
            call_id: call.tool_call_id.clone(),
            name: call.tool_name.clone(),
            arguments: json_to_string(&call.parameters),
            status,
        }
    }

    fn position(&self, id: &str) -> (r: Option<usize>)
        ensures
            match tool_item_position(self.deep_view().output, id@) {
                Some(i) => r is Some && r->Some_0 as int == i && 0 <= i < self.output.len(),
                None => r is None,
            },
    {
        let ghost views = self.output.deep_view();
        let mut i: usize = 0;
        while i < self.output.len()
            invariant
                i <= self.output.len(),
                views == self.output.deep_view(),
                forall|j: int| 0 <= j < i ==> !is_tool_item(views[j], id@),
            decreases self.output.len() - i,
        {
            assert(views[i as int] == self.output@[i as int].deep_view());
            let hit = match &self.output[i] {
                ResponseOutput::FunctionToolCall { id: item_id, .. } => str_eq(
                    item_id.as_str(),
                    id,
                ),
                _ => false,
            };
            if hit {
                proof {
                    lemma_tool_item_position(views, id@);
                }
                return Some(i);
            }
            i += 1;
        }
        proof {
            lemma_tool_item_position(views, id@);
        }
        None
    }

    fn close(&mut self, session_id: &str, status: ReasoningStatus, fresh_id: String) -> (r: Option<
        ResponseStreamEvent,
    >)
        ensures
            final(self).deep_view() == old(self).deep_view().close(
                session_id@,
                status,
                fresh_id@,
            ).formatter,
            r.deep_view() == old(self).deep_view().close(session_id@, status, fresh_id@).sent,
    {
        let ghost before = self.output.deep_view();
        let message = ResponseOutput::Message {
            id: fresh_id,
            text: self.accumulated_text.clone(),
        };
        self.output.push(message);
        assert(self.output.deep_view() =~= before.push(message.deep_view()));
        let output = self.output.clone();
        assert(output.deep_view() =~= self.output.deep_view());
        let response = self.build_response_object(session_id, status, output);
        Some(ResponseStreamEvent::completed(self.sequence, response))
    }

    /// What the adapter sends for the event, if anything. `fresh_id` is
    /// the id of the message that closes the stream, should this event
    /// close it.
    pub fn format_event_with(&mut self, event: AgentEvent, session_id: &str, fresh_id: String) -> (r:
        Option<ResponseStreamEvent>)
        ensures
            final(self).deep_view() == old(self).deep_view().format(
                event.deep_view(),
                session_id@,
                fresh_id@,
            ).formatter,
            r.deep_view() == old(self).deep_view().format(
                event.deep_view(),
                session_id@,
                fresh_id@,
            ).sent,
    {
        if !self.initial_event_sent {
            self.initial_event_sent = true;
            let none: Vec<ResponseOutput> = Vec::new();
            assert(none.deep_view() =~= Seq::empty());
            let initial_response = self.build_response_object(
                session_id,
                ReasoningStatus::InProgress,
                none,
            );
            let evt = ResponseStreamEvent::created(self.sequence, initial_response);
            self.bump();
            return Some(evt);
        }
        match event {
            AgentEvent::BrainResult { thought, .. } => {
                match thought {
                    Ok(ChatMessage::Assistant { content: Some(ChatMessageContent::Text(text)), .. }) => {
                        self.accumulated_text = text;
                    },
                    Ok(_) => {},
                    Err(err) => {
                        self.accumulated_text = prefixed("Error: ", err.to_string().as_str());
                    },
                }
                None
            },
            AgentEvent::ToolCallStarted { call, .. } => {
                let ghost before = self.output.deep_view();
                let item = Self::tool_item(&call, InputItemStatus::InProgress);
                let output_index = self.output.len();
                self.output.push(item.clone());
                assert(self.output.deep_view() =~= before.push(item.deep_view()));
                let sent = ResponseStreamEvent::output_item_added(self.sequence, output_index, item);
                self.bump();
                Some(sent)
            },
            AgentEvent::ToolCallCompleted { call, result, .. } => {
                let status = match &result {
                    ToolResult::Success { .. } => InputItemStatus::Completed,
                    _ => InputItemStatus::Incomplete,
                };
                match self.position(call.tool_call_id.as_str()) {
                    Some(idx) => {
                        let ghost before = self.output.deep_view();
                        let item = Self::tool_item(&call, status);
                        self.output.remove(idx);
                        self.output.insert(idx, item.clone());
                        assert(self.output.deep_view() =~= before.update(
                            idx as int,
                            item.deep_view(),
                        ));
                        let sent = ResponseStreamEvent::output_item_done(self.sequence, idx, item);
                        self.bump();
                        Some(sent)
                    },
                    None => None,
                }
            },
            AgentEvent::Completed { message, success } => {
                if message.as_str().unicode_len() > 0 {
                    self.accumulated_text = message;
                }
                let final_status = if success {
                    ReasoningStatus::Completed
                } else {
                    ReasoningStatus::Failed
                };
                self.close(session_id, final_status, fresh_id)
            },
            AgentEvent::StatusChanged { new_status, .. } => {
                if new_status.is_paused() {
                    self.close(session_id, ReasoningStatus::Incomplete, fresh_id)
                } else {
                    None
                }
            },
            _ => None,
        }
    }

    /// What the adapter sends for the event, if anything. The message
    /// that closes the stream gets a fresh random id.
    pub fn format_event(&mut self, event: AgentEvent, session_id: &str) -> (r: Option<
        ResponseStreamEvent,
    >)
        ensures
            exists|fresh_id: Seq<char>|
                {
                    &&& final(self).deep_view() == old(self).deep_view().format(
                        event.deep_view(),
                        session_id@,
                        fresh_id,
                    ).formatter
                    &&& r.deep_view() == old(self).deep_view().format(
                        event.deep_view(),
                        session_id@,
                        fresh_id,
                    ).sent
                },
    {
        let fresh_id = new_uuid_v4();
        self.format_event_with(event, session_id, fresh_id)
    }

    /// The name under which the event is sent.
    pub fn event_name(&self, output: &ResponseStreamEvent) -> (r: &'static str)
        ensures
            r@ == output.event_type.name(),
    {
        output.event_name()
    }
}

} // verus!
