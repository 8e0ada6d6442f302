//! From a query of the simple protocol to the conversation that the
//! agent is given.

use vstd::prelude::*;
use crate::chat::{
    ChatMessage,
    ChatMessageContentView,
    ChatMessageView,
    LlmToolCall,
    LlmToolCallView,
};
use crate::config::config::NamedValues;
use crate::http::simple::{ToolCall, ToolCallResult};
use crate::http::trace::{assistant_says, user_says};
use crate::json::{json_text, json_to_string, JsonMember, JsonModel, JsonValue};
use crate::sys::new_uuid_v4;
use crate::text::{prefixed, push_deep};

verus! {

/// A call that an earlier answer made, with its result.
#[derive(Debug, PartialEq)]
pub struct PreviousCall {
    pub call: ToolCall,
    pub result: ToolCallResult,
}

/// One message of a query in the simple protocol.
#[derive(Debug, PartialEq)]
pub enum Message {
    User { message: String },
    Assistant { assistant: String },
    PreviousCall(PreviousCall),
}

/// A query in the simple protocol.
#[derive(Debug, PartialEq)]
pub struct MultiModalQuery {
    pub model: String,
    pub messages: Option<Vec<Message>>,
}

/// The arguments as a JSON object of strings, member by member.
pub open spec fn arguments_object(args: Seq<(String, String)>) -> JsonModel {
    JsonModel::Object(
        Seq::new(
            args.len(),
            |i: int| JsonMember { name: args[i].0@, value: JsonModel::String(args[i].1@) },
        ),
    )
}

/// What stands for the result of an earlier call: its text, else its
/// error, else `No result`.
pub open spec fn result_text(result: ToolCallResult) -> Seq<char> {
    match (result.text, result.error) {
        (Some(text), _) => text@,
        (None, Some(error)) => error@,
        (None, None) => "No result"@,
    }
}

/// The two messages that stand for an earlier call: the assistant's
/// message that makes the call under the id `call_` and `fresh_id`, and
/// the tool message that answers it.
pub open spec fn previous_call_messages(previous: PreviousCall, fresh_id: Seq<char>) -> Seq<
    ChatMessageView,
> {
    seq![
        ChatMessageView::Assistant {
            content: None,
            reasoning_content: None,
            refusal: None,
            name: None,
            tool_calls: Some(
                seq![
                    LlmToolCallView {
                        id: "call_"@ + fresh_id,
                        name: previous.call.tool@,
                        arguments: json_text(arguments_object(previous.call.args@)),
                    },
                ],
            ),
        },
        ChatMessageView::Tool {
            content: ChatMessageContentView::Text(result_text(previous.result)),
            tool_call_id: "call_"@ + fresh_id,
        },
    ]
}

/// The messages that one message of a query stands for.
pub open spec fn query_message(message: Message, fresh_id: Seq<char>) -> Seq<ChatMessageView> {
    match message {
        Message::User { message } => seq![user_says(message@)],
        Message::Assistant { assistant } => seq![assistant_says(assistant@)],
        Message::PreviousCall(previous) => previous_call_messages(previous, fresh_id),
    }
}

/// The conversation that the messages stand for, the message at `i`
/// using the id `fresh_ids[i]` if it needs one.
pub open spec fn query_trace(messages: Seq<Message>, fresh_ids: Seq<Seq<char>>) -> Seq<
    ChatMessageView,
>
    recommends
        fresh_ids.len() == messages.len(),
    decreases messages.len(),
{
    if messages.len() == 0 || fresh_ids.len() != messages.len() {
        Seq::empty()
    } else {
        query_trace(messages.drop_last(), fresh_ids.drop_last()) + query_message(
            messages.last(),
            fresh_ids.last(),
        )
    }
}

fn arguments_json(args: &NamedValues) -> (r: JsonValue)
    ensures
        r.deep_view() == arguments_object(args@),
{
    let mut members: Vec<(String, JsonValue)> = Vec::new();
    let mut i: usize = 0;
    while i < args.len()
        invariant
            i <= args.len(),
            members.len() == i,
            forall|j: int|
                0 <= j < i ==> (#[trigger] members@[j]).0@ == args@[j].0@ && members@[j].1
                    == JsonValue::String(args@[j].1),
        decreases args.len() - i,
    {
        let name = args[i].0.clone();
        let value = args[i].1.clone();
        members.push((name, JsonValue::String(value)));
        i += 1;
    }
    let r = JsonValue::Object(members);
    proof {
        crate::json::lemma_json_view(r);
        assert forall|j: int| 0 <= j < args.len() implies r.deep_view()->Object_0[j]
            == arguments_object(args@)->Object_0[j] by {
            crate::json::lemma_json_view(members@[j].1);
        }
        assert(r.deep_view()->Object_0 =~= arguments_object(args@)->Object_0);
    }
    r
}

/// The two messages that stand for an earlier call, the call's id made
/// of `fresh_id`.
pub fn previous_call_trace(previous: &PreviousCall, fresh_id: &str) -> (r: Vec<ChatMessage>)
    ensures
        r.deep_view() == previous_call_messages(*previous, fresh_id@),
{
    let tool_call_id = prefixed("call_", fresh_id);
    let parameters = arguments_json(&previous.call.args);
    let mut calls: Vec<LlmToolCall> = Vec::new();
    calls.push(
        LlmToolCall {
            id: tool_call_id.clone(),
            name: previous.call.tool.clone(),
            arguments: json_to_string(&parameters),
        },
    );
    let ghost call_view = calls@[0].deep_view();
    assert(calls.deep_view() =~= seq![call_view]);
    let tool_result_text = match (&previous.result.text, &previous.result.error) {
        (Some(text), _) => text.clone(),
        (None, Some(error)) => error.clone(),
        (None, None) => String::from_str("No result"),
    };
    let mut trace: Vec<ChatMessage> = Vec::new();
    trace.push(
        ChatMessage::Assistant {
            content: None,
            reasoning_content: None,
            refusal: None,
            name: None,
            tool_calls: Some(calls),
        },
    );
    trace.push(ChatMessage::tool(tool_call_id, tool_result_text));
    assert(trace.deep_view() =~= previous_call_messages(*previous, fresh_id@));
    trace
}

/// The conversation that a query stands for. Every earlier call gets a
/// fresh random id.
pub fn build_message_trace(query: &MultiModalQuery) -> (r: Vec<ChatMessage>)
    ensures
        match query.messages {
            Some(messages) => exists|fresh_ids: Seq<Seq<char>>|
                fresh_ids.len() == messages.len() && r.deep_view() == query_trace(
                    messages@,
                    fresh_ids,
                ),
            None => r.deep_view() == Seq::<ChatMessageView>::empty(),
        },
{
    let mut trace: Vec<ChatMessage> = Vec::new();
    assert(trace.deep_view() =~= Seq::empty());
    match &query.messages {
        None => {},
        Some(messages) => {
            let ghost mut ids: Seq<Seq<char>> = Seq::empty();
            let mut i: usize = 0;
            assert(messages@.subrange(0, 0) =~= Seq::empty());
            while i < messages.len()
                invariant
                    i <= messages.len(),
                    ids.len() == i,
                    trace.deep_view() == query_trace(messages@.subrange(0, i as int), ids),
                decreases messages.len() - i,
            {
                let ghost sofar = trace.deep_view();
                let ghost fresh: Seq<char>;
                match &messages[i] {
                    Message::User { message } => {
                        let m = ChatMessage::user(message.clone());
                        push_deep(&mut trace, m);
                        proof {
                            fresh = Seq::empty();
                            assert(trace.deep_view() =~= sofar + seq![m.deep_view()]);
                        }
                    },
                    Message::Assistant { assistant } => {
                        let m = ChatMessage::assistant(assistant.clone());
                        push_deep(&mut trace, m);
                        proof {
                            fresh = Seq::empty();
                            assert(trace.deep_view() =~= sofar + seq![m.deep_view()]);
                        }
                    },
                    Message::PreviousCall(previous) => {
                        let id = new_uuid_v4();
                        let pair = previous_call_trace(previous, id.as_str());
                        crate::text::append_deep(&mut trace, pair);
                        proof {
                            fresh = id@;
                        }
                    },
                }
                proof {
                    let longer = ids.push(fresh);
                    assert(longer.drop_last() =~= ids);
                    assert(messages@.subrange(0, i + 1).drop_last() =~= messages@.subrange(
                        0,
                        i as int,
                    ));
                    ids = longer;
                }
                i += 1;
            }
            assert(messages@.subrange(0, messages.len() as int) =~= messages@);
        },
    }
    trace
}

} // verus!
