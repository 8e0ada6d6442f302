//! Tool calls carried in a structured answer of the model.

use vstd::prelude::*;
use crate::chat::{
    ChatMessage,
    ChatMessageContent,
    ChatMessageContentView,
    ChatMessageView,
    LlmToolCall,
    LlmToolCallView,
};
use crate::json::{json_text, json_to_string, JsonModel, JsonValue};
use crate::sys::random_below;
use crate::text::string_of_chars;
use crate::tools::{AnyToolBox, ToolSpec};

verus! {

/// A tool call as a structured answer spells it.
#[derive(Debug, PartialEq)]
pub struct ToolCall {
    pub tool_name: String,
    pub tool_parameter: JsonValue,
}

/// A structured answer of the model.
#[derive(Debug, PartialEq)]
pub struct AssistantResponse {
    pub content: String,
    pub reasoning_content: Option<String>,
    pub tools: Option<Vec<ToolCall>>,
}

/// What a model is told of a tool.
#[derive(Debug, PartialEq)]
pub struct ToolDescription {
    pub name: String,
    pub description: String,
    pub parameters_schema: JsonValue,
}

/// The descriptions of a set of tools.
pub type ToolBox = Vec<ToolDescription>;

/// The letters that a call id is drawn from.
pub open spec fn id_letters() -> Seq<char> {
    "abcdefghijklmnopqrstuvwxyzABCDEFGHIJKLMNOPQRSTUVWXYZ"@
}

/// Whether the text is an id as this module makes them: `call_` and
/// nine letters.
pub open spec fn is_call_id(id: Seq<char>) -> bool {
    exists|letters: Seq<char>|
        #![trigger id_suffix(id, letters)]
        id_suffix(id, letters) && letters.len() == 9 && forall|k: int|
            0 <= k < 9 ==> id_letters().contains(#[trigger] letters[k])
}

/// Whether the id is `call_` followed by the letters.
pub open spec fn id_suffix(id: Seq<char>, letters: Seq<char>) -> bool {
    id == "call_"@ + letters
}

fn letter(i: usize) -> (c: char)
    requires
        i < 52,
    ensures
        id_letters().contains(c),
{
    proof {
        reveal_strlit("abcdefghijklmnopqrstuvwxyzABCDEFGHIJKLMNOPQRSTUVWXYZ");
    }
    let alphabet = "abcdefghijklmnopqrstuvwxyzABCDEFGHIJKLMNOPQRSTUVWXYZ";
    let c = alphabet.get_char(i);
    assert(id_letters()[i as int] == c);
    c
}

/// A fresh id for a tool call: `call_` and nine random letters.
pub fn random_call_id() -> (r: String)
    ensures
        is_call_id(r@),
{
    let mut letters: Vec<char> = Vec::new();
    let mut k: usize = 0;
    while k < 9
        invariant
            k <= 9,
            letters.len() == k,
            forall|j: int| 0 <= j < k ==> id_letters().contains(#[trigger] letters@[j]),
        decreases 9 - k,
    {
        let c = letter(random_below(52));
        letters.push(c);
        k += 1;
    }
    let mut id = String::from_str("call_");
    id.append(string_of_chars(&letters).as_str());
    assert(id_suffix(id@, letters@));
    id
}

/// What a structured call becomes under the id `id`.
pub open spec fn structured_call(tool: ToolCall, id: Seq<char>) -> LlmToolCallView {
    LlmToolCallView {
        id,
        name: tool.tool_name@,
        arguments: json_text(tool.tool_parameter.deep_view()),
    }
}

/// Turning a structured answer into a chat message.
pub trait IntoChatMessage {
    spec fn answer(&self) -> AssistantResponse;

    /// The assistant's message with the answer's text, its reasoning and
    /// its calls in order, each under a fresh id.
    fn into_chatmessage(self) -> (r: ChatMessage) where Self: Sized
        ensures
            r.deep_view() matches ChatMessageView::Assistant {
                content,
                reasoning_content,
                refusal,
                name,
                tool_calls,
            } && content == Some(ChatMessageContentView::Text(self.answer().content@))
                && reasoning_content == self.answer().reasoning_content.deep_view() && refusal
                is None && name is None && (match self.answer().tools {
                None => tool_calls is None,
                Some(tools) => tool_calls is Some && tool_calls->Some_0.len() == tools.len()
                    && forall|i: int|
                    0 <= i < tools.len() ==> is_call_id((#[trigger] tool_calls->Some_0[i]).id)
                        && tool_calls->Some_0[i] == structured_call(
                        tools@[i],
                        tool_calls->Some_0[i].id,
                    ),
            }),
    ;
}

impl IntoChatMessage for AssistantResponse {
    open spec fn answer(&self) -> AssistantResponse {
        *self
    }

    fn into_chatmessage(self) -> (r: ChatMessage) {
        let AssistantResponse { content, reasoning_content, tools } = self;
        let tool_calls = match tools {
            None => None,
            Some(tools) => {
                let mut calls: Vec<LlmToolCall> = Vec::new();
                let mut i: usize = 0;
                while i < tools.len()
                    invariant
                        i <= tools.len(),
                        calls.len() == i,
                        forall|j: int|
                            0 <= j < i ==> is_call_id((#[trigger] calls@[j]).id@)
                                && calls@[j].deep_view() == structured_call(
                                tools@[j],
                                calls@[j].id@,
                            ),
                    decreases tools.len() - i,
                {
                    let tool = &tools[i];
                    calls.push(
                        LlmToolCall {
                            id: random_call_id(),
                            name: tool.tool_name.clone(),
                            arguments: json_to_string(&tool.tool_parameter),
                        },
                    );
                    i += 1;
                }
                assert forall|j: int| 0 <= j < tools.len() implies is_call_id(
                    (#[trigger] calls.deep_view()[j]).id,
                ) && calls.deep_view()[j] == structured_call(tools@[j], calls.deep_view()[j].id) by {
                    assert(calls.deep_view()[j] == calls@[j].deep_view());
                }
                Some(calls)
            },
        };
        ChatMessage::Assistant {
            content: Some(ChatMessageContent::Text(content)),
            reasoning_content,
            refusal: None,
            name: None,
            tool_calls,
        }
    }
}

/// What a model is told of each tool of the box, in order.
pub open spec fn descriptions_of(tools: Seq<ToolSpec>) -> Seq<(Seq<char>, Seq<char>, JsonModel)> {
    Seq::new(
        tools.len(),
        |i: int|
            (tools[i].name@, tools[i].description@, tools[i].parameters_schema.deep_view()),
    )
}

/// Turning a box of tools into what a model is told of them.
pub trait IntoToolBox {
    spec fn tools_of(&self) -> Seq<ToolSpec>;

    fn into_toolbox(self) -> (r: ToolBox) where Self: Sized
        ensures
            r.len() == self.tools_of().len(),
            forall|i: int|
                0 <= i < r.len() ==> (
                    (#[trigger] r@[i]).name@,
                    r@[i].description@,
                    r@[i].parameters_schema.deep_view(),
                ) == descriptions_of(self.tools_of())[i],
    ;
}

impl IntoToolBox for AnyToolBox {
    open spec fn tools_of(&self) -> Seq<ToolSpec> {
        self@
    }

    fn into_toolbox(self) -> (r: ToolBox) {
        let mut out: ToolBox = Vec::new();
        let mut i: usize = 0;
        while i < self.len()
            invariant
                i <= self.len(),
                out.len() == i,
                forall|j: int|
                    0 <= j < i ==> (
                        (#[trigger] out@[j]).name@,
                        out@[j].description@,
                        out@[j].parameters_schema.deep_view(),
                    ) == descriptions_of(self@)[j],
            decreases self.len() - i,
        {
            let tool = &self[i];
            out.push(
                ToolDescription {
                    name: tool.name.clone(),
                    description: tool.description.clone(),
                    parameters_schema: tool.parameters_schema.clone(),
                },
            );
            i += 1;
        }
        out
    }
}

} // verus!
