//! The brains that come with the agent: what they send to the model and
//! what they make of its answer.

use vstd::prelude::*;
use crate::agent::brain::{ThinkerDecision, ThinkerDecisionView, ThinkerFlowControl};
use crate::chat::{ChatMessage, ChatMessageContent, ChatMessageContentView, ChatMessageView};
use crate::text::push_deep;

verus! {

/// The tokens that a request has cost, as far as the provider tells.
pub open spec fn usage_pair(usage: Option<(Option<u32>, Option<u32>)>) -> Option<(u32, u32)> {
    match usage {
        Some((prompt, completion)) => Some(
            (
                match prompt {
                    Some(n) => n,
                    None => 0,
                },
                match completion {
                    Some(n) => n,
                    None => 0,
                },
            ),
        ),
        None => None,
    }
}

/// The tokens that a request has cost: the prompt's and the
/// completion's, either counted as zero where the provider is silent.
pub fn token_usage(usage: Option<(Option<u32>, Option<u32>)>) -> (r: Option<(u32, u32)>)
    ensures
        r == usage_pair(usage),
{
    match usage {
        Some((prompt, completion)) => Some(
            (
                match prompt {
                    Some(n) => n,
                    None => 0,
                },
                match completion {
                    Some(n) => n,
                    None => 0,
                },
            ),
        ),
        None => None,
    }
}

/// Whether the message is the assistant's and asks for no tool.
pub open spec fn asks_for_nothing(message: ChatMessageView) -> bool {
    message is Assistant && message.calls().len() == 0
}

/// The decision that a model's answer amounts to: to pause after an
/// assistant's message without tool calls, to go on after anything else.
pub open spec fn decision_of(message: ChatMessageView, token_usage: Option<(u32, u32)>)
    -> ThinkerDecisionView {
    ThinkerDecisionView {
        message,
        flow: if asks_for_nothing(message) {
            ThinkerFlowControl::AgentPause
        } else {
            ThinkerFlowControl::AgentContinue
        },
        token_usage,
    }
}

/// The decision that a model's answer amounts to.
pub fn decide(message: ChatMessage, token_usage: Option<(u32, u32)>) -> (r: ThinkerDecision)
    ensures
        r.deep_view() == decision_of(message.deep_view(), token_usage),
{
    let quiet = match &message {
        ChatMessage::Assistant { tool_calls, .. } => match tool_calls {
            Some(calls) => {
                assert(calls.deep_view().len() == calls.len());
                calls.len() == 0
            },
            None => true,
        },
        _ => false,
    };
    ThinkerDecision {
        message,
        flow: if quiet {
            ThinkerFlowControl::AgentPause
        } else {
            ThinkerFlowControl::AgentContinue
        },
        token_usage,
    }
}

/// What a request to the model holds: the system prompt, then the
/// conversation. The conversation itself is left as it is: the prompt is
/// never part of it.
pub fn request_messages(trace: &Vec<ChatMessage>, system_prompt: String) -> (r: Vec<ChatMessage>)
    ensures
        r.deep_view() == seq![
            ChatMessageView::System {
                content: ChatMessageContentView::Text(system_prompt@),
                name: None,
            },
        ] + trace.deep_view(),
{
    let mut messages: Vec<ChatMessage> = Vec::new();
    messages.push(
        ChatMessage::System { content: ChatMessageContent::Text(system_prompt), name: None },
    );
    let ghost head = messages.deep_view();
    assert(head =~= seq![
        ChatMessageView::System {
            content: ChatMessageContentView::Text(system_prompt@),
            name: None,
        },
    ]);
    let mut i: usize = 0;
    while i < trace.len()
        invariant
            i <= trace.len(),
            messages.deep_view() == head + trace.deep_view().subrange(0, i as int),
        decreases trace.len() - i,
    {
        let ghost sofar = messages.deep_view();
        push_deep(&mut messages, trace[i].clone());
        assert(trace.deep_view().subrange(0, i + 1) =~= trace.deep_view().subrange(
            0,
            i as int,
        ).push(trace@[i as int].deep_view()));
        assert(messages.deep_view() =~= head + trace.deep_view().subrange(0, i + 1));
        i += 1;
    }
    assert(trace.deep_view().subrange(0, trace.len() as int) =~= trace.deep_view());
    messages
}

/// The brain that writes code. The temperature is kept as the bits of
/// its single-precision value.
#[derive(Debug, PartialEq)]
pub struct CoderBrain {
    pub model: String,
    pub system_prompt_template: String,
    pub temperature_bits: u32,
}

impl CoderBrain {
    /// The bits of the temperature 0.3.
    pub open spec fn default_temperature_bits() -> u32 {
        0x3e99_999a
    }

    /// A brain with the base prompt and the temperature 0.3.
    pub fn new(model: String) -> (r: Self)
        ensures
            r.model == model,
            r.system_prompt_template@ == "{{CODER_BASE_PROMPT}}"@,
            r.temperature_bits == Self::default_temperature_bits(),
    {
        CoderBrain {
            model,
            system_prompt_template: String::from_str("{{CODER_BASE_PROMPT}}"),
            temperature_bits: 0x3e99_999a,
        }
    }

    pub fn with_custom_prompt(
        model: String,
        system_prompt_template: String,
        temperature_bits: u32,
    ) -> (r: Self)
        ensures
            r.model == model,
            r.system_prompt_template == system_prompt_template,
            r.temperature_bits == temperature_bits,
    {
        CoderBrain { model, system_prompt_template, temperature_bits }
    }

    /// What the brain makes of the model's answer and of what it cost.
    pub fn next_step(&self, message: ChatMessage, usage: Option<(Option<u32>, Option<u32>)>) -> (r:
        ThinkerDecision)
        ensures
            r.deep_view() == decision_of(message.deep_view(), usage_pair(usage)),
    {
        decide(message, token_usage(usage))
    }
}

/// The brain that only looks things up.
#[derive(Debug, PartialEq)]
pub struct SearcherBrain {
    pub model: String,
}

impl SearcherBrain {
    pub fn new(model: String) -> (r: Self)
        ensures
            r.model == model,
    {
        SearcherBrain { model }
    }

    /// What the brain makes of the model's answer.
    pub fn next_step(&self, message: ChatMessage) -> (r: ThinkerDecision)
        ensures
            r.deep_view() == decision_of(message.deep_view(), None),
    {
        decide(message, None)
    }
}

/// The messages sent to name what the user is doing: the user's
/// message, or a note that it is empty, then the prompt as a system
/// message.
pub fn gerund_messages(message: String, prompt: String) -> (r: Vec<ChatMessage>)
    ensures
        r.deep_view() == seq![
            ChatMessageView::User {
                content: ChatMessageContentView::Text(
                    if message@.len() == 0 {
                        "the user has sent an empty message"@
                    } else {
                        message@
                    },
                ),
                name: None,
            },
            ChatMessageView::System { content: ChatMessageContentView::Text(prompt@), name: None },
        ],
{
    let said = if message.as_str().unicode_len() == 0 {
        String::from_str("the user has sent an empty message")
    } else {
        message
    };
    let mut messages: Vec<ChatMessage> = Vec::new();
    messages.push(ChatMessage::user(said));
    messages.push(ChatMessage::System { content: ChatMessageContent::Text(prompt), name: None });
    assert(messages.deep_view() =~= seq![messages@[0].deep_view(), messages@[1].deep_view()]);
    messages
}

/// The messages sent to mend a command line: the conversation, then
/// the prompt as a system message.
pub fn clifix_messages(messages: &Vec<ChatMessage>, prompt: String) -> (r: Vec<ChatMessage>)
    ensures
        r.deep_view() == messages.deep_view().push(
            ChatMessageView::System { content: ChatMessageContentView::Text(prompt@), name: None },
        ),
{
    let mut out = messages.clone();
    assert(out.deep_view() =~= messages.deep_view());
    push_deep(
        &mut out,
        ChatMessage::System { content: ChatMessageContent::Text(prompt), name: None },
    );
    out
}

/// A mended command line, with the reason for the change.
#[derive(Debug, PartialEq)]
pub struct CliFixResponse {
    pub short_rational: Option<String>,
    pub fixed_cli: String,
}

} // verus!
