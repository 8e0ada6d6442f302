//! From the body of a request of the response protocol to the
//! conversation that the agent is given.

use vstd::prelude::*;
use crate::chat::{ChatMessage, ChatMessageContent, ChatMessageContentView, ChatMessageView};
use crate::text::{joined_lines, push_deep};

verus! {

/// Who wrote a message of the request.
#[derive(Debug, Clone, Copy, PartialEq, Eq, Structural)]
pub enum Role {
    User,
    System,
    Assistant,
    Developer,
}

/// One part of a message's content. Only text is read.
#[derive(Debug, PartialEq)]
pub enum ContentItem {
    Text { text: String },
    /// An image, a file or anything else.
    Other,
}

/// The content of a message: one text, or parts.
#[derive(Debug, PartialEq)]
pub enum ContentInput {
    Text(String),
    List(Vec<ContentItem>),
}

/// One item of the request's input. Only messages are read.
#[derive(Debug, PartialEq)]
pub enum ResponseInputItem {
    Message { role: Role, content: ContentInput },
    Other,
}

/// The input of a request: one text, or items.
#[derive(Debug, PartialEq)]
pub enum ResponseInput {
    Text(String),
    List(Vec<ResponseInputItem>),
}

/// What the agent reads of a request.
#[derive(Debug, PartialEq)]
pub struct ResponseParameters {
    pub instructions: Option<String>,
    pub input: ResponseInput,
}

/// The texts among the parts, in order.
pub open spec fn text_parts(items: Seq<ContentItem>) -> Seq<Seq<char>>
    decreases items.len(),
{
    if items.len() == 0 {
        Seq::empty()
    } else {
        let before = text_parts(items.drop_last());
        match items.last() {
            ContentItem::Text { text } => before.push(text@),
            ContentItem::Other => before,
        }
    }
}

/// The text of a content: the text itself, or its text parts joined by
/// line feeds.
pub open spec fn content_text(content: ContentInput) -> Seq<char> {
    match content {
        ContentInput::Text(t) => t@,
        ContentInput::List(items) => joined_lines(text_parts(items@)),
    }
}

/// A user message with this text.
pub open spec fn user_says(text: Seq<char>) -> ChatMessageView {
    ChatMessageView::User { content: ChatMessageContentView::Text(text), name: None }
}

/// An assistant message with this text and no tool call.
pub open spec fn assistant_says(text: Seq<char>) -> ChatMessageView {
    ChatMessageView::Assistant {
        content: Some(ChatMessageContentView::Text(text)),
        reasoning_content: None,
        refusal: None,
        name: None,
        tool_calls: None,
    }
}

/// The messages that the items stand for: those of the user and of the
/// assistant, in order; every other item is passed over.
pub open spec fn item_messages(items: Seq<ResponseInputItem>) -> Seq<ChatMessageView>
    decreases items.len(),
{
    if items.len() == 0 {
        Seq::empty()
    } else {
        let before = item_messages(items.drop_last());
        match items.last() {
            ResponseInputItem::Message { role: Role::User, content } => before.push(
                user_says(content_text(content)),
            ),
            ResponseInputItem::Message { role: Role::Assistant, content } => before.push(
                assistant_says(content_text(content)),
            ),
            _ => before,
        }
    }
}

/// The conversation that a request stands for: its instructions as a
/// system message, then its input.
pub open spec fn request_trace(params: ResponseParameters) -> Seq<ChatMessageView> {
    (match params.instructions {
        Some(text) => seq![
            ChatMessageView::System { content: ChatMessageContentView::Text(text@), name: None },
        ],
        None => Seq::empty(),
    }) + (match params.input {
        ResponseInput::Text(text) => seq![user_says(text@)],
        ResponseInput::List(items) => item_messages(items@),
    })
}

fn text_of(content: &ContentInput) -> (r: String)
    ensures
        r@ == content_text(*content),
{
    match content {
        ContentInput::Text(t) => t.clone(),
        ContentInput::List(items) => {
            let mut out = String::new();
            let mut seen = false;
            let mut i: usize = 0;
            assert(items@.subrange(0, 0) =~= Seq::empty());
            while i < items.len()
                invariant
                    i <= items.len(),
                    seen == (text_parts(items@.subrange(0, i as int)).len() > 0),
                    out@ == joined_lines(text_parts(items@.subrange(0, i as int))),
                decreases items.len() - i,
            {
                let ghost before = text_parts(items@.subrange(0, i as int));
                assert(items@.subrange(0, i + 1).drop_last() =~= items@.subrange(0, i as int));
                match &items[i] {
                    ContentItem::Text { text } => {
                        if seen {
                            out.append("\n");
                        }
                        out.append(text.as_str());
                        proof {
                            let after = before.push(text@);
                            assert(after.drop_last() =~= before);
                            if !seen {
                                assert(out@ =~= text@);
                            }
                        }
                        seen = true;
                    },
                    ContentItem::Other => {},
                }
                i += 1;
            }
            assert(items@.subrange(0, items.len() as int) =~= items@);
            out
        },
    }
}

/// The conversation that a request stands for.
pub fn build_message_trace(params: &ResponseParameters) -> (r: Vec<ChatMessage>)
    ensures
        r.deep_view() == request_trace(*params),
{
    let mut trace: Vec<ChatMessage> = Vec::new();
    assert(trace.deep_view() =~= Seq::empty());
    match &params.instructions {
        Some(instructions) => {
            push_deep(
                &mut trace,
                ChatMessage::System {
                    content: ChatMessageContent::Text(instructions.clone()),
                    name: None,
                },
            );
        },
        None => {},
    }
    let ghost head = trace.deep_view();
    match &params.input {
        ResponseInput::Text(text) => {
            push_deep(&mut trace, ChatMessage::user(text.clone()));
            assert(trace.deep_view() =~= request_trace(*params));
        },
        ResponseInput::List(items) => {
            let mut i: usize = 0;
            assert(items@.subrange(0, 0) =~= Seq::empty());
            assert(trace.deep_view() =~= head + item_messages(items@.subrange(0, 0)));
            while i < items.len()
                invariant
                    i <= items.len(),
                    trace.deep_view() == head + item_messages(items@.subrange(0, i as int)),
                decreases items.len() - i,
            {
                let ghost sofar = item_messages(items@.subrange(0, i as int));
                assert(items@.subrange(0, i + 1).drop_last() =~= items@.subrange(0, i as int));
                match &items[i] {
                    ResponseInputItem::Message { role, content } => match role {
                        Role::User => {
                            let message = ChatMessage::user(text_of(content));
                            push_deep(&mut trace, message);
                            assert(trace.deep_view() =~= head + sofar.push(message.deep_view()));
                        },
                        Role::Assistant => {
                            let message = ChatMessage::assistant(text_of(content));
                            push_deep(&mut trace, message);
                            assert(trace.deep_view() =~= head + sofar.push(message.deep_view()));
                        },
                        _ => {},
                    },
                    ResponseInputItem::Other => {},
                }
                i += 1;
            }
            assert(items@.subrange(0, items.len() as int) =~= items@);
        },
    }
    trace
}

} // verus!
