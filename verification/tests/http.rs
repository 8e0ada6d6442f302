use shai_core::agent::error::AgentError;
use shai_core::agent::events::AgentEvent;
use shai_core::agent::protocol::AgentRequest;
use shai_core::agent::states::PublicAgentState;
use shai_core::chat::{ChatMessage, ChatMessageContent, LlmToolCall};
use shai_core::http::completion::{
    ChatCompletionChunkChoice, ChatCompletionChunkResponse, ChatCompletionFormatter,
    DeltaChatMessage, FinishReason,
};
use shai_core::http::response::{
    InputItemStatus, ReasoningStatus, ResponseEventData, ResponseEventType, ResponseFormatter,
    ResponseObject, ResponseOutput, ResponsePayload, ResponseStreamEvent, ResponseUsage,
};
use shai_core::http::session::{
    color_for_session, colored_session_id, log_line, signed_decimal_string, AgentSession,
    LogLevel, RequestLifecycle, SessionManager, SessionManagerConfig,
};
use shai_core::http::simple::{
    parameters_to_args, MultiModalStreamingResponse, SimpleFormatter, ToolCall, ToolCallResult,
};
use shai_core::http::query::{
    build_message_trace as build_query_trace, previous_call_trace, Message, MultiModalQuery,
    PreviousCall,
};
use shai_core::http::trace::{
    build_message_trace, ContentInput, ContentItem, ResponseInput, ResponseInputItem,
    ResponseParameters, Role,
};
use shai_core::json::JsonValue;
use shai_core::tools::{ToolCall as AgentToolCall, ToolResult};

fn agent_call(id: &str, name: &str, parameters: JsonValue) -> AgentToolCall {
    AgentToolCall { tool_call_id: id.to_string(), tool_name: name.to_string(), parameters }
}

fn object(members: Vec<(&str, JsonValue)>) -> JsonValue {
    JsonValue::Object(members.into_iter().map(|(k, v)| (k.to_string(), v)).collect())
}

fn pairs(v: &[(&str, &str)]) -> Vec<(String, String)> {
    v.iter().map(|(k, v)| (k.to_string(), v.to_string())).collect()
}

fn blank(id: &str, model: &str) -> MultiModalStreamingResponse {
    MultiModalStreamingResponse {
        id: id.to_string(),
        model: model.to_string(),
        assistant: None,
        call: None,
        result: None,
    }
}

#[test]
fn arguments_are_shown_as_text() {
    let params = object(vec![
        ("path", JsonValue::String("/a b".to_string())),
        ("n", JsonValue::Number("3".to_string())),
        ("deep", object(vec![("k", JsonValue::Array(vec![JsonValue::Bool(false), JsonValue::Null]))])),
    ]);
    assert_eq!(
        parameters_to_args(&params),
        pairs(&[("path", "/a b"), ("n", "3"), ("deep", "{\"k\":[false,null]}")])
    );
    assert_eq!(parameters_to_args(&JsonValue::Null), pairs(&[("params", "null")]));
    assert_eq!(
        parameters_to_args(&JsonValue::String("x".to_string())),
        pairs(&[("params", "\"x\"")])
    );
    assert_eq!(parameters_to_args(&object(vec![])), pairs(&[]));
}

#[test]
fn simple_adapter_shows_text_calls_results_and_errors() {
    let mut f = SimpleFormatter::new("m".to_string());
    assert_eq!(
        f.format_event(
            AgentEvent::BrainResult { timestamp: 0, thought: Ok(ChatMessage::assistant("hi".to_string())) },
            "sid"
        ),
        Some(MultiModalStreamingResponse { assistant: Some("hi".to_string()), ..blank("sid", "m") })
    );
    assert_eq!(
        f.format_event(
            AgentEvent::BrainResult { timestamp: 0, thought: Err(AgentError::TimeoutError) },
            "sid"
        ),
        None
    );
    assert_eq!(
        f.format_event(
            AgentEvent::BrainResult {
                timestamp: 0,
                thought: Ok(ChatMessage::Assistant {
                    content: None,
                    reasoning_content: None,
                    refusal: None,
                    name: None,
                    tool_calls: None
                })
            },
            "sid"
        ),
        None
    );
    let call = agent_call("c", "ls", object(vec![("path", JsonValue::String(".".to_string()))]));
    assert_eq!(
        f.format_event(AgentEvent::ToolCallStarted { timestamp: 1, call: call.clone() }, "sid"),
        Some(MultiModalStreamingResponse {
            call: Some(ToolCall { tool: "ls".to_string(), args: pairs(&[("path", ".")]), output: None }),
            ..blank("sid", "m")
        })
    );
    let shown = |result: ToolResult, output: &str, r: ToolCallResult| {
        let mut f = SimpleFormatter::new("m".to_string());
        assert_eq!(
            f.format_event(AgentEvent::ToolCallCompleted { duration: 1, call: call.clone(), result }, "sid"),
            Some(MultiModalStreamingResponse {
                call: Some(ToolCall {
                    tool: "ls".to_string(),
                    args: pairs(&[("path", ".")]),
                    output: Some(output.to_string()),
                }),
                result: Some(r),
                ..blank("sid", "m")
            })
        );
    };
    shown(
        ToolResult::success("a\nb".to_string()),
        "a\nb",
        ToolCallResult { text: Some("a\nb".to_string()), error: None },
    );
    shown(
        ToolResult::error("bad".to_string()),
        "",
        ToolCallResult { text: None, error: Some("bad".to_string()) },
    );
    shown(
        ToolResult::Denied,
        "",
        ToolCallResult { text: None, error: Some("Tool call denied".to_string()) },
    );
    assert_eq!(
        f.format_event(AgentEvent::Completed { success: false, message: "bye".to_string() }, "s"),
        Some(MultiModalStreamingResponse { assistant: Some("bye".to_string()), ..blank("s", "m") })
    );
    assert_eq!(
        f.format_event(AgentEvent::Error { error: "e".to_string() }, "s"),
        Some(MultiModalStreamingResponse {
            result: Some(ToolCallResult { text: None, error: Some("e".to_string()) }),
            ..blank("s", "m")
        })
    );
    assert_eq!(f.format_event(AgentEvent::ThinkingStart, "s"), None);
    assert_eq!(f.format_event(AgentEvent::TokenUsage { input_tokens: 1, output_tokens: 2 }, "s"), None);
    assert_eq!(f.model, "m");
}

fn chunk(id: &str, delta: DeltaChatMessage, finish: Option<FinishReason>) -> ChatCompletionChunkResponse {
    ChatCompletionChunkResponse {
        id: Some(format!("chatcmpl-{}", id)),
        object: "chat.completion.chunk".to_string(),
        created: 77,
        model: "m".to_string(),
        choices: vec![ChatCompletionChunkChoice { index: Some(0), delta, finish_reason: finish }],
        usage: None,
        system_fingerprint: None,
    }
}

#[test]
fn completion_adapter_shows_tools_as_reasoning_and_flushes_on_completion() {
    let mut f = ChatCompletionFormatter::created_at("m".to_string(), 77);
    let call = agent_call("c", "bash", JsonValue::Null);
    assert_eq!(
        f.format_event_with(
            AgentEvent::BrainResult { timestamp: 0, thought: Ok(ChatMessage::assistant("answer".to_string())) },
            "i0"
        ),
        None
    );
    assert_eq!(
        f.format_event_with(AgentEvent::ToolCallStarted { timestamp: 0, call: call.clone() }, "i1"),
        Some(chunk(
            "i1",
            DeltaChatMessage { content: None, reasoning_content: Some("[toolcall: bash]".to_string()) },
            None
        ))
    );
    let note = |f: &mut ChatCompletionFormatter, result: ToolResult| {
        f.format_event_with(AgentEvent::ToolCallCompleted { duration: 0, call: call.clone(), result }, "i")
            .unwrap()
            .choices
            .remove(0)
            .delta
            .reasoning_content
            .unwrap()
    };
    assert_eq!(note(&mut f, ToolResult::success("x".to_string())), "[tool succeeded: bash]");
    assert_eq!(
        note(&mut f, ToolResult::error("first line\r\nsecond".to_string())),
        "[tool failed: bash - first line]"
    );
    assert_eq!(note(&mut f, ToolResult::error("only\r".to_string())), "[tool failed: bash - only\r]");
    assert_eq!(note(&mut f, ToolResult::error("".to_string())), "[tool failed: bash - ]");
    assert_eq!(note(&mut f, ToolResult::error("\nrest".to_string())), "[tool failed: bash - ]");
    assert_eq!(note(&mut f, ToolResult::Denied), "[tool denied: bash]");
    assert_eq!(
        f.format_event_with(AgentEvent::Completed { success: true, message: String::new() }, "i2"),
        Some(chunk(
            "i2",
            DeltaChatMessage { content: Some("answer".to_string()), reasoning_content: None },
            Some(FinishReason::StopSequenceReached)
        ))
    );
    assert_eq!(
        f.format_event_with(AgentEvent::Completed { success: true, message: "final".to_string() }, "i3"),
        Some(chunk(
            "i3",
            DeltaChatMessage { content: Some("final".to_string()), reasoning_content: None },
            Some(FinishReason::StopSequenceReached)
        ))
    );
    assert_eq!(
        f.format_event_with(AgentEvent::Error { error: "oops".to_string() }, "i4"),
        Some(chunk(
            "i4",
            DeltaChatMessage { content: Some("Error: oops".to_string()), reasoning_content: None },
            Some(FinishReason::StopSequenceReached)
        ))
    );
    assert_eq!(f.format_event_with(AgentEvent::ThinkingStart, "i5"), None);
}

#[test]
fn completion_adapter_takes_time_and_ids_from_outside() {
    let mut f = ChatCompletionFormatter::new("m".to_string());
    assert!(f.created > 1_600_000_000);
    let a = f.format_event(AgentEvent::Error { error: "e".to_string() }, "sid").unwrap();
    let b = f.format_event(AgentEvent::Error { error: "e".to_string() }, "sid").unwrap();
    let a_id = a.id.clone().unwrap();
    assert!(a_id.starts_with("chatcmpl-"));
    assert_eq!(a_id.len(), "chatcmpl-".len() + 36);
    assert_ne!(a.id, b.id);
    assert_eq!(a.created, f.created);
}

fn response(status: ReasoningStatus, output: Vec<ResponseOutput>) -> ResponseObject {
    ResponseObject {
        id: "sid".to_string(),
        object: "response".to_string(),
        created_at: 5,
        model: "m".to_string(),
        status,
        output,
        request: ResponsePayload::empty(),
        tools: vec![],
        previous_response_id: None,
        usage: ResponseUsage {
            completion_tokens: Some(0),
            prompt_tokens: Some(0),
            total_tokens: 0,
        },
    }
}

fn tool_item(id: &str, args: &str, status: InputItemStatus) -> ResponseOutput {
    ResponseOutput::FunctionToolCall {
        id: id.to_string(),
        call_id: id.to_string(),
        name: "ls".to_string(),
        arguments: args.to_string(),
        status,
    }
}

#[test]
fn response_adapter_numbers_its_events_and_fills_the_response() {
    let mut f = ResponseFormatter::created_at("m".to_string(), ResponsePayload::empty(), 5);
    // the first event only opens the stream
    assert_eq!(
        f.format_event_with(
            AgentEvent::BrainResult { timestamp: 0, thought: Ok(ChatMessage::assistant("lost".to_string())) },
            "sid",
            "x".to_string()
        ),
        Some(ResponseStreamEvent {
            event_type: ResponseEventType::ResponseCreated,
            data: ResponseEventData::Response {
                sequence_number: 0,
                response: response(ReasoningStatus::InProgress, vec![]),
            },
        })
    );
    let c1 = agent_call("c1", "ls", object(vec![("b", JsonValue::Number("1".to_string())), ("a", JsonValue::Null)]));
    let c2 = agent_call("c2", "ls", JsonValue::Null);
    assert_eq!(
        f.format_event_with(AgentEvent::ToolCallStarted { timestamp: 0, call: c1.clone() }, "sid", "x".to_string()),
        Some(ResponseStreamEvent::output_item_added(
            1,
            0,
            tool_item("c1", "{\"a\":null,\"b\":1}", InputItemStatus::InProgress)
        ))
    );
    assert_eq!(
        f.format_event_with(AgentEvent::ToolCallStarted { timestamp: 0, call: c2.clone() }, "sid", "x".to_string()),
        Some(ResponseStreamEvent::output_item_added(2, 1, tool_item("c2", "null", InputItemStatus::InProgress)))
    );
    assert_eq!(
        f.format_event_with(
            AgentEvent::ToolCallCompleted { duration: 0, call: c2.clone(), result: ToolResult::Denied },
            "sid",
            "x".to_string()
        ),
        Some(ResponseStreamEvent::output_item_done(3, 1, tool_item("c2", "null", InputItemStatus::Incomplete)))
    );
    // the end of a call that was never started is passed over
    assert_eq!(
        f.format_event_with(
            AgentEvent::ToolCallCompleted {
                duration: 0,
                call: agent_call("zz", "ls", JsonValue::Null),
                result: ToolResult::success("x".to_string())
            },
            "sid",
            "x".to_string()
        ),
        None
    );
    assert_eq!(
        f.format_event_with(
            AgentEvent::ToolCallCompleted { duration: 0, call: c1.clone(), result: ToolResult::success("o".to_string()) },
            "sid",
            "x".to_string()
        ),
        Some(ResponseStreamEvent::output_item_done(
            4,
            0,
            tool_item("c1", "{\"a\":null,\"b\":1}", InputItemStatus::Completed)
        ))
    );
    assert_eq!(
        f.format_event_with(
            AgentEvent::BrainResult { timestamp: 0, thought: Err(AgentError::LlmError("down".to_string())) },
            "sid",
            "x".to_string()
        ),
        None
    );
    let closing = f
        .format_event_with(
            AgentEvent::StatusChanged {
                old_status: PublicAgentState::Running,
                new_status: PublicAgentState::Paused,
            },
            "sid",
            "msg-1".to_string(),
        )
        .unwrap();
    assert_eq!(closing.event_name(), "response.completed");
    assert_eq!(f.event_name(&closing), "response.completed");
    assert_eq!(
        closing,
        ResponseStreamEvent::completed(
            5,
            response(
                ReasoningStatus::Incomplete,
                vec![
                    tool_item("c1", "{\"a\":null,\"b\":1}", InputItemStatus::Completed),
                    tool_item("c2", "null", InputItemStatus::Incomplete),
                    ResponseOutput::Message {
                        id: "msg-1".to_string(),
                        text: "Error: LLM error: down".to_string()
                    },
                ]
            )
        )
    );
    assert_eq!(
        f.format_event_with(
            AgentEvent::StatusChanged {
                old_status: PublicAgentState::Paused,
                new_status: PublicAgentState::Running,
            },
            "sid",
            "x".to_string()
        ),
        None
    );
    let done = f
        .format_event_with(
            AgentEvent::Completed { success: false, message: "over".to_string() },
            "sid",
            "msg-2".to_string(),
        )
        .unwrap();
    match done.data {
        ResponseEventData::Response { sequence_number, response } => {
            assert_eq!(sequence_number, 5);
            assert_eq!(response.status, ReasoningStatus::Failed);
            assert_eq!(response.output.len(), 4);
            assert_eq!(
                response.output[3],
                ResponseOutput::Message { id: "msg-2".to_string(), text: "over".to_string() }
            );
        }
        other => panic!("unexpected data {:?}", other),
    }
}

#[test]
fn response_events_are_named() {
    let r = || response(ReasoningStatus::Completed, vec![]);
    assert_eq!(ResponseStreamEvent::created(0, r()).event_name(), "response.created");
    assert_eq!(ResponseStreamEvent::in_progress(0, r()).event_name(), "response.in_progress");
    assert_eq!(
        ResponseStreamEvent::output_item_added(0, 0, tool_item("a", "{}", InputItemStatus::InProgress)).event_name(),
        "response.output_item.added"
    );
    assert_eq!(
        ResponseStreamEvent::output_item_done(0, 0, tool_item("a", "{}", InputItemStatus::Completed)).event_name(),
        "response.output_item.done"
    );
    let delta = ResponseStreamEvent::output_text_delta(3, "i".to_string(), 1, 2, "d".to_string());
    assert_eq!(delta.event_name(), "response.output_text.delta");
    assert_eq!(
        delta.data,
        ResponseEventData::TextDelta {
            sequence_number: 3,
            item_id: "i".to_string(),
            output_index: 1,
            content_index: 2,
            delta: "d".to_string(),
        }
    );
    assert_eq!(ResponseStreamEvent::completed(0, r()).event_name(), "response.completed");
}

#[test]
fn response_adapter_closes_with_a_fresh_message_id() {
    let mut f = ResponseFormatter::new("m".to_string(), ResponsePayload::empty());
    assert!(f.created_at > 1_600_000_000);
    let _ = f.format_event(AgentEvent::ThinkingStart, "sid");
    let done = f.format_event(AgentEvent::Completed { success: true, message: "ok".to_string() }, "sid").unwrap();
    match done.data {
        ResponseEventData::Response { response, .. } => {
            assert_eq!(response.status, ReasoningStatus::Completed);
            match &response.output[0] {
                ResponseOutput::Message { id, text } => {
                    assert_eq!(id.len(), 36);
                    assert_eq!(text, "ok");
                }
                other => panic!("unexpected item {:?}", other),
            }
        }
        other => panic!("unexpected data {:?}", other),
    }
}

#[test]
fn request_becomes_a_conversation() {
    let text = |t: &str| ContentItem::Text { text: t.to_string() };
    let params = ResponseParameters {
        instructions: Some("be brief".to_string()),
        input: ResponseInput::List(vec![
            ResponseInputItem::Message { role: Role::User, content: ContentInput::Text("one".to_string()) },
            ResponseInputItem::Other,
            ResponseInputItem::Message {
                role: Role::Assistant,
                content: ContentInput::List(vec![text("a"), ContentItem::Other, text("b"), text("")]),
            },
            ResponseInputItem::Message { role: Role::System, content: ContentInput::Text("skipped".to_string()) },
            ResponseInputItem::Message { role: Role::Developer, content: ContentInput::Text("skipped".to_string()) },
            ResponseInputItem::Message { role: Role::User, content: ContentInput::List(vec![ContentItem::Other]) },
            ResponseInputItem::Message { role: Role::User, content: ContentInput::List(vec![text("solo")]) },
        ]),
    };
    assert_eq!(
        build_message_trace(&params),
        vec![
            ChatMessage::System { content: ChatMessageContent::Text("be brief".to_string()), name: None },
            ChatMessage::user("one".to_string()),
            ChatMessage::assistant("a\nb\n".to_string()),
            ChatMessage::user("".to_string()),
            ChatMessage::user("solo".to_string()),
        ]
    );
    assert_eq!(
        build_message_trace(&ResponseParameters {
            instructions: None,
            input: ResponseInput::Text("hi".to_string())
        }),
        vec![ChatMessage::user("hi".to_string())]
    );
}

#[test]
fn earlier_call_becomes_a_call_and_its_answer() {
    let previous = PreviousCall {
        call: ToolCall { tool: "ls".to_string(), args: pairs(&[("path", "."), ("all", "yes")]), output: None },
        result: ToolCallResult { text: None, error: Some("denied".to_string()) },
    };
    assert_eq!(
        previous_call_trace(&previous, "77"),
        vec![
            ChatMessage::Assistant {
                content: None,
                reasoning_content: None,
                refusal: None,
                name: None,
                tool_calls: Some(vec![LlmToolCall {
                    id: "call_77".to_string(),
                    name: "ls".to_string(),
                    arguments: "{\"all\":\"yes\",\"path\":\".\"}".to_string(),
                }]),
            },
            ChatMessage::tool("call_77".to_string(), "denied".to_string()),
        ]
    );
    let silent = PreviousCall {
        call: ToolCall { tool: "t".to_string(), args: vec![], output: None },
        result: ToolCallResult { text: None, error: None },
    };
    assert_eq!(
        previous_call_trace(&silent, "1")[1],
        ChatMessage::tool("call_1".to_string(), "No result".to_string())
    );
    let both = PreviousCall {
        call: ToolCall { tool: "t".to_string(), args: vec![], output: None },
        result: ToolCallResult { text: Some("t".to_string()), error: Some("e".to_string()) },
    };
    assert_eq!(previous_call_trace(&both, "1")[1], ChatMessage::tool("call_1".to_string(), "t".to_string()));
}

#[test]
fn query_becomes_a_conversation_with_fresh_call_ids() {
    let prev = || {
        Message::PreviousCall(PreviousCall {
            call: ToolCall { tool: "ls".to_string(), args: vec![], output: None },
            result: ToolCallResult { text: Some("out".to_string()), error: None },
        })
    };
    let q = MultiModalQuery {
        model: "m".to_string(),
        messages: Some(vec![
            Message::User { message: "u".to_string() },
            prev(),
            Message::Assistant { assistant: "a".to_string() },
            prev(),
        ]),
    };
    let trace = build_query_trace(&q);
    assert_eq!(trace.len(), 6);
    assert_eq!(trace[0], ChatMessage::user("u".to_string()));
    assert_eq!(trace[3], ChatMessage::assistant("a".to_string()));
    let id_of = |m: &ChatMessage| match m {
        ChatMessage::Assistant { tool_calls: Some(calls), .. } => calls[0].id.clone(),
        other => panic!("unexpected message {:?}", other),
    };
    let (i1, i2) = (id_of(&trace[1]), id_of(&trace[4]));
    assert!(i1.starts_with("call_") && i1.len() == 41);
    assert_ne!(i1, i2);
    assert_eq!(trace[2], ChatMessage::tool(i1, "out".to_string()));
    assert_eq!(trace[5], ChatMessage::tool(i2, "out".to_string()));
    assert_eq!(build_query_trace(&MultiModalQuery { model: "m".to_string(), messages: None }), vec![]);
}

#[test]
fn session_colour_is_one_of_the_cube_and_stable() {
    for sid in ["", "a", "session-1", "ünïcödé"] {
        let c = color_for_session(sid);
        assert!((16..=231).contains(&c));
        assert_eq!(c, color_for_session(sid));
        assert_eq!(colored_session_id(sid), format!("\x1b[38;5;{}msid={}\x1b[0m", c, sid));
    }
    let distinct: std::collections::BTreeSet<u8> =
        (0..50).map(|i| color_for_session(&format!("s{}", i))).collect();
    assert!(distinct.len() > 1);
}

#[test]
fn log_lines_are_written_for_the_events_that_matter() {
    let sid = colored_session_id("s");
    let call = agent_call("c", "ls", JsonValue::Null);
    assert_eq!(
        log_line(&AgentEvent::ToolCallStarted { timestamp: 0, call: call.clone() }, "s"),
        Some((LogLevel::Debug, format!("{} - ToolCall: ls", sid)))
    );
    assert_eq!(
        log_line(
            &AgentEvent::ToolCallCompleted { duration: 1234, call: call.clone(), result: ToolResult::success("x".to_string()) },
            "s"
        ),
        Some((LogLevel::Debug, format!("{} - ToolResult: ls \u{2713} (1234ms)", sid)))
    );
    assert_eq!(
        log_line(
            &AgentEvent::ToolCallCompleted { duration: -5, call: call.clone(), result: ToolResult::error("a\nb".to_string()) },
            "s"
        ),
        Some((LogLevel::Debug, format!("{} - ToolResult: ls \u{2717} a", sid)))
    );
    assert_eq!(
        log_line(&AgentEvent::ToolCallCompleted { duration: 0, call, result: ToolResult::Denied }, "s"),
        Some((LogLevel::Debug, format!("{} - ToolResult: ls \u{2298} denied", sid)))
    );
    assert_eq!(
        log_line(&AgentEvent::BrainResult { timestamp: 0, thought: Err(AgentError::SessionClosed) }, "s"),
        Some((LogLevel::Debug, format!("{} - BrainResult", sid)))
    );
    assert_eq!(
        log_line(
            &AgentEvent::StatusChanged {
                old_status: PublicAgentState::Running,
                new_status: PublicAgentState::Completed { success: true }
            },
            "s"
        ),
        Some((LogLevel::Debug, format!("{} - Status: Completed \u{2190} Running", sid)))
    );
    assert_eq!(
        log_line(&AgentEvent::Error { error: "e".to_string() }, "s"),
        Some((LogLevel::Error, format!("{} - Error: e", sid)))
    );
    assert_eq!(
        log_line(&AgentEvent::Completed { success: false, message: "m".to_string() }, "s"),
        Some((LogLevel::Info, format!("{} - Completed: success=false msg=m", sid)))
    );
    assert_eq!(log_line(&AgentEvent::ThinkingStart, "s"), None);
    assert_eq!(log_line(&AgentEvent::UserInput { input: "x".to_string() }, "s"), None);
}

#[test]
fn signed_numbers_are_spelled_in_decimal() {
    assert_eq!(signed_decimal_string(0), "0");
    assert_eq!(signed_decimal_string(90210), "90210");
    assert_eq!(signed_decimal_string(-7), "-7");
    assert_eq!(signed_decimal_string(i64::MAX), i64::MAX.to_string());
    assert_eq!(signed_decimal_string(i64::MIN), i64::MIN.to_string());
}

#[test]
fn session_manager_opens_sessions_within_its_limits() {
    let d = SessionManagerConfig::default();
    assert_eq!(d.max_sessions, Some(100));
    assert!(!d.ephemeral);
    let mut m = SessionManager::new(SessionManagerConfig { max_sessions: Some(2), ephemeral: false });
    assert_eq!(m.session_count(), 0);
    assert_eq!(m.create_new_session("a", false), Ok(()));
    assert_eq!(
        m.create_new_session("a", true),
        Err(AgentError::ExecutionError("Session already exists: a".to_string()))
    );
    assert_eq!(m.create_new_session("b", true), Ok(()));
    assert_eq!(
        m.create_new_session("c", false),
        Err(AgentError::ExecutionError("Maximum number of sessions reached: 2".to_string()))
    );
    assert_eq!(m.session_count(), 2);
    assert!(m.has_session("b"));
    assert!(m.remove_session("a"));
    assert!(!m.remove_session("a"));
    assert!(!m.has_session("a"));
    assert_eq!(m.create_new_session("c", false), Ok(()));
    assert_eq!(m.session_count(), 2);

    let mut e = SessionManager::new(SessionManagerConfig { max_sessions: None, ephemeral: true });
    assert_eq!(
        e.create_new_session("a", false),
        Err(AgentError::ExecutionError(
            "Only Ephemeral session are authorized on this server".to_string()
        ))
    );
    assert_eq!(e.create_new_session("a", true), Ok(()));
    // the kind is looked at before the id
    assert_eq!(
        e.create_new_session("a", false),
        Err(AgentError::ExecutionError(
            "Only Ephemeral session are authorized on this server".to_string()
        ))
    );
    let mut z = SessionManager::new(SessionManagerConfig { max_sessions: Some(0), ephemeral: false });
    assert_eq!(
        z.create_new_session("a", false),
        Err(AgentError::ExecutionError("Maximum number of sessions reached: 0".to_string()))
    );
}

#[test]
fn sessions_and_requests_know_how_they_end() {
    let s = AgentSession::new("sid".to_string(), None, true);
    assert_eq!(s.agent_name, "default");
    assert!(s.is_ephemeral());
    let n = AgentSession::new("sid".to_string(), Some("coder".to_string()), false);
    assert_eq!(n.agent_name, "coder");
    assert!(!n.is_ephemeral());
    let e = RequestLifecycle::new(true, "r".to_string(), "s".to_string());
    assert_eq!(e, RequestLifecycle::Ephemeral { request_id: "r".to_string(), session_id: "s".to_string() });
    assert_eq!(e.on_drop(), Some(AgentRequest::Terminate));
    let b = RequestLifecycle::new(false, "r".to_string(), "s".to_string());
    assert_eq!(b, RequestLifecycle::Background { request_id: "r".to_string(), session_id: "s".to_string() });
    assert_eq!(b.on_drop(), None);
}

#[test]
fn response_repeats_what_the_request_asked_for() {
    let mut payload = ResponsePayload::empty();
    payload.instructions = Some("be brief".to_string());
    payload.metadata = Some(vec![("k".to_string(), "v".to_string())]);
    payload.temperature_bits = Some(0.5f32.to_bits());
    payload.max_output_tokens = Some(99);
    payload.tools = Some(vec![JsonValue::String("t".to_string())]);
    payload.user = Some("u".to_string());
    let mut f = ResponseFormatter::created_at("m".to_string(), payload.clone(), 1);
    let opened = f.format_event_with(AgentEvent::ThinkingStart, "sid", "x".to_string()).unwrap();
    match opened.data {
        ResponseEventData::Response { response, .. } => {
            assert_eq!(response.request, payload);
            assert_eq!(response.tools, vec![JsonValue::String("t".to_string())]);
            assert_eq!(response.previous_response_id, None);
            assert_eq!(
                response.usage,
                ResponseUsage { completion_tokens: Some(0), prompt_tokens: Some(0), total_tokens: 0 }
            );
        }
        other => panic!("unexpected data {:?}", other),
    }
    let mut bare = ResponseFormatter::created_at("m".to_string(), ResponsePayload::empty(), 1);
    match bare.format_event_with(AgentEvent::ThinkingStart, "sid", "x".to_string()).unwrap().data {
        ResponseEventData::Response { response, .. } => assert!(response.tools.is_empty()),
        other => panic!("unexpected data {:?}", other),
    }
}
