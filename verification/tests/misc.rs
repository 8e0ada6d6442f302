use shai_core::agent::brain::{ThinkerDecision, ThinkerFlowControl};
use shai_core::agent::events::PermissionResponse;
use shai_core::agent::states::{CancellationToken, InternalAgentState, PublicAgentState};
use shai_core::chat::{ChatMessage, ChatMessageContent, LlmToolCall};
use shai_core::headless::{AgentKind, AppHeadless};
use shai_core::json::JsonValue;
use shai_core::llm::{AssistantResponse, IntoChatMessage, IntoToolBox, ToolCall, ToolDescription, random_call_id};
use shai_core::runners::{
    clifix_messages, decide, gerund_messages, request_messages, token_usage, CliFixResponse,
    CoderBrain, SearcherBrain,
};
use shai_core::text::{decimal_string, first_line, prefixed, str_eq, string_of_chars};
use shai_core::tools::{ToolCapability, ToolSpec};

fn with_calls(calls: Option<Vec<LlmToolCall>>) -> ChatMessage {
    ChatMessage::Assistant {
        content: Some(ChatMessageContent::Text("t".to_string())),
        reasoning_content: None,
        refusal: None,
        name: None,
        tool_calls: calls,
    }
}

#[test]
fn decimal_spelling_has_no_leading_zeros() {
    assert_eq!(decimal_string(0), "0");
    assert_eq!(decimal_string(7), "7");
    assert_eq!(decimal_string(10), "10");
    assert_eq!(decimal_string(1005), "1005");
    assert_eq!(decimal_string(u64::MAX), "18446744073709551615");
}

#[test]
fn text_helpers_do_what_their_names_say() {
    assert!(str_eq("abc", "abc"));
    assert!(!str_eq("abc", "abd"));
    assert!(!str_eq("abc", "ab"));
    assert_eq!(prefixed("a: ", "b"), "a: b");
    assert_eq!(string_of_chars(&vec!['h', 'é', '!']), "hé!");
    assert_eq!(first_line("one\ntwo"), "one");
    assert_eq!(first_line("one\r\ntwo"), "one");
    assert_eq!(first_line("one"), "one");
    assert_eq!(first_line("one\r"), "one\r");
    assert_eq!(first_line("\r\nx"), "");
    assert_eq!(first_line(""), "");
    assert_eq!(first_line("é\nb"), "é");
    for s in ["a\nb", "a\r\nb", "", "x\r", "\n", "\r\n\r\n", "ab\rcd\nef"] {
        assert_eq!(first_line(s), s.lines().next().unwrap_or(s));
    }
}

#[test]
fn json_values_copy_and_tell_their_kind() {
    let v = JsonValue::Object(vec![
        ("a".to_string(), JsonValue::Array(vec![JsonValue::Null, JsonValue::Number("-2e3".to_string())])),
        ("b".to_string(), JsonValue::String("s".to_string())),
    ]);
    assert_eq!(v.clone(), v);
    assert_eq!(v.duplicate(), v);
    assert!(JsonValue::Null.is_null());
    assert!(!JsonValue::Bool(false).is_null());
    assert_eq!(JsonValue::String("x".to_string()).as_str(), Some(&"x".to_string()));
    assert_eq!(JsonValue::Number("1".to_string()).as_str(), None);
}

#[test]
fn states_show_themselves_without_the_handle() {
    let s = InternalAgentState::Processing {
        task_name: "tools".to_string(),
        tools_exec_at: 9,
        cancellation_token: CancellationToken { id: 3 },
    };
    assert_eq!(
        s.to_public(),
        PublicAgentState::Processing { task_name: "tools".to_string(), tools_exec_at: 9 }
    );
    assert_eq!(s.cancellation_token(), Some(CancellationToken { id: 3 }));
    assert_eq!(InternalAgentState::Paused.cancellation_token(), None);
    assert!(!s.is_terminal());
    assert!(InternalAgentState::Completed { success: false }.is_terminal());
    assert!(InternalAgentState::Failed { error: "e".to_string() }.is_terminal());
    assert_eq!(InternalAgentState::Starting.to_public().name(), "Starting");
    assert_eq!(PublicAgentState::Cancelled.name(), "Cancelled");
    assert!(PublicAgentState::Paused.is_paused());
    assert!(!PublicAgentState::Running.is_paused());
}

#[test]
fn only_allow_and_allow_always_grant() {
    assert!(PermissionResponse::Allow.is_granted());
    assert!(PermissionResponse::AllowAlways.is_granted());
    assert!(!PermissionResponse::Deny.is_granted());
    assert!(!PermissionResponse::Forbidden.is_granted());
    assert!(!PermissionResponse::NoPermissionSystem.is_granted());
}

#[test]
fn decisions_are_built_as_named() {
    let m = || ChatMessage::assistant("x".to_string());
    assert_eq!(
        ThinkerDecision::new(m()),
        ThinkerDecision { message: m(), flow: ThinkerFlowControl::AgentPause, token_usage: None }
    );
    assert_eq!(ThinkerDecision::agent_pause(m()).flow, ThinkerFlowControl::AgentPause);
    assert_eq!(ThinkerDecision::agent_continue(m()).flow, ThinkerFlowControl::AgentContinue);
    assert_eq!(
        ThinkerDecision::agent_continue_with_tokens(m(), 1, 2),
        ThinkerDecision { message: m(), flow: ThinkerFlowControl::AgentContinue, token_usage: Some((1, 2)) }
    );
    assert_eq!(
        ThinkerDecision::agent_pause_with_tokens(m(), 3, 4),
        ThinkerDecision { message: m(), flow: ThinkerFlowControl::AgentPause, token_usage: Some((3, 4)) }
    );
    assert_eq!(ThinkerDecision::new(m()).unwrap(), m());
}

#[test]
fn brains_pause_on_an_answer_without_tool_calls() {
    let c = LlmToolCall { id: "i".to_string(), name: "n".to_string(), arguments: "{}".to_string() };
    assert_eq!(decide(with_calls(None), None).flow, ThinkerFlowControl::AgentPause);
    assert_eq!(decide(with_calls(Some(vec![])), None).flow, ThinkerFlowControl::AgentPause);
    assert_eq!(decide(with_calls(Some(vec![c])), None).flow, ThinkerFlowControl::AgentContinue);
    assert_eq!(decide(ChatMessage::user("u".to_string()), None).flow, ThinkerFlowControl::AgentContinue);
    assert_eq!(token_usage(None), None);
    assert_eq!(token_usage(Some((Some(5), None))), Some((5, 0)));
    assert_eq!(token_usage(Some((None, Some(6)))), Some((0, 6)));
    let coder = CoderBrain::new("m".to_string());
    assert_eq!(coder.system_prompt_template, "{{CODER_BASE_PROMPT}}");
    assert_eq!(f32::from_bits(coder.temperature_bits), 0.3f32);
    let d = coder.next_step(with_calls(None), Some((Some(1), Some(2))));
    assert_eq!((d.flow, d.token_usage), (ThinkerFlowControl::AgentPause, Some((1, 2))));
    let custom = CoderBrain::with_custom_prompt("m".to_string(), "p".to_string(), 0.5f32.to_bits());
    assert_eq!((custom.system_prompt_template.as_str(), custom.temperature_bits), ("p", 0.5f32.to_bits()));
    let s = SearcherBrain::new("m2".to_string());
    assert_eq!(s.model, "m2");
    assert_eq!(s.next_step(with_calls(None)).token_usage, None);
}

#[test]
fn system_prompt_heads_the_request_and_never_the_conversation() {
    let trace = vec![ChatMessage::user("a".to_string()), ChatMessage::assistant("b".to_string())];
    let sent = request_messages(&trace, "prompt".to_string());
    assert_eq!(
        sent,
        vec![
            ChatMessage::System { content: ChatMessageContent::Text("prompt".to_string()), name: None },
            ChatMessage::user("a".to_string()),
            ChatMessage::assistant("b".to_string()),
        ]
    );
    assert_eq!(trace.len(), 2);
    assert_eq!(
        gerund_messages(String::new(), "p".to_string())[0],
        ChatMessage::user("the user has sent an empty message".to_string())
    );
    assert_eq!(
        gerund_messages("hi".to_string(), "p".to_string()),
        vec![
            ChatMessage::user("hi".to_string()),
            ChatMessage::System { content: ChatMessageContent::Text("p".to_string()), name: None },
        ]
    );
    assert_eq!(
        clifix_messages(&trace, "fix".to_string())[2],
        ChatMessage::System { content: ChatMessageContent::Text("fix".to_string()), name: None }
    );
    let fix = CliFixResponse { short_rational: None, fixed_cli: "ls".to_string() };
    assert_eq!(fix.fixed_cli, "ls");
}

#[test]
fn structured_answer_becomes_an_assistant_message_with_fresh_ids() {
    let answer = AssistantResponse {
        content: "text".to_string(),
        reasoning_content: Some("why".to_string()),
        tools: Some(vec![
            ToolCall {
                tool_name: "ls".to_string(),
                tool_parameter: JsonValue::Object(vec![
                    ("z".to_string(), JsonValue::Bool(true)),
                    ("a".to_string(), JsonValue::Number("12".to_string())),
                ]),
            },
            ToolCall { tool_name: "read".to_string(), tool_parameter: JsonValue::Null },
        ]),
    };
    match answer.into_chatmessage() {
        ChatMessage::Assistant { content, reasoning_content, refusal, name, tool_calls } => {
            assert_eq!(content, Some(ChatMessageContent::Text("text".to_string())));
            assert_eq!(reasoning_content, Some("why".to_string()));
            assert_eq!((refusal, name), (None, None));
            let calls = tool_calls.unwrap();
            assert_eq!(calls.len(), 2);
            assert_eq!((calls[0].name.as_str(), calls[0].arguments.as_str()), ("ls", "{\"a\":12,\"z\":true}"));
            assert_eq!((calls[1].name.as_str(), calls[1].arguments.as_str()), ("read", "null"));
            for c in &calls {
                assert!(c.id.starts_with("call_"));
                assert_eq!(c.id.len(), 14);
                assert!(c.id[5..].chars().all(|ch| ch.is_ascii_alphabetic()));
            }
        }
        other => panic!("unexpected message {:?}", other),
    }
    let plain = AssistantResponse { content: "t".to_string(), reasoning_content: None, tools: None };
    assert_eq!(plain.into_chatmessage(), ChatMessage::assistant("t".to_string()));
    let ids: std::collections::BTreeSet<String> = (0..20).map(|_| random_call_id()).collect();
    assert!(ids.len() > 1);
}

#[test]
fn toolbox_tells_the_model_name_description_and_schema() {
    let tools = vec![ToolSpec {
        name: "ls".to_string(),
        description: "lists".to_string(),
        parameters_schema: JsonValue::Object(vec![("type".to_string(), JsonValue::String("object".to_string()))]),
        capabilities: vec![ToolCapability::Read],
        group: None,
    }];
    assert_eq!(
        tools.into_toolbox(),
        vec![ToolDescription {
            name: "ls".to_string(),
            description: "lists".to_string(),
            parameters_schema: JsonValue::Object(vec![(
                "type".to_string(),
                JsonValue::String("object".to_string())
            )]),
        }]
    );
}

#[test]
fn headless_run_prints_the_last_answer() {
    assert_eq!(AppHeadless::new().agent_kind(), AgentKind::Coder);
    assert_eq!(AppHeadless::answer(&vec![]), None);
    assert_eq!(
        AppHeadless::answer(&vec![ChatMessage::user("q".to_string()), ChatMessage::assistant("a".to_string())]),
        Some("a".to_string())
    );
    assert_eq!(
        AppHeadless::answer(&vec![ChatMessage::tool("c".to_string(), "out".to_string())]),
        Some("out".to_string())
    );
    assert_eq!(AppHeadless::answer(&vec![ChatMessage::user("q".to_string())]), None);
    assert_eq!(
        AppHeadless::answer(&vec![ChatMessage::Assistant {
            content: None,
            reasoning_content: None,
            refusal: None,
            name: None,
            tool_calls: None
        }]),
        None
    );
    assert!(!AppHeadless::should_fix(0));
    assert!(AppHeadless::should_fix(1));
    assert!(AppHeadless::should_fix(127));
    assert!(!AppHeadless::should_fix(128));
    assert!(!AppHeadless::should_fix(130));
    assert!(AppHeadless::should_fix(-1));
}
