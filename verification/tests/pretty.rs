use shai_core::agent::error::AgentError;
use shai_core::agent::events::AgentEvent;
use shai_core::agent::output::pretty::PrettyFormatter;
use shai_core::agent::states::PublicAgentState;
use shai_core::chat::{ChatMessage, ChatMessageContent};
use shai_core::json::JsonValue;
use shai_core::text::{is_blank, is_white_space, join_lines_from, split_lines};
use shai_core::tools::{ToolCall, ToolResult};

fn object(members: Vec<(&str, JsonValue)>) -> JsonValue {
    JsonValue::Object(members.into_iter().map(|(k, v)| (k.to_string(), v)).collect())
}

fn text(s: &str) -> JsonValue {
    JsonValue::String(s.to_string())
}

fn call(name: &str, parameters: JsonValue) -> ToolCall {
    ToolCall { tool_call_id: "c".to_string(), tool_name: name.to_string(), parameters }
}

fn pair(a: &str, b: &str) -> Option<(String, String)> {
    Some((a.to_string(), b.to_string()))
}

#[test]
fn lines_are_split_as_the_standard_library_splits_them() {
    for s in ["", "a", "a\n", "a\nb", "a\r\nb\r\n", "\n\n", "a\rb\nc\r", "é\n\nü", "\r\n", "x\n\r\ny"] {
        let expected: Vec<String> = s.lines().map(|l| l.to_string()).collect();
        assert_eq!(split_lines(s), expected, "for {:?}", s);
    }
    let lines = vec!["a".to_string(), "b".to_string(), "".to_string(), "c".to_string()];
    assert_eq!(join_lines_from(&lines, 0), "a\nb\n\nc");
    assert_eq!(join_lines_from(&lines, 1), "b\n\nc");
    assert_eq!(join_lines_from(&lines, 3), "c");
    assert_eq!(join_lines_from(&lines, 4), "");
}

#[test]
fn white_space_is_what_the_standard_library_calls_so() {
    for n in 0u32..0x3100 {
        if let Some(c) = char::from_u32(n) {
            assert_eq!(is_white_space(c), c.is_whitespace(), "for U+{:04X}", n);
        }
    }
    for s in ["", " ", " \t\r\n\u{a0}\u{3000}", " x ", "\u{200b}"] {
        assert_eq!(is_blank(s), s.trim().is_empty(), "for {:?}", s);
    }
}

#[test]
fn first_letter_is_raised() {
    assert_eq!(PrettyFormatter::capitalize_first(""), "");
    assert_eq!(PrettyFormatter::capitalize_first("bash"), "Bash");
    assert_eq!(PrettyFormatter::capitalize_first("Ls"), "Ls");
    assert_eq!(PrettyFormatter::capitalize_first("élan"), "Élan");
    assert_eq!(PrettyFormatter::capitalize_first("ßa"), "SSa");
    assert_eq!(PrettyFormatter::capitalize_first("1x"), "1x");
}

#[test]
fn working_directory_is_cut_from_paths() {
    assert_eq!(PrettyFormatter::format_path("/home/u/p/src/a.rs", Some("/home/u/p")), "src/a.rs");
    assert_eq!(PrettyFormatter::format_path("/home/u/p", Some("/home/u/p")), "/home/u/p");
    assert_eq!(PrettyFormatter::format_path("cat /w/a /w/b", Some("/w")), "cat a b");
    assert_eq!(PrettyFormatter::format_path("/other/a", Some("/w")), "/other/a");
    assert_eq!(PrettyFormatter::format_path("/w/a", None), "/w/a");
    assert_eq!(PrettyFormatter::format_path("a//b", Some("")), "ab");
    assert_eq!(PrettyFormatter::format_param_value("/w/a", Some("/w")), "a");
}

#[test]
fn primary_parameter_follows_the_preferences_of_the_tool() {
    let args = object(vec![
        ("command", text("run")),
        ("file_path", text("/f")),
        ("path", text("/p")),
        ("pattern", text("*.rs")),
    ]);
    assert_eq!(PrettyFormatter::extract_primary_param(&args, "read", None), pair("file_path", "/f"));
    assert_eq!(PrettyFormatter::extract_primary_param(&args, "ls", None), pair("path", "/p"));
    assert_eq!(PrettyFormatter::extract_primary_param(&args, "grep", None), pair("pattern", "*.rs"));
    assert_eq!(PrettyFormatter::extract_primary_param(&args, "bash", None), pair("command", "run"));
    assert_eq!(PrettyFormatter::extract_primary_param(&args, "other", None), pair("path", "/p"));
    // a preferred name that holds no string is passed over
    let odd = object(vec![("file_path", JsonValue::Number("1".to_string())), ("path", text("/w/x"))]);
    assert_eq!(PrettyFormatter::extract_primary_param(&odd, "edit", Some("/w")), pair("path", "x"));
    // else the first string counts
    let none = object(vec![("n", JsonValue::Null), ("zeta", text("z")), ("alpha", text("a"))]);
    assert_eq!(PrettyFormatter::extract_primary_param(&none, "bash", None), pair("zeta", "z"));
    assert_eq!(PrettyFormatter::extract_primary_param(&object(vec![]), "bash", None), None);
    assert_eq!(PrettyFormatter::extract_primary_param(&text("x"), "bash", None), None);
    assert_eq!(PrettyFormatter::primary_param(&odd, "edit"), pair("path", "/w/x"));
}

#[test]
fn titles_name_the_tool_and_its_primary_parameter() {
    let f = PrettyFormatter::new();
    let c = call("ls", object(vec![("path", text("/w/src"))]));
    assert_eq!(
        f.format_tool_started(&c, Some("/w")),
        "\x1b[36m\u{25cf}\x1b[0m \x1b[1mLs\x1b[0m(src)"
    );
    assert_eq!(
        f.format_tool_started(&call("todo_read", JsonValue::Null), None),
        "\x1b[36m\u{25cf}\x1b[0m \x1b[1mTodo_read\x1b[0m"
    );
    assert_eq!(
        f.format_tool_running_at(&c, 0, None),
        "\x1b[36m\u{25cf} \x1b[0m \x1b[1mLs\x1b[0m(/w/src)"
    );
    assert_eq!(
        f.format_tool_running_at(&c, 499, None),
        "\x1b[36m\u{25cf} \x1b[0m \x1b[1mLs\x1b[0m(/w/src)"
    );
    assert_eq!(
        f.format_tool_running_at(&c, 500, None),
        "\x1b[36m\u{25cb} \x1b[0m \x1b[1mLs\x1b[0m(/w/src)"
    );
    assert_eq!(
        f.format_tool_running_at(&c, 1000, None),
        "\x1b[36m\u{25cf} \x1b[0m \x1b[1mLs\x1b[0m(/w/src)"
    );
    for t in [-1i64, -499, -500, -999, -1000, -1501, i64::MIN, i64::MAX] {
        let bullet = if (t / 500) % 2 == 0 { "\u{25cf} " } else { "\u{25cb} " };
        assert_eq!(
            f.format_tool_running_at(&c, t, None),
            format!("\x1b[36m{}\x1b[0m \x1b[1mLs\x1b[0m(/w/src)", bullet),
            "at {}",
            t
        );
    }
    let now = f.format_tool_running(&c, None);
    assert!(now.ends_with("\x1b[0m \x1b[1mLs\x1b[0m(/w/src)"));
}

#[test]
fn parameters_are_spelled_for_the_user() {
    let f = PrettyFormatter::default();
    assert_eq!(f.format_tool_parameter(&text("s")), "s");
    assert_eq!(f.format_tool_parameter(&JsonValue::Number("4.5".to_string())), "4.5");
    assert_eq!(f.format_tool_parameter(&JsonValue::Bool(true)), "true");
    assert_eq!(f.format_tool_parameter(&JsonValue::Bool(false)), "false");
    assert_eq!(f.format_tool_parameter(&JsonValue::Null), "null\n");
    assert_eq!(
        f.format_tool_parameter(&JsonValue::Array(vec![JsonValue::Number("1".to_string()), text("a")])),
        "[\n  1,\n  \"a\"\n]"
    );
    assert_eq!(f.format_tool_parameter(&object(vec![("k", JsonValue::Null)])), "{\n  \"k\": null\n}");
}

#[test]
fn call_is_spelled_without_its_primary_parameter() {
    let f = PrettyFormatter::new();
    let c = call(
        "write",
        object(vec![
            ("content", text("hello")),
            ("file_path", text("/a")),
            ("force", JsonValue::Bool(true)),
        ]),
    );
    assert_eq!(f.format_toolcall(&c, None), "content: hello\nforce: true\n");
    assert_eq!(
        f.format_toolcall(&c, Some(&ToolResult::success("diff".to_string()))),
        "diff"
    );
    assert_eq!(
        f.format_toolcall(&c, Some(&ToolResult::denied())),
        "The tool call was rejected by the user"
    );
    assert_eq!(f.format_toolcall(&call("x", JsonValue::Null), None), "");
    assert_eq!(f.format_toolcall(&call("x", object(vec![])), None), "");
    assert_eq!(f.format_toolcall(&call("x", text("raw")), None), "");
    assert_eq!(
        f.format_toolcall(&call("x", object(vec![("n", JsonValue::Null)])), None),
        "n: null\n\n"
    );
}

#[test]
fn results_are_summed_up_below_the_title() {
    let f = PrettyFormatter::new();
    let c = call("read", object(vec![("file_path", text("/a"))]));
    let title = |color: &str| format!("{}\u{25cf}\x1b[0m \x1b[1mRead\x1b[0m(/a)\n", color);
    assert_eq!(
        f.format_tool_result(&c, &ToolResult::error("bad".to_string()), None),
        format!("{}  \u{23bf} \x1b[2;31mError: bad\x1b[0m", title("\x1b[31m"))
    );
    assert_eq!(
        f.format_tool_result(&c, &ToolResult::Denied, None),
        format!(
            "{}  \u{23bf} \x1b[2;31mDenied: The tool call was rejected by the user\x1b[0m",
            title("\x1b[31m")
        )
    );
    assert_eq!(
        f.format_tool_result(&c, &ToolResult::success("  \n ".to_string()), None),
        format!("{}  \u{23bf} \x1b[1mCompleted\x1b[0m", title("\x1b[32m"))
    );
    // the output of `read` is counted, not shown
    assert_eq!(
        f.format_tool_result(&c, &ToolResult::success("héllo".to_string()), None),
        format!("{}  \u{23bf} \x1b[1m6\x1b[0m chars", title("\x1b[32m"))
    );
    assert_eq!(
        f.format_tool_result(&c, &ToolResult::success("a\nb\nc\n".to_string()), None),
        format!("{}  \u{23bf} \x1b[1m3\x1b[0m lines, \x1b[1m6\x1b[0m chars", title("\x1b[32m"))
    );
}

#[test]
fn output_of_listing_tools_is_shown_below_the_summary() {
    let f = PrettyFormatter::with_max_preview_lines(2);
    let c = call("ls", JsonValue::Null);
    let head = "\x1b[32m\u{25cf}\x1b[0m \x1b[1mLs\x1b[0m\n  \u{23bf} \x1b[1m4\x1b[0m lines, \x1b[1m27\x1b[0m chars";
    let shown = f.format_tool_result(&c, &ToolResult::success("first\nsecond\nthird\nfourth!!".to_string()), None);
    assert!(shown.starts_with(head));
    let below = &shown[head.len()..];
    assert!(below.contains("first"));
    assert!(below.contains("second"));
    assert!(!below.contains("third"));
    assert!(below.contains("... 2 more lines"));
    let nothing = PrettyFormatter::with_max_preview_lines(0);
    assert_eq!(
        nothing.format_tool_result(&c, &ToolResult::success("first\nsecond\nthird\nfourth!!".to_string()), None),
        head
    );
}

#[test]
fn thoughts_show_reasoning_and_content() {
    let f = PrettyFormatter::new();
    let thought = |content: Option<ChatMessageContent>, reasoning: Option<&str>| {
        Ok(ChatMessage::Assistant {
            content,
            reasoning_content: reasoning.map(|r| r.to_string()),
            refusal: None,
            name: None,
            tool_calls: None,
        })
    };
    assert_eq!(f.format_thinking(&thought(None, None)), None);
    assert_eq!(f.format_thinking(&thought(Some(ChatMessageContent::Text(" \n".to_string())), Some(" "))), None);
    assert_eq!(f.format_thinking(&thought(Some(ChatMessageContent::Empty), None)), None);
    assert_eq!(f.format_thinking(&Ok(ChatMessage::user("x".to_string()))), None);
    let both = f
        .format_thinking(&thought(Some(ChatMessageContent::Text("answer".to_string())), Some("because")))
        .unwrap();
    assert!(both.starts_with("\x1b[2m\u{273b} "));
    assert!(both.ends_with("\x1b[0m"));
    let at = both.find("\x1b[0m\n\u{25cf} ").unwrap();
    assert!(both[..at].contains("because"));
    assert!(both[at..].contains("answer"));
    let only = f.format_thinking(&thought(Some(ChatMessageContent::Text("answer".to_string())), None)).unwrap();
    assert!(only.starts_with("\u{25cf} "));
    assert!(only.contains("answer"));
    let failed = f.format_thinking(&Err(AgentError::LlmError("down".to_string()))).unwrap();
    assert!(failed.contains("Error:"));
    assert!(failed.contains("LLM error: down"));
}

#[test]
fn user_input_is_shown_behind_a_mark() {
    let f = PrettyFormatter::new();
    assert_eq!(f.format_user_input(""), "\x1b[2m> \x1b[0m");
    let one = f.format_user_input("hello");
    assert!(one.starts_with("\x1b[2m> \x1b[0m"));
    assert!(one.contains("hello"));
    assert_eq!(f.format_user_input("first\n  \n"), "\x1b[2m> first\x1b[0m");
    let many = f.format_user_input("first\nsecond\nthird");
    assert!(many.starts_with("\x1b[2m> first\x1b[0m\n  "));
    assert!(many.contains("second"));
    assert!(!many.ends_with('\n'));
    for line in many.lines().skip(1) {
        assert!(line.starts_with("  "));
    }
}

#[test]
fn events_are_shown_behind_a_line_feed_or_not_at_all() {
    let f = PrettyFormatter::new();
    for quiet in [
        AgentEvent::ThinkingStart,
        AgentEvent::ToolCallStarted { timestamp: 0, call: call("ls", JsonValue::Null) },
        AgentEvent::StatusChanged {
            old_status: PublicAgentState::Running,
            new_status: PublicAgentState::Paused,
        },
        AgentEvent::TokenUsage { input_tokens: 1, output_tokens: 2 },
    ] {
        assert_eq!(f.format_event(&quiet, None), None);
    }
    let ended = f
        .format_event(
            &AgentEvent::ToolCallCompleted {
                duration: 1,
                call: call("read", JsonValue::Null),
                result: ToolResult::error("e".to_string()),
            },
            None,
        )
        .unwrap();
    assert_eq!(
        ended,
        "\n\x1b[31m\u{25cf}\x1b[0m \x1b[1mRead\x1b[0m\n  \u{23bf} \x1b[2;31mError: e\x1b[0m"
    );
    let error = f.format_event(&AgentEvent::Error { error: "boom".to_string() }, None).unwrap();
    assert!(error.starts_with('\n') && error.contains("boom"));
    let done = f
        .format_event(&AgentEvent::Completed { success: true, message: "fine".to_string() }, None)
        .unwrap();
    assert!(done.starts_with('\n') && done.contains("Completed:") && done.contains("fine"));
    let failed = f
        .format_event(&AgentEvent::Completed { success: false, message: "sad".to_string() }, None)
        .unwrap();
    assert!(failed.contains("Failed:") && failed.contains("sad"));
    let said = f.format_event(&AgentEvent::UserInput { input: "hi".to_string() }, None).unwrap();
    assert!(said.starts_with("\n\x1b[2m> \x1b[0m"));
    assert_eq!(PrettyFormatter::error_markdown("x"), "\u{274c} **Error:** x");
    assert_eq!(PrettyFormatter::completion_markdown(true, "x"), "\u{2705} **Completed:** x");
    assert_eq!(PrettyFormatter::completion_markdown(false, "x"), "\u{274c} **Failed:** x");
}
