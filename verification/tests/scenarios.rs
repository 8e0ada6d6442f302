use shai_core::agent::actions::tools::{
    ToolBatch, ToolTask, ToolTaskAction, ToolTaskInput, ToolTaskState,
};
use shai_core::agent::agent::{AgentAction, AgentCore, AgentResult};
use shai_core::agent::brain::ThinkerDecision;
use shai_core::agent::builder::AgentBuilder;
use shai_core::agent::claims::ClaimManager;
use shai_core::agent::error::AgentError;
use shai_core::agent::events::{
    AgentEvent, InternalAgentEvent, PermissionRequest, PermissionResponse,
};
use shai_core::agent::protocol::{AgentRequest, AgentResponse};
use shai_core::agent::runloop::{AgentInput, LoopStep, TimedInput};
use shai_core::agent::states::{CancellationToken, InternalAgentState, PublicAgentState};
use shai_core::chat::{ChatMessage, ChatMessageContent, LlmToolCall, ToolCallMethod};
use shai_core::json::JsonValue;
use shai_core::tools::{ToolCall, ToolCapability, ToolResult, ToolSpec};

fn tool(name: &str, capabilities: Vec<ToolCapability>) -> ToolSpec {
    ToolSpec {
        name: name.to_string(),
        description: format!("the {} tool", name),
        parameters_schema: JsonValue::Object(vec![]),
        capabilities,
        group: Some("builtin".to_string()),
    }
}

fn call(id: &str, name: &str, arguments: &str) -> LlmToolCall {
    LlmToolCall { id: id.to_string(), name: name.to_string(), arguments: arguments.to_string() }
}

fn assistant_with_calls(calls: Vec<LlmToolCall>) -> ChatMessage {
    ChatMessage::Assistant {
        content: None,
        reasoning_content: None,
        refusal: None,
        name: None,
        tool_calls: Some(calls),
    }
}

fn brain_says(at: i64, decision: ThinkerDecision) -> TimedInput {
    TimedInput {
        at,
        input: AgentInput::Event(InternalAgentEvent::BrainResult { result: Ok(decision) }),
    }
}

fn events_of(actions: &[AgentAction]) -> Vec<AgentEvent> {
    let mut out = Vec::new();
    for a in actions {
        if let AgentAction::Emit(e) = a {
            out.push(e.clone());
        }
    }
    out
}

fn published(actions: &[ToolTaskAction]) -> Vec<AgentEvent> {
    let mut out = Vec::new();
    for a in actions {
        if let ToolTaskAction::Publish(e) = a {
            out.push(e.clone());
        }
    }
    out
}

fn processing(task: &str, at: i64) -> PublicAgentState {
    PublicAgentState::Processing { task_name: task.to_string(), tools_exec_at: at }
}

fn path_dot() -> JsonValue {
    JsonValue::Object(vec![("path".to_string(), JsonValue::String(".".to_string()))])
}

#[test]
fn echo_without_tools_pauses_after_one_answer() {
    let mut core = AgentBuilder::with_session_id("s1".to_string(), ())
        .with_traces(vec![ChatMessage::user("ping".to_string())])
        .build()
        .0;
    core.controller();
    core.watch();
    let feed = vec![brain_says(
        7,
        ThinkerDecision::agent_pause(ChatMessage::assistant("pong".to_string())),
    )];
    let (actions, ending) = core.start(&feed);
    assert_eq!(ending, None);
    assert_eq!(core.state, InternalAgentState::Paused);
    assert_eq!(
        events_of(&actions),
        vec![
            AgentEvent::StatusChanged {
                old_status: PublicAgentState::Starting,
                new_status: PublicAgentState::Running,
            },
            AgentEvent::ThinkingStart,
            AgentEvent::StatusChanged {
                old_status: PublicAgentState::Running,
                new_status: processing("next_step", 7),
            },
            AgentEvent::BrainResult {
                timestamp: 7,
                thought: Ok(ChatMessage::assistant("pong".to_string())),
            },
            AgentEvent::StatusChanged {
                old_status: processing("next_step", 7),
                new_status: PublicAgentState::Paused,
            },
        ]
    );
    assert_eq!(
        core.trace,
        vec![
            ChatMessage::user("ping".to_string()),
            ChatMessage::assistant("pong".to_string()),
        ]
    );
    let spawns: Vec<&AgentAction> =
        actions.iter().filter(|a| matches!(a, AgentAction::SpawnBrain { .. })).collect();
    assert_eq!(
        spawns,
        vec![&AgentAction::SpawnBrain {
            cancellation_token: CancellationToken { id: 0 },
            method: ToolCallMethod::FunctionCall,
        }]
    );
}

#[test]
fn echo_without_controller_completes_with_success() {
    let mut core = AgentBuilder::with_session_id("s1".to_string(), ())
        .goal("ping")
        .build()
        .0;
    let feed = vec![brain_says(
        1,
        ThinkerDecision::agent_pause(ChatMessage::assistant("pong".to_string())),
    )];
    let (actions, ending) = core.start(&feed);
    assert_eq!(
        ending,
        Some(Ok(AgentResult {
            success: true,
            message: "Agent completed".to_string(),
            trace: vec![
                ChatMessage::user("ping".to_string()),
                ChatMessage::assistant("pong".to_string()),
            ],
        }))
    );
    assert_eq!(core.state, InternalAgentState::Completed { success: true });
    // nobody listens: nothing is published
    assert_eq!(events_of(&actions), vec![]);
}

#[test]
fn single_read_tool_runs_without_permission_and_brain_thinks_again() {
    let tools = vec![tool("ls", vec![ToolCapability::Read])];
    let c1 = call("c1", "ls", "{\"path\":\".\"}");
    let mut core = AgentBuilder::with_session_id("s2".to_string(), ())
        .goal("list")
        .tools(tools.clone())
        .build()
        .0;
    core.controller();
    core.watch();
    let feed = vec![brain_says(
        10,
        ThinkerDecision::agent_continue(assistant_with_calls(vec![c1.clone()])),
    )];
    let (actions, ending) = core.start(&feed);
    assert_eq!(ending, None);
    assert_eq!(
        actions.last(),
        Some(&AgentAction::SpawnTools {
            cancellation_token: CancellationToken { id: 1 },
            calls: vec![c1.clone()],
        })
    );
    assert_eq!(core.state.to_public(), processing("tools", 10));

    let claims = ClaimManager::new();
    let mut task = ToolTask::new(c1.clone(), true);
    let resolved = ToolCall {
        tool_call_id: "c1".to_string(),
        tool_name: "ls".to_string(),
        parameters: path_dot(),
    };
    let begun = task.step_at(ToolTaskInput::Begin, &tools, &claims, 11, "r1".to_string());
    assert_eq!(
        begun,
        vec![
            ToolTaskAction::Publish(AgentEvent::ToolCallStarted {
                timestamp: 11,
                call: resolved.clone(),
            }),
            ToolTaskAction::Execute { tool: 0, parameters: path_dot() },
        ]
    );
    assert_eq!(task.state, ToolTaskState::Executing);
    let ended = task.step_at(
        ToolTaskInput::Executed(ToolResult::success("a\nb".to_string())),
        &tools,
        &claims,
        15,
        "r2".to_string(),
    );
    assert_eq!(
        ended,
        vec![
            ToolTaskAction::Append(ChatMessage::tool("c1".to_string(), "a\nb".to_string())),
            ToolTaskAction::Publish(AgentEvent::ToolCallCompleted {
                duration: 4,
                call: resolved,
                result: ToolResult::success("a\nb".to_string()),
            }),
        ]
    );
    assert_eq!(task.finished(), Some(false));
    for a in ended {
        let left = core.absorb(a);
        assert!(left.is_none() || matches!(left, Some(ToolTaskAction::Publish(_))));
    }
    assert_eq!(core.trace.len(), 3);
    assert_eq!(core.trace[2], ChatMessage::tool("c1".to_string(), "a\nb".to_string()));

    let mut batch = ToolBatch::new(1);
    assert_eq!(batch.completion(), None);
    batch.record(false);
    let done = batch.completion().unwrap();
    assert_eq!(done, InternalAgentEvent::ToolsCompleted { any_denied: false });
    let (moved, r) = core.handle_event(done, 16);
    assert!(r.is_ok());
    assert_eq!(core.state, InternalAgentState::Running);
    assert_eq!(
        events_of(&moved),
        vec![AgentEvent::StatusChanged {
            old_status: processing("tools", 10),
            new_status: PublicAgentState::Running,
        }]
    );
    let (none, step) = core.poll();
    assert!(none.is_empty());
    assert_eq!(step, LoopStep::PollCommand);
    let (again, _) = core.handle_event(InternalAgentEvent::ThinkingStart, 17);
    assert_eq!(
        again.last(),
        Some(&AgentAction::SpawnBrain {
            cancellation_token: CancellationToken { id: 2 },
            method: ToolCallMethod::FunctionCall,
        })
    );
}

#[test]
fn denied_permission_ends_the_call_denied_and_pauses_the_agent() {
    let tools = vec![tool("write", vec![ToolCapability::Write])];
    let c1 = call("w1", "write", "{\"path\":\"/a\"}");
    let claims = ClaimManager::new();
    let mut task = ToolTask::new(c1, true);
    let params = JsonValue::Object(vec![(
        "path".to_string(),
        JsonValue::String("/a".to_string()),
    )]);
    let resolved = ToolCall {
        tool_call_id: "w1".to_string(),
        tool_name: "write".to_string(),
        parameters: params.clone(),
    };
    let begun = task.step_at(ToolTaskInput::Begin, &tools, &claims, 100, "unused".to_string());
    assert_eq!(
        begun,
        vec![
            ToolTaskAction::Publish(AgentEvent::ToolCallStarted {
                timestamp: 100,
                call: resolved.clone(),
            }),
            ToolTaskAction::Preview { tool: 0, parameters: params.clone() },
        ]
    );
    let asked = task.step_at(ToolTaskInput::Preview(None), &tools, &claims, 101, "req-1".to_string());
    assert_eq!(
        asked,
        vec![ToolTaskAction::Publish(AgentEvent::PermissionRequired {
            request_id: "req-1".to_string(),
            request: PermissionRequest {
                tool_name: "write".to_string(),
                operation: "do you want to run this tool?".to_string(),
                call: resolved.clone(),
                preview: None,
            },
        })]
    );
    assert_eq!(task.state, ToolTaskState::AwaitingPermission { request_id: "req-1".to_string() });
    // an answer to another request is passed over
    let other = task.step_at(
        ToolTaskInput::Internal(InternalAgentEvent::PermissionResponseReceived {
            request_id: "req-2".to_string(),
            response: PermissionResponse::Allow,
        }),
        &tools,
        &claims,
        102,
        "x".to_string(),
    );
    assert!(other.is_empty());
    let ended = task.step_at(
        ToolTaskInput::Internal(InternalAgentEvent::PermissionResponseReceived {
            request_id: "req-1".to_string(),
            response: PermissionResponse::Deny,
        }),
        &tools,
        &claims,
        130,
        "x".to_string(),
    );
    assert_eq!(
        ended,
        vec![
            ToolTaskAction::Append(ChatMessage::tool(
                "w1".to_string(),
                "The tool call was rejected by the user".to_string(),
            )),
            ToolTaskAction::Publish(AgentEvent::ToolCallCompleted {
                duration: 30,
                call: resolved,
                result: ToolResult::Denied,
            }),
        ]
    );
    assert_eq!(task.finished(), Some(true));
    let all: Vec<AgentEvent> =
        [published(&begun), published(&asked), published(&ended)].concat();
    let questions =
        all.iter().filter(|e| matches!(e, AgentEvent::PermissionRequired { .. })).count();
    assert_eq!(questions, 1);

    let mut batch = ToolBatch::new(1);
    batch.record(true);
    let done = batch.completion().unwrap();
    assert_eq!(done, InternalAgentEvent::ToolsCompleted { any_denied: true });
    let mut core = AgentCore::new("s3".to_string(), vec![], tools, ClaimManager::new());
    core.state = InternalAgentState::Processing {
        task_name: "tools".to_string(),
        tools_exec_at: 99,
        cancellation_token: CancellationToken { id: 4 },
    };
    let _ = core.handle_event(done, 131);
    assert_eq!(core.state, InternalAgentState::Paused);
}

#[test]
fn stopping_during_a_tool_reports_cancellation_and_pauses() {
    let tools = vec![tool("ls", vec![ToolCapability::Read])];
    let c1 = call("c1", "ls", "{}");
    let mut core = AgentBuilder::with_session_id("s4".to_string(), ())
        .goal("go")
        .tools(tools.clone())
        .build()
        .0;
    core.controller();
    core.watch();
    let feed = vec![brain_says(
        0,
        ThinkerDecision::agent_continue(assistant_with_calls(vec![c1.clone()])),
    )];
    let _ = core.start(&feed);
    let claims = ClaimManager::new();
    let mut task = ToolTask::new(c1, true);
    let _ = task.step_at(ToolTaskInput::Begin, &tools, &claims, 0, "x".to_string());
    assert_eq!(task.state, ToolTaskState::Executing);

    let actions = core.handle_command(AgentRequest::StopCurrentTask, 50);
    assert_eq!(
        actions,
        vec![
            AgentAction::Cancel { cancellation_token: CancellationToken { id: 1 } },
            AgentAction::Emit(AgentEvent::StatusChanged {
                old_status: processing("tools", 0),
                new_status: PublicAgentState::Paused,
            }),
            AgentAction::Emit(AgentEvent::StatusChanged {
                old_status: PublicAgentState::Paused,
                new_status: PublicAgentState::Paused,
            }),
            AgentAction::Reply(AgentResponse::Ack),
        ]
    );
    assert_eq!(core.state, InternalAgentState::Paused);

    let ended = task.step_at(ToolTaskInput::Cancelled, &tools, &claims, 60, "x".to_string());
    let cancelled = ToolResult::error("cancelled by user".to_string());
    assert_eq!(
        ended,
        vec![
            ToolTaskAction::Append(ChatMessage::tool(
                "c1".to_string(),
                "The tool failed with the following error: cancelled by user".to_string(),
            )),
            ToolTaskAction::Publish(AgentEvent::ToolCallCompleted {
                duration: 60,
                call: ToolCall {
                    tool_call_id: "c1".to_string(),
                    tool_name: "ls".to_string(),
                    parameters: JsonValue::Object(vec![]),
                },
                result: cancelled,
            }),
        ]
    );
    assert_eq!(task.finished(), Some(false));
    // a late result of the tool changes nothing
    let late = task.step_at(
        ToolTaskInput::Executed(ToolResult::success("late".to_string())),
        &tools,
        &claims,
        70,
        "x".to_string(),
    );
    assert!(late.is_empty());
    // a late answer of the brain is dropped by the paused agent
    let before = core.trace.clone();
    let (none, r) = core.handle_event(
        InternalAgentEvent::BrainResult {
            result: Ok(ThinkerDecision::agent_pause(ChatMessage::assistant("late".to_string()))),
        },
        71,
    );
    assert!(none.is_empty());
    assert!(r.is_ok());
    assert_eq!(core.trace, before);
    assert_eq!(core.state, InternalAgentState::Paused);
}

#[test]
fn three_parallel_tools_with_one_error_let_the_agent_run_on() {
    let tools = vec![
        tool("ls", vec![ToolCapability::Read]),
        tool("read", vec![ToolCapability::Read]),
        tool("find", vec![]),
    ];
    let calls = vec![call("a", "ls", "{}"), call("b", "read", "{}"), call("c", "find", "{}")];
    let mut core = AgentBuilder::with_session_id("s5".to_string(), ())
        .goal("go")
        .tools(tools.clone())
        .build()
        .0;
    core.controller();
    core.watch();
    let feed = vec![brain_says(
        0,
        ThinkerDecision::agent_continue(assistant_with_calls(calls.clone())),
    )];
    let _ = core.start(&feed);
    let claims = ClaimManager::new();
    let mut tasks: Vec<ToolTask> =
        calls.iter().map(|c| ToolTask::new(c.clone(), true)).collect();
    let mut seen: Vec<AgentEvent> = Vec::new();
    for t in tasks.iter_mut() {
        seen.extend(published(&t.step_at(ToolTaskInput::Begin, &tools, &claims, 1, "x".to_string())));
    }
    // the calls end in another order than they were listed
    let results = vec![
        (2usize, ToolResult::success("found".to_string())),
        (0usize, ToolResult::error("boom".to_string())),
        (1usize, ToolResult::success("text".to_string())),
    ];
    let mut batch = ToolBatch::new(3);
    for (i, result) in results {
        let actions = tasks[i].step_at(
            ToolTaskInput::Executed(result),
            &tools,
            &claims,
            2,
            "x".to_string(),
        );
        seen.extend(published(&actions));
        for a in actions {
            let _ = core.absorb(a);
        }
        batch.record(tasks[i].finished().unwrap());
    }
    for id in ["a", "b", "c"] {
        let started = seen
            .iter()
            .filter(|e| matches!(e, AgentEvent::ToolCallStarted { call, .. } if call.tool_call_id == id))
            .count();
        let completed = seen
            .iter()
            .filter(|e| matches!(e, AgentEvent::ToolCallCompleted { call, .. } if call.tool_call_id == id))
            .count();
        assert_eq!((started, completed), (1, 1));
    }
    assert!(!seen.iter().any(|e| matches!(e, AgentEvent::PermissionRequired { .. })));
    let tool_messages: Vec<&ChatMessage> =
        core.trace.iter().filter(|m| matches!(m, ChatMessage::Tool { .. })).collect();
    assert_eq!(
        tool_messages,
        vec![
            &ChatMessage::tool("c".to_string(), "found".to_string()),
            &ChatMessage::tool(
                "a".to_string(),
                "The tool failed with the following error: boom".to_string()
            ),
            &ChatMessage::tool("b".to_string(), "text".to_string()),
        ]
    );
    let done = batch.completion().unwrap();
    assert_eq!(done, InternalAgentEvent::ToolsCompleted { any_denied: false });
    let _ = core.handle_event(done, 3);
    assert_eq!(core.state, InternalAgentState::Running);
}

#[test]
fn wait_turn_is_acknowledged_only_once_the_agent_pauses() {
    let (mut core, _) = AgentBuilder::with_session_id("s6".to_string(), ()).build();
    core.controller();
    let feed = vec![
        TimedInput {
            at: 1,
            input: AgentInput::Command(AgentRequest::SendUserInput { input: "go".to_string() }),
        },
        TimedInput { at: 2, input: AgentInput::Command(AgentRequest::WaitTurn) },
        brain_says(3, ThinkerDecision::agent_pause(ChatMessage::assistant("done".to_string()))),
    ];
    let (actions, ending) = core.start(&feed);
    assert_eq!(ending, None);
    assert_eq!(core.state, InternalAgentState::Paused);
    // the command is taken while the agent runs: it is left to a watcher
    let replies: Vec<&AgentAction> = actions
        .iter()
        .filter(|a| matches!(a, AgentAction::Reply(_) | AgentAction::WatchTurn))
        .collect();
    assert_eq!(replies, vec![&AgentAction::Reply(AgentResponse::Ack), &AgentAction::WatchTurn]);
    // the watcher follows the events published after its start
    let at = actions.iter().position(|a| matches!(a, AgentAction::WatchTurn)).unwrap();
    let later: Vec<AgentEvent> = events_of(&actions[at..]);
    let mut verdicts = Vec::new();
    for e in &later {
        verdicts.push(AgentCore::wait_turn_verdict(e));
    }
    let first = verdicts.iter().position(|v| v.is_some()).unwrap();
    assert_eq!(verdicts[first], Some(AgentResponse::Ack));
    assert!(matches!(
        &later[first],
        AgentEvent::StatusChanged { new_status: PublicAgentState::Paused, .. }
    ));
    assert_eq!(first, later.len() - 1);
}

#[test]
fn wait_turn_on_a_paused_agent_is_acknowledged_at_once() {
    let (mut core, _) = AgentBuilder::with_session_id("s6".to_string(), ()).build();
    core.controller();
    let (_, ending) = core.start(&vec![]);
    assert_eq!(ending, None);
    assert_eq!(core.state, InternalAgentState::Paused);
    let actions = core.handle_command(AgentRequest::WaitTurn, 9);
    assert_eq!(actions, vec![AgentAction::Reply(AgentResponse::Ack)]);
    assert!(core.socket.event);
}

#[test]
fn brain_failure_pauses_the_agent_and_is_published() {
    let (mut core, _) = AgentBuilder::with_session_id("s7".to_string(), ()).goal("go").build();
    core.controller();
    core.watch();
    let feed = vec![TimedInput {
        at: 4,
        input: AgentInput::Event(InternalAgentEvent::BrainResult {
            result: Err(AgentError::LlmError("down".to_string())),
        }),
    }];
    let (actions, ending) = core.start(&feed);
    assert_eq!(ending, None);
    assert_eq!(core.state, InternalAgentState::Paused);
    let events = events_of(&actions);
    assert_eq!(
        &events[events.len() - 2..],
        &[
            AgentEvent::StatusChanged {
                old_status: processing("next_step", 4),
                new_status: PublicAgentState::Paused,
            },
            AgentEvent::BrainResult {
                timestamp: 4,
                thought: Err(AgentError::LlmError("down".to_string())),
            },
        ]
    );
    assert_eq!(core.trace, vec![ChatMessage::user("go".to_string())]);
}

#[test]
fn message_of_another_role_from_the_brain_is_an_invalid_response() {
    let mut core = AgentCore::new("s".to_string(), vec![], vec![], ClaimManager::new());
    core.state = InternalAgentState::Processing {
        task_name: "next_step".to_string(),
        tools_exec_at: 0,
        cancellation_token: CancellationToken { id: 0 },
    };
    let (_, r) = core.process_next_step_at(
        Ok(ThinkerDecision::new(ChatMessage::user("hm".to_string()))),
        1,
    );
    assert_eq!(
        r,
        Err(AgentError::InvalidResponse(
            "ChatMessage::Assistant expected, but got a message of another role instead: user"
                .to_string()
        ))
    );
    assert_eq!(core.state, InternalAgentState::Paused);
    assert!(core.trace.is_empty());
}

#[test]
fn token_usage_is_published_after_the_thought() {
    let mut core = AgentCore::new("s".to_string(), vec![], vec![], ClaimManager::new());
    core.watch();
    core.state = InternalAgentState::Processing {
        task_name: "next_step".to_string(),
        tools_exec_at: 0,
        cancellation_token: CancellationToken { id: 0 },
    };
    let (actions, r) = core.process_next_step_at(
        Ok(ThinkerDecision::agent_continue_with_tokens(
            ChatMessage::assistant("hi".to_string()),
            12,
            34,
        )),
        5,
    );
    assert!(r.is_ok());
    assert_eq!(
        events_of(&actions),
        vec![
            AgentEvent::BrainResult {
                timestamp: 5,
                thought: Ok(ChatMessage::assistant("hi".to_string())),
            },
            AgentEvent::TokenUsage { input_tokens: 12, output_tokens: 34 },
            AgentEvent::StatusChanged {
                old_status: processing("next_step", 0),
                new_status: PublicAgentState::Running,
            },
        ]
    );
    assert_eq!(core.state, InternalAgentState::Running);
    let content = match &core.trace[0] {
        ChatMessage::Assistant { content: Some(ChatMessageContent::Text(t)), .. } => t.clone(),
        _ => String::new(),
    };
    assert_eq!(content, "hi");
}

fn answers_known_calls(trace: &[ChatMessage]) -> bool {
    trace.iter().enumerate().all(|(i, m)| match m {
        ChatMessage::Tool { tool_call_id, .. } => trace[..i].iter().any(|earlier| match earlier {
            ChatMessage::Assistant { tool_calls: Some(calls), .. } => {
                calls.iter().any(|c| &c.id == tool_call_id)
            }
            _ => false,
        }),
        _ => true,
    })
}

#[test]
fn tool_messages_always_answer_a_call_listed_before() {
    let tools = vec![tool("ls", vec![ToolCapability::Read]), tool("rm", vec![ToolCapability::Write])];
    let calls = vec![call("a", "ls", "{}"), call("b", "rm", "{}"), call("c", "nope", "{}")];
    let mut core = AgentBuilder::with_session_id("s".to_string(), ())
        .goal("go")
        .tools(tools.clone())
        .build()
        .0;
    core.controller();
    core.watch();
    let _ = core.start(&vec![brain_says(
        0,
        ThinkerDecision::agent_continue(assistant_with_calls(calls.clone())),
    )]);
    assert!(answers_known_calls(&core.trace));
    let mut tasks: Vec<ToolTask> = calls.iter().map(|c| ToolTask::new(c.clone(), true)).collect();
    // the user speaks while the tools are at work: the calls are cancelled
    let mut inputs = vec![
        (1usize, ToolTaskInput::Begin),
        (0usize, ToolTaskInput::Begin),
        (2usize, ToolTaskInput::Begin),
        (0usize, ToolTaskInput::Executed(ToolResult::success("x".to_string()))),
    ];
    for (i, input) in inputs.drain(..) {
        for a in tasks[i].step_at(input, &tools, &core.permissions, 1, "q".to_string()) {
            let _ = core.absorb(a);
        }
        assert!(answers_known_calls(&core.trace));
    }
    let _ = core.handle_command(AgentRequest::SendUserInput { input: "wait".to_string() }, 2);
    assert!(answers_known_calls(&core.trace));
    for a in tasks[1].step_at(ToolTaskInput::Cancelled, &tools, &core.permissions, 3, "q".to_string()) {
        let _ = core.absorb(a);
    }
    assert!(answers_known_calls(&core.trace));
    assert_eq!(
        core.trace.last(),
        Some(&ChatMessage::tool(
            "b".to_string(),
            "The tool failed with the following error: cancelled by user".to_string()
        ))
    );
    // the call that could not be read is answered too, and was never started
    assert!(core.trace.contains(&ChatMessage::tool(
        "c".to_string(),
        "The tool failed with the following error: tool not found: nope".to_string()
    )));
    assert_eq!(tasks[2].finished(), Some(false));
}
