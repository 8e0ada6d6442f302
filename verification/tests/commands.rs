use shai_core::agent::agent::{AgentAction, AgentCore, AgentSocket, ChannelState};
use shai_core::agent::claims::ClaimManager;
use shai_core::agent::error::AgentError;
use shai_core::agent::events::{
    AgentEvent, InternalAgentEvent, PermissionResponse, UserResponse,
};
use shai_core::agent::protocol::{AgentController, AgentRequest, AgentResponse, SendOutcome};
use shai_core::agent::runloop::{AgentInput, LoopStep, TimedInput};
use shai_core::agent::states::{CancellationToken, InternalAgentState, PublicAgentState};
use shai_core::chat::{ChatMessage, ToolCallMethod};

fn core_in(state: InternalAgentState) -> AgentCore {
    let mut core = AgentCore::new("s".to_string(), vec![], vec![], ClaimManager::new());
    core.controller();
    core.watch();
    core.state = state;
    core
}

fn at_work(id: u64) -> InternalAgentState {
    InternalAgentState::Processing {
        task_name: "next_step".to_string(),
        tools_exec_at: 3,
        cancellation_token: CancellationToken { id },
    }
}

fn first_event(actions: &[AgentAction]) -> Option<AgentEvent> {
    actions.iter().find_map(|a| match a {
        AgentAction::Emit(e) => Some(e.clone()),
        _ => None,
    })
}

#[test]
fn new_agent_starts_without_channels() {
    let core = AgentCore::new("sid".to_string(), vec![], vec![], ClaimManager::new());
    assert_eq!(core.state, InternalAgentState::Starting);
    assert_eq!(core.socket, AgentSocket { command: ChannelState::Absent, event: false });
    assert_eq!(core.method, ToolCallMethod::FunctionCall);
    assert!(!core.has_io());
    assert_eq!(core.session_id, "sid");
}

#[test]
fn initialised_agent_runs_only_if_the_user_spoke_last() {
    let mut a = AgentCore::new(
        "s".to_string(),
        vec![ChatMessage::assistant("hi".to_string()), ChatMessage::user("go".to_string())],
        vec![],
        ClaimManager::new(),
    );
    let _ = a.handle_event(InternalAgentEvent::AgentInitialized, 0);
    assert_eq!(a.state, InternalAgentState::Running);
    let mut b = AgentCore::new(
        "s".to_string(),
        vec![ChatMessage::user("go".to_string()), ChatMessage::assistant("hi".to_string())],
        vec![],
        ClaimManager::new(),
    );
    let _ = b.handle_event(InternalAgentEvent::AgentInitialized, 0);
    assert_eq!(b.state, InternalAgentState::Paused);
    let mut c = AgentCore::new("s".to_string(), vec![], vec![], ClaimManager::new());
    let _ = c.handle_event(InternalAgentEvent::AgentInitialized, 0);
    assert_eq!(c.state, InternalAgentState::Paused);
}

#[test]
fn starting_handler_refuses_another_state() {
    let mut core = core_in(InternalAgentState::Paused);
    let (actions, r) = core.state_starting_handle_event(InternalAgentEvent::AgentInitialized);
    assert!(actions.is_empty());
    assert_eq!(
        r,
        Err(AgentError::InvalidState(
            "state Starting expected but current state is : Paused".to_string()
        ))
    );
    assert_eq!(core.state, InternalAgentState::Paused);
}

#[test]
fn events_that_a_state_does_not_hear_change_nothing() {
    let cases = vec![
        (InternalAgentState::Starting, InternalAgentEvent::ThinkingStart),
        (InternalAgentState::Running, InternalAgentEvent::ToolsCompleted { any_denied: false }),
        (InternalAgentState::Running, InternalAgentEvent::CancelTask),
        (InternalAgentState::Paused, InternalAgentEvent::ThinkingStart),
        (InternalAgentState::Paused, InternalAgentEvent::ToolsCompleted { any_denied: true }),
        (at_work(1), InternalAgentEvent::ThinkingStart),
        (at_work(1), InternalAgentEvent::AgentInitialized),
        (
            at_work(1),
            InternalAgentEvent::PermissionResponseReceived {
                request_id: "r".to_string(),
                response: PermissionResponse::Allow,
            },
        ),
        (InternalAgentState::Completed { success: true }, InternalAgentEvent::ThinkingStart),
        (InternalAgentState::Failed { error: "e".to_string() }, InternalAgentEvent::CancelTask),
    ];
    for (state, event) in cases {
        let mut core = core_in(state.clone());
        let (actions, r) = core.handle_event(event, 9);
        assert!(actions.is_empty());
        assert!(r.is_ok());
        assert_eq!(core.state, state);
    }
}

#[test]
fn tools_completed_moves_to_running_or_paused() {
    let mut a = core_in(at_work(1));
    let _ = a.handle_event(InternalAgentEvent::ToolsCompleted { any_denied: false }, 9);
    assert_eq!(a.state, InternalAgentState::Running);
    let mut b = core_in(at_work(1));
    let _ = b.handle_event(InternalAgentEvent::ToolsCompleted { any_denied: true }, 9);
    assert_eq!(b.state, InternalAgentState::Paused);
}

#[test]
fn get_state_shows_the_state_without_the_handle() {
    let mut core = core_in(at_work(8));
    let actions = core.handle_command(AgentRequest::GetState, 0);
    assert_eq!(
        actions,
        vec![AgentAction::Reply(AgentResponse::State {
            state: PublicAgentState::Processing {
                task_name: "next_step".to_string(),
                tools_exec_at: 3,
            },
        })]
    );
    assert_eq!(core.state, at_work(8));
}

#[test]
fn sudo_command_sets_and_reports() {
    let mut core = core_in(InternalAgentState::Paused);
    assert_eq!(
        core.handle_command(AgentRequest::Sudo(None), 0),
        vec![AgentAction::Reply(AgentResponse::SudoStatus { enabled: false })]
    );
    assert_eq!(
        core.handle_command(AgentRequest::Sudo(Some(true)), 0),
        vec![AgentAction::Reply(AgentResponse::SudoStatus { enabled: true })]
    );
    assert!(core.is_sudo());
    assert_eq!(
        core.handle_command(AgentRequest::Sudo(None), 0),
        vec![AgentAction::Reply(AgentResponse::SudoStatus { enabled: true })]
    );
    assert_eq!(
        core.handle_command(AgentRequest::Sudo(Some(false)), 0),
        vec![AgentAction::Reply(AgentResponse::SudoStatus { enabled: false })]
    );
    core.sudo();
    assert!(core.is_sudo());
    core.no_sudo();
    assert!(!core.is_sudo());
}

#[test]
fn switch_method_sets_and_reports() {
    let mut core = core_in(InternalAgentState::Paused);
    assert_eq!(
        core.handle_command(AgentRequest::SwitchToolCallMethod { method: None }, 0),
        vec![AgentAction::Reply(AgentResponse::Method { method: ToolCallMethod::FunctionCall })]
    );
    assert_eq!(
        core.handle_command(
            AgentRequest::SwitchToolCallMethod { method: Some(ToolCallMethod::StructuredOutput) },
            0
        ),
        vec![AgentAction::Reply(AgentResponse::Method {
            method: ToolCallMethod::StructuredOutput
        })]
    );
    assert_eq!(core.method, ToolCallMethod::StructuredOutput);
}

#[test]
fn terminate_at_work_fires_the_handle_and_completes_without_success() {
    let mut core = core_in(at_work(5));
    let actions = core.handle_command(AgentRequest::Terminate, 0);
    assert_eq!(actions[0], AgentAction::Cancel { cancellation_token: CancellationToken { id: 5 } });
    assert!(matches!(
        first_event(&actions),
        Some(AgentEvent::StatusChanged { new_status: PublicAgentState::Paused, .. })
    ));
    assert_eq!(actions.last(), Some(&AgentAction::Reply(AgentResponse::Ack)));
    assert_eq!(core.state, InternalAgentState::Completed { success: false });
    let (none, step) = core.poll();
    assert!(none.is_empty());
    assert!(matches!(step, LoopStep::Finished(Ok(r)) if !r.success && r.message == "Agent completed"));
}

#[test]
fn send_user_input_publishes_the_input_and_runs() {
    let mut core = core_in(InternalAgentState::Paused);
    let actions = core.handle_command(AgentRequest::SendUserInput { input: "hello".to_string() }, 0);
    assert_eq!(
        actions,
        vec![
            AgentAction::Emit(AgentEvent::UserInput { input: "hello".to_string() }),
            AgentAction::Emit(AgentEvent::StatusChanged {
                old_status: PublicAgentState::Paused,
                new_status: PublicAgentState::Running,
            }),
            AgentAction::Reply(AgentResponse::Ack),
        ]
    );
    assert_eq!(core.trace, vec![ChatMessage::user("hello".to_string())]);
    assert_eq!(core.state, InternalAgentState::Running);
}

#[test]
fn send_trace_extends_the_conversation_in_order() {
    let mut core = core_in(InternalAgentState::Paused);
    core.trace.push(ChatMessage::user("a".to_string()));
    let actions = core.handle_command(
        AgentRequest::SendTrace {
            messages: vec![
                ChatMessage::assistant("b".to_string()),
                ChatMessage::user("c".to_string()),
            ],
        },
        0,
    );
    assert!(matches!(
        first_event(&actions),
        Some(AgentEvent::StatusChanged { new_status: PublicAgentState::Running, .. })
    ));
    assert_eq!(
        core.trace,
        vec![
            ChatMessage::user("a".to_string()),
            ChatMessage::assistant("b".to_string()),
            ChatMessage::user("c".to_string()),
        ]
    );
}

#[test]
fn answers_of_the_user_are_forwarded_to_the_tasks() {
    let mut core = core_in(at_work(1));
    assert_eq!(
        core.handle_command(
            AgentRequest::UserPermissionResponse {
                request_id: "r".to_string(),
                response: PermissionResponse::Forbidden,
            },
            0
        ),
        vec![
            AgentAction::Forward(InternalAgentEvent::PermissionResponseReceived {
                request_id: "r".to_string(),
                response: PermissionResponse::Forbidden,
            }),
            AgentAction::Reply(AgentResponse::Ack),
        ]
    );
    assert_eq!(
        core.handle_command(
            AgentRequest::UserQueryResponse {
                request_id: "q".to_string(),
                response: UserResponse::Choice(2),
            },
            0
        ),
        vec![
            AgentAction::Forward(InternalAgentEvent::UserResponseReceived {
                request_id: "q".to_string(),
                response: UserResponse::Choice(2),
            }),
            AgentAction::Reply(AgentResponse::Ack),
        ]
    );
    assert_eq!(core.state, at_work(1));
}

#[test]
fn droping_closes_the_channel_and_a_waiting_agent_then_completes() {
    let mut core = core_in(InternalAgentState::Paused);
    assert_eq!(
        core.handle_command(AgentRequest::Droping, 0),
        vec![AgentAction::CloseCommands, AgentAction::Reply(AgentResponse::Ack)]
    );
    assert!(!core.has_io());
    assert_eq!(core.socket.command, ChannelState::Closed);
    // a closed channel is not opened again
    core.controller();
    assert!(!core.has_io());
    assert_eq!(
        core.handle_command(AgentRequest::Droping, 0),
        vec![AgentAction::Reply(AgentResponse::Ack)]
    );
    let (actions, step) = core.poll();
    assert_eq!(
        actions,
        vec![AgentAction::Emit(AgentEvent::StatusChanged {
            old_status: PublicAgentState::Paused,
            new_status: PublicAgentState::Completed { success: true },
        })]
    );
    assert!(matches!(step, LoopStep::Finished(Ok(r)) if r.success));
}

#[test]
fn ended_agent_refuses_what_would_stop_or_feed_it() {
    for command in [
        AgentRequest::Terminate,
        AgentRequest::StopCurrentTask,
        AgentRequest::SendUserInput { input: "x".to_string() },
        AgentRequest::SendTrace { messages: vec![ChatMessage::user("y".to_string())] },
    ] {
        let mut core = core_in(InternalAgentState::Completed { success: true });
        let actions = core.handle_command(command, 0);
        assert_eq!(
            actions,
            vec![AgentAction::Reply(AgentResponse::Error {
                error: "Invalid state: the agent has terminated".to_string(),
            })]
        );
        assert_eq!(core.state, InternalAgentState::Completed { success: true });
        assert!(core.trace.is_empty());
    }
}

#[test]
fn failed_agent_makes_the_loop_return_its_error() {
    let mut core = core_in(InternalAgentState::Failed { error: "disk".to_string() });
    let (_, step) = core.poll();
    assert_eq!(step, LoopStep::Finished(Err(AgentError::ExecutionError("disk".to_string()))));
}

#[test]
fn closed_bus_ends_the_run_with_an_invalid_state() {
    let mut core = AgentCore::new("s".to_string(), vec![], vec![], ClaimManager::new());
    core.controller();
    let (_, ending) = core.start(&vec![TimedInput { at: 0, input: AgentInput::BusClosed }]);
    assert_eq!(
        ending,
        Some(Err(AgentError::InvalidState("internal event bus should not be closed".to_string())))
    );
    assert_eq!(AgentCore::bus_closed().to_string(), "Invalid state: internal event bus should not be closed");
}

#[test]
fn run_without_terminate_does_not_end_while_a_controller_is_there() {
    let mut core = AgentCore::new(
        "s".to_string(),
        vec![ChatMessage::user("go".to_string())],
        vec![],
        ClaimManager::new(),
    );
    core.controller();
    let feed = vec![
        TimedInput { at: 1, input: AgentInput::Command(AgentRequest::StopCurrentTask) },
        TimedInput { at: 2, input: AgentInput::Command(AgentRequest::GetState) },
        TimedInput {
            at: 3,
            input: AgentInput::Command(AgentRequest::SendUserInput { input: "x".to_string() }),
        },
        TimedInput { at: 4, input: AgentInput::Event(InternalAgentEvent::CancelTask) },
    ];
    let (_, ending) = core.start(&feed);
    assert_eq!(ending, None);
    assert!(!core.state.is_terminal());
    let (_, ending) = core.start(&vec![TimedInput {
        at: 5,
        input: AgentInput::Command(AgentRequest::Terminate),
    }]);
    assert!(matches!(ending, Some(Ok(r)) if !r.success));
}

#[test]
fn watcher_answers_on_pause_and_on_the_end_only() {
    let ev = |new_status: PublicAgentState| AgentEvent::StatusChanged {
        old_status: PublicAgentState::Running,
        new_status,
    };
    assert_eq!(AgentCore::wait_turn_verdict(&ev(PublicAgentState::Paused)), Some(AgentResponse::Ack));
    for ended in [
        PublicAgentState::Completed { success: true },
        PublicAgentState::Failed { error: "e".to_string() },
        PublicAgentState::Cancelled,
    ] {
        assert_eq!(
            AgentCore::wait_turn_verdict(&ev(ended)),
            Some(AgentResponse::Error {
                error: "Agent finished before reaching Paused state".to_string()
            })
        );
    }
    assert_eq!(AgentCore::wait_turn_verdict(&ev(PublicAgentState::Running)), None);
    assert_eq!(
        AgentCore::wait_turn_verdict(&ev(PublicAgentState::Processing {
            task_name: "tools".to_string(),
            tools_exec_at: 0
        })),
        None
    );
    assert_eq!(AgentCore::wait_turn_verdict(&AgentEvent::ThinkingStart), None);
    assert_eq!(
        AgentCore::wait_turn_lost(),
        AgentResponse::Error { error: "Event channel closed".to_string() }
    );
}

#[test]
fn controller_reads_each_answer_or_reports_the_wrong_kind() {
    assert_eq!(
        AgentController::get_state(AgentResponse::State { state: PublicAgentState::Paused }),
        Ok(PublicAgentState::Paused)
    );
    assert_eq!(
        AgentController::get_state(AgentResponse::Ack),
        Err(AgentError::InvalidResponse("Expected State response".to_string()))
    );
    assert_eq!(
        AgentController::set_method(AgentResponse::Method {
            method: ToolCallMethod::FunctionCallRequired
        }),
        Ok(ToolCallMethod::FunctionCallRequired)
    );
    assert_eq!(
        AgentController::set_method(AgentResponse::Ack),
        Err(AgentError::InvalidResponse("Expected Method response".to_string()))
    );
    assert_eq!(AgentController::is_sudo(AgentResponse::SudoStatus { enabled: true }), Ok(true));
    assert_eq!(
        AgentController::is_sudo(AgentResponse::Ack),
        Err(AgentError::InvalidResponse("Expected SudoStatus response".to_string()))
    );
    assert_eq!(AgentController::wait_turn(AgentResponse::Ack), Ok(()));
    assert_eq!(
        AgentController::wait_turn(AgentResponse::Error { error: "gone".to_string() }),
        Err(AgentError::ExecutionError("gone".to_string()))
    );
    assert_eq!(
        AgentController::wait_turn(AgentResponse::SudoStatus { enabled: false }),
        Err(AgentError::InvalidResponse("Expected Ack response for WaitTurn".to_string()))
    );
}

#[test]
fn controller_maps_how_sending_went() {
    assert_eq!(AgentController::timeout_ms(), 1000);
    assert_eq!(AgentController::send(SendOutcome::NotSent), Err(AgentError::SessionClosed));
    assert_eq!(AgentController::send(SendOutcome::TimedOut), Err(AgentError::TimeoutError));
    assert_eq!(
        AgentController::send(SendOutcome::Unanswered),
        Err(AgentError::ExecutionError("Command response channel closed".to_string()))
    );
    assert_eq!(
        AgentController::send(SendOutcome::Answered(AgentResponse::Ack)),
        Ok(AgentResponse::Ack)
    );
}

#[test]
fn errors_are_spelled_out() {
    assert_eq!(AgentError::LlmError("x".to_string()).to_string(), "LLM error: x");
    assert_eq!(AgentError::InvalidResponse("x".to_string()).to_string(), "Invalid response: x");
    assert_eq!(AgentError::InvalidState("x".to_string()).to_string(), "Invalid state: x");
    assert_eq!(AgentError::ExecutionError("x".to_string()).to_string(), "Execution error: x");
    assert_eq!(
        AgentError::ConfigurationError("x".to_string()).to_string(),
        "Configuration error: x"
    );
    assert_eq!(AgentError::SessionClosed.to_string(), "Session closed");
    assert_eq!(AgentError::TimeoutError.to_string(), "Timeout");
}

#[test]
fn spawn_with_the_clock_stamps_the_state() {
    let mut core = core_in(InternalAgentState::Running);
    let actions = core.spawn_next_step();
    match &core.state {
        InternalAgentState::Processing { task_name, tools_exec_at, cancellation_token } => {
            assert_eq!(task_name, "next_step");
            assert!(*tools_exec_at > 1_600_000_000_000);
            assert_eq!(*cancellation_token, CancellationToken { id: 0 });
        }
        other => panic!("unexpected state {:?}", other),
    }
    assert_eq!(
        actions.last(),
        Some(&AgentAction::SpawnBrain {
            cancellation_token: CancellationToken { id: 0 },
            method: ToolCallMethod::FunctionCall,
        })
    );
}
