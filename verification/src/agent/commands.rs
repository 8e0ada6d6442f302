//! Commands: what the agent does on each, and what it answers.

use vstd::prelude::*;
use crate::agent::agent::{
    AgentAction,
    AgentActionView,
    AgentCore,
    AgentCoreView,
    AgentSocket,
    ChannelState,
    Outcome,
};
use crate::agent::error::{AgentError, AgentErrorView};
use crate::agent::events::{AgentEvent, AgentEventView, InternalAgentEvent, InternalAgentEventView};
use crate::agent::protocol::{AgentRequest, AgentRequestView, AgentResponse, AgentResponseView};
use crate::agent::states::{InternalAgentState, InternalAgentStateView};
use crate::chat::{ChatMessage, ChatMessageContentView, ChatMessageView};
use crate::text::{append_deep, push_deep};

verus! {

/// The answer to a command that would stop or feed an agent that has
/// already ended.
pub open spec fn terminated_text() -> Seq<char> {
    AgentErrorView::InvalidState("the agent has terminated"@).text()
}

impl Outcome {
    /// The outcome with one more action at its end.
    pub open spec fn and(self, action: AgentActionView) -> Outcome {
        Outcome { core: self.core, actions: self.actions.push(action) }
    }

    /// The outcome of another step taken after this one.
    pub open spec fn followed_by(self, next: Outcome) -> Outcome {
        Outcome { core: next.core, actions: self.actions + next.actions }
    }
}

impl AgentCoreView {
    /// The command is answered with `response` and nothing else happens.
    pub open spec fn reply(self, response: AgentResponseView) -> Outcome {
        Outcome { core: self, actions: seq![AgentActionView::Reply(response)] }
    }

    /// The work in progress is stopped, then the agent moves to
    /// `to_state` and acknowledges.
    pub open spec fn interrupt_to(self, to_state: InternalAgentStateView, now: i64) -> Outcome {
        let stopped = self.handle_event(InternalAgentEventView::CancelTask, now);
        stopped.followed_by(stopped.core.set_state(to_state)).and(
            AgentActionView::Reply(AgentResponseView::Ack),
        )
    }

    /// The work in progress is stopped, the input is published and joins
    /// the conversation as the user's message, and the agent runs.
    pub open spec fn send_user_input(self, input: Seq<char>, now: i64) -> Outcome {
        let stopped = self.handle_event(InternalAgentEventView::CancelTask, now);
        let told = stopped.core.emit_event(AgentEventView::UserInput { input });
        let heard = AgentCoreView {
            trace: stopped.core.trace.push(
                ChatMessageView::User { content: ChatMessageContentView::Text(input), name: None },
            ),
            ..stopped.core
        };
        let running = heard.set_state(InternalAgentStateView::Running);
        Outcome {
            core: running.core,
            actions: (stopped.actions + told + running.actions).push(
                AgentActionView::Reply(AgentResponseView::Ack),
            ),
        }
    }

    /// The work in progress is stopped, the messages join the
    /// conversation in order, and the agent runs.
    pub open spec fn send_trace(self, messages: Seq<ChatMessageView>, now: i64) -> Outcome {
        let stopped = self.handle_event(InternalAgentEventView::CancelTask, now);
        let heard = AgentCoreView { trace: stopped.core.trace + messages, ..stopped.core };
        let running = heard.set_state(InternalAgentStateView::Running);
        Outcome {
            core: running.core,
            actions: (stopped.actions + running.actions).push(
                AgentActionView::Reply(AgentResponseView::Ack),
            ),
        }
    }

    /// An open command channel is closed; the command is acknowledged.
    pub open spec fn drop_io(self) -> Outcome {
        if self.socket.command == ChannelState::Open {
            Outcome {
                core: AgentCoreView {
                    socket: AgentSocket { command: ChannelState::Closed, ..self.socket },
                    ..self
                },
                actions: seq![
                    AgentActionView::CloseCommands,
                    AgentActionView::Reply(AgentResponseView::Ack),
                ],
            }
        } else {
            self.reply(AgentResponseView::Ack)
        }
    }

    /// Sudo is set as asked, or left alone; the answer tells how it stands.
    pub open spec fn command_sudo(self, operation: Option<bool>) -> Outcome {
        let permissions = match operation {
            Some(on) => self.permissions.with_sudo(on),
            None => self.permissions,
        };
        AgentCoreView { permissions, ..self }.reply(
            AgentResponseView::SudoStatus { enabled: permissions.sudo },
        )
    }

    /// The event channel is created. A paused agent acknowledges at once;
    /// any other leaves the answer to a watcher of the events that follow.
    pub open spec fn handle_wait_turn(self) -> Outcome {
        let watched = AgentCoreView { socket: AgentSocket { event: true, ..self.socket }, ..self };
        Outcome {
            core: watched,
            actions: if self.state.to_public() is Paused {
                seq![AgentActionView::Reply(AgentResponseView::Ack)]
            } else {
                seq![AgentActionView::WatchTurn]
            },
        }
    }

    /// What the agent makes of a command. An agent that has ended
    /// refuses the commands that would stop or feed it, and stays as it is.
    pub open spec fn handle_command(self, command: AgentRequestView, now: i64) -> Outcome {
        if self.state.is_terminal() && command.is_cancelling() {
            self.reply(AgentResponseView::Error { error: terminated_text() })
        } else {
            match command {
                AgentRequestView::Droping => self.drop_io(),
                AgentRequestView::GetState => self.reply(
                    AgentResponseView::State { state: self.state.to_public() },
                ),
                AgentRequestView::Sudo(operation) => self.command_sudo(operation),
                AgentRequestView::Terminate => self.interrupt_to(
                    InternalAgentStateView::Completed { success: false },
                    now,
                ),
                AgentRequestView::StopCurrentTask => self.interrupt_to(
                    InternalAgentStateView::Paused,
                    now,
                ),
                AgentRequestView::SwitchToolCallMethod { method } => {
                    let chosen = match method {
                        Some(m) => m,
                        None => self.method,
                    };
                    AgentCoreView { method: chosen, ..self }.reply(
                        AgentResponseView::Method { method: chosen },
                    )
                },
                AgentRequestView::SendUserInput { input } => self.send_user_input(input, now),
                AgentRequestView::SendTrace { messages } => self.send_trace(messages, now),
                AgentRequestView::UserQueryResponse { request_id, response } => Outcome {
                    core: self,
                    actions: seq![
                        AgentActionView::Forward(
                            InternalAgentEventView::UserResponseReceived { request_id, response },
                        ),
                        AgentActionView::Reply(AgentResponseView::Ack),
                    ],
                },
                AgentRequestView::UserPermissionResponse { request_id, response } => Outcome {
                    core: self,
                    actions: seq![
                        AgentActionView::Forward(
                            InternalAgentEventView::PermissionResponseReceived {
                                request_id,
                                response,
                            },
                        ),
                        AgentActionView::Reply(AgentResponseView::Ack),
                    ],
                },
                AgentRequestView::WaitTurn => self.handle_wait_turn(),
            }
        }
    }
}

/// What a watcher answers to `WaitTurn` on seeing `event`: `Ack` once the
/// agent pauses, an error once it has ended; on anything else it waits on.
pub open spec fn turn_verdict(event: AgentEventView) -> Option<AgentResponseView> {
    match event {
        AgentEventView::StatusChanged { new_status, .. } => if new_status is Paused {
            Some(AgentResponseView::Ack)
        } else if new_status.is_final() {
            Some(
                AgentResponseView::Error { error: "Agent finished before reaching Paused state"@ },
            )
        } else {
            None
        },
        _ => None,
    }
}

/// What a watcher answers when the event channel closes under it.
pub open spec fn turn_lost_text() -> Seq<char> {
    "Event channel closed"@
}

impl AgentCore {
    fn one_reply(response: AgentResponse) -> (actions: Vec<AgentAction>)
        ensures
            actions.deep_view() == seq![AgentActionView::Reply(response.deep_view())],
    {
        let mut actions: Vec<AgentAction> = Vec::new();
        push_deep(&mut actions, AgentAction::Reply(response));
        assert(actions.deep_view() =~= seq![AgentActionView::Reply(response.deep_view())]);
        actions
    }

    fn interrupt_to(&mut self, to_state: InternalAgentState, now: i64) -> (actions: Vec<
        AgentAction,
    >)
        ensures
            final(self).deep_view() == old(self).deep_view().interrupt_to(
                to_state.deep_view(),
                now,
            ).core,
            actions.deep_view() == old(self).deep_view().interrupt_to(
                to_state.deep_view(),
                now,
            ).actions,
    {
        let (mut actions, _) = self.handle_event(InternalAgentEvent::CancelTask, now);
        let moved = self.set_state(to_state);
        append_deep(&mut actions, moved);
        push_deep(&mut actions, AgentAction::Reply(AgentResponse::Ack));
        actions
    }

    /// Handles `WaitTurn`: a paused agent acknowledges at once, any other
    /// hands the answer to a watcher.
    pub fn handle_wait_turn(&mut self) -> (actions: Vec<AgentAction>)
        ensures
            final(self).deep_view() == old(self).deep_view().handle_wait_turn().core,
            actions.deep_view() == old(self).deep_view().handle_wait_turn().actions,
    {
        self.watch();
        let current_state = self.state.to_public();
        let mut actions: Vec<AgentAction> = Vec::new();
        if current_state.is_paused() {
            push_deep(&mut actions, AgentAction::Reply(AgentResponse::Ack));
        } else {
            push_deep(&mut actions, AgentAction::WatchTurn);
        }
        assert(actions.deep_view() =~= old(self).deep_view().handle_wait_turn().actions);
        actions
    }

    /// What a watcher started for `WaitTurn` answers on seeing `event`;
    /// `None` while it has to wait on.
    pub fn wait_turn_verdict(event: &AgentEvent) -> (r: Option<AgentResponse>)
        ensures
            r.deep_view() == turn_verdict(event.deep_view()),
    {
        match event {
            AgentEvent::StatusChanged { new_status, .. } => {
                match new_status {
                    crate::agent::states::PublicAgentState::Paused => Some(AgentResponse::Ack),
                    crate::agent::states::PublicAgentState::Completed { .. }
                    | crate::agent::states::PublicAgentState::Failed { .. }
                    | crate::agent::states::PublicAgentState::Cancelled => Some(
                        AgentResponse::Error {
                            error: String::from_str("Agent finished before reaching Paused state"),
                        },
                    ),
                    _ => None,
                }
            },
            _ => None,
        }
    }

    /// What a watcher started for `WaitTurn` answers when the event
    /// channel closes.
    pub fn wait_turn_lost() -> (r: AgentResponse)
        ensures
            r.deep_view() == (AgentResponseView::Error { error: turn_lost_text() }),
    {
        AgentResponse::Error { error: String::from_str("Event channel closed") }
    }

    /// Handles a command at the time `now`. The answer to the command is
    /// among the actions, as a `Reply` or, for a `WaitTurn` that has to
    /// wait, as a `WatchTurn`.
    pub fn handle_command(&mut self, command: AgentRequest, now: i64) -> (actions: Vec<
        AgentAction,
    >)
        ensures
            final(self).deep_view() == old(self).deep_view().handle_command(
                command.deep_view(),
                now,
            ).core,
            actions.deep_view() == old(self).deep_view().handle_command(
                command.deep_view(),
                now,
            ).actions,
    {
        if self.state.is_terminal() {
            let refused = match &command {
                AgentRequest::Terminate => true,
                AgentRequest::StopCurrentTask => true,
                AgentRequest::SendUserInput { .. } => true,
                AgentRequest::SendTrace { .. } => true,
                _ => false,
            };
            if refused {
                let error = AgentError::InvalidState(String::from_str("the agent has terminated"));
                return Self::one_reply(AgentResponse::Error { error: error.to_string() });
            }
        }
        match command {
            AgentRequest::Droping => {
                let mut actions: Vec<AgentAction> = Vec::new();
                if self.has_io() {
                    self.socket.command = ChannelState::Closed;
                    push_deep(&mut actions, AgentAction::CloseCommands);
                }
                push_deep(&mut actions, AgentAction::Reply(AgentResponse::Ack));
                assert(actions.deep_view() =~= old(self).deep_view().drop_io().actions);
                actions
            },
            AgentRequest::GetState => {
                let state = self.state.to_public();
                Self::one_reply(AgentResponse::State { state })
            },
            AgentRequest::Sudo(operation) => {
                match operation {
                    Some(true) => self.permissions.sudo(),
                    Some(false) => self.permissions.no_sudo(),
                    None => {},
                }
                let enabled = self.permissions.is_sudo();
                Self::one_reply(AgentResponse::SudoStatus { enabled })
            },
            AgentRequest::Terminate => self.interrupt_to(
                InternalAgentState::Completed { success: false },
                now,
            ),
            AgentRequest::StopCurrentTask => self.interrupt_to(InternalAgentState::Paused, now),
            AgentRequest::SwitchToolCallMethod { method } => {
                match method {
                    Some(m) => {
                        self.method = m;
                    },
                    None => {},
                }
                Self::one_reply(AgentResponse::Method { method: self.method })
            },
            AgentRequest::SendUserInput { input } => {
                let (mut actions, _) = self.handle_event(InternalAgentEvent::CancelTask, now);
                let told = self.emit_event(AgentEvent::UserInput { input: input.clone() });
                append_deep(&mut actions, told);
                push_deep(&mut self.trace, ChatMessage::user(input));
                let running = self.set_state(InternalAgentState::Running);
                append_deep(&mut actions, running);
                push_deep(&mut actions, AgentAction::Reply(AgentResponse::Ack));
                actions
            },
            AgentRequest::SendTrace { messages } => {
                let (mut actions, _) = self.handle_event(InternalAgentEvent::CancelTask, now);
                append_deep(&mut self.trace, messages);
                let running = self.set_state(InternalAgentState::Running);
                append_deep(&mut actions, running);
                push_deep(&mut actions, AgentAction::Reply(AgentResponse::Ack));
                actions
            },
            AgentRequest::UserQueryResponse { request_id, response } => {
                let mut actions: Vec<AgentAction> = Vec::new();
                push_deep(
                    &mut actions,
                    AgentAction::Forward(
                        InternalAgentEvent::UserResponseReceived { request_id, response },
                    ),
                );
                push_deep(&mut actions, AgentAction::Reply(AgentResponse::Ack));
                assert(actions.deep_view() =~= old(self).deep_view().handle_command(
                    command.deep_view(),
                    now,
                ).actions);
                actions
            },
            AgentRequest::UserPermissionResponse { request_id, response } => {
                let mut actions: Vec<AgentAction> = Vec::new();
                push_deep(
                    &mut actions,
                    AgentAction::Forward(
                        InternalAgentEvent::PermissionResponseReceived { request_id, response },
                    ),
                );
                push_deep(&mut actions, AgentAction::Reply(AgentResponse::Ack));
                assert(actions.deep_view() =~= old(self).deep_view().handle_command(
                    command.deep_view(),
                    now,
                ).actions);
                actions
            },
            AgentRequest::WaitTurn => self.handle_wait_turn(),
        }
    }
}

} // verus!
