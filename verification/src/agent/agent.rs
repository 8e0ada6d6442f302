//! The agent core: one value that holds the conversation, the claims and
//! the state, and that answers each event or command with the actions to
//! perform.

use vstd::prelude::*;
use crate::agent::claims::{ClaimManager, ClaimManagerView};
use crate::agent::events::{AgentEvent, AgentEventView, InternalAgentEvent, InternalAgentEventView};
use crate::agent::protocol::{AgentResponse, AgentResponseView};
use crate::agent::states::{
    CancellationToken,
    InternalAgentState,
    InternalAgentStateView,
};
use crate::chat::{ChatMessage, ChatMessageView, LlmToolCall, LlmToolCallView, ToolCallMethod};
use crate::text::push_deep;
use crate::tools::{AnyToolBox, ToolSpecView};

verus! {

/// What became of a channel.
#[derive(Debug, Clone, Copy, PartialEq, Eq, Structural)]
pub enum ChannelState {
    /// Never asked for.
    Absent,
    Open,
    Closed,
}

/// The agent's two channels to the outside: commands in, events out.
#[derive(Debug, Clone, Copy, PartialEq, Eq, Structural)]
pub struct AgentSocket {
    /// The command channel; open once a controller was handed out.
    pub command: ChannelState,
    /// Whether the event channel exists: without it nothing is published.
    pub event: bool,
}

/// How an agent ended.
#[derive(Debug, PartialEq)]
pub struct AgentResult {
    pub success: bool,
    pub message: String,
    pub trace: Vec<ChatMessage>,
}

pub ghost struct AgentResultView {
    pub success: bool,
    pub message: Seq<char>,
    pub trace: Seq<ChatMessageView>,
}

impl DeepView for AgentResult {
    type V = AgentResultView;

    open spec fn deep_view(&self) -> AgentResultView {
        AgentResultView {
            success: self.success,
            message: self.message@,
            trace: self.trace.deep_view(),
        }
    }
}

/// The answer of an agent that ran one task.
#[derive(Debug, PartialEq)]
pub struct TaskAgentResponse {
    pub success: bool,
    pub message: String,
}

/// One thing the caller has to do for the agent. The actions of one
/// answer are performed in order.
#[derive(Debug, PartialEq)]
pub enum AgentAction {
    /// Publish the event to every subscriber.
    Emit(AgentEvent),
    /// Ask the brain for the next step on the current conversation, under
    /// the handle; its answer comes back as `InternalAgentEvent::BrainResult`.
    SpawnBrain { cancellation_token: CancellationToken, method: ToolCallMethod },
    /// Run the calls side by side under the handle; once all have ended
    /// they report `InternalAgentEvent::ToolsCompleted`.
    SpawnTools { cancellation_token: CancellationToken, calls: Vec<LlmToolCall> },
    /// Fire the handle.
    Cancel { cancellation_token: CancellationToken },
    /// Hand the event to the tasks that listen on the internal bus.
    Forward(InternalAgentEvent),
    /// Close the command channel.
    CloseCommands,
    /// Answer the command.
    Reply(AgentResponse),
    /// Answer the command later, from the events that follow.
    WatchTurn,
}

pub ghost enum AgentActionView {
    Emit(AgentEventView),
    SpawnBrain { cancellation_token: CancellationToken, method: ToolCallMethod },
    SpawnTools { cancellation_token: CancellationToken, calls: Seq<LlmToolCallView> },
    Cancel { cancellation_token: CancellationToken },
    Forward(InternalAgentEventView),
    CloseCommands,
    Reply(AgentResponseView),
    WatchTurn,
}

impl DeepView for AgentAction {
    type V = AgentActionView;

    open spec fn deep_view(&self) -> AgentActionView {
        match self {
            AgentAction::Emit(e) => AgentActionView::Emit(e.deep_view()),
            AgentAction::SpawnBrain { cancellation_token, method } => AgentActionView::SpawnBrain {
                cancellation_token: *cancellation_token,
                method: *method,
            },
            AgentAction::SpawnTools { cancellation_token, calls } => AgentActionView::SpawnTools {
                cancellation_token: *cancellation_token,
                calls: calls.deep_view(),
            },
            AgentAction::Cancel { cancellation_token } => AgentActionView::Cancel {
                cancellation_token: *cancellation_token,
            },
            AgentAction::Forward(e) => AgentActionView::Forward(e.deep_view()),
            AgentAction::CloseCommands => AgentActionView::CloseCommands,
            AgentAction::Reply(r) => AgentActionView::Reply(r.deep_view()),
            AgentAction::WatchTurn => AgentActionView::WatchTurn,
        }
    }
}

/// The agent core.
#[derive(Debug, PartialEq)]
pub struct AgentCore {
    pub session_id: String,
    pub socket: AgentSocket,
    pub method: ToolCallMethod,
    pub trace: Vec<ChatMessage>,
    pub available_tools: AnyToolBox,
    pub permissions: ClaimManager,
    pub state: InternalAgentState,
    /// The number of the next cancellation handle.
    pub next_token: u64,
}

pub ghost struct AgentCoreView {
    pub session_id: Seq<char>,
    pub socket: AgentSocket,
    pub method: ToolCallMethod,
    pub trace: Seq<ChatMessageView>,
    pub available_tools: Seq<ToolSpecView>,
    pub permissions: ClaimManagerView,
    pub state: InternalAgentStateView,
    pub next_token: u64,
}

impl DeepView for AgentCore {
    type V = AgentCoreView;

    open spec fn deep_view(&self) -> AgentCoreView {
        AgentCoreView {
            session_id: self.session_id@,
            socket: self.socket,
            method: self.method,
            trace: self.trace.deep_view(),
            available_tools: self.available_tools.deep_view(),
            permissions: self.permissions.deep_view(),
            state: self.state.deep_view(),
            next_token: self.next_token,
        }
    }
}

/// An agent after one step, with the actions the step asks for.
pub ghost struct Outcome {
    pub core: AgentCoreView,
    pub actions: Seq<AgentActionView>,
}

impl AgentCoreView {
    /// Nothing happens.
    pub open spec fn unchanged(self) -> Outcome {
        Outcome { core: self, actions: Seq::empty() }
    }

    /// Whether a controller can still send commands.
    pub open spec fn has_io(self) -> bool {
        self.socket.command == ChannelState::Open
    }

    /// The event is published if the event channel exists, else dropped.
    pub open spec fn emit_event(self, event: AgentEventView) -> Seq<AgentActionView> {
        if self.socket.event {
            seq![AgentActionView::Emit(event)]
        } else {
            Seq::empty()
        }
    }

    /// The agent moves to `to_state`; the change is published with the
    /// old and the new state as observers see them.
    pub open spec fn set_state(self, to_state: InternalAgentStateView) -> Outcome {
        Outcome {
            core: AgentCoreView { state: to_state, ..self },
            actions: self.emit_event(
                AgentEventView::StatusChanged {
                    old_status: self.state.to_public(),
                    new_status: to_state.to_public(),
                },
            ),
        }
    }

    /// The handle that the next piece of work gets.
    pub open spec fn fresh_token(self) -> CancellationToken {
        CancellationToken { id: self.next_token }
    }

    /// The agent once that handle is taken.
    pub open spec fn take_token(self) -> AgentCoreView {
        AgentCoreView {
            next_token: if self.next_token == u64::MAX {
                0
            } else {
                (self.next_token + 1) as u64
            },
            ..self
        }
    }
}

impl AgentCore {
    /// A fresh agent in `Starting`, without channels.
    pub fn new(
        session_id: String,
        trace: Vec<ChatMessage>,
        available_tools: AnyToolBox,
        permissions: ClaimManager,
    ) -> (r: Self)
        ensures
            r.deep_view() == (AgentCoreView {
                session_id: session_id@,
                socket: AgentSocket { command: ChannelState::Absent, event: false },
                method: ToolCallMethod::FunctionCall,
                trace: trace.deep_view(),
                available_tools: available_tools.deep_view(),
                permissions: permissions.deep_view(),
                state: InternalAgentStateView::Starting,
                next_token: 0,
            }),
    {
        AgentCore {
            session_id,
            socket: AgentSocket { command: ChannelState::Absent, event: false },
            method: ToolCallMethod::FunctionCall,
            trace,
            available_tools,
            permissions,
            state: InternalAgentState::Starting,
            next_token: 0,
        }
    }

    /// Turns sudo on: no permission is asked for any more.
    pub fn sudo(&mut self)
        ensures
            final(self).deep_view() == (AgentCoreView {
                permissions: old(self).deep_view().permissions.with_sudo(true),
                ..old(self).deep_view()
            }),
    {
        self.permissions.sudo();
    }

    /// Turns sudo off.
    pub fn no_sudo(&mut self)
        ensures
            final(self).deep_view() == (AgentCoreView {
                permissions: old(self).deep_view().permissions.with_sudo(false),
                ..old(self).deep_view()
            }),
    {
        self.permissions.no_sudo();
    }

    pub fn is_sudo(&self) -> (r: bool)
        ensures
            r == self.deep_view().permissions.sudo,
    {
        self.permissions.is_sudo()
    }

    /// Notes that a controller was handed out: the command channel is
    /// opened unless it exists already. A closed channel stays closed.
    pub fn controller(&mut self)
        ensures
            final(self).deep_view() == (AgentCoreView {
                socket: AgentSocket {
                    command: if old(self).socket.command == ChannelState::Absent {
                        ChannelState::Open
                    } else {
                        old(self).socket.command
                    },
                    ..old(self).socket
                },
                ..old(self).deep_view()
            }),
    {
        match self.socket.command {
            ChannelState::Absent => {
                self.socket.command = ChannelState::Open;
            },
            _ => {},
        }
    }

    fn assert_socket_created(&mut self)
        ensures
            final(self).deep_view() == (AgentCoreView {
                socket: AgentSocket { event: true, ..old(self).socket },
                ..old(self).deep_view()
            }),
    {
        self.socket.event = true;
    }

    /// Notes that an observer subscribed: from now on events are published.
    pub fn watch(&mut self)
        ensures
            final(self).deep_view() == (AgentCoreView {
                socket: AgentSocket { event: true, ..old(self).socket },
                ..old(self).deep_view()
            }),
    {
        self.assert_socket_created();
    }

    /// Whether a controller can still send commands.
    pub fn has_io(&self) -> (r: bool)
        ensures
            r == self.deep_view().has_io(),
    {
        match self.socket.command {
            ChannelState::Open => true,
            _ => false,
        }
    }

    /// Publishes the event where the event channel exists.
    pub fn emit_event(&self, event: AgentEvent) -> (actions: Vec<AgentAction>)
        ensures
            actions.deep_view() == self.deep_view().emit_event(event.deep_view()),
    {
        let mut actions: Vec<AgentAction> = Vec::new();
        if self.socket.event {
            push_deep(&mut actions, AgentAction::Emit(event));
        }
        assert(actions.deep_view() =~= self.deep_view().emit_event(event.deep_view()));
        actions
    }

    /// Moves the agent to `to_state` and publishes the change.
    pub fn set_state(&mut self, to_state: InternalAgentState) -> (actions: Vec<AgentAction>)
        ensures
            final(self).deep_view() == old(self).deep_view().set_state(to_state.deep_view()).core,
            actions.deep_view() == old(self).deep_view().set_state(to_state.deep_view()).actions,
    {
        let old_state = self.state.to_public();
        let new_state = to_state.to_public();
        let actions = self.emit_event(
            AgentEvent::StatusChanged { old_status: old_state, new_status: new_state },
        );
        self.state = to_state;
        actions
    }

    /// Takes the next cancellation handle.
    pub(crate) fn next_cancellation_token(&mut self) -> (token: CancellationToken)
        ensures
            token == old(self).deep_view().fresh_token(),
            final(self).deep_view() == old(self).deep_view().take_token(),
    {
        let token = CancellationToken { id: self.next_token };
        if self.next_token == u64::MAX {
            self.next_token = 0;
        } else {
            self.next_token = self.next_token + 1;
        }
        token
    }
}

} // verus!
