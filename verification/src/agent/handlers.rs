//! The dispatch of internal events: what each state makes of each event.

use vstd::prelude::*;
use crate::agent::agent::{AgentAction, AgentActionView, AgentCore, AgentCoreView, Outcome};
use crate::agent::actions::brain::brain_result_view;
use crate::agent::error::{AgentError, AgentErrorView};
use crate::agent::events::{AgentEvent, AgentEventView, InternalAgentEvent, InternalAgentEventView};
use crate::agent::states::{InternalAgentState, InternalAgentStateView};
use crate::chat::last_is_user;
use crate::text::{append_deep, prefixed, push_deep};

verus! {

impl AgentCoreView {
    /// A fresh agent runs if the user spoke last, else it waits.
    pub open spec fn handle_agent_initialized(self) -> Outcome {
        self.set_state(
            if last_is_user(self.trace) {
                InternalAgentStateView::Running
            } else {
                InternalAgentStateView::Paused
            },
        )
    }

    /// `Starting` hears `AgentInitialized` and nothing else.
    pub open spec fn state_starting(self, event: InternalAgentEventView) -> Outcome {
        match event {
            InternalAgentEventView::AgentInitialized => self.handle_agent_initialized(),
            _ => self.unchanged(),
        }
    }

    /// `Running` hears `ThinkingStart`: it says so and starts the brain.
    pub open spec fn state_running(self, event: InternalAgentEventView, now: i64) -> Outcome {
        match event {
            InternalAgentEventView::ThinkingStart => {
                let told = self.emit_event(AgentEventView::ThinkingStart);
                let spawned = self.spawn_next_step(now);
                Outcome { core: spawned.core, actions: told + spawned.actions }
            },
            _ => self.unchanged(),
        }
    }

    /// `Processing` hears the brain's answer, the end of the tools, and
    /// the order to stop, on which it fires its handle and pauses.
    pub open spec fn state_processing(self, event: InternalAgentEventView, now: i64) -> Outcome {
        match event {
            InternalAgentEventView::BrainResult { result } => self.process_next_step(result, now),
            InternalAgentEventView::ToolsCompleted { any_denied } => self.set_state(
                if any_denied {
                    InternalAgentStateView::Paused
                } else {
                    InternalAgentStateView::Running
                },
            ),
            InternalAgentEventView::CancelTask => {
                let paused = self.set_state(InternalAgentStateView::Paused);
                Outcome {
                    core: paused.core,
                    actions: seq![
                        AgentActionView::Cancel {
                            cancellation_token: self.state->cancellation_token,
                        },
                    ] + paused.actions,
                }
            },
            _ => self.unchanged(),
        }
    }

    /// What the agent makes of an internal event. An event that the
    /// state does not hear changes nothing: `Paused`, `Completed` and
    /// `Failed` hear none.
    pub open spec fn handle_event(self, event: InternalAgentEventView, now: i64) -> Outcome {
        match self.state {
            InternalAgentStateView::Starting => self.state_starting(event),
            InternalAgentStateView::Running => self.state_running(event, now),
            InternalAgentStateView::Processing { .. } => self.state_processing(event, now),
            _ => self.unchanged(),
        }
    }

    /// The failure that handling the event reports: that of a brain's
    /// answer heard in `Processing`.
    pub open spec fn event_failure(self, event: InternalAgentEventView) -> Option<AgentErrorView> {
        match event {
            InternalAgentEventView::BrainResult { result } if self.state is Processing =>
                Self::brain_failure(result),
            _ => None,
        }
    }
}

/// The complaint of the `Starting` handler about another state.
pub open spec fn starting_expected_text(state_name: Seq<char>) -> Seq<char> {
    "state Starting expected but current state is : "@ + state_name
}

impl AgentCore {
    /// The handler of the `Starting` state. In any other state nothing
    /// changes and the result is `InvalidState`.
    pub fn state_starting_handle_event(&mut self, event: InternalAgentEvent) -> (r: (
        Vec<AgentAction>,
        Result<(), AgentError>,
    ))
        ensures
            old(self).deep_view().state is Starting ==> {
                &&& final(self).deep_view() == old(self).deep_view().state_starting(
                    event.deep_view(),
                ).core
                &&& r.0.deep_view() == old(self).deep_view().state_starting(
                    event.deep_view(),
                ).actions
                &&& r.1 is Ok
            },
            !(old(self).deep_view().state is Starting) ==> {
                &&& final(self).deep_view() == old(self).deep_view()
                &&& r.0.deep_view() == Seq::<AgentActionView>::empty()
                &&& r.1 is Err
                &&& r.1->Err_0.deep_view() == AgentErrorView::InvalidState(
                    starting_expected_text(old(self).deep_view().state.to_public().name()),
                )
            },
    {
        match self.state {
            InternalAgentState::Starting => {},
            _ => {
                let shown = self.state.to_public();
                let error = AgentError::InvalidState(
                    prefixed("state Starting expected but current state is : ", shown.name()),
                );
                let none: Vec<AgentAction> = Vec::new();
                assert(none.deep_view() =~= Seq::<AgentActionView>::empty());
                return (none, Err(error));
            },
        }
        match event {
            InternalAgentEvent::AgentInitialized => {
                let actions = self.handle_agent_initialized();
                (actions, Ok(()))
            },
            _ => {
                let none: Vec<AgentAction> = Vec::new();
                assert(none.deep_view() =~= Seq::<AgentActionView>::empty());
                (none, Ok(()))
            },
        }
    }

    /// Moves a fresh agent to `Running` if the user spoke last, else to
    /// `Paused`.
    fn handle_agent_initialized(&mut self) -> (actions: Vec<AgentAction>)
        ensures
            final(self).deep_view() == old(self).deep_view().handle_agent_initialized().core,
            actions.deep_view() == old(self).deep_view().handle_agent_initialized().actions,
    {
        let n = self.trace.len();
        let user_last = if n > 0 {
            assert(self.trace.deep_view().last() == self.trace@[n - 1].deep_view());
            self.trace[n - 1].is_user()
        } else {
            false
        };
        if user_last {
            self.set_state(InternalAgentState::Running)
        } else {
            self.set_state(InternalAgentState::Paused)
        }
    }

    /// The handler of the `Running` state.
    fn state_running_handle_event(&mut self, event: InternalAgentEvent, now: i64) -> (r: (
        Vec<AgentAction>,
        Result<(), AgentError>,
    ))
        ensures
            final(self).deep_view() == old(self).deep_view().state_running(
                event.deep_view(),
                now,
            ).core,
            r.0.deep_view() == old(self).deep_view().state_running(event.deep_view(), now).actions,
            r.1 is Ok,
    {
        match event {
            InternalAgentEvent::ThinkingStart => {
                let mut actions = self.emit_event(AgentEvent::ThinkingStart);
                let spawned = self.spawn_next_step_at(now);
                append_deep(&mut actions, spawned);
                (actions, Ok(()))
            },
            _ => {
                let none: Vec<AgentAction> = Vec::new();
                assert(none.deep_view() =~= Seq::<AgentActionView>::empty());
                (none, Ok(()))
            },
        }
    }

    /// The handler of the `Processing` state. The result is the failure
    /// of the brain's answer, if the event was one.
    fn state_processing_handle_event(&mut self, event: InternalAgentEvent, now: i64) -> (r: (
        Vec<AgentAction>,
        Result<(), AgentError>,
    ))
        requires
            old(self).deep_view().state is Processing,
        ensures
            final(self).deep_view() == old(self).deep_view().state_processing(
                event.deep_view(),
                now,
            ).core,
            r.0.deep_view() == old(self).deep_view().state_processing(
                event.deep_view(),
                now,
            ).actions,
            match old(self).deep_view().event_failure(event.deep_view()) {
                Some(error) => r.1 is Err && r.1->Err_0.deep_view() == error,
                None => r.1 is Ok,
            },
    {
        match event {
            InternalAgentEvent::BrainResult { result } => {
                assert(brain_result_view(result) == event.deep_view()->BrainResult_result);
                self.process_next_step_at(result, now)
            },
            InternalAgentEvent::ToolsCompleted { any_denied } => {
                let actions = if any_denied {
                    self.set_state(InternalAgentState::Paused)
                } else {
                    self.set_state(InternalAgentState::Running)
                };
                (actions, Ok(()))
            },
            InternalAgentEvent::CancelTask => {
                let mut actions: Vec<AgentAction> = Vec::new();
                match self.state.cancellation_token() {
                    Some(token) => {
                        push_deep(&mut actions, AgentAction::Cancel { cancellation_token: token });
                    },
                    None => {},
                }
                let paused = self.set_state(InternalAgentState::Paused);
                append_deep(&mut actions, paused);
                assert(actions.deep_view() =~= old(self).deep_view().state_processing(
                    event.deep_view(),
                    now,
                ).actions);
                (actions, Ok(()))
            },
            _ => {
                let none: Vec<AgentAction> = Vec::new();
                assert(none.deep_view() =~= Seq::<AgentActionView>::empty());
                (none, Ok(()))
            },
        }
    }

    /// Handles an internal event at the time `now`, by the state the
    /// agent is in.
    pub fn handle_event(&mut self, event: InternalAgentEvent, now: i64) -> (r: (
        Vec<AgentAction>,
        Result<(), AgentError>,
    ))
        ensures
            final(self).deep_view() == old(self).deep_view().handle_event(
                event.deep_view(),
                now,
            ).core,
            r.0.deep_view() == old(self).deep_view().handle_event(event.deep_view(), now).actions,
            match old(self).deep_view().event_failure(event.deep_view()) {
                Some(error) => r.1 is Err && r.1->Err_0.deep_view() == error,
                None => r.1 is Ok,
            },
    {
        match self.state {
            InternalAgentState::Starting => self.state_starting_handle_event(event),
            InternalAgentState::Running => self.state_running_handle_event(event, now),
            InternalAgentState::Processing { .. } => self.state_processing_handle_event(
                event,
                now,
            ),
            _ => {
                let none: Vec<AgentAction> = Vec::new();
                assert(none.deep_view() =~= Seq::<AgentActionView>::empty());
                (none, Ok(()))
            },
        }
    }
}

} // verus!
