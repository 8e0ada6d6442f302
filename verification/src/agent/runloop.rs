//! The main loop: what to do next, and a run of the loop over a given
//! feed of inputs.

use vstd::prelude::*;
use crate::agent::agent::{
    AgentAction,
    AgentActionView,
    AgentCore,
    AgentCoreView,
    AgentResult,
    AgentResultView,
    Outcome,
};
use crate::agent::error::{AgentError, AgentErrorView};
use crate::agent::events::{InternalAgentEvent, InternalAgentEventView};
use crate::agent::protocol::{AgentRequest, AgentRequestView};
use crate::agent::states::{InternalAgentState, InternalAgentStateView};
use crate::text::append_deep;

verus! {

/// One thing that reaches the main loop.
#[derive(Debug, PartialEq)]
pub enum AgentInput {
    Command(AgentRequest),
    Event(InternalAgentEvent),
    /// The internal bus was closed.
    BusClosed,
}

pub ghost enum AgentInputView {
    Command(AgentRequestView),
    Event(InternalAgentEventView),
    BusClosed,
}

impl DeepView for AgentInput {
    type V = AgentInputView;

    open spec fn deep_view(&self) -> AgentInputView {
        match self {
            AgentInput::Command(c) => AgentInputView::Command(c.deep_view()),
            AgentInput::Event(e) => AgentInputView::Event(e.deep_view()),
            AgentInput::BusClosed => AgentInputView::BusClosed,
        }
    }
}

/// An input and the time at which it reaches the loop, in milliseconds
/// since the epoch.
#[derive(Debug, PartialEq)]
pub struct TimedInput {
    pub at: i64,
    pub input: AgentInput,
}

pub ghost struct TimedInputView {
    pub at: i64,
    pub input: AgentInputView,
}

impl DeepView for TimedInput {
    type V = TimedInputView;

    open spec fn deep_view(&self) -> TimedInputView {
        TimedInputView { at: self.at, input: self.input.deep_view() }
    }
}

/// What the loop does next.
#[derive(Debug, PartialEq)]
pub enum LoopStep {
    /// The agent has ended: the loop returns this.
    Finished(Result<AgentResult, AgentError>),
    /// The agent is `Running`: handle a command if one is pending, else
    /// start thinking.
    PollCommand,
    /// Wait for a command or an internal event, whichever comes first.
    Wait,
}

pub ghost enum LoopStepView {
    Finished(Result<AgentResultView, AgentErrorView>),
    PollCommand,
    Wait,
}

impl DeepView for LoopStep {
    type V = LoopStepView;

    open spec fn deep_view(&self) -> LoopStepView {
        match self {
            LoopStep::Finished(r) => LoopStepView::Finished(
                match r {
                    Ok(done) => Ok(done.deep_view()),
                    Err(e) => Err(e.deep_view()),
                },
            ),
            LoopStep::PollCommand => LoopStepView::PollCommand,
            LoopStep::Wait => LoopStepView::Wait,
        }
    }
}

/// A run of the loop: the agent at its end, the actions it asked for on
/// the way, and how the agent ended, if it did.
pub ghost struct Run {
    pub core: AgentCoreView,
    pub actions: Seq<AgentActionView>,
    pub result: Option<Result<AgentResultView, AgentErrorView>>,
}

impl Run {
    /// The run with `before` in front of its actions.
    pub open spec fn after(self, before: Seq<AgentActionView>) -> Run {
        Run { actions: before + self.actions, ..self }
    }
}

/// What the loop made of one input.
pub ghost enum Taken {
    /// The agent took a step; `consumed` tells whether the input is used up.
    Handled { outcome: Outcome, consumed: bool },
    /// The input says that the bus is closed: the loop gives up.
    BusClosed,
}

/// The failure of a loop whose internal bus was closed.
pub open spec fn bus_closed_error() -> AgentErrorView {
    AgentErrorView::InvalidState("internal event bus should not be closed"@)
}

impl AgentCoreView {
    /// The head of the loop: an agent that waits while nobody can send it
    /// a command any more completes with success.
    pub open spec fn settle(self) -> Outcome {
        if self.state is Paused && !self.has_io() {
            self.set_state(InternalAgentStateView::Completed { success: true })
        } else {
            self.unchanged()
        }
    }

    /// What the loop does next, the head of the loop being passed.
    pub open spec fn next_step(self) -> LoopStepView {
        match self.state {
            InternalAgentStateView::Completed { success } => LoopStepView::Finished(
                Ok(AgentResultView { success, message: "Agent completed"@, trace: self.trace }),
            ),
            InternalAgentStateView::Failed { error } => LoopStepView::Finished(
                Err(AgentErrorView::ExecutionError(error)),
            ),
            InternalAgentStateView::Running => LoopStepView::PollCommand,
            _ => LoopStepView::Wait,
        }
    }

    /// What a loop that has not ended makes of the next input. A
    /// `Running` agent handles a command; on anything else it starts
    /// thinking at the input's time and leaves the input for later. Any
    /// other agent handles the input, and gives up if the bus is closed.
    pub open spec fn take(self, item: TimedInputView) -> Taken {
        match item.input {
            AgentInputView::Command(command) => Taken::Handled {
                outcome: self.handle_command(command, item.at),
                consumed: true,
            },
            AgentInputView::Event(event) => if self.state is Running {
                Taken::Handled {
                    outcome: self.handle_event(InternalAgentEventView::ThinkingStart, item.at),
                    consumed: false,
                }
            } else {
                Taken::Handled { outcome: self.handle_event(event, item.at), consumed: true }
            },
            AgentInputView::BusClosed => if self.state is Running {
                Taken::Handled {
                    outcome: self.handle_event(InternalAgentEventView::ThinkingStart, item.at),
                    consumed: false,
                }
            } else {
                Taken::BusClosed
            },
        }
    }

    /// The loop over a feed. The run stops when the agent has ended, when
    /// the bus is closed, or when the feed is used up.
    pub open spec fn run_loop(self, feed: Seq<TimedInputView>) -> Run
        decreases feed.len(), (if self.state is Running { 1nat } else { 0nat }),
    {
        let settled = self.settle();
        let core = settled.core;
        match core.next_step() {
            LoopStepView::Finished(r) => Run { core, actions: settled.actions, result: Some(r) },
            _ => if feed.len() == 0 {
                Run { core, actions: settled.actions, result: None }
            } else {
                match core.take(feed[0]) {
                    Taken::BusClosed => Run {
                        core,
                        actions: settled.actions,
                        result: Some(Err(bus_closed_error())),
                    },
                    Taken::Handled { outcome, consumed } => outcome.core.run_loop(
                        if consumed {
                            feed.skip(1)
                        } else {
                            feed
                        },
                    ).after(settled.actions + outcome.actions),
                }
            },
        }
    }

    /// A whole run: the agent is initialised, then the loop takes the feed.
    pub open spec fn start(self, feed: Seq<TimedInputView>) -> Run {
        let begun = self.handle_event(InternalAgentEventView::AgentInitialized, 0);
        begun.core.run_loop(feed).after(begun.actions)
    }
}

/// The view of the way an agent ended.
pub open spec fn ending_view(
    r: Option<Result<AgentResult, AgentError>>,
) -> Option<Result<AgentResultView, AgentErrorView>> {
    match r {
        Some(Ok(done)) => Some(Ok(done.deep_view())),
        Some(Err(e)) => Some(Err(e.deep_view())),
        None => None,
    }
}

impl AgentCore {
    /// The head of the loop: completes an agent that waits without a
    /// command channel, then says what the loop does next.
    pub fn poll(&mut self) -> (r: (Vec<AgentAction>, LoopStep))
        ensures
            final(self).deep_view() == old(self).deep_view().settle().core,
            r.0.deep_view() == old(self).deep_view().settle().actions,
            r.1.deep_view() == old(self).deep_view().settle().core.next_step(),
    {
        let waiting = match self.state {
            InternalAgentState::Paused => true,
            _ => false,
        };
        let actions = if waiting && !self.has_io() {
            self.set_state(InternalAgentState::Completed { success: true })
        } else {
            let none: Vec<AgentAction> = Vec::new();
            assert(none.deep_view() =~= Seq::<AgentActionView>::empty());
            none
        };
        let step = match &self.state {
            InternalAgentState::Completed { success } => {
                let trace = self.trace.clone();
                assert(trace.deep_view() =~= self.trace.deep_view());
                LoopStep::Finished(
                    Ok(
                        AgentResult {
                            success: *success,
                            message: String::from_str("Agent completed"),
                            trace,
                        },
                    ),
                )
            },
            InternalAgentState::Failed { error } => LoopStep::Finished(
                Err(AgentError::ExecutionError(error.clone())),
            ),
            InternalAgentState::Running => LoopStep::PollCommand,
            _ => LoopStep::Wait,
        };
        (actions, step)
    }

    /// The failure with which the loop returns when the internal bus is
    /// closed.
    pub fn bus_closed() -> (r: AgentError)
        ensures
            r.deep_view() == bus_closed_error(),
    {
        AgentError::InvalidState(String::from_str("internal event bus should not be closed"))
    }

    /// Takes the next input in a loop that has not ended. Returns the
    /// actions and whether the input is used up; `None` if the input says
    /// that the bus is closed.
    pub fn take(&mut self, item: &TimedInput) -> (r: Option<(Vec<AgentAction>, bool)>)
        ensures
            match old(self).deep_view().take(item.deep_view()) {
                Taken::BusClosed => r is None && final(self).deep_view() == old(self).deep_view(),
                Taken::Handled { outcome, consumed } => {
                    &&& r is Some
                    &&& r->Some_0.0.deep_view() == outcome.actions
                    &&& r->Some_0.1 == consumed
                    &&& final(self).deep_view() == outcome.core
                },
            },
    {
        let running = match self.state {
            InternalAgentState::Running => true,
            _ => false,
        };
        match &item.input {
            AgentInput::Command(command) => {
                let actions = self.handle_command(command.clone(), item.at);
                Some((actions, true))
            },
            AgentInput::Event(event) => {
                if running {
                    let (actions, _) = self.handle_event(InternalAgentEvent::ThinkingStart, item.at);
                    Some((actions, false))
                } else {
                    let (actions, _) = self.handle_event(event.clone(), item.at);
                    Some((actions, true))
                }
            },
            AgentInput::BusClosed => {
                if running {
                    let (actions, _) = self.handle_event(InternalAgentEvent::ThinkingStart, item.at);
                    Some((actions, false))
                } else {
                    None
                }
            },
        }
    }

    /// Runs the agent over a feed of inputs: initialises it, then takes the
    /// loop through the feed. Returns every action asked for, in order,
    /// and the way the agent ended; `None` if the feed ran out first.
    pub fn start(&mut self, feed: &Vec<TimedInput>) -> (r: (
        Vec<AgentAction>,
        Option<Result<AgentResult, AgentError>>,
    ))
        ensures
            final(self).deep_view() == old(self).deep_view().start(feed.deep_view()).core,
            r.0.deep_view() == old(self).deep_view().start(feed.deep_view()).actions,
            ending_view(r.1) == old(self).deep_view().start(feed.deep_view()).result,
    {
        let ghost whole = feed.deep_view();
        let ghost goal = old(self).deep_view().start(whole);
        let (mut actions, _) = self.handle_event(InternalAgentEvent::AgentInitialized, 0);
        let mut i: usize = 0;
        assert(whole.skip(0) =~= whole);
        loop
            invariant
                i <= feed.len(),
                whole == feed.deep_view(),
                goal == old(self).deep_view().start(feed.deep_view()),
                goal == self.deep_view().run_loop(whole.skip(i as int)).after(actions.deep_view()),
            decreases feed.len() - i, (if self.deep_view().state is Running { 1nat } else { 0nat }),
        {
            let ghost before = self.deep_view();
            let ghost done = actions.deep_view();
            let ghost rest = whole.skip(i as int);
            let ghost target = before.run_loop(rest);
            let (settled, step) = self.poll();
            append_deep(&mut actions, settled);
            let ghost core = self.deep_view();
            match step {
                LoopStep::Finished(result) => {
                    assert(target.result == ending_view(Some(result)));
                    assert(target.core == core);
                    assert(actions.deep_view() =~= target.after(done).actions);
                    return (actions, Some(result));
                },
                _ => {},
            }
            if i >= feed.len() {
                assert(rest.len() == 0);
                assert(target.result is None);
                assert(target.core == core);
                assert(actions.deep_view() =~= target.after(done).actions);
                return (actions, None);
            }
            assert(rest[0] == feed@[i as int].deep_view());
            assert(rest.skip(1) =~= whole.skip(i + 1));
            match self.take(&feed[i]) {
                None => {
                    assert(target.result == Some(
                        Err::<AgentResultView, AgentErrorView>(bus_closed_error()),
                    ));
                    assert(target.core == core);
                    assert(actions.deep_view() =~= target.after(done).actions);
                    return (actions, Some(Err(Self::bus_closed())));
                },
                Some((more, consumed)) => {
                    let ghost mid = actions.deep_view();
                    append_deep(&mut actions, more);
                    if consumed {
                        i += 1;
                    }
                    proof {
                        let next = self.deep_view().run_loop(whole.skip(i as int));
                        assert(target == next.after(before.settle().actions + more.deep_view()));
                        assert(next.after(actions.deep_view()).actions =~= target.after(
                            done,
                        ).actions);
                        assert(next.after(actions.deep_view()) == target.after(done));
                    }
                },
            }
        }
    }
}

} // verus!
