//! What holds of the agent whatever reaches it and in whatever order.

use vstd::prelude::*;
use crate::agent::actions::tools::{absorb_action, ToolTaskActionView};
use crate::agent::agent::{AgentActionView, AgentCoreView};
use crate::agent::commands::turn_verdict;
use crate::agent::events::{AgentEventView, InternalAgentEventView};
use crate::agent::protocol::{AgentRequestView, AgentResponseView};
use crate::agent::runloop::{AgentInputView, LoopStepView, Taken, TimedInputView};
use crate::agent::states::InternalAgentStateView;
use crate::chat::{call_known, call_known_before, tool_messages_answer_calls, ChatMessageView};

verus! {

// ----- how an agent ends -----

/// No internal event ends an agent.
pub proof fn lemma_event_never_ends_agent(
    core: AgentCoreView,
    event: InternalAgentEventView,
    now: i64,
)
    requires
        !core.state.is_terminal(),
    ensures
        !core.handle_event(event, now).core.state.is_terminal(),
{
}

/// A command ends an agent if and only if it is `Terminate`, and then
/// the agent is `Completed` without success.
pub proof fn lemma_command_ends_agent_iff_terminate(
    core: AgentCoreView,
    command: AgentRequestView,
    now: i64,
)
    requires
        !core.state.is_terminal(),
    ensures
        core.handle_command(command, now).core.state.is_terminal() <==> command is Terminate,
        command is Terminate ==> core.handle_command(command, now).core.state
            == (InternalAgentStateView::Completed { success: false }),
{
}

/// The head of the loop ends an agent if and only if the agent waits and
/// no controller can reach it, and then the agent is `Completed` with
/// success.
pub proof fn lemma_settle_ends_agent_iff_idle_and_closed(core: AgentCoreView)
    requires
        !core.state.is_terminal(),
    ensures
        core.settle().core.state.is_terminal() <==> (core.state is Paused && !core.has_io()),
        core.settle().core.state.is_terminal() ==> core.settle().core.state
            == (InternalAgentStateView::Completed { success: true }),
{
}

/// An agent that has ended stays as it ended: no event and no command
/// changes its state or its conversation, and the loop returns.
pub proof fn lemma_terminal_is_absorbing(
    core: AgentCoreView,
    event: InternalAgentEventView,
    command: AgentRequestView,
    now: i64,
)
    requires
        core.state.is_terminal(),
    ensures
        core.handle_event(event, now) == core.unchanged(),
        core.handle_command(command, now).core.state == core.state,
        core.handle_command(command, now).core.trace == core.trace,
        core.settle() == core.unchanged(),
        core.next_step() is Finished,
{
}

/// Whether the feed holds a command of the given kind.
pub open spec fn feed_terminates(feed: Seq<TimedInputView>) -> bool {
    exists|i: int|
        0 <= i < feed.len() && (#[trigger] feed[i]).input == AgentInputView::Command(
            AgentRequestView::Terminate,
        )
}

/// Whether the feed holds the command that closes the command channel.
pub open spec fn feed_closes_channel(feed: Seq<TimedInputView>) -> bool {
    exists|i: int|
        0 <= i < feed.len() && (#[trigger] feed[i]).input == AgentInputView::Command(
            AgentRequestView::Droping,
        )
}

/// While a controller can reach the agent and none sends `Terminate` or
/// closes the channel, the agent does not end, whatever else the feed
/// holds: the run stops only because the feed is used up or the bus is
/// closed.
pub proof fn lemma_run_without_terminate_never_ends(core: AgentCoreView, feed: Seq<TimedInputView>)
    requires
        !core.state.is_terminal(),
        core.has_io(),
        !feed_terminates(feed),
        !feed_closes_channel(feed),
    ensures
        !core.run_loop(feed).core.state.is_terminal(),
        core.run_loop(feed).core.has_io(),
        !(core.run_loop(feed).result matches Some(Ok(_))),
    decreases feed.len(), (if core.state is Running { 1nat } else { 0nat }),
{
    let settled = core.settle();
    assert(settled == core.unchanged());
    if feed.len() > 0 {
        let item = feed[0];
        let tail = feed.skip(1);
        assert forall|i: int| 0 <= i < tail.len() implies (#[trigger] tail[i]).input
            != AgentInputView::Command(AgentRequestView::Terminate) && tail[i].input
            != AgentInputView::Command(AgentRequestView::Droping) by {
            assert(tail[i] == feed[i + 1]);
        }
        assert(item == feed[0]);
        match core.take(item) {
            Taken::BusClosed => {},
            Taken::Handled { outcome, consumed } => {
                match item.input {
                    AgentInputView::Command(command) => {
                        lemma_command_ends_agent_iff_terminate(core, command, item.at);
                        lemma_command_keeps_channel(core, command, item.at);
                    },
                    _ => {},
                }
                if consumed {
                    lemma_run_without_terminate_never_ends(outcome.core, tail);
                } else {
                    lemma_run_without_terminate_never_ends(outcome.core, feed);
                }
            },
        }
    }
}

/// Only `Droping` closes the command channel, and no event does.
pub proof fn lemma_command_keeps_channel(core: AgentCoreView, command: AgentRequestView, now: i64)
    ensures
        !(command is Droping) ==> core.handle_command(command, now).core.socket.command
            == core.socket.command,
        forall|event: InternalAgentEventView| #[trigger]
            core.handle_event(event, now).core.socket == core.socket,
{
}

/// Once `Terminate` is handled the loop returns at its next turn, with
/// the conversation as it stands and without success.
pub proof fn lemma_terminate_ends_run(core: AgentCoreView, now: i64)
    requires
        !core.state.is_terminal(),
    ensures
        ({
            let ended = core.handle_command(AgentRequestView::Terminate, now).core;
            ended.settle().core.next_step() == LoopStepView::Finished(
                Ok(
                    crate::agent::agent::AgentResultView {
                        success: false,
                        message: "Agent completed"@,
                        trace: core.trace,
                    },
                ),
            )
        }),
{
}

// ----- stopping the work in progress -----

/// The first event that the actions publish, if they publish any.
pub open spec fn first_event(actions: Seq<AgentActionView>) -> Option<AgentEventView>
    decreases actions.len(),
{
    if actions.len() == 0 {
        None
    } else {
        match actions[0] {
            AgentActionView::Emit(event) => Some(event),
            _ => first_event(actions.skip(1)),
        }
    }
}

/// Whether the actions publish a message of the brain.
pub open spec fn tells_thought(actions: Seq<AgentActionView>) -> bool {
    exists|i: int|
        0 <= i < actions.len() && (#[trigger] actions[i] matches AgentActionView::Emit(
            AgentEventView::BrainResult { thought: Ok(_), .. },
        ))
}

/// A command that stops the work in progress, sent to an agent at work
/// whose events are published: the handle of the work is fired first,
/// and the first event published is the change to a state other than
/// `Processing`. The agent is then no longer `Processing`.
pub proof fn lemma_cancelling_command_at_work(
    core: AgentCoreView,
    command: AgentRequestView,
    now: i64,
)
    requires
        command.is_cancelling(),
        core.state is Processing,
        core.socket.event,
    ensures
        ({
            let out = core.handle_command(command, now);
            &&& out.actions[0] == AgentActionView::Cancel {
                cancellation_token: core.state->cancellation_token,
            }
            &&& first_event(out.actions) matches Some(
                AgentEventView::StatusChanged { new_status, .. },
            ) && !(new_status is Processing)
            &&& !(out.core.state is Processing)
        }),
{
    let out = core.handle_command(command, now);
    let stopped = core.handle_event(InternalAgentEventView::CancelTask, now);
    assert(out.actions[0] == stopped.actions[0]);
    assert(out.actions[1] == stopped.actions[1]);
    assert(out.actions.skip(1)[0] == out.actions[1]);
    assert(first_event(out.actions) == first_event(out.actions.skip(1)));
}

/// `Terminate`, `StopCurrentTask` and `SendTrace`, sent to an agent that
/// has not ended and whose events are published: the first event
/// published is the change to a state other than `Processing`.
pub proof fn lemma_cancelling_command_first_event(
    core: AgentCoreView,
    command: AgentRequestView,
    now: i64,
)
    requires
        command is Terminate || command is StopCurrentTask || command is SendTrace,
        !core.state.is_terminal(),
        core.socket.event,
    ensures
        first_event(core.handle_command(command, now).actions) matches Some(
            AgentEventView::StatusChanged { new_status, .. },
        ) && !(new_status is Processing),
        !(core.handle_command(command, now).core.state is Processing),
{
    if core.state is Processing {
        lemma_cancelling_command_at_work(core, command, now);
    } else {
        let out = core.handle_command(command, now);
        assert(out.actions[0] is Emit);
    }
}

/// After a command that stopped the work in progress, an answer of the
/// brain that comes late is dropped: nothing is published, and neither
/// the state nor the conversation changes.
pub proof fn lemma_late_brain_result_is_dropped(
    core: AgentCoreView,
    command: AgentRequestView,
    result: Result<crate::agent::brain::ThinkerDecisionView, crate::agent::error::AgentErrorView>,
    now: i64,
    later: i64,
)
    requires
        command.is_cancelling(),
    ensures
        ({
            let stopped = core.handle_command(command, now).core;
            stopped.handle_event(InternalAgentEventView::BrainResult { result }, later)
                == stopped.unchanged()
        }),
{
}

/// An agent that is not at work drops every answer of a brain: nothing
/// is published, and neither the state nor the conversation changes.
pub proof fn lemma_brain_result_needs_work_in_progress(
    core: AgentCoreView,
    result: Result<crate::agent::brain::ThinkerDecisionView, crate::agent::error::AgentErrorView>,
    now: i64,
)
    requires
        !(core.state is Processing),
    ensures
        core.handle_event(InternalAgentEventView::BrainResult { result }, now) == core.unchanged(),
{
}

// ----- waiting for the agent's turn -----

/// `WaitTurn` is acknowledged at once if and only if the agent waits:
/// never while it is `Processing` or `Running`.
pub proof fn lemma_wait_turn_acks_only_paused(core: AgentCoreView, now: i64)
    ensures
        core.handle_command(AgentRequestView::WaitTurn, now).actions == seq![
            AgentActionView::Reply(AgentResponseView::Ack),
        ] <==> core.state is Paused,
        !(core.state is Paused) ==> core.handle_command(AgentRequestView::WaitTurn, now).actions
            == seq![AgentActionView::WatchTurn],
{
    let out = core.handle_command(AgentRequestView::WaitTurn, now);
    if !(core.state is Paused) {
        assert(out.actions[0] == AgentActionView::WatchTurn);
    }
}

/// A watcher acknowledges `WaitTurn` on an event if and only if the
/// event reports a change of state to `Paused`.
pub proof fn lemma_watcher_acks_only_paused(event: AgentEventView)
    ensures
        turn_verdict(event) == Some(AgentResponseView::Ack) <==> (event matches AgentEventView::StatusChanged {
            new_status,
            ..
        } && new_status is Paused),
{
}

/// A change of state is published truthfully: the event names the state
/// that the agent has left and the one it is in afterwards, so it names
/// `Paused` if and only if the agent then waits.
pub proof fn lemma_status_changes_are_truthful(core: AgentCoreView, to_state: InternalAgentStateView)
    requires
        core.socket.event,
    ensures
        core.set_state(to_state).actions == seq![
            AgentActionView::Emit(
                AgentEventView::StatusChanged {
                    old_status: core.state.to_public(),
                    new_status: core.set_state(to_state).core.state.to_public(),
                },
            ),
        ],
        core.set_state(to_state).core.state.to_public() is Paused <==> core.set_state(
            to_state,
        ).core.state is Paused,
{
}

// ----- the conversation -----

/// A conversation that grows at its end keeps the calls it knows.
pub proof fn lemma_known_calls_stay_known(
    before: Seq<ChatMessageView>,
    after: Seq<ChatMessageView>,
    call_id: Seq<char>,
)
    requires
        before.is_prefix_of(after),
        call_known(before, call_id),
    ensures
        call_known(after, call_id),
{
    let j = choose|j: int|
        0 <= j < before.len() && j < before.len() && (#[trigger] before[j]).has_call(call_id);
    assert(after[j] == before[j]);
}

/// A conversation in which every tool message answers a known call
/// stays so when messages that are no tool messages are added.
pub proof fn lemma_other_messages_keep_answers(
    trace: Seq<ChatMessageView>,
    more: Seq<ChatMessageView>,
)
    requires
        tool_messages_answer_calls(trace),
        forall|k: int| 0 <= k < more.len() ==> !((#[trigger] more[k]) is Tool),
    ensures
        tool_messages_answer_calls(trace + more),
{
    let all = trace + more;
    assert forall|i: int| 0 <= i < all.len() implies match #[trigger] all[i] {
        ChatMessageView::Tool { tool_call_id, .. } => call_known_before(all, i, tool_call_id),
        _ => true,
    } by {
        if i < trace.len() {
            assert(all[i] == trace[i]);
            match trace[i] {
                ChatMessageView::Tool { tool_call_id, .. } => {
                    let j = choose|j: int|
                        0 <= j < i && j < trace.len() && (#[trigger] trace[j]).has_call(
                            tool_call_id,
                        );
                    assert(all[j] == trace[j]);
                },
                _ => {},
            }
        } else {
            assert(all[i] == more[i - trace.len()]);
        }
    }
}

/// A conversation in which every tool message answers a known call
/// stays so when the answer to a known call is added.
pub proof fn lemma_answer_to_known_call_keeps_answers(
    trace: Seq<ChatMessageView>,
    answer: ChatMessageView,
)
    requires
        tool_messages_answer_calls(trace),
        answer matches ChatMessageView::Tool { tool_call_id, .. } && call_known(
            trace,
            tool_call_id,
        ),
    ensures
        tool_messages_answer_calls(trace.push(answer)),
{
    let all = trace.push(answer);
    assert forall|i: int| 0 <= i < all.len() implies match #[trigger] all[i] {
        ChatMessageView::Tool { tool_call_id, .. } => call_known_before(all, i, tool_call_id),
        _ => true,
    } by {
        match all[i] {
            ChatMessageView::Tool { tool_call_id, .. } => {
                if i < trace.len() {
                    assert(all[i] == trace[i]);
                    let j = choose|j: int|
                        0 <= j < i && j < trace.len() && (#[trigger] trace[j]).has_call(
                            tool_call_id,
                        );
                    assert(all[j] == trace[j]);
                } else {
                    let j = choose|j: int|
                        0 <= j < trace.len() && j < trace.len() && (#[trigger] trace[j]).has_call(
                            tool_call_id,
                        );
                    assert(all[j] == trace[j]);
                }
            },
            _ => {},
        }
    }
}

/// An internal event only adds to the conversation, and what it adds is
/// no tool message: every tool message still answers a known call.
pub proof fn lemma_event_keeps_answers(
    core: AgentCoreView,
    event: InternalAgentEventView,
    now: i64,
)
    requires
        tool_messages_answer_calls(core.trace),
    ensures
        core.trace.is_prefix_of(core.handle_event(event, now).core.trace),
        tool_messages_answer_calls(core.handle_event(event, now).core.trace),
{
    let after = core.handle_event(event, now).core.trace;
    if after != core.trace {
        let message = event->BrainResult_result->Ok_0.message;
        assert(after == core.trace.push(message));
        assert(core.trace.push(message) =~= core.trace + seq![message]);
        lemma_other_messages_keep_answers(core.trace, seq![message]);
    }
    assert(core.trace.is_prefix_of(after));
}

/// A command only adds to the conversation. Every tool message still
/// answers a known call afterwards, provided that the batch of a
/// `SendTrace` leaves it so.
pub proof fn lemma_command_keeps_answers(
    core: AgentCoreView,
    command: AgentRequestView,
    now: i64,
)
    requires
        tool_messages_answer_calls(core.trace),
        command matches AgentRequestView::SendTrace { messages } ==> tool_messages_answer_calls(
            core.trace + messages,
        ),
    ensures
        core.trace.is_prefix_of(core.handle_command(command, now).core.trace),
        tool_messages_answer_calls(core.handle_command(command, now).core.trace),
{
    let after = core.handle_command(command, now).core.trace;
    let stopped = core.handle_event(InternalAgentEventView::CancelTask, now);
    assert(stopped.core.trace == core.trace);
    match command {
        AgentRequestView::SendUserInput { input } => {
            if !core.state.is_terminal() {
                let message = ChatMessageView::User {
                    content: crate::chat::ChatMessageContentView::Text(input),
                    name: None,
                };
                assert(after == core.trace.push(message));
                assert(core.trace.push(message) =~= core.trace + seq![message]);
                lemma_other_messages_keep_answers(core.trace, seq![message]);
            }
        },
        _ => {},
    }
    assert(core.trace.is_prefix_of(after));
}

/// When the agent starts tool calls, the message that lists them is
/// already part of the conversation: every call started is known.
pub proof fn lemma_dispatched_calls_are_known(
    core: AgentCoreView,
    event: InternalAgentEventView,
    now: i64,
)
    ensures
        forall|i: int, k: int|
            #![trigger core.handle_event(event, now).actions[i], (core.handle_event(event, now).actions[i]->SpawnTools_calls)[k]]
            0 <= i < core.handle_event(event, now).actions.len() && core.handle_event(
                event,
                now,
            ).actions[i] is SpawnTools && 0 <= k < (core.handle_event(
                event,
                now,
            ).actions[i]->SpawnTools_calls).len() ==> call_known(
                core.handle_event(event, now).core.trace,
                (core.handle_event(event, now).actions[i]->SpawnTools_calls)[k].id,
            ),
{
    let out = core.handle_event(event, now);
    assert forall|i: int, k: int|
        #![trigger out.actions[i], (out.actions[i]->SpawnTools_calls)[k]]
        0 <= i < out.actions.len() && out.actions[i] is SpawnTools && 0 <= k < (
        out.actions[i]->SpawnTools_calls).len() implies call_known(
        out.core.trace,
        (out.actions[i]->SpawnTools_calls)[k].id,
    ) by {
        let calls = out.actions[i]->SpawnTools_calls;
        let decision = event->BrainResult_result->Ok_0;
        assert(core.state is Processing);
        assert(event is BrainResult);
        assert(out == core.accept_decision(decision, now));
        assert(calls == decision.message.calls());
        let last = out.core.trace.len() - 1;
        assert(out.core.trace[last] == decision.message);
        assert(decision.message.has_call(calls[k].id));
    }
}

/// What a tool task does to the agent only adds to the conversation, and
/// the answer to a known call leaves every tool message the answer to a
/// known call.
pub proof fn lemma_task_action_keeps_answers(core: AgentCoreView, action: ToolTaskActionView)
    requires
        tool_messages_answer_calls(core.trace),
        action matches ToolTaskActionView::Append(message) ==> (message matches ChatMessageView::Tool {
            tool_call_id,
            ..
        } && call_known(core.trace, tool_call_id)),
    ensures
        core.trace.is_prefix_of(absorb_action(core, action).trace),
        tool_messages_answer_calls(absorb_action(core, action).trace),
{
    match action {
        ToolTaskActionView::Append(message) => {
            lemma_answer_to_known_call_keeps_answers(core.trace, message);
        },
        _ => {},
    }
}

} // verus!
