//! The agent together with its tool calls, under any interleaving of
//! their steps: the conversation stays well formed.

use vstd::prelude::*;
use crate::agent::actions::proofs::{lemma_step_counts, TaskStep};
use crate::agent::actions::tools::{
    absorb_action,
    ToolTaskActionView,
    ToolTaskInputView,
    ToolTaskStateView,
    ToolTaskView,
};
use crate::agent::agent::{AgentActionView, AgentCoreView};
use crate::agent::events::InternalAgentEventView;
use crate::agent::proofs::{
    lemma_command_keeps_answers,
    lemma_dispatched_calls_are_known,
    lemma_event_keeps_answers,
    lemma_known_calls_stay_known,
    lemma_task_action_keeps_answers,
};
use crate::agent::protocol::AgentRequestView;
use crate::chat::{
    call_known,
    call_known_before,
    tool_messages_answer_calls,
    ChatMessageView,
    LlmToolCallView,
};

verus! {

/// An agent and the tool calls it has started.
pub ghost struct System {
    pub core: AgentCoreView,
    pub tasks: Seq<ToolTaskView>,
}

/// One step of the whole: the main loop handles an event or a command
/// or passes its head, or one of the tool calls moves on.
pub ghost enum SystemStep {
    Event { event: InternalAgentEventView, now: i64 },
    Command { command: AgentRequestView, now: i64 },
    Settle,
    Task { index: int, input: ToolTaskInputView, now: i64, fresh_id: Seq<char> },
}

/// A task for the call, not yet begun.
pub open spec fn fresh_task(tool_call: LlmToolCallView, interactive: bool) -> ToolTaskView {
    ToolTaskView {
        tool_call,
        interactive,
        resolved: None,
        started_at: 0,
        state: ToolTaskStateView::Created,
    }
}

/// The tasks that the actions start: one for each call of each
/// `SpawnTools`, in order.
pub open spec fn spawned(actions: Seq<AgentActionView>, interactive: bool) -> Seq<ToolTaskView>
    decreases actions.len(),
{
    if actions.len() == 0 {
        Seq::empty()
    } else {
        spawned(actions.drop_last(), interactive) + (match actions.last() {
            AgentActionView::SpawnTools { calls, .. } => Seq::new(
                calls.len(),
                |k: int| fresh_task(calls[k], interactive),
            ),
            _ => Seq::empty(),
        })
    }
}

/// The agent after it has taken in the actions of a task, in order.
pub open spec fn absorb_all(core: AgentCoreView, actions: Seq<ToolTaskActionView>) -> AgentCoreView
    decreases actions.len(),
{
    if actions.len() == 0 {
        core
    } else {
        absorb_action(absorb_all(core, actions.drop_last()), actions.last())
    }
}

impl System {
    /// The whole after one step. A task reads the agent's tools and
    /// claims as they are at that moment, and what it does to the
    /// conversation and to the claims is done at once.
    pub open spec fn step(self, s: SystemStep) -> System {
        match s {
            SystemStep::Event { event, now } => {
                let out = self.core.handle_event(event, now);
                System {
                    core: out.core,
                    tasks: self.tasks + spawned(out.actions, self.core.socket.event),
                }
            },
            SystemStep::Command { command, now } => {
                let out = self.core.handle_command(command, now);
                System {
                    core: out.core,
                    tasks: self.tasks + spawned(out.actions, self.core.socket.event),
                }
            },
            SystemStep::Settle => System { core: self.core.settle().core, ..self },
            SystemStep::Task { index, input, now, fresh_id } => if 0 <= index < self.tasks.len() {
                let out = self.tasks[index].step(
                    input,
                    self.core.available_tools,
                    self.core.permissions,
                    now,
                    fresh_id,
                );
                System {
                    core: absorb_all(self.core, out.actions),
                    tasks: self.tasks.update(index, out.task),
                }
            } else {
                self
            },
        }
    }

    /// The whole after the steps, taken in order.
    pub open spec fn run(self, steps: Seq<SystemStep>) -> System
        decreases steps.len(),
    {
        if steps.len() == 0 {
            self
        } else {
            self.step(steps[0]).run(steps.skip(1))
        }
    }

    /// Every tool message of the conversation answers a call that an
    /// earlier assistant message lists, and the conversation lists the
    /// call of every task.
    pub open spec fn sound(self) -> bool {
        &&& tool_messages_answer_calls(self.core.trace)
        &&& forall|i: int|
            0 <= i < self.tasks.len() ==> (#[trigger] self.tasks[i]).consistent() && call_known(
                self.core.trace,
                self.tasks[i].tool_call.id,
            )
    }
}

/// Whether the step hands the agent a batch of messages in which some
/// tool message answers no call of the batch.
pub open spec fn sends_orphans(s: SystemStep) -> bool {
    s matches SystemStep::Command { command: AgentRequestView::SendTrace { messages }, .. }
        && !tool_messages_answer_calls(messages)
}

/// Two conversations in which every tool message answers a known call
/// make one such conversation when joined.
pub proof fn lemma_joined_conversations_keep_answers(
    first: Seq<ChatMessageView>,
    second: Seq<ChatMessageView>,
)
    requires
        tool_messages_answer_calls(first),
        tool_messages_answer_calls(second),
    ensures
        tool_messages_answer_calls(first + second),
{
    let all = first + second;
    assert forall|i: int| 0 <= i < all.len() implies match #[trigger] all[i] {
        ChatMessageView::Tool { tool_call_id, .. } => call_known_before(all, i, tool_call_id),
        _ => true,
    } by {
        match all[i] {
            ChatMessageView::Tool { tool_call_id, .. } => {
                if i < first.len() {
                    assert(all[i] == first[i]);
                    let j = choose|j: int|
                        0 <= j < i && j < first.len() && (#[trigger] first[j]).has_call(
                            tool_call_id,
                        );
                    assert(all[j] == first[j]);
                } else {
                    let at = i - first.len();
                    assert(all[i] == second[at]);
                    let j = choose|j: int|
                        0 <= j < at && j < second.len() && (#[trigger] second[j]).has_call(
                            tool_call_id,
                        );
                    assert(all[j + first.len()] == second[j]);
                }
            },
            _ => {},
        }
    }
}

/// Every task that the actions start is a fresh task for a call of one
/// of their `SpawnTools`.
pub proof fn lemma_spawned_come_from_actions(actions: Seq<AgentActionView>, interactive: bool)
    ensures
        forall|t: int|
            0 <= t < spawned(actions, interactive).len() ==> exists|i: int, k: int|
                #![trigger actions[i], (actions[i]->SpawnTools_calls)[k]]
                0 <= i < actions.len() && actions[i] is SpawnTools && 0 <= k < (
                actions[i]->SpawnTools_calls).len() && (#[trigger] spawned(
                    actions,
                    interactive,
                )[t]) == fresh_task((actions[i]->SpawnTools_calls)[k], interactive),
    decreases actions.len(),
{
    if actions.len() > 0 {
        let before = actions.drop_last();
        lemma_spawned_come_from_actions(before, interactive);
        let all = spawned(actions, interactive);
        assert forall|t: int| 0 <= t < all.len() implies exists|i: int, k: int|
            #![trigger actions[i], (actions[i]->SpawnTools_calls)[k]]
            0 <= i < actions.len() && actions[i] is SpawnTools && 0 <= k < (
            actions[i]->SpawnTools_calls).len() && (#[trigger] all[t]) == fresh_task(
                (actions[i]->SpawnTools_calls)[k],
                interactive,
            ) by {
            let old_len = spawned(before, interactive).len();
            if t < old_len {
                assert(all[t] == spawned(before, interactive)[t]);
                let (i, k) = choose|i: int, k: int|
                    #![trigger before[i], (before[i]->SpawnTools_calls)[k]]
                    0 <= i < before.len() && before[i] is SpawnTools && 0 <= k < (
                    before[i]->SpawnTools_calls).len() && spawned(before, interactive)[t]
                        == fresh_task((before[i]->SpawnTools_calls)[k], interactive);
                assert(actions[i] == before[i]);
                assert(all[t] == fresh_task((actions[i]->SpawnTools_calls)[k], interactive));
            } else {
                let i = actions.len() - 1;
                let k = t - old_len;
                assert(actions[i] is SpawnTools);
                assert(all[t] == fresh_task((actions[i]->SpawnTools_calls)[k], interactive));
            }
        }
    }
}

/// No command starts a tool call.
pub proof fn lemma_commands_spawn_nothing(core: AgentCoreView, command: AgentRequestView, now: i64)
    ensures
        forall|i: int|
            0 <= i < core.handle_command(command, now).actions.len() ==> !(
            #[trigger] core.handle_command(command, now).actions[i] is SpawnTools),
{
}

/// What a consistent task adds to the conversation is the answer to its
/// own call, and nothing else.
pub proof fn lemma_task_answers_its_call(task: ToolTaskView, s: TaskStep)
    requires
        task.consistent(),
    ensures
        forall|i: int|
            0 <= i < task.take(s).actions.len() ==> match #[trigger] task.take(s).actions[i] {
                ToolTaskActionView::Append(message) => message matches ChatMessageView::Tool {
                    tool_call_id,
                    ..
                } && tool_call_id == task.tool_call.id,
                _ => true,
            },
{
}

/// Taking in the actions of a task only adds to the conversation, and
/// where every message added answers a known call, every tool message
/// of the conversation still answers a known call.
pub proof fn lemma_absorbing_keeps_answers(
    core: AgentCoreView,
    actions: Seq<ToolTaskActionView>,
    call_id: Seq<char>,
)
    requires
        tool_messages_answer_calls(core.trace),
        call_known(core.trace, call_id),
        forall|i: int|
            0 <= i < actions.len() ==> match #[trigger] actions[i] {
                ToolTaskActionView::Append(message) => message matches ChatMessageView::Tool {
                    tool_call_id,
                    ..
                } && tool_call_id == call_id,
                _ => true,
            },
    ensures
        core.trace.is_prefix_of(absorb_all(core, actions).trace),
        tool_messages_answer_calls(absorb_all(core, actions).trace),
    decreases actions.len(),
{
    if actions.len() > 0 {
        let before = actions.drop_last();
        assert forall|i: int| 0 <= i < before.len() implies match #[trigger] before[i] {
            ToolTaskActionView::Append(message) => message matches ChatMessageView::Tool {
                tool_call_id,
                ..
            } && tool_call_id == call_id,
            _ => true,
        } by {
            assert(before[i] == actions[i]);
        }
        lemma_absorbing_keeps_answers(core, before, call_id);
        let mid = absorb_all(core, before);
        lemma_known_calls_stay_known(core.trace, mid.trace, call_id);
        assert(actions.last() == actions[actions.len() - 1]);
        lemma_task_action_keeps_answers(mid, actions.last());
    }
}

/// One step keeps the whole sound, unless it hands the agent a batch
/// with a tool message that answers no call of the batch.
pub proof fn lemma_step_keeps_sound(sys: System, s: SystemStep)
    requires
        sys.sound(),
        !sends_orphans(s),
    ensures
        sys.step(s).sound(),
{
    let next = sys.step(s);
    match s {
        SystemStep::Event { event, now } => {
            let out = sys.core.handle_event(event, now);
            lemma_event_keeps_answers(sys.core, event, now);
            lemma_dispatched_calls_are_known(sys.core, event, now);
            lemma_spawned_come_from_actions(out.actions, sys.core.socket.event);
            assert forall|i: int| 0 <= i < next.tasks.len() implies (
            #[trigger] next.tasks[i]).consistent() && call_known(
                next.core.trace,
                next.tasks[i].tool_call.id,
            ) by {
                if i < sys.tasks.len() {
                    assert(next.tasks[i] == sys.tasks[i]);
                    lemma_known_calls_stay_known(
                        sys.core.trace,
                        next.core.trace,
                        sys.tasks[i].tool_call.id,
                    );
                } else {
                    let t = i - sys.tasks.len();
                    let fresh = spawned(out.actions, sys.core.socket.event);
                    assert(next.tasks[i] == fresh[t]);
                    let (a, k) = choose|a: int, k: int|
                        #![trigger out.actions[a], (out.actions[a]->SpawnTools_calls)[k]]
                        0 <= a < out.actions.len() && out.actions[a] is SpawnTools && 0 <= k < (
                        out.actions[a]->SpawnTools_calls).len() && fresh[t] == fresh_task(
                            (out.actions[a]->SpawnTools_calls)[k],
                            sys.core.socket.event,
                        );
                    assert(call_known(
                        out.core.trace,
                        (out.actions[a]->SpawnTools_calls)[k].id,
                    ));
                }
            }
        },
        SystemStep::Command { command, now } => {
            let out = sys.core.handle_command(command, now);
            match command {
                AgentRequestView::SendTrace { messages } => {
                    lemma_joined_conversations_keep_answers(sys.core.trace, messages);
                },
                _ => {},
            }
            lemma_command_keeps_answers(sys.core, command, now);
            lemma_commands_spawn_nothing(sys.core, command, now);
            lemma_spawned_come_from_actions(out.actions, sys.core.socket.event);
            assert forall|i: int| 0 <= i < next.tasks.len() implies (
            #[trigger] next.tasks[i]).consistent() && call_known(
                next.core.trace,
                next.tasks[i].tool_call.id,
            ) by {
                if i < sys.tasks.len() {
                    assert(next.tasks[i] == sys.tasks[i]);
                    lemma_known_calls_stay_known(
                        sys.core.trace,
                        next.core.trace,
                        sys.tasks[i].tool_call.id,
                    );
                } else {
                    let t = i - sys.tasks.len();
                    let fresh = spawned(out.actions, sys.core.socket.event);
                    assert(next.tasks[i] == fresh[t]);
                    let (a, k) = choose|a: int, k: int|
                        #![trigger out.actions[a], (out.actions[a]->SpawnTools_calls)[k]]
                        0 <= a < out.actions.len() && out.actions[a] is SpawnTools && 0 <= k < (
                        out.actions[a]->SpawnTools_calls).len() && fresh[t] == fresh_task(
                            (out.actions[a]->SpawnTools_calls)[k],
                            sys.core.socket.event,
                        );
                    assert(false);
                }
            }
        },
        SystemStep::Settle => {
            assert(next.core.trace == sys.core.trace);
            assert forall|i: int| 0 <= i < next.tasks.len() implies (
            #[trigger] next.tasks[i]).consistent() && call_known(
                next.core.trace,
                next.tasks[i].tool_call.id,
            ) by {
                assert(next.tasks[i] == sys.tasks[i]);
            }
        },
        SystemStep::Task { index, input, now, fresh_id } => {
            if 0 <= index < sys.tasks.len() {
                let task = sys.tasks[index];
                let ts = TaskStep {
                    input,
                    tools: sys.core.available_tools,
                    claims: sys.core.permissions,
                    now,
                    fresh_id,
                };
                let out = task.take(ts);
                lemma_step_counts(task, ts);
                lemma_task_answers_its_call(task, ts);
                lemma_absorbing_keeps_answers(sys.core, out.actions, task.tool_call.id);
                assert forall|i: int| 0 <= i < next.tasks.len() implies (
                #[trigger] next.tasks[i]).consistent() && call_known(
                    next.core.trace,
                    next.tasks[i].tool_call.id,
                ) by {
                    if i != index {
                        assert(next.tasks[i] == sys.tasks[i]);
                    }
                    lemma_known_calls_stay_known(
                        sys.core.trace,
                        next.core.trace,
                        sys.tasks[i].tool_call.id,
                    );
                }
            }
        },
    }
}

/// Start from a conversation in which every tool message answers a
/// call that an earlier assistant message lists. Let the main loop and
/// the tool calls take their steps in any order, and let every batch
/// handed over with `SendTrace` be such a conversation by itself. Then
/// the conversation is such a conversation after every step.
pub proof fn lemma_trace_stays_sound(sys: System, steps: Seq<SystemStep>)
    requires
        sys.sound(),
        forall|i: int| 0 <= i < steps.len() ==> !sends_orphans(#[trigger] steps[i]),
    ensures
        sys.run(steps).sound(),
        tool_messages_answer_calls(sys.run(steps).core.trace),
    decreases steps.len(),
{
    if steps.len() > 0 {
        lemma_step_keeps_sound(sys, steps[0]);
        assert forall|i: int| 0 <= i < steps.skip(1).len() implies !sends_orphans(
            #[trigger] steps.skip(1)[i],
        ) by {
            assert(steps.skip(1)[i] == steps[i + 1]);
        }
        lemma_trace_stays_sound(sys.step(steps[0]), steps.skip(1));
    }
}

// ----- asking for permission -----

/// Whether every tool of the box only reads.
pub open spec fn all_read_only(tools: Seq<crate::tools::ToolSpecView>) -> bool {
    forall|i: int| 0 <= i < tools.len() ==> crate::tools::read_only((#[trigger] tools[i]).capabilities)
}

impl System {
    /// Whether the step makes a tool call ask the user for permission.
    pub open spec fn asks(self, s: SystemStep) -> bool {
        match s {
            SystemStep::Task { index, input, now, fresh_id } => 0 <= index < self.tasks.len()
                && !crate::agent::actions::proofs::never_asks(
                self.tasks[index].step(
                    input,
                    self.core.available_tools,
                    self.core.permissions,
                    now,
                    fresh_id,
                ).actions,
            ),
            _ => false,
        }
    }

    /// Whether any of the steps, taken in order, makes a tool call ask the
    /// user for permission.
    pub open spec fn ever_asks(self, steps: Seq<SystemStep>) -> bool
        decreases steps.len(),
    {
        if steps.len() == 0 {
            false
        } else {
            self.asks(steps[0]) || self.step(steps[0]).ever_asks(steps.skip(1))
        }
    }

    /// Whether no tool call waits for a preview or for the user's answer.
    pub open spec fn nobody_waits(self) -> bool {
        forall|i: int|
            0 <= i < self.tasks.len() ==> !((#[trigger] self.tasks[i]).state is Previewing)
                && !(self.tasks[i].state is AwaitingPermission)
    }

    /// Whether every call may run without asking: sudo is on, or every
    /// tool only reads.
    pub open spec fn free(self) -> bool {
        self.core.permissions.sudo || all_read_only(self.core.available_tools)
    }
}

/// Whether the step turns sudo off.
pub open spec fn turns_sudo_off(s: SystemStep) -> bool {
    s matches SystemStep::Command { command: AgentRequestView::Sudo(Some(false)), .. }
}

/// Taking in the actions of a task changes neither the sudo switch nor
/// the tools.
pub proof fn lemma_absorbing_keeps_switch(core: AgentCoreView, actions: Seq<ToolTaskActionView>)
    ensures
        absorb_all(core, actions).permissions.sudo == core.permissions.sudo,
        absorb_all(core, actions).available_tools == core.available_tools,
    decreases actions.len(),
{
    if actions.len() > 0 {
        lemma_absorbing_keeps_switch(core, actions.drop_last());
    }
}

/// While every call may run without asking and nobody waits, a step asks
/// nothing and leaves things so, unless it turns sudo off while some tool
/// does more than read.
pub proof fn lemma_free_step_never_asks(sys: System, s: SystemStep)
    requires
        sys.free(),
        sys.nobody_waits(),
        turns_sudo_off(s) ==> all_read_only(sys.core.available_tools),
    ensures
        !sys.asks(s),
        sys.step(s).free(),
        sys.step(s).nobody_waits(),
{
    let next = sys.step(s);
    match s {
        SystemStep::Event { event, now } => {
            let out = sys.core.handle_event(event, now);
            lemma_spawned_come_from_actions(out.actions, sys.core.socket.event);
            assert forall|i: int| 0 <= i < next.tasks.len() implies !((
            #[trigger] next.tasks[i]).state is Previewing) && !(next.tasks[i].state
                is AwaitingPermission) by {
                if i < sys.tasks.len() {
                    assert(next.tasks[i] == sys.tasks[i]);
                } else {
                    let fresh = spawned(out.actions, sys.core.socket.event);
                    assert(next.tasks[i] == fresh[i - sys.tasks.len()]);
                }
            }
        },
        SystemStep::Command { command, now } => {
            let out = sys.core.handle_command(command, now);
            lemma_spawned_come_from_actions(out.actions, sys.core.socket.event);
            assert forall|i: int| 0 <= i < next.tasks.len() implies !((
            #[trigger] next.tasks[i]).state is Previewing) && !(next.tasks[i].state
                is AwaitingPermission) by {
                if i < sys.tasks.len() {
                    assert(next.tasks[i] == sys.tasks[i]);
                } else {
                    let fresh = spawned(out.actions, sys.core.socket.event);
                    assert(next.tasks[i] == fresh[i - sys.tasks.len()]);
                }
            }
        },
        SystemStep::Settle => {
            assert forall|i: int| 0 <= i < next.tasks.len() implies !((
            #[trigger] next.tasks[i]).state is Previewing) && !(next.tasks[i].state
                is AwaitingPermission) by {
                assert(next.tasks[i] == sys.tasks[i]);
            }
        },
        SystemStep::Task { index, input, now, fresh_id } => {
            if 0 <= index < sys.tasks.len() {
                let task = sys.tasks[index];
                let ts = TaskStep {
                    input,
                    tools: sys.core.available_tools,
                    claims: sys.core.permissions,
                    now,
                    fresh_id,
                };
                let out = task.take(ts);
                if input is Begin {
                    crate::tools::lemma_first_tool_named(
                        sys.core.available_tools,
                        task.tool_call.name,
                    );
                }
                let one = seq![ts];
                assert(one[0] == ts);
                assert(one.skip(1) =~= Seq::<TaskStep>::empty());
                assert(out.task.run(one.skip(1)) == out.task.unchanged());
                assert(task.run(one).task == out.task);
                assert(task.run(one).actions =~= out.actions);
                assert(crate::agent::actions::proofs::begins_only_when_free(task.tool_call, one));
                crate::agent::actions::proofs::lemma_free_run_never_asks(task, one);
                lemma_absorbing_keeps_switch(sys.core, out.actions);
                assert forall|i: int| 0 <= i < next.tasks.len() implies !((
                #[trigger] next.tasks[i]).state is Previewing) && !(next.tasks[i].state
                    is AwaitingPermission) by {
                    if i != index {
                        assert(next.tasks[i] == sys.tasks[i]);
                    }
                }
            }
        },
    }
}

/// While every call may run without asking, no call ever asks, whatever
/// the steps and their order, so long as sudo is not turned off while
/// some tool does more than read.
pub proof fn lemma_free_run_asks_nothing(sys: System, steps: Seq<SystemStep>)
    requires
        sys.free(),
        sys.nobody_waits(),
        forall|i: int|
            0 <= i < steps.len() && turns_sudo_off(#[trigger] steps[i]) ==> all_read_only(
                sys.core.available_tools,
            ),
    ensures
        !sys.ever_asks(steps),
    decreases steps.len(),
{
    if steps.len() > 0 {
        lemma_free_step_never_asks(sys, steps[0]);
        let next = sys.step(steps[0]);
        lemma_step_keeps_tools(sys, steps[0]);
        assert forall|i: int|
            0 <= i < steps.skip(1).len() && turns_sudo_off(
                #[trigger] steps.skip(1)[i],
            ) implies all_read_only(next.core.available_tools) by {
            assert(steps.skip(1)[i] == steps[i + 1]);
        }
        lemma_free_run_asks_nothing(next, steps.skip(1));
    }
}

/// No step changes the tools of the agent.
pub proof fn lemma_step_keeps_tools(sys: System, s: SystemStep)
    ensures
        sys.step(s).core.available_tools == sys.core.available_tools,
{
    match s {
        SystemStep::Task { index, input, now, fresh_id } => {
            if 0 <= index < sys.tasks.len() {
                let out = sys.tasks[index].step(
                    input,
                    sys.core.available_tools,
                    sys.core.permissions,
                    now,
                    fresh_id,
                );
                lemma_absorbing_keeps_switch(sys.core, out.actions);
            }
        },
        _ => {},
    }
}

/// With sudo on from the start and never turned off, no tool call ever
/// asks for permission, whatever the steps and their order.
pub proof fn lemma_sudo_system_never_asks(sys: System, steps: Seq<SystemStep>)
    requires
        sys.core.permissions.sudo,
        sys.nobody_waits(),
        forall|i: int| 0 <= i < steps.len() ==> !turns_sudo_off(#[trigger] steps[i]),
    ensures
        !sys.ever_asks(steps),
{
    lemma_free_run_asks_nothing(sys, steps);
}

/// With tools that only read, no tool call ever asks for permission,
/// with sudo on or off, whatever the steps and their order.
pub proof fn lemma_read_only_system_never_asks(sys: System, steps: Seq<SystemStep>)
    requires
        all_read_only(sys.core.available_tools),
        sys.nobody_waits(),
    ensures
        !sys.ever_asks(steps),
{
    lemma_free_run_asks_nothing(sys, steps);
}

// ----- one answer for each call -----

/// Whether the message is the answer to the call `call_id`.
pub open spec fn is_answer(message: ChatMessageView, call_id: Seq<char>) -> bool {
    message matches ChatMessageView::Tool { tool_call_id, .. } && tool_call_id == call_id
}

/// How many messages of the conversation answer the call `call_id`.
pub open spec fn count_tool_messages(trace: Seq<ChatMessageView>, call_id: Seq<char>) -> nat
    decreases trace.len(),
{
    if trace.len() == 0 {
        0
    } else {
        count_tool_messages(trace.drop_last(), call_id) + if is_answer(trace.last(), call_id) {
            1nat
        } else {
            0nat
        }
    }
}

/// How many of the tasks are for the call `call_id` and have ended.
pub open spec fn count_ended(tasks: Seq<ToolTaskView>, call_id: Seq<char>) -> nat
    decreases tasks.len(),
{
    if tasks.len() == 0 {
        0
    } else {
        count_ended(tasks.drop_last(), call_id) + tasks.last().answers_given(call_id)
    }
}

/// Whether the step hands the agent a batch of messages that holds a
/// tool message.
pub open spec fn sends_tool_messages(s: SystemStep) -> bool {
    s matches SystemStep::Command { command: AgentRequestView::SendTrace { messages }, .. }
        && exists|k: int| 0 <= k < messages.len() && (#[trigger] messages[k]) is Tool
}

/// Messages that are no tool messages answer no call.
pub proof fn lemma_other_messages_answer_nothing(
    trace: Seq<ChatMessageView>,
    more: Seq<ChatMessageView>,
    call_id: Seq<char>,
)
    requires
        forall|k: int| 0 <= k < more.len() ==> !((#[trigger] more[k]) is Tool),
    ensures
        count_tool_messages(trace + more, call_id) == count_tool_messages(trace, call_id),
    decreases more.len(),
{
    if more.len() == 0 {
        assert(trace + more =~= trace);
    } else {
        let fewer = more.drop_last();
        assert forall|k: int| 0 <= k < fewer.len() implies !((#[trigger] fewer[k]) is Tool) by {
            assert(fewer[k] == more[k]);
        }
        lemma_other_messages_answer_nothing(trace, fewer, call_id);
        assert((trace + more).drop_last() =~= trace + fewer);
        assert((trace + more).last() == more[more.len() - 1]);
    }
}

/// Tasks that have not begun have not ended.
pub proof fn lemma_fresh_tasks_have_not_ended(
    tasks: Seq<ToolTaskView>,
    fresh: Seq<ToolTaskView>,
    call_id: Seq<char>,
)
    requires
        forall|k: int| 0 <= k < fresh.len() ==> (#[trigger] fresh[k]).state is Created,
    ensures
        count_ended(tasks + fresh, call_id) == count_ended(tasks, call_id),
    decreases fresh.len(),
{
    if fresh.len() == 0 {
        assert(tasks + fresh =~= tasks);
    } else {
        let fewer = fresh.drop_last();
        assert forall|k: int| 0 <= k < fewer.len() implies (#[trigger] fewer[k]).state
            is Created by {
            assert(fewer[k] == fresh[k]);
        }
        lemma_fresh_tasks_have_not_ended(tasks, fewer, call_id);
        assert((tasks + fresh).drop_last() =~= tasks + fewer);
        assert((tasks + fresh).last() == fresh[fresh.len() - 1]);
    }
}

/// Putting another task in the place of one changes the count of ended
/// tasks by what the two differ in.
pub proof fn lemma_replaced_task_counts(
    tasks: Seq<ToolTaskView>,
    index: int,
    task: ToolTaskView,
    call_id: Seq<char>,
)
    requires
        0 <= index < tasks.len(),
    ensures
        count_ended(tasks.update(index, task), call_id) + tasks[index].answers_given(call_id)
            == count_ended(tasks, call_id) + task.answers_given(call_id),
    decreases tasks.len(),
{
    let after = tasks.update(index, task);
    if index == tasks.len() - 1 {
        assert(after.drop_last() =~= tasks.drop_last());
    } else {
        lemma_replaced_task_counts(tasks.drop_last(), index, task, call_id);
        assert(after.drop_last() =~= tasks.drop_last().update(index, task));
        assert(after.last() == tasks.last());
    }
}

/// Taking in the actions of a task adds to the conversation as many
/// answers to a call as the actions give.
pub proof fn lemma_absorbing_counts_answers(
    core: AgentCoreView,
    actions: Seq<ToolTaskActionView>,
    call_id: Seq<char>,
)
    requires
        forall|i: int|
            0 <= i < actions.len() ==> match #[trigger] actions[i] {
                ToolTaskActionView::Append(message) => message is Tool,
                _ => true,
            },
    ensures
        count_tool_messages(absorb_all(core, actions).trace, call_id) == count_tool_messages(
            core.trace,
            call_id,
        ) + crate::agent::actions::proofs::count_answers(actions, call_id),
    decreases actions.len(),
{
    if actions.len() > 0 {
        let before = actions.drop_last();
        assert forall|i: int| 0 <= i < before.len() implies match #[trigger] before[i] {
            ToolTaskActionView::Append(message) => message is Tool,
            _ => true,
        } by {
            assert(before[i] == actions[i]);
        }
        lemma_absorbing_counts_answers(core, before, call_id);
        let mid = absorb_all(core, before);
        assert(actions.last() == actions[actions.len() - 1]);
        match actions.last() {
            ToolTaskActionView::Append(message) => {
                assert(mid.trace.push(message).drop_last() =~= mid.trace);
            },
            _ => {},
        }
    }
}

/// One step keeps the balance: as many answers to a call join the
/// conversation as tasks for that call end, so long as the step hands
/// over no tool message from outside.
pub proof fn lemma_step_answers_each_call(sys: System, s: SystemStep, call_id: Seq<char>)
    requires
        sys.sound(),
        !sends_tool_messages(s),
    ensures
        count_tool_messages(sys.step(s).core.trace, call_id) + count_ended(sys.tasks, call_id)
            == count_tool_messages(sys.core.trace, call_id) + count_ended(
            sys.step(s).tasks,
            call_id,
        ),
{
    let next = sys.step(s);
    match s {
        SystemStep::Event { event, now } => {
            let out = sys.core.handle_event(event, now);
            let fresh = spawned(out.actions, sys.core.socket.event);
            lemma_spawned_come_from_actions(out.actions, sys.core.socket.event);
            lemma_fresh_tasks_have_not_ended(sys.tasks, fresh, call_id);
            if out.core.trace != sys.core.trace {
                let message = event->BrainResult_result->Ok_0.message;
                assert(out.core.trace == sys.core.trace.push(message));
                assert(sys.core.trace.push(message) =~= sys.core.trace + seq![message]);
                lemma_other_messages_answer_nothing(sys.core.trace, seq![message], call_id);
            }
        },
        SystemStep::Command { command, now } => {
            let out = sys.core.handle_command(command, now);
            let fresh = spawned(out.actions, sys.core.socket.event);
            lemma_commands_spawn_nothing(sys.core, command, now);
            lemma_spawned_come_from_actions(out.actions, sys.core.socket.event);
            assert(fresh.len() == 0) by {
                if fresh.len() > 0 {
                    let (a, k) = choose|a: int, k: int|
                        #![trigger out.actions[a], (out.actions[a]->SpawnTools_calls)[k]]
                        0 <= a < out.actions.len() && out.actions[a] is SpawnTools && 0 <= k < (
                        out.actions[a]->SpawnTools_calls).len() && fresh[0] == fresh_task(
                            (out.actions[a]->SpawnTools_calls)[k],
                            sys.core.socket.event,
                        );
                }
            }
            assert(sys.tasks + fresh =~= sys.tasks);
            let stopped = sys.core.handle_event(InternalAgentEventView::CancelTask, now);
            assert(stopped.core.trace == sys.core.trace);
            match command {
                AgentRequestView::SendUserInput { input } => {
                    if !sys.core.state.is_terminal() {
                        let message = ChatMessageView::User {
                            content: crate::chat::ChatMessageContentView::Text(input),
                            name: None,
                        };
                        assert(out.core.trace == sys.core.trace.push(message));
                        assert(sys.core.trace.push(message) =~= sys.core.trace + seq![message]);
                        lemma_other_messages_answer_nothing(
                            sys.core.trace,
                            seq![message],
                            call_id,
                        );
                    }
                },
                AgentRequestView::SendTrace { messages } => {
                    if !sys.core.state.is_terminal() {
                        assert(out.core.trace == sys.core.trace + messages);
                        lemma_other_messages_answer_nothing(sys.core.trace, messages, call_id);
                    }
                },
                _ => {},
            }
        },
        SystemStep::Settle => {},
        SystemStep::Task { index, input, now, fresh_id } => {
            if 0 <= index < sys.tasks.len() {
                let task = sys.tasks[index];
                let ts = TaskStep {
                    input,
                    tools: sys.core.available_tools,
                    claims: sys.core.permissions,
                    now,
                    fresh_id,
                };
                let out = task.take(ts);
                lemma_task_answers_its_call(task, ts);
                crate::agent::actions::proofs::lemma_step_answers(task, ts, call_id);
                lemma_absorbing_counts_answers(sys.core, out.actions, call_id);
                lemma_replaced_task_counts(sys.tasks, index, out.task, call_id);
            }
        },
    }
}

/// Let the main loop and the tool calls take their steps in any order,
/// and let no batch handed over with `SendTrace` hold a tool message.
/// Then for every call id, as many answers to it have joined the
/// conversation as tasks for it have ended: once every call of a turn has
/// ended, the conversation holds one tool message for each, in the
/// order in which the calls ended.
pub proof fn lemma_run_answers_each_call(sys: System, steps: Seq<SystemStep>, call_id: Seq<char>)
    requires
        sys.sound(),
        forall|i: int| 0 <= i < steps.len() ==> !sends_tool_messages(#[trigger] steps[i]),
    ensures
        count_tool_messages(sys.run(steps).core.trace, call_id) + count_ended(sys.tasks, call_id)
            == count_tool_messages(sys.core.trace, call_id) + count_ended(
            sys.run(steps).tasks,
            call_id,
        ),
    decreases steps.len(),
{
    if steps.len() > 0 {
        let s = steps[0];
        lemma_step_answers_each_call(sys, s, call_id);
        assert(!sends_orphans(s)) by {
            match s {
                SystemStep::Command { command: AgentRequestView::SendTrace { messages }, .. } => {
                    assert forall|i: int| 0 <= i < messages.len() implies match #[trigger] messages[i] {
                        ChatMessageView::Tool { tool_call_id, .. } => call_known_before(
                            messages,
                            i,
                            tool_call_id,
                        ),
                        _ => true,
                    } by {}
                },
                _ => {},
            }
        }
        lemma_step_keeps_sound(sys, s);
        assert forall|i: int| 0 <= i < steps.skip(1).len() implies !sends_tool_messages(
            #[trigger] steps.skip(1)[i],
        ) by {
            assert(steps.skip(1)[i] == steps[i + 1]);
        }
        lemma_run_answers_each_call(sys.step(s), steps.skip(1), call_id);
    }
}

} // verus!
