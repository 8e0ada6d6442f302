//! What holds of a tool call over its whole life, whatever reaches it and
//! in whatever order.

use vstd::prelude::*;
use crate::agent::actions::tools::{
    cancelled_by_user,
    resolve_call,
    TaskOutcome,
    ToolTaskActionView,
    ToolTaskInputView,
    ToolTaskStateView,
    ToolTaskView,
};
use crate::agent::claims::ClaimManagerView;
use crate::agent::events::AgentEventView;
use crate::tools::{first_tool_named, read_only, ToolSpecView};

verus! {

/// One step of a task's life: what reaches it, and the world at that
/// moment.
pub ghost struct TaskStep {
    pub input: ToolTaskInputView,
    pub tools: Seq<ToolSpecView>,
    pub claims: ClaimManagerView,
    pub now: i64,
    pub fresh_id: Seq<char>,
}

impl ToolTaskView {
    /// The step `s` taken by the task.
    pub open spec fn take(self, s: TaskStep) -> TaskOutcome {
        self.step(s.input, s.tools, s.claims, s.now, s.fresh_id)
    }

    /// The task after the steps, taken in order, with every action asked
    /// for on the way.
    pub open spec fn run(self, steps: Seq<TaskStep>) -> TaskOutcome
        decreases steps.len(),
    {
        if steps.len() == 0 {
            self.unchanged()
        } else {
            let first = self.take(steps[0]);
            let rest = first.task.run(steps.skip(1));
            TaskOutcome { task: rest.task, actions: first.actions + rest.actions }
        }
    }

    /// A task that has not begun holds no call, and a call that a task
    /// holds carries the id that the model gave it.
    pub open spec fn consistent(self) -> bool {
        &&& self.state is Created ==> self.resolved is None
        &&& self.resolved is Some ==> self.call().tool_call_id == self.tool_call.id
        &&& self.wf()
    }

    /// How often the start of the call has been published so far.
    pub open spec fn starts_told(self) -> nat {
        if self.interactive && self.resolved is Some {
            1
        } else {
            0
        }
    }

    /// How often the end of the call has been published so far.
    pub open spec fn ends_told(self) -> nat {
        if self.interactive && self.state is Finished {
            1
        } else {
            0
        }
    }
}

/// Whether the action publishes the start of the call `call_id`.
pub open spec fn tells_start(action: ToolTaskActionView, call_id: Seq<char>) -> bool {
    match action {
        ToolTaskActionView::Publish(AgentEventView::ToolCallStarted { call, .. }) =>
            call.tool_call_id == call_id,
        _ => false,
    }
}

/// Whether the action publishes the end of the call `call_id`.
pub open spec fn tells_end(action: ToolTaskActionView, call_id: Seq<char>) -> bool {
    match action {
        ToolTaskActionView::Publish(AgentEventView::ToolCallCompleted { call, .. }) =>
            call.tool_call_id == call_id,
        _ => false,
    }
}

/// Whether the action asks the user for permission.
pub open spec fn asks_permission(action: ToolTaskActionView) -> bool {
    action matches ToolTaskActionView::Publish(AgentEventView::PermissionRequired { .. })
}

/// How many of the actions publish the start of the call `call_id`.
pub open spec fn count_starts(actions: Seq<ToolTaskActionView>, call_id: Seq<char>) -> nat
    decreases actions.len(),
{
    if actions.len() == 0 {
        0
    } else {
        count_starts(actions.drop_last(), call_id) + if tells_start(actions.last(), call_id) {
            1nat
        } else {
            0nat
        }
    }
}

/// How many of the actions publish the end of the call `call_id`.
pub open spec fn count_ends(actions: Seq<ToolTaskActionView>, call_id: Seq<char>) -> nat
    decreases actions.len(),
{
    if actions.len() == 0 {
        0
    } else {
        count_ends(actions.drop_last(), call_id) + if tells_end(actions.last(), call_id) {
            1nat
        } else {
            0nat
        }
    }
}

/// The counts of two lists of actions add up over their concatenation.
pub proof fn lemma_counts_add(
    a: Seq<ToolTaskActionView>,
    b: Seq<ToolTaskActionView>,
    call_id: Seq<char>,
)
    ensures
        count_starts(a + b, call_id) == count_starts(a, call_id) + count_starts(b, call_id),
        count_ends(a + b, call_id) == count_ends(a, call_id) + count_ends(b, call_id),
    decreases b.len(),
{
    if b.len() == 0 {
        assert(a + b =~= a);
    } else {
        lemma_counts_add(a, b.drop_last(), call_id);
        assert((a + b).drop_last() =~= a + b.drop_last());
        assert((a + b).last() == b.last());
    }
}

proof fn lemma_counts_small(actions: Seq<ToolTaskActionView>, call_id: Seq<char>)
    requires
        actions.len() <= 3,
    ensures
        count_starts(actions, call_id) == (if actions.len() > 0 && tells_start(
            actions[0],
            call_id,
        ) {
            1nat
        } else {
            0nat
        }) + (if actions.len() > 1 && tells_start(actions[1], call_id) {
            1nat
        } else {
            0nat
        }) + (if actions.len() > 2 && tells_start(actions[2], call_id) {
            1nat
        } else {
            0nat
        }),
        count_ends(actions, call_id) == (if actions.len() > 0 && tells_end(actions[0], call_id) {
            1nat
        } else {
            0nat
        }) + (if actions.len() > 1 && tells_end(actions[1], call_id) {
            1nat
        } else {
            0nat
        }) + (if actions.len() > 2 && tells_end(actions[2], call_id) {
            1nat
        } else {
            0nat
        }),
    decreases actions.len(),
{
    if actions.len() > 0 {
        lemma_counts_small(actions.drop_last(), call_id);
    }
}

/// One step of a consistent task leaves it consistent, and publishes the
/// start and the end of its call exactly as often as the task's own
/// count of them grows.
pub proof fn lemma_step_counts(task: ToolTaskView, s: TaskStep)
    requires
        task.consistent(),
    ensures
        task.take(s).task.consistent(),
        task.take(s).task.tool_call == task.tool_call,
        task.take(s).task.interactive == task.interactive,
        count_starts(task.take(s).actions, task.tool_call.id) + task.starts_told() == task.take(
            s,
        ).task.starts_told(),
        count_ends(task.take(s).actions, task.tool_call.id) + task.ends_told() == task.take(
            s,
        ).task.ends_told(),
{
    let out = task.take(s);
    let id = task.tool_call.id;
    if task.state is Created && s.input is Begin {
        match resolve_call(s.tools, task.tool_call) {
            Err(failure) => {
                assert(out == task.reject(failure));
            },
            Ok((index, call)) => {
                let begun = ToolTaskView {
                    resolved: Some((index, call)),
                    started_at: s.now,
                    ..task
                };
                let gated = begun.gate(s.tools, s.claims, s.now);
                assert(out.actions == begun.publish(
                    AgentEventView::ToolCallStarted { timestamp: s.now, call },
                ) + gated.actions);
                lemma_counts_add(
                    begun.publish(AgentEventView::ToolCallStarted { timestamp: s.now, call }),
                    gated.actions,
                    id,
                );
                lemma_counts_small(
                    begun.publish(AgentEventView::ToolCallStarted { timestamp: s.now, call }),
                    id,
                );
                lemma_counts_small(gated.actions, id);
            },
        }
    }
    lemma_counts_small(out.actions, id);
}

/// Over any run of a consistent task, the start and the end of its call
/// are published exactly as often as the task's own count of them grows.
pub proof fn lemma_run_counts(task: ToolTaskView, steps: Seq<TaskStep>)
    requires
        task.consistent(),
    ensures
        task.run(steps).task.consistent(),
        task.run(steps).task.tool_call == task.tool_call,
        task.run(steps).task.interactive == task.interactive,
        count_starts(task.run(steps).actions, task.tool_call.id) + task.starts_told() == task.run(
            steps,
        ).task.starts_told(),
        count_ends(task.run(steps).actions, task.tool_call.id) + task.ends_told() == task.run(
            steps,
        ).task.ends_told(),
    decreases steps.len(),
{
    if steps.len() > 0 {
        let first = task.take(steps[0]);
        lemma_step_counts(task, steps[0]);
        lemma_run_counts(first.task, steps.skip(1));
        lemma_counts_add(first.actions, first.task.run(steps.skip(1)).actions, task.tool_call.id);
    }
}

/// A call that could be read and has ended was announced as often as
/// its end was reported, whatever reached the task and in whatever
/// order: once each where somebody listens, never where nobody does. A
/// call that could not be read is never announced.
pub proof fn lemma_started_matches_completed(
    tool_call: crate::chat::LlmToolCallView,
    interactive: bool,
    steps: Seq<TaskStep>,
)
    ensures
        ({
            let fresh = ToolTaskView {
                tool_call,
                interactive,
                resolved: None,
                started_at: 0,
                state: ToolTaskStateView::Created,
            };
            let end = fresh.run(steps);
            &&& count_ends(end.actions, tool_call.id) <= count_starts(end.actions, tool_call.id)
                || end.task.resolved is None
            &&& end.task.state is Finished && end.task.resolved is Some ==> count_starts(
                end.actions,
                tool_call.id,
            ) == count_ends(end.actions, tool_call.id)
            &&& end.task.resolved is None ==> count_starts(end.actions, tool_call.id) == 0
        }),
{
    let fresh = ToolTaskView {
        tool_call,
        interactive,
        resolved: None,
        started_at: 0,
        state: ToolTaskStateView::Created,
    };
    lemma_run_counts(fresh, steps);
}

/// Whether the action puts the answer to the call `call_id` into the
/// conversation.
pub open spec fn gives_answer(action: ToolTaskActionView, call_id: Seq<char>) -> bool {
    match action {
        ToolTaskActionView::Append(
            crate::chat::ChatMessageView::Tool { tool_call_id, .. },
        ) => tool_call_id == call_id,
        _ => false,
    }
}

/// How many of the actions put an answer to the call `call_id` into the
/// conversation.
pub open spec fn count_answers(actions: Seq<ToolTaskActionView>, call_id: Seq<char>) -> nat
    decreases actions.len(),
{
    if actions.len() == 0 {
        0
    } else {
        count_answers(actions.drop_last(), call_id) + if gives_answer(actions.last(), call_id) {
            1nat
        } else {
            0nat
        }
    }
}

/// The answers of two lists of actions add up over their concatenation.
pub proof fn lemma_answers_add(
    a: Seq<ToolTaskActionView>,
    b: Seq<ToolTaskActionView>,
    call_id: Seq<char>,
)
    ensures
        count_answers(a + b, call_id) == count_answers(a, call_id) + count_answers(b, call_id),
    decreases b.len(),
{
    if b.len() == 0 {
        assert(a + b =~= a);
    } else {
        lemma_answers_add(a, b.drop_last(), call_id);
        assert((a + b).drop_last() =~= a + b.drop_last());
        assert((a + b).last() == b.last());
    }
}

proof fn lemma_answers_small(actions: Seq<ToolTaskActionView>, call_id: Seq<char>)
    requires
        actions.len() <= 3,
    ensures
        count_answers(actions, call_id) == (if actions.len() > 0 && gives_answer(
            actions[0],
            call_id,
        ) {
            1nat
        } else {
            0nat
        }) + (if actions.len() > 1 && gives_answer(actions[1], call_id) {
            1nat
        } else {
            0nat
        }) + (if actions.len() > 2 && gives_answer(actions[2], call_id) {
            1nat
        } else {
            0nat
        }),
    decreases actions.len(),
{
    if actions.len() > 0 {
        lemma_answers_small(actions.drop_last(), call_id);
    }
}

impl ToolTaskView {
    /// How many answers to the call `call_id` the task has given so far:
    /// one once it has ended, if the call is its own.
    pub open spec fn answers_given(self, call_id: Seq<char>) -> nat {
        if self.state is Finished && self.tool_call.id == call_id {
            1
        } else {
            0
        }
    }
}

/// One step of a consistent task puts an answer into the conversation
/// exactly when the task ends with it, and the answer is to its own call.
pub proof fn lemma_step_answers(task: ToolTaskView, s: TaskStep, call_id: Seq<char>)
    requires
        task.consistent(),
    ensures
        count_answers(task.take(s).actions, call_id) + task.answers_given(call_id) == task.take(
            s,
        ).task.answers_given(call_id),
{
    let out = task.take(s);
    lemma_step_counts(task, s);
    if task.state is Created && s.input is Begin {
        match resolve_call(s.tools, task.tool_call) {
            Err(failure) => {
                assert(out == task.reject(failure));
            },
            Ok((index, call)) => {
                let begun = ToolTaskView {
                    resolved: Some((index, call)),
                    started_at: s.now,
                    ..task
                };
                let gated = begun.gate(s.tools, s.claims, s.now);
                let told = begun.publish(AgentEventView::ToolCallStarted { timestamp: s.now, call });
                assert(out.actions == told + gated.actions);
                lemma_answers_add(told, gated.actions, call_id);
                lemma_answers_small(told, call_id);
                lemma_answers_small(gated.actions, call_id);
            },
        }
    }
    lemma_answers_small(out.actions, call_id);
}

/// Whatever reaches a consistent task, it puts an answer into the
/// conversation exactly when it ends, and the answer is to its own call.
pub proof fn lemma_run_answers(task: ToolTaskView, steps: Seq<TaskStep>, call_id: Seq<char>)
    requires
        task.consistent(),
    ensures
        count_answers(task.run(steps).actions, call_id) + task.answers_given(call_id) == task.run(
            steps,
        ).task.answers_given(call_id),
    decreases steps.len(),
{
    if steps.len() > 0 {
        let first = task.take(steps[0]);
        lemma_step_counts(task, steps[0]);
        lemma_step_answers(task, steps[0], call_id);
        lemma_run_answers(first.task, steps.skip(1), call_id);
        lemma_answers_add(first.actions, first.task.run(steps.skip(1)).actions, call_id);
    }
}

/// A call is answered in the conversation exactly once, at its end,
/// whether it could be read or not, whether it ran, failed, was denied
/// or was stopped, and whatever reached its task in whatever order.
pub proof fn lemma_call_is_answered_once(
    tool_call: crate::chat::LlmToolCallView,
    interactive: bool,
    steps: Seq<TaskStep>,
)
    ensures
        ({
            let fresh = ToolTaskView {
                tool_call,
                interactive,
                resolved: None,
                started_at: 0,
                state: ToolTaskStateView::Created,
            };
            let end = fresh.run(steps);
            count_answers(end.actions, tool_call.id) == (if end.task.state is Finished {
                1nat
            } else {
                0nat
            })
        }),
{
    let fresh = ToolTaskView {
        tool_call,
        interactive,
        resolved: None,
        started_at: 0,
        state: ToolTaskStateView::Created,
    };
    lemma_run_answers(fresh, steps, tool_call.id);
    lemma_run_counts(fresh, steps);
}

/// A task reports itself denied exactly when its call ended with a
/// denial: a failure, a stopped call and a call that could not be read
/// do not count. Where somebody listens, the result is the one published
/// last.
pub proof fn lemma_only_denial_counts_as_denied(task: ToolTaskView, s: TaskStep)
    requires
        task.consistent(),
        task.interactive,
        !(task.state is Finished),
        task.take(s).task.state is Finished,
    ensures
        task.take(s).actions.len() > 0,
        task.take(s).actions.last() matches ToolTaskActionView::Publish(
            AgentEventView::ToolCallCompleted { result, call, .. },
        ) && (task.take(s).task.state->denied <==> result is Denied) && call.tool_call_id
            == task.tool_call.id,
{
    let out = task.take(s);
    if task.state is Created && s.input is Begin {
        match resolve_call(s.tools, task.tool_call) {
            Err(failure) => {
                assert(out == task.reject(failure));
            },
            Ok((index, call)) => {
                let begun = ToolTaskView {
                    resolved: Some((index, call)),
                    started_at: s.now,
                    ..task
                };
                let gated = begun.gate(s.tools, s.claims, s.now);
                assert(gated.task.state is Finished);
                assert(gated == begun.finish(crate::tools::ToolResultView::Denied, s.now));
            },
        }
    }
}

/// Whether no end of a call is published before a start of it.
pub open spec fn starts_come_first(actions: Seq<ToolTaskActionView>, call_id: Seq<char>) -> bool {
    forall|i: int, j: int|
        0 <= i < j < actions.len() && tells_end(#[trigger] actions[i], call_id) ==> !tells_start(
            #[trigger] actions[j],
            call_id,
        )
}

/// Whatever reaches a consistent task, it publishes no start of its
/// call after an end of it; and a task that has ended publishes neither.
pub proof fn lemma_start_precedes_end(task: ToolTaskView, steps: Seq<TaskStep>)
    requires
        task.consistent(),
    ensures
        starts_come_first(task.run(steps).actions, task.tool_call.id),
        task.state is Finished ==> count_starts(task.run(steps).actions, task.tool_call.id) == 0,
    decreases steps.len(),
{
    let id = task.tool_call.id;
    if steps.len() > 0 {
        let s = steps[0];
        let first = task.take(s);
        let rest = first.task.run(steps.skip(1));
        lemma_step_counts(task, s);
        lemma_start_precedes_end(first.task, steps.skip(1));
        lemma_counts_add(first.actions, rest.actions, id);
        let all = first.actions + rest.actions;
        assert(starts_come_first(first.actions, id));
        if exists|i: int| 0 <= i < first.actions.len() && tells_end(first.actions[i], id) {
            assert(first.task.state is Finished);
            lemma_no_start_in(rest.actions, id);
        }
        if task.state is Finished {
            assert(first.actions.len() == 0);
            lemma_counts_small(first.actions, id);
        }
        assert forall|i: int, j: int|
            0 <= i < j < all.len() && tells_end(#[trigger] all[i], id) implies !tells_start(
            #[trigger] all[j],
            id,
        ) by {
            if i < first.actions.len() {
                assert(all[i] == first.actions[i]);
                if j < first.actions.len() {
                    assert(all[j] == first.actions[j]);
                } else {
                    assert(all[j] == rest.actions[j - first.actions.len()]);
                }
            } else {
                assert(all[i] == rest.actions[i - first.actions.len()]);
                assert(all[j] == rest.actions[j - first.actions.len()]);
            }
        }
    }
}

/// Actions among which the start of a call is counted zero times hold
/// no start of it.
proof fn lemma_no_start_in(actions: Seq<ToolTaskActionView>, call_id: Seq<char>)
    requires
        count_starts(actions, call_id) == 0,
    ensures
        forall|j: int| 0 <= j < actions.len() ==> !tells_start(#[trigger] actions[j], call_id),
    decreases actions.len(),
{
    if actions.len() > 0 {
        lemma_no_start_in(actions.drop_last(), call_id);
        assert forall|j: int| 0 <= j < actions.len() implies !tells_start(
            #[trigger] actions[j],
            call_id,
        ) by {
            if j < actions.len() - 1 {
                assert(actions.drop_last()[j] == actions[j]);
            }
        }
    }
}

/// A consistent task publishes the start and the end of no call but its
/// own, whatever reaches it.
pub proof fn lemma_run_tells_own_call_only(
    task: ToolTaskView,
    steps: Seq<TaskStep>,
    other_id: Seq<char>,
)
    requires
        task.consistent(),
        other_id != task.tool_call.id,
    ensures
        count_starts(task.run(steps).actions, other_id) == 0,
        count_ends(task.run(steps).actions, other_id) == 0,
    decreases steps.len(),
{
    if steps.len() > 0 {
        let s = steps[0];
        let first = task.take(s);
        lemma_step_counts(task, s);
        if task.state is Created && s.input is Begin {
            match resolve_call(s.tools, task.tool_call) {
                Err(failure) => {},
                Ok((index, call)) => {
                    let begun = ToolTaskView {
                        resolved: Some((index, call)),
                        started_at: s.now,
                        ..task
                    };
                    let gated = begun.gate(s.tools, s.claims, s.now);
                    lemma_counts_add(
                        begun.publish(AgentEventView::ToolCallStarted { timestamp: s.now, call }),
                        gated.actions,
                        other_id,
                    );
                    lemma_counts_small(
                        begun.publish(AgentEventView::ToolCallStarted { timestamp: s.now, call }),
                        other_id,
                    );
                    lemma_counts_small(gated.actions, other_id);
                },
            }
        }
        lemma_counts_small(first.actions, other_id);
        lemma_run_tells_own_call_only(first.task, steps.skip(1), other_id);
        lemma_counts_add(first.actions, first.task.run(steps.skip(1)).actions, other_id);
    }
}

/// The runs of the calls of one turn: for each call, what reached its
/// task.
pub ghost struct CallRun {
    pub tool_call: crate::chat::LlmToolCallView,
    pub interactive: bool,
    pub steps: Seq<TaskStep>,
}

impl CallRun {
    /// The task at the end of the run, with every action asked for.
    pub open spec fn outcome(self) -> TaskOutcome {
        (ToolTaskView {
            tool_call: self.tool_call,
            interactive: self.interactive,
            resolved: None,
            started_at: 0,
            state: ToolTaskStateView::Created,
        }).run(self.steps)
    }

    /// Whether the call could be read and has ended.
    pub open spec fn ended_read(self) -> bool {
        self.outcome().task.state is Finished && self.outcome().task.resolved is Some
    }
}

/// How often the runs, taken together, publish the start of the call
/// `call_id`.
pub open spec fn turn_starts(runs: Seq<CallRun>, call_id: Seq<char>) -> nat
    decreases runs.len(),
{
    if runs.len() == 0 {
        0
    } else {
        turn_starts(runs.drop_last(), call_id) + count_starts(
            runs.last().outcome().actions,
            call_id,
        )
    }
}

/// How often the runs, taken together, publish the end of the call
/// `call_id`.
pub open spec fn turn_ends(runs: Seq<CallRun>, call_id: Seq<char>) -> nat
    decreases runs.len(),
{
    if runs.len() == 0 {
        0
    } else {
        turn_ends(runs.drop_last(), call_id) + count_ends(runs.last().outcome().actions, call_id)
    }
}

/// In a turn whose calls could all be read and have all ended, the
/// start of every call id is published as often as its end, whatever
/// reached the tasks and however their steps were interleaved.
pub proof fn lemma_turn_started_matches_completed(runs: Seq<CallRun>, call_id: Seq<char>)
    requires
        forall|i: int| 0 <= i < runs.len() ==> (#[trigger] runs[i]).ended_read(),
    ensures
        turn_starts(runs, call_id) == turn_ends(runs, call_id),
    decreases runs.len(),
{
    if runs.len() > 0 {
        let before = runs.drop_last();
        assert forall|i: int| 0 <= i < before.len() implies (#[trigger] before[i]).ended_read() by {
            assert(before[i] == runs[i]);
        }
        lemma_turn_started_matches_completed(before, call_id);
        let last = runs.last();
        assert(last == runs[runs.len() - 1]);
        let fresh = ToolTaskView {
            tool_call: last.tool_call,
            interactive: last.interactive,
            resolved: None,
            started_at: 0,
            state: ToolTaskStateView::Created,
        };
        if call_id == last.tool_call.id {
            lemma_run_counts(fresh, last.steps);
        } else {
            lemma_run_tells_own_call_only(fresh, last.steps, call_id);
        }
    }
}

/// Whether no step begins the task unless the call may then run without
/// asking: the call cannot be read, or its tool only reads, or the
/// claims of that moment permit it.
pub open spec fn begins_only_when_free(tool_call: crate::chat::LlmToolCallView, steps: Seq<TaskStep>)
    -> bool {
    forall|i: int|
        0 <= i < steps.len() && (#[trigger] steps[i]).input is Begin ==> match resolve_call(
            steps[i].tools,
            tool_call,
        ) {
            Ok((index, call)) => ToolTaskView::may_run(
                steps[i].tools[index],
                call,
                steps[i].claims,
            ),
            Err(_) => true,
        }
}

/// Whether none of the actions asks the user for permission.
pub open spec fn never_asks(actions: Seq<ToolTaskActionView>) -> bool {
    forall|i: int| 0 <= i < actions.len() ==> !asks_permission(#[trigger] actions[i])
}

/// A task that is neither waiting for a preview nor for an answer, and
/// that begins only when its call may run without asking, never asks.
pub proof fn lemma_free_run_never_asks(task: ToolTaskView, steps: Seq<TaskStep>)
    requires
        !(task.state is Previewing),
        !(task.state is AwaitingPermission),
        begins_only_when_free(task.tool_call, steps),
    ensures
        never_asks(task.run(steps).actions),
        !(task.run(steps).task.state is Previewing),
        !(task.run(steps).task.state is AwaitingPermission),
    decreases steps.len(),
{
    if steps.len() > 0 {
        let s = steps[0];
        let first = task.take(s);
        assert(first.task.tool_call == task.tool_call);
        assert(never_asks(first.actions));
        assert forall|i: int|
            0 <= i < steps.skip(1).len() && (#[trigger] steps.skip(1)[i]).input
                is Begin implies match resolve_call(steps.skip(1)[i].tools, task.tool_call) {
            Ok((index, call)) => ToolTaskView::may_run(
                steps.skip(1)[i].tools[index],
                call,
                steps.skip(1)[i].claims,
            ),
            Err(_) => true,
        } by {
            assert(steps.skip(1)[i] == steps[i + 1]);
        }
        lemma_free_run_never_asks(first.task, steps.skip(1));
    }
}

/// With sudo on whenever the task begins, the user is never asked for
/// permission, whatever reaches the task afterwards.
pub proof fn lemma_sudo_never_asks(
    tool_call: crate::chat::LlmToolCallView,
    interactive: bool,
    steps: Seq<TaskStep>,
)
    requires
        forall|i: int|
            0 <= i < steps.len() && (#[trigger] steps[i]).input is Begin ==> steps[i].claims.sudo,
    ensures
        never_asks(
            (ToolTaskView {
                tool_call,
                interactive,
                resolved: None,
                started_at: 0,
                state: ToolTaskStateView::Created,
            }).run(steps).actions,
        ),
{
    let fresh = ToolTaskView {
        tool_call,
        interactive,
        resolved: None,
        started_at: 0,
        state: ToolTaskStateView::Created,
    };
    lemma_free_run_never_asks(fresh, steps);
}

/// For a tool that only reads, the user is never asked for permission,
/// with or without sudo.
pub proof fn lemma_read_only_never_asks(
    tool_call: crate::chat::LlmToolCallView,
    interactive: bool,
    steps: Seq<TaskStep>,
)
    requires
        forall|i: int|
            0 <= i < steps.len() && (#[trigger] steps[i]).input is Begin ==> match first_tool_named(
                steps[i].tools,
                tool_call.name,
            ) {
                Some(index) => read_only(steps[i].tools[index].capabilities),
                None => true,
            },
    ensures
        never_asks(
            (ToolTaskView {
                tool_call,
                interactive,
                resolved: None,
                started_at: 0,
                state: ToolTaskStateView::Created,
            }).run(steps).actions,
        ),
{
    let fresh = ToolTaskView {
        tool_call,
        interactive,
        resolved: None,
        started_at: 0,
        state: ToolTaskStateView::Created,
    };
    lemma_free_run_never_asks(fresh, steps);
}

/// A call that has begun and not ended answers the firing of its handle
/// by ending with the failure `cancelled by user`: that result joins the
/// conversation and, where somebody listens, is published.
pub proof fn lemma_cancelled_call_reports_cancellation(task: ToolTaskView, s: TaskStep)
    requires
        task.wf(),
        task.state is Previewing || task.state is AwaitingPermission || task.state is Executing,
        s.input is Cancelled,
    ensures
        task.take(s) == task.finish(cancelled_by_user(), s.now),
        task.take(s).task.state == (ToolTaskStateView::Finished { denied: false }),
        task.interactive ==> task.take(s).actions.last() == ToolTaskActionView::Publish(
            AgentEventView::ToolCallCompleted {
                duration: crate::agent::actions::tools::elapsed_ms(task.started_at, s.now),
                call: task.call(),
                result: cancelled_by_user(),
            },
        ),
{
}

} // verus!
