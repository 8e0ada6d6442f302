//! Thinking: starting the brain and applying its answer.

use vstd::prelude::*;
use crate::agent::agent::{AgentAction, AgentActionView, AgentCore, AgentCoreView, Outcome};
use crate::agent::brain::{ThinkerDecision, ThinkerDecisionView, ThinkerFlowControl};
use crate::agent::error::{AgentError, AgentErrorView};
use crate::agent::events::{AgentEvent, AgentEventView};
use crate::agent::states::{InternalAgentState, InternalAgentStateView};
use crate::chat::{ChatMessage, ChatMessageView, LlmToolCall, LlmToolCallView};
use crate::sys::utc_now_millis;
use crate::text::{append_deep, prefixed, push_deep};

verus! {

impl ChatMessageView {
    /// The role of the message's author.
    pub open spec fn role(self) -> Seq<char> {
        match self {
            ChatMessageView::Developer { .. } => "developer"@,
            ChatMessageView::System { .. } => "system"@,
            ChatMessageView::User { .. } => "user"@,
            ChatMessageView::Assistant { .. } => "assistant"@,
            ChatMessageView::Tool { .. } => "tool"@,
        }
    }
}

impl ChatMessage {
    /// The role of the message's author.
    pub fn role(&self) -> (r: &'static str)
        ensures
            r@ == self.deep_view().role(),
    {
        match self {
            ChatMessage::Developer { .. } => "developer",
            ChatMessage::System { .. } => "system",
            ChatMessage::User { .. } => "user",
            ChatMessage::Assistant { .. } => "assistant",
            ChatMessage::Tool { .. } => "tool",
        }
    }
}

/// The complaint about a brain that answered with a message of another
/// role than the assistant's.
pub open spec fn unexpected_role_text(role: Seq<char>) -> Seq<char> {
    "ChatMessage::Assistant expected, but got a message of another role instead: "@ + role
}

impl AgentCoreView {
    /// The brain is started under a fresh handle and the agent moves to
    /// `Processing`; the change of state is published first.
    pub open spec fn spawn_next_step(self, now: i64) -> Outcome {
        let token = self.fresh_token();
        let moved = self.take_token().set_state(
            InternalAgentStateView::Processing {
                task_name: "next_step"@,
                tools_exec_at: now,
                cancellation_token: token,
            },
        );
        Outcome {
            core: moved.core,
            actions: moved.actions.push(
                AgentActionView::SpawnBrain { cancellation_token: token, method: self.method },
            ),
        }
    }

    /// The calls are started under a fresh handle and the agent moves to
    /// `Processing`; the change of state is published first.
    pub open spec fn spawn_tools(self, calls: Seq<LlmToolCallView>, now: i64) -> Outcome {
        let token = self.fresh_token();
        let moved = self.take_token().set_state(
            InternalAgentStateView::Processing {
                task_name: "tools"@,
                tools_exec_at: now,
                cancellation_token: token,
            },
        );
        Outcome {
            core: moved.core,
            actions: moved.actions.push(
                AgentActionView::SpawnTools { cancellation_token: token, calls },
            ),
        }
    }

    /// The agent pauses, then the failure is published.
    pub open spec fn handle_brain_error(self, error: AgentErrorView, now: i64) -> Outcome {
        let paused = self.set_state(InternalAgentStateView::Paused);
        Outcome {
            core: paused.core,
            actions: paused.actions + paused.core.emit_event(
                AgentEventView::BrainResult { timestamp: now, thought: Err(error) },
            ),
        }
    }

    /// The failure that a brain result amounts to, if any: the brain's own
    /// error, or a message that no assistant wrote.
    pub open spec fn brain_failure(
        result: Result<ThinkerDecisionView, AgentErrorView>,
    ) -> Option<AgentErrorView> {
        match result {
            Err(e) => Some(e),
            Ok(d) => if d.message is Assistant {
                None
            } else {
                Some(AgentErrorView::InvalidResponse(unexpected_role_text(d.message.role())))
            },
        }
    }

    /// An assistant message joins the conversation and is published, with
    /// the token usage if there is one. Then its tool calls are started;
    /// without tool calls the flow decides between `Running` and `Paused`.
    pub open spec fn accept_decision(self, decision: ThinkerDecisionView, now: i64) -> Outcome {
        let heard = AgentCoreView { trace: self.trace.push(decision.message), ..self };
        let thought = heard.emit_event(
            AgentEventView::BrainResult { timestamp: now, thought: Ok(decision.message) },
        );
        let usage = match decision.token_usage {
            Some((input_tokens, output_tokens)) => heard.emit_event(
                AgentEventView::TokenUsage { input_tokens, output_tokens },
            ),
            None => Seq::empty(),
        };
        let calls = decision.message.calls();
        let next = if calls.len() > 0 {
            heard.spawn_tools(calls, now)
        } else {
            heard.set_state(
                match decision.flow {
                    ThinkerFlowControl::AgentContinue => InternalAgentStateView::Running,
                    ThinkerFlowControl::AgentPause => InternalAgentStateView::Paused,
                },
            )
        };
        Outcome { core: next.core, actions: thought + usage + next.actions }
    }

    /// What the agent makes of the brain's answer.
    pub open spec fn process_next_step(
        self,
        result: Result<ThinkerDecisionView, AgentErrorView>,
        now: i64,
    ) -> Outcome {
        match Self::brain_failure(result) {
            Some(error) => self.handle_brain_error(error, now),
            None => self.accept_decision(result->Ok_0, now),
        }
    }
}

/// The view of a brain result.
pub open spec fn brain_result_view(
    result: Result<ThinkerDecision, AgentError>,
) -> Result<ThinkerDecisionView, AgentErrorView> {
    match result {
        Ok(d) => Ok(d.deep_view()),
        Err(e) => Err(e.deep_view()),
    }
}

impl AgentCore {
    /// Starts the brain at the time `now`.
    pub fn spawn_next_step_at(&mut self, now: i64) -> (actions: Vec<AgentAction>)
        ensures
            final(self).deep_view() == old(self).deep_view().spawn_next_step(now).core,
            actions.deep_view() == old(self).deep_view().spawn_next_step(now).actions,
    {
        let method = self.method;
        let token = self.next_cancellation_token();
        let mut actions = self.set_state(
            InternalAgentState::Processing {
                task_name: String::from_str("next_step"),
                tools_exec_at: now,
                cancellation_token: token,
            },
        );
        push_deep(&mut actions, AgentAction::SpawnBrain { cancellation_token: token, method });
        actions
    }

    /// Starts the brain now. The time stamped on the new state is the
    /// clock's.
    pub fn spawn_next_step(&mut self) -> (actions: Vec<AgentAction>)
        ensures
            exists|now: i64|
                {
                    &&& final(self).deep_view() == old(self).deep_view().spawn_next_step(now).core
                    &&& actions.deep_view() == old(self).deep_view().spawn_next_step(now).actions
                },
    {
        let now = utc_now_millis();
        self.spawn_next_step_at(now)
    }

    /// Starts the tool calls at the time `now`.
    pub fn spawn_tools_at(&mut self, tool_calls: Vec<LlmToolCall>, now: i64) -> (actions: Vec<
        AgentAction,
    >)
        ensures
            final(self).deep_view() == old(self).deep_view().spawn_tools(
                tool_calls.deep_view(),
                now,
            ).core,
            actions.deep_view() == old(self).deep_view().spawn_tools(
                tool_calls.deep_view(),
                now,
            ).actions,
    {
        let token = self.next_cancellation_token();
        let mut actions = self.set_state(
            InternalAgentState::Processing {
                task_name: String::from_str("tools"),
                tools_exec_at: now,
                cancellation_token: token,
            },
        );
        push_deep(
            &mut actions,
            AgentAction::SpawnTools { cancellation_token: token, calls: tool_calls },
        );
        actions
    }

    /// Starts the tool calls now.
    pub fn spawn_tools(&mut self, tool_calls: Vec<LlmToolCall>) -> (actions: Vec<AgentAction>)
        ensures
            exists|now: i64|
                {
                    &&& final(self).deep_view() == old(self).deep_view().spawn_tools(
                        tool_calls.deep_view(),
                        now,
                    ).core
                    &&& actions.deep_view() == old(self).deep_view().spawn_tools(
                        tool_calls.deep_view(),
                        now,
                    ).actions
                },
    {
        let now = utc_now_millis();
        self.spawn_tools_at(tool_calls, now)
    }

    /// Pauses the agent and publishes the failure, stamped `now`.
    pub fn handle_brain_error(&mut self, error: &AgentError, now: i64) -> (actions: Vec<
        AgentAction,
    >)
        ensures
            final(self).deep_view() == old(self).deep_view().handle_brain_error(
                error.deep_view(),
                now,
            ).core,
            actions.deep_view() == old(self).deep_view().handle_brain_error(
                error.deep_view(),
                now,
            ).actions,
    {
        let mut actions = self.set_state(InternalAgentState::Paused);
        let told = self.emit_event(
            AgentEvent::BrainResult { timestamp: now, thought: Err(error.clone()) },
        );
        append_deep(&mut actions, told);
        actions
    }

    /// Applies the brain's answer at the time `now`. The result is the
    /// failure, if the answer was one.
    pub fn process_next_step_at(
        &mut self,
        result: Result<ThinkerDecision, AgentError>,
        now: i64,
    ) -> (r: (Vec<AgentAction>, Result<(), AgentError>))
        ensures
            final(self).deep_view() == old(self).deep_view().process_next_step(
                brain_result_view(result),
                now,
            ).core,
            r.0.deep_view() == old(self).deep_view().process_next_step(
                brain_result_view(result),
                now,
            ).actions,
            match AgentCoreView::brain_failure(brain_result_view(result)) {
                Some(error) => r.1 is Err && r.1->Err_0.deep_view() == error,
                None => r.1 is Ok,
            },
    {
        let decision = match result {
            Ok(decision) => decision,
            Err(error) => {
                let actions = self.handle_brain_error(&error, now);
                return (actions, Err(error));
            },
        };
        let ThinkerDecision { message, flow, token_usage } = decision;
        let calls: Vec<LlmToolCall> = match &message {
            ChatMessage::Assistant { tool_calls, .. } => match tool_calls {
                Some(calls) => {
                    let copy = calls.clone();
                    assert(copy.deep_view() =~= calls.deep_view());
                    copy
                },
                None => Vec::new(),
            },
            _ => {
                let error = AgentError::InvalidResponse(
                    prefixed(
                        "ChatMessage::Assistant expected, but got a message of another role instead: ",
                        message.role(),
                    ),
                );
                let actions = self.handle_brain_error(&error, now);
                return (actions, Err(error));
            },
        };
        assert(calls.deep_view() =~= message.deep_view().calls());
        let published = message.clone();
        push_deep(&mut self.trace, message);
        let mut actions = self.emit_event(
            AgentEvent::BrainResult { timestamp: now, thought: Ok(published) },
        );
        match token_usage {
            Some((input_tokens, output_tokens)) => {
                let usage = self.emit_event(AgentEvent::TokenUsage { input_tokens, output_tokens });
                append_deep(&mut actions, usage);
            },
            None => {},
        }
        let next = if calls.len() > 0 {
            self.spawn_tools_at(calls, now)
        } else {
            match flow {
                ThinkerFlowControl::AgentContinue => self.set_state(InternalAgentState::Running),
                ThinkerFlowControl::AgentPause => self.set_state(InternalAgentState::Paused),
            }
        };
        append_deep(&mut actions, next);
        assert(actions.deep_view() =~= old(self).deep_view().process_next_step(
            brain_result_view(result),
            now,
        ).actions);
        (actions, Ok(()))
    }

    /// Applies the brain's answer now.
    pub fn process_next_step(&mut self, result: Result<ThinkerDecision, AgentError>) -> (r: (
        Vec<AgentAction>,
        Result<(), AgentError>,
    ))
        ensures
            exists|now: i64|
                {
                    &&& final(self).deep_view() == old(self).deep_view().process_next_step(
                        brain_result_view(result),
                        now,
                    ).core
                    &&& r.0.deep_view() == old(self).deep_view().process_next_step(
                        brain_result_view(result),
                        now,
                    ).actions
                },
            match AgentCoreView::brain_failure(brain_result_view(result)) {
                Some(error) => r.1 is Err && r.1->Err_0.deep_view() == error,
                None => r.1 is Ok,
            },
    {
        let now = utc_now_millis();
        self.process_next_step_at(result, now)
    }
}

} // verus!
