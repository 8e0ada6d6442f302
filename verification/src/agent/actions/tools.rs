//! Running tools: the protocol of one tool call, from the model's text to
//! the message that answers it, and the count that tells when a turn's
//! calls have all ended.

use vstd::prelude::*;
use crate::agent::agent::AgentCore;
use crate::agent::claims::{ClaimManager, ClaimManagerView};
use crate::agent::events::{
    AgentEvent,
    AgentEventView,
    InternalAgentEvent,
    InternalAgentEventView,
    PermissionRequest,
    PermissionRequestView,
    PermissionResponse,
};
use crate::chat::{
    ChatMessage,
    ChatMessageContentView,
    ChatMessageView,
    LlmToolCall,
    LlmToolCallView,
};
use crate::json::{json_parse, parse_json, JsonModel, JsonValue};
use crate::sys::{new_uuid_v4, utc_now_millis};
use crate::text::{append_deep, prefixed, push_deep, str_eq};
use crate::tools::{
    first_tool_named,
    read_only,
    AnyToolBox,
    ContainsAnyTool,
    ToolCall,
    ToolCallView,
    ToolResult,
    ToolResultView,
    ToolSpecView,
};

verus! {

/// The result of a call whose arguments are not JSON.
pub open spec fn bad_parameters() -> ToolResultView {
    ToolResultView::Error { error: "failed to parse tool parameters"@, metadata: None }
}

/// The result of a call to a tool that the toolbox does not hold.
pub open spec fn tool_not_found(tool_name: Seq<char>) -> ToolResultView {
    ToolResultView::Error { error: "tool not found: "@ + tool_name, metadata: None }
}

/// The result of a call that was stopped.
pub open spec fn cancelled_by_user() -> ToolResultView {
    ToolResultView::Error { error: "cancelled by user"@, metadata: None }
}

/// The question put to the user with every permission request.
pub open spec fn permission_question() -> Seq<char> {
    "do you want to run this tool?"@
}

/// The tool and the call that the model's text stands for, or the
/// failure to report: arguments that are no JSON, then a tool that is
/// not in the box.
pub open spec fn resolve_call(tools: Seq<ToolSpecView>, tc: LlmToolCallView) -> Result<
    (int, ToolCallView),
    ToolResultView,
> {
    match json_parse(tc.arguments) {
        None => Err(bad_parameters()),
        Some(parameters) => match first_tool_named(tools, tc.name) {
            None => Err(tool_not_found(tc.name)),
            Some(index) => Ok(
                (index, ToolCallView { tool_call_id: tc.id, tool_name: tc.name, parameters }),
            ),
        },
    }
}

/// The time from `start` to `now` in milliseconds, held within `i64`.
pub open spec fn elapsed_ms(start: i64, now: i64) -> i64 {
    if now - start > i64::MAX {
        i64::MAX
    } else if now - start < i64::MIN {
        i64::MIN
    } else {
        (now - start) as i64
    }
}

/// The time from `start` to `now` in milliseconds.
pub fn elapsed(start: i64, now: i64) -> (r: i64)
    ensures
        r == elapsed_ms(start, now),
{
    match now.checked_sub(start) {
        Some(d) => d,
        None => if now < start {
            i64::MIN
        } else {
            i64::MAX
        },
    }
}

impl AgentCore {
    /// Reads the model's call: its arguments as JSON, its tool by name.
    /// Returns the tool's position in the box and the call, or the
    /// failure to report.
    pub fn tool_exist(tools: &AnyToolBox, tc: &LlmToolCall) -> (r: Result<
        (usize, ToolCall),
        ToolResult,
    >)
        ensures
            match resolve_call(tools.deep_view(), tc.deep_view()) {
                Ok((index, call)) => r is Ok && r->Ok_0.0 as int == index && r->Ok_0.1.deep_view()
                    == call,
                Err(failure) => r is Err && r->Err_0.deep_view() == failure,
            },
    {
        let parameters = match parse_json(tc.arguments.as_str()) {
            Some(parameters) => parameters,
            None => {
                return Err(ToolResult::error(String::from_str("failed to parse tool parameters")));
            },
        };
        match tools.get_tool(tc.name.as_str()) {
            Some(index) => Ok(
                (
                    index,
                    ToolCall {
                        tool_call_id: tc.id.clone(),
                        tool_name: tc.name.clone(),
                        parameters,
                    },
                ),
            ),
            None => Err(ToolResult::error(prefixed("tool not found: ", tc.name.as_str()))),
        }
    }
}

/// Where one tool call stands.
#[derive(Debug, PartialEq)]
pub enum ToolTaskState {
    /// Not begun.
    Created,
    /// The tool was asked what the call would do.
    Previewing,
    /// The user was asked under this request id.
    AwaitingPermission { request_id: String },
    /// The tool runs.
    Executing,
    /// The call has ended; `denied` is what the task reports to the turn.
    Finished { denied: bool },
}

pub ghost enum ToolTaskStateView {
    Created,
    Previewing,
    AwaitingPermission { request_id: Seq<char> },
    Executing,
    Finished { denied: bool },
}

impl DeepView for ToolTaskState {
    type V = ToolTaskStateView;

    open spec fn deep_view(&self) -> ToolTaskStateView {
        match self {
            ToolTaskState::Created => ToolTaskStateView::Created,
            ToolTaskState::Previewing => ToolTaskStateView::Previewing,
            ToolTaskState::AwaitingPermission { request_id } =>
                ToolTaskStateView::AwaitingPermission { request_id: request_id@ },
            ToolTaskState::Executing => ToolTaskStateView::Executing,
            ToolTaskState::Finished { denied } => ToolTaskStateView::Finished { denied: *denied },
        }
    }
}

/// One tool call on its way. `interactive` tells whether anybody
/// listens to events, and so whether the user can be asked.
#[derive(Debug, PartialEq)]
pub struct ToolTask {
    pub tool_call: LlmToolCall,
    pub interactive: bool,
    /// The tool's position in the box and the call, once the call is read.
    pub resolved: Option<(usize, ToolCall)>,
    pub started_at: i64,
    pub state: ToolTaskState,
}

pub ghost struct ToolTaskView {
    pub tool_call: LlmToolCallView,
    pub interactive: bool,
    pub resolved: Option<(int, ToolCallView)>,
    pub started_at: i64,
    pub state: ToolTaskStateView,
}

impl DeepView for ToolTask {
    type V = ToolTaskView;

    open spec fn deep_view(&self) -> ToolTaskView {
        ToolTaskView {
            tool_call: self.tool_call.deep_view(),
            interactive: self.interactive,
            resolved: match self.resolved {
                Some((index, call)) => Some((index as int, call.deep_view())),
                None => None,
            },
            started_at: self.started_at,
            state: self.state.deep_view(),
        }
    }
}

/// What reaches a task.
#[derive(Debug, PartialEq)]
pub enum ToolTaskInput {
    /// The task is scheduled.
    Begin,
    /// The tool's preview of the call; `None` where it has none.
    Preview(Option<ToolResult>),
    /// An event on the internal bus.
    Internal(InternalAgentEvent),
    /// The internal bus was closed.
    BusClosed,
    /// The tool has returned.
    Executed(ToolResult),
    /// The turn's cancellation handle was fired.
    Cancelled,
}

pub ghost enum ToolTaskInputView {
    Begin,
    Preview(Option<ToolResultView>),
    Internal(InternalAgentEventView),
    BusClosed,
    Executed(ToolResultView),
    Cancelled,
}

impl DeepView for ToolTaskInput {
    type V = ToolTaskInputView;

    open spec fn deep_view(&self) -> ToolTaskInputView {
        match self {
            ToolTaskInput::Begin => ToolTaskInputView::Begin,
            ToolTaskInput::Preview(p) => ToolTaskInputView::Preview(p.deep_view()),
            ToolTaskInput::Internal(e) => ToolTaskInputView::Internal(e.deep_view()),
            ToolTaskInput::BusClosed => ToolTaskInputView::BusClosed,
            ToolTaskInput::Executed(r) => ToolTaskInputView::Executed(r.deep_view()),
            ToolTaskInput::Cancelled => ToolTaskInputView::Cancelled,
        }
    }
}

/// One thing the caller has to do for a task, in the order given.
#[derive(Debug, PartialEq)]
pub enum ToolTaskAction {
    /// Publish the event.
    Publish(AgentEvent),
    /// Ask the tool at this position what the call would do; the answer
    /// comes back as `ToolTaskInput::Preview`.
    Preview { tool: usize, parameters: JsonValue },
    /// Run the tool at this position under the turn's cancellation
    /// handle; its result comes back as `ToolTaskInput::Executed`.
    Execute { tool: usize, parameters: JsonValue },
    /// Record that the tool may run from now on.
    GrantAlways { tool_name: String, parameters: JsonValue },
    /// Add the message to the conversation.
    Append(ChatMessage),
}

pub ghost enum ToolTaskActionView {
    Publish(AgentEventView),
    Preview { tool: int, parameters: JsonModel },
    Execute { tool: int, parameters: JsonModel },
    GrantAlways { tool_name: Seq<char>, parameters: JsonModel },
    Append(ChatMessageView),
}

impl DeepView for ToolTaskAction {
    type V = ToolTaskActionView;

    open spec fn deep_view(&self) -> ToolTaskActionView {
        match self {
            ToolTaskAction::Publish(e) => ToolTaskActionView::Publish(e.deep_view()),
            ToolTaskAction::Preview { tool, parameters } => ToolTaskActionView::Preview {
                tool: *tool as int,
                parameters: parameters.deep_view(),
            },
            ToolTaskAction::Execute { tool, parameters } => ToolTaskActionView::Execute {
                tool: *tool as int,
                parameters: parameters.deep_view(),
            },
            ToolTaskAction::GrantAlways { tool_name, parameters } =>
                ToolTaskActionView::GrantAlways {
                    tool_name: tool_name@,
                    parameters: parameters.deep_view(),
                },
            ToolTaskAction::Append(m) => ToolTaskActionView::Append(m.deep_view()),
        }
    }
}

/// A task after one step, with the actions the step asks for.
pub ghost struct TaskOutcome {
    pub task: ToolTaskView,
    pub actions: Seq<ToolTaskActionView>,
}

impl ToolTaskView {
    /// Nothing happens.
    pub open spec fn unchanged(self) -> TaskOutcome {
        TaskOutcome { task: self, actions: Seq::empty() }
    }

    /// The event is published if anybody listens.
    pub open spec fn publish(self, event: AgentEventView) -> Seq<ToolTaskActionView> {
        if self.interactive {
            seq![ToolTaskActionView::Publish(event)]
        } else {
            Seq::empty()
        }
    }

    /// The call of a task that has read it.
    pub open spec fn call(self) -> ToolCallView {
        self.resolved->Some_0.1
    }

    /// The call as it is reported when it could not be read: without
    /// parameters.
    pub open spec fn unread_call(self) -> ToolCallView {
        ToolCallView {
            tool_call_id: self.tool_call.id,
            tool_name: self.tool_call.name,
            parameters: JsonModel::Null,
        }
    }

    /// The call fails before it began. As with any failure of a tool, the
    /// text of the failure joins the conversation as the answer to the
    /// call; then the failure is published, with a duration of zero and
    /// without a start before it. The task reports that it was not denied.
    pub open spec fn reject(self, failure: ToolResultView) -> TaskOutcome {
        TaskOutcome {
            task: ToolTaskView { state: ToolTaskStateView::Finished { denied: false }, ..self },
            actions: seq![
                ToolTaskActionView::Append(
                    ChatMessageView::Tool {
                        content: ChatMessageContentView::Text(failure.text()),
                        tool_call_id: self.tool_call.id,
                    },
                ),
            ] + self.publish(
                AgentEventView::ToolCallCompleted {
                    duration: 0,
                    call: self.unread_call(),
                    result: failure,
                },
            ),
        }
    }

    /// The call ends with `result`: its text joins the conversation as
    /// the answer to the call, then the end is published. The task reports
    /// whether the call was denied.
    pub open spec fn finish(self, result: ToolResultView, now: i64) -> TaskOutcome {
        TaskOutcome {
            task: ToolTaskView {
                state: ToolTaskStateView::Finished { denied: result is Denied },
                ..self
            },
            actions: seq![
                ToolTaskActionView::Append(
                    ChatMessageView::Tool {
                        content: ChatMessageContentView::Text(result.text()),
                        tool_call_id: self.call().tool_call_id,
                    },
                ),
            ] + self.publish(
                AgentEventView::ToolCallCompleted {
                    duration: elapsed_ms(self.started_at, now),
                    call: self.call(),
                    result,
                },
            ),
        }
    }

    /// The tool is run.
    pub open spec fn execute(self) -> TaskOutcome {
        TaskOutcome {
            task: ToolTaskView { state: ToolTaskStateView::Executing, ..self },
            actions: seq![
                ToolTaskActionView::Execute {
                    tool: self.resolved->Some_0.0,
                    parameters: self.call().parameters,
                },
            ],
        }
    }

    /// Whether the call runs without asking: the tool only reads, or the
    /// claims permit it.
    pub open spec fn may_run(tool: ToolSpecView, call: ToolCallView, claims: ClaimManagerView)
        -> bool {
        read_only(tool.capabilities) || claims.permits(tool.name, call.parameters)
    }

    /// The permission gate of a call that has begun. A call that may run
    /// is run. Else, where nobody listens, the call is denied without
    /// asking; where somebody does, the tool is asked for a preview.
    pub open spec fn gate(self, tools: Seq<ToolSpecView>, claims: ClaimManagerView, now: i64)
        -> TaskOutcome {
        if Self::may_run(tools[self.resolved->Some_0.0], self.call(), claims) {
            self.execute()
        } else if !self.interactive {
            self.finish(ToolResultView::Denied, now)
        } else {
            TaskOutcome {
                task: ToolTaskView { state: ToolTaskStateView::Previewing, ..self },
                actions: seq![
                    ToolTaskActionView::Preview {
                        tool: self.resolved->Some_0.0,
                        parameters: self.call().parameters,
                    },
                ],
            }
        }
    }

    /// A task begins: the call is read; a call that cannot be read fails
    /// at once; any other is announced and then asks whether it may run.
    pub open spec fn begin(self, tools: Seq<ToolSpecView>, claims: ClaimManagerView, now: i64)
        -> TaskOutcome {
        match resolve_call(tools, self.tool_call) {
            Err(failure) => self.reject(failure),
            Ok((index, call)) => {
                let begun = ToolTaskView {
                    resolved: Some((index, call)),
                    started_at: now,
                    ..self
                };
                let gated = begun.gate(tools, claims, now);
                TaskOutcome {
                    task: gated.task,
                    actions: begun.publish(
                        AgentEventView::ToolCallStarted { timestamp: now, call },
                    ) + gated.actions,
                }
            },
        }
    }

    /// The preview has come. A preview that failed ends the call with
    /// that failure. Else the user is asked, under `request_id`.
    pub open spec fn on_preview(
        self,
        preview: Option<ToolResultView>,
        request_id: Seq<char>,
        now: i64,
    ) -> TaskOutcome {
        if preview is Some && preview->Some_0 is Error {
            self.finish(preview->Some_0, now)
        } else {
            TaskOutcome {
                task: ToolTaskView {
                    state: ToolTaskStateView::AwaitingPermission { request_id },
                    ..self
                },
                actions: self.publish(
                    AgentEventView::PermissionRequired {
                        request_id,
                        request: PermissionRequestView {
                            tool_name: self.call().tool_name,
                            operation: permission_question(),
                            call: self.call(),
                            preview,
                        },
                    },
                ),
            }
        }
    }

    /// The user has answered. `Allow` and `AllowAlways` run the tool,
    /// `AllowAlways` recording the grant first; any other answer denies
    /// the call.
    pub open spec fn on_permission(self, response: PermissionResponse, now: i64) -> TaskOutcome {
        if response.grants() {
            let run = self.execute();
            TaskOutcome {
                task: run.task,
                actions: (if response is AllowAlways {
                    seq![
                        ToolTaskActionView::GrantAlways {
                            tool_name: self.call().tool_name,
                            parameters: self.call().parameters,
                        },
                    ]
                } else {
                    Seq::empty()
                }) + run.actions,
            }
        } else {
            self.finish(ToolResultView::Denied, now)
        }
    }

    /// One step of the protocol. An input that the task's state does not
    /// wait for changes nothing, and a task whose state speaks of a call
    /// that it does not hold does nothing.
    pub open spec fn step(
        self,
        input: ToolTaskInputView,
        tools: Seq<ToolSpecView>,
        claims: ClaimManagerView,
        now: i64,
        fresh_id: Seq<char>,
    ) -> TaskOutcome {
        if !self.wf() {
            self.unchanged()
        } else {
            self.step_wf(input, tools, claims, now, fresh_id)
        }
    }

    /// One step of a task that holds what its state says.
    pub open spec fn step_wf(
        self,
        input: ToolTaskInputView,
        tools: Seq<ToolSpecView>,
        claims: ClaimManagerView,
        now: i64,
        fresh_id: Seq<char>,
    ) -> TaskOutcome {
        match (self.state, input) {
            (ToolTaskStateView::Created, ToolTaskInputView::Begin) => self.begin(
                tools,
                claims,
                now,
            ),
            (ToolTaskStateView::Previewing, ToolTaskInputView::Preview(preview)) =>
                self.on_preview(preview, fresh_id, now),
            (
                ToolTaskStateView::AwaitingPermission { request_id },
                ToolTaskInputView::Internal(
                    InternalAgentEventView::PermissionResponseReceived {
                        request_id: answered,
                        response,
                    },
                ),
            ) => if answered == request_id {
                self.on_permission(response, now)
            } else {
                self.unchanged()
            },
            (ToolTaskStateView::AwaitingPermission { .. }, ToolTaskInputView::BusClosed) =>
                self.finish(ToolResultView::Denied, now),
            (ToolTaskStateView::Executing, ToolTaskInputView::Executed(result)) => self.finish(
                result,
                now,
            ),
            (ToolTaskStateView::Previewing, ToolTaskInputView::Cancelled) => self.finish(
                cancelled_by_user(),
                now,
            ),
            (ToolTaskStateView::AwaitingPermission { .. }, ToolTaskInputView::Cancelled) =>
                self.finish(cancelled_by_user(), now),
            (ToolTaskStateView::Executing, ToolTaskInputView::Cancelled) => self.finish(
                cancelled_by_user(),
                now,
            ),
            _ => self.unchanged(),
        }
    }

    /// A task that has begun and not ended holds its call.
    pub open spec fn wf(self) -> bool {
        (self.state is Previewing || self.state is AwaitingPermission || self.state is Executing)
            ==> self.resolved is Some
    }
}

impl ToolTask {
    /// A task for the call, not yet begun.
    pub fn new(tool_call: LlmToolCall, interactive: bool) -> (r: Self)
        ensures
            r.deep_view() == (ToolTaskView {
                tool_call: tool_call.deep_view(),
                interactive,
                resolved: None,
                started_at: 0,
                state: ToolTaskStateView::Created,
            }),
    {
        ToolTask {
            tool_call,
            interactive,
            resolved: None,
            started_at: 0,
            state: ToolTaskState::Created,
        }
    }

    /// Whether the call has ended, and if so whether it was denied.
    pub fn finished(&self) -> (r: Option<bool>)
        ensures
            match self.deep_view().state {
                ToolTaskStateView::Finished { denied } => r == Some(denied),
                _ => r is None,
            },
    {
        match self.state {
            ToolTaskState::Finished { denied } => Some(denied),
            _ => None,
        }
    }

    fn holds_call(&self) -> (r: bool)
        ensures
            r == self.deep_view().wf(),
    {
        match self.state {
            ToolTaskState::Previewing | ToolTaskState::AwaitingPermission { .. }
            | ToolTaskState::Executing => self.resolved.is_some(),
            _ => true,
        }
    }

    fn publish(&self, event: AgentEvent) -> (actions: Vec<ToolTaskAction>)
        ensures
            actions.deep_view() == self.deep_view().publish(event.deep_view()),
    {
        let mut actions: Vec<ToolTaskAction> = Vec::new();
        if self.interactive {
            push_deep(&mut actions, ToolTaskAction::Publish(event));
        }
        assert(actions.deep_view() =~= self.deep_view().publish(event.deep_view()));
        actions
    }

    fn nothing() -> (actions: Vec<ToolTaskAction>)
        ensures
            actions.deep_view() == Seq::<ToolTaskActionView>::empty(),
    {
        let actions: Vec<ToolTaskAction> = Vec::new();
        assert(actions.deep_view() =~= Seq::<ToolTaskActionView>::empty());
        actions
    }

    fn reject(&mut self, failure: ToolResult) -> (actions: Vec<ToolTaskAction>)
        ensures
            final(self).deep_view() == old(self).deep_view().reject(failure.deep_view()).task,
            actions.deep_view() == old(self).deep_view().reject(failure.deep_view()).actions,
    {
        let call = ToolCall {
            tool_call_id: self.tool_call.id.clone(),
            tool_name: self.tool_call.name.clone(),
            parameters: JsonValue::Null,
        };
        let mut actions: Vec<ToolTaskAction> = Vec::new();
        push_deep(
            &mut actions,
            ToolTaskAction::Append(
                ChatMessage::tool(self.tool_call.id.clone(), failure.to_string()),
            ),
        );
        let told = self.publish(
            AgentEvent::ToolCallCompleted { duration: 0, call, result: failure },
        );
        append_deep(&mut actions, told);
        self.state = ToolTaskState::Finished { denied: false };
        assert(actions.deep_view() =~= old(self).deep_view().reject(failure.deep_view()).actions);
        actions
    }

    fn finish(&mut self, result: ToolResult, now: i64) -> (actions: Vec<ToolTaskAction>)
        requires
            old(self).resolved is Some,
        ensures
            final(self).deep_view() == old(self).deep_view().finish(result.deep_view(), now).task,
            actions.deep_view() == old(self).deep_view().finish(result.deep_view(), now).actions,
    {
        let call = match &self.resolved {
            Some((_, call)) => call.clone(),
            None => {
                return Self::nothing();
            },
        };
        let denied = result.is_denied();
        let mut actions: Vec<ToolTaskAction> = Vec::new();
        push_deep(
            &mut actions,
            ToolTaskAction::Append(ChatMessage::tool(call.tool_call_id.clone(), result.to_string())),
        );
        let told = self.publish(
            AgentEvent::ToolCallCompleted {
                duration: elapsed(self.started_at, now),
                call,
                result,
            },
        );
        append_deep(&mut actions, told);
        self.state = ToolTaskState::Finished { denied };
        assert(actions.deep_view() =~= old(self).deep_view().finish(
            result.deep_view(),
            now,
        ).actions);
        actions
    }

    fn execute(&mut self) -> (actions: Vec<ToolTaskAction>)
        requires
            old(self).resolved is Some,
        ensures
            final(self).deep_view() == old(self).deep_view().execute().task,
            actions.deep_view() == old(self).deep_view().execute().actions,
    {
        let mut actions: Vec<ToolTaskAction> = Vec::new();
        match &self.resolved {
            Some((index, call)) => {
                push_deep(
                    &mut actions,
                    ToolTaskAction::Execute { tool: *index, parameters: call.parameters.clone() },
                );
            },
            None => {},
        }
        self.state = ToolTaskState::Executing;
        assert(actions.deep_view() =~= old(self).deep_view().execute().actions);
        actions
    }

    fn gate(&mut self, tools: &AnyToolBox, claims: &ClaimManager, now: i64) -> (actions: Vec<
        ToolTaskAction,
    >)
        requires
            old(self).resolved is Some,
            old(self).resolved->Some_0.0 < tools.len(),
        ensures
            final(self).deep_view() == old(self).deep_view().gate(
                tools.deep_view(),
                claims.deep_view(),
                now,
            ).task,
            actions.deep_view() == old(self).deep_view().gate(
                tools.deep_view(),
                claims.deep_view(),
                now,
            ).actions,
    {
        let may_run = match &self.resolved {
            Some((index, call)) => {
                let tool = &tools[*index];
                assert(tools.deep_view()[*index as int] == tool.deep_view());
                tool.is_read_only() || claims.is_permitted(tool.name.as_str(), &call.parameters)
            },
            None => false,
        };
        if may_run {
            self.execute()
        } else if !self.interactive {
            self.finish(ToolResult::denied(), now)
        } else {
            let mut actions: Vec<ToolTaskAction> = Vec::new();
            match &self.resolved {
                Some((index, call)) => {
                    push_deep(
                        &mut actions,
                        ToolTaskAction::Preview {
                            tool: *index,
                            parameters: call.parameters.clone(),
                        },
                    );
                },
                None => {},
            }
            self.state = ToolTaskState::Previewing;
            assert(actions.deep_view() =~= old(self).deep_view().gate(
                tools.deep_view(),
                claims.deep_view(),
                now,
            ).actions);
            actions
        }
    }

    fn begin(&mut self, tools: &AnyToolBox, claims: &ClaimManager, now: i64) -> (actions: Vec<
        ToolTaskAction,
    >)
        ensures
            final(self).deep_view() == old(self).deep_view().begin(
                tools.deep_view(),
                claims.deep_view(),
                now,
            ).task,
            actions.deep_view() == old(self).deep_view().begin(
                tools.deep_view(),
                claims.deep_view(),
                now,
            ).actions,
    {
        match AgentCore::tool_exist(tools, &self.tool_call) {
            Err(failure) => self.reject(failure),
            Ok((index, call)) => {
                proof {
                    crate::tools::lemma_first_tool_named(
                        tools.deep_view(),
                        self.tool_call.deep_view().name,
                    );
                }
                let announced = call.clone();
                self.resolved = Some((index, call));
                self.started_at = now;
                let mut actions = self.publish(
                    AgentEvent::ToolCallStarted { timestamp: now, call: announced },
                );
                let gated = self.gate(tools, claims, now);
                append_deep(&mut actions, gated);
                actions
            },
        }
    }

    fn on_preview(&mut self, preview: Option<ToolResult>, request_id: String, now: i64) -> (actions:
        Vec<ToolTaskAction>)
        requires
            old(self).resolved is Some,
        ensures
            final(self).deep_view() == old(self).deep_view().on_preview(
                preview.deep_view(),
                request_id@,
                now,
            ).task,
            actions.deep_view() == old(self).deep_view().on_preview(
                preview.deep_view(),
                request_id@,
                now,
            ).actions,
    {
        let failed = match &preview {
            Some(result) => result.is_error(),
            None => false,
        };
        if failed {
            match preview {
                Some(result) => self.finish(result, now),
                None => Self::nothing(),
            }
        } else {
            let call = match &self.resolved {
                Some((_, call)) => call.clone(),
                None => {
                    return Self::nothing();
                },
            };
            let actions = self.publish(
                AgentEvent::PermissionRequired {
                    request_id: request_id.clone(),
                    request: PermissionRequest {
                        tool_name: call.tool_name.clone(),
                        operation: String::from_str("do you want to run this tool?"),
                        call,
                        preview,
                    },
                },
            );
            self.state = ToolTaskState::AwaitingPermission { request_id };
            actions
        }
    }

    fn on_permission(&mut self, response: PermissionResponse, now: i64) -> (actions: Vec<
        ToolTaskAction,
    >)
        requires
            old(self).resolved is Some,
        ensures
            final(self).deep_view() == old(self).deep_view().on_permission(response, now).task,
            actions.deep_view() == old(self).deep_view().on_permission(response, now).actions,
    {
        if response.is_granted() {
            let mut actions: Vec<ToolTaskAction> = Vec::new();
            match response {
                PermissionResponse::AllowAlways => {
                    match &self.resolved {
                        Some((_, call)) => {
                            push_deep(
                                &mut actions,
                                ToolTaskAction::GrantAlways {
                                    tool_name: call.tool_name.clone(),
                                    parameters: call.parameters.clone(),
                                },
                            );
                        },
                        None => {},
                    }
                },
                _ => {},
            }
            let run = self.execute();
            append_deep(&mut actions, run);
            assert(actions.deep_view() =~= old(self).deep_view().on_permission(
                response,
                now,
            ).actions);
            actions
        } else {
            self.finish(ToolResult::denied(), now)
        }
    }

    /// Takes one step of the protocol at the time `now`. `fresh_id` is
    /// the id under which the user is asked, should this step ask.
    pub fn step_at(
        &mut self,
        input: ToolTaskInput,
        tools: &AnyToolBox,
        claims: &ClaimManager,
        now: i64,
        fresh_id: String,
    ) -> (actions: Vec<ToolTaskAction>)
        ensures
            final(self).deep_view() == old(self).deep_view().step(
                input.deep_view(),
                tools.deep_view(),
                claims.deep_view(),
                now,
                fresh_id@,
            ).task,
            actions.deep_view() == old(self).deep_view().step(
                input.deep_view(),
                tools.deep_view(),
                claims.deep_view(),
                now,
                fresh_id@,
            ).actions,
    {
        if !self.holds_call() {
            return Self::nothing();
        }
        match input {
            ToolTaskInput::Begin => match self.state {
                ToolTaskState::Created => self.begin(tools, claims, now),
                _ => Self::nothing(),
            },
            ToolTaskInput::Preview(preview) => match self.state {
                ToolTaskState::Previewing => self.on_preview(preview, fresh_id, now),
                _ => Self::nothing(),
            },
            ToolTaskInput::Internal(event) => {
                let answer = match (&self.state, &event) {
                    (
                        ToolTaskState::AwaitingPermission { request_id },
                        InternalAgentEvent::PermissionResponseReceived {
                            request_id: answered,
                            response,
                        },
                    ) => if str_eq(answered.as_str(), request_id.as_str()) {
                        Some(*response)
                    } else {
                        None
                    },
                    _ => None,
                };
                match answer {
                    Some(response) => self.on_permission(response, now),
                    None => Self::nothing(),
                }
            },
            ToolTaskInput::BusClosed => match self.state {
                ToolTaskState::AwaitingPermission { .. } => self.finish(ToolResult::denied(), now),
                _ => Self::nothing(),
            },
            ToolTaskInput::Executed(result) => match self.state {
                ToolTaskState::Executing => self.finish(result, now),
                _ => Self::nothing(),
            },
            ToolTaskInput::Cancelled => match self.state {
                ToolTaskState::Previewing | ToolTaskState::AwaitingPermission { .. }
                | ToolTaskState::Executing => self.finish(
                    ToolResult::error(String::from_str("cancelled by user")),
                    now,
                ),
                _ => Self::nothing(),
            },
        }
    }

    /// Takes one step of the protocol now: the time is the clock's, and
    /// the id under which the user is asked, should this step ask, is a
    /// fresh random one.
    pub fn step(&mut self, input: ToolTaskInput, tools: &AnyToolBox, claims: &ClaimManager) -> (actions:
        Vec<ToolTaskAction>)
        ensures
            exists|now: i64, fresh_id: Seq<char>|
                {
                    &&& final(self).deep_view() == old(self).deep_view().step(
                        input.deep_view(),
                        tools.deep_view(),
                        claims.deep_view(),
                        now,
                        fresh_id,
                    ).task
                    &&& actions.deep_view() == old(self).deep_view().step(
                        input.deep_view(),
                        tools.deep_view(),
                        claims.deep_view(),
                        now,
                        fresh_id,
                    ).actions
                },
    {
        let now = utc_now_millis();
        let fresh_id = new_uuid_v4();
        self.step_at(input, tools, claims, now, fresh_id)
    }
}

/// Whether any of the flags is set.
pub open spec fn any_set(flags: Seq<bool>) -> bool {
    exists|i: int| 0 <= i < flags.len() && #[trigger] flags[i]
}

/// The calls of one turn: how many there are, how many have ended, and
/// whether any of those was denied.
pub struct ToolBatch {
    total: usize,
    finished: usize,
    any_denied: bool,
    reports: Ghost<Seq<bool>>,
}

pub ghost struct ToolBatchView {
    pub total: nat,
    /// What each task that has ended reported, in the order of ending.
    pub reports: Seq<bool>,
}

impl ToolBatchView {
    /// Once every call has ended the turn reports `ToolsCompleted`, with
    /// `any_denied` set if any call was denied, in whatever order the
    /// calls ended.
    pub open spec fn completion(self) -> Option<InternalAgentEventView> {
        if self.reports.len() >= self.total {
            Some(InternalAgentEventView::ToolsCompleted { any_denied: any_set(self.reports) })
        } else {
            None
        }
    }
}

impl ToolBatch {
    #[verifier::type_invariant]
    spec fn inv(&self) -> bool {
        &&& self.any_denied == any_set(self.reports@)
        &&& self.finished == self.reports@.len() || (self.finished == usize::MAX
            && self.reports@.len() >= usize::MAX)
    }

    pub closed spec fn view_of(&self) -> ToolBatchView {
        ToolBatchView { total: self.total as nat, reports: self.reports@ }
    }

    /// A turn of `total` calls, none of which has ended.
    pub fn new(total: usize) -> (r: Self)
        ensures
            r.view_of() == (ToolBatchView { total: total as nat, reports: Seq::empty() }),
    {
        ToolBatch { total, finished: 0, any_denied: false, reports: Ghost(Seq::empty()) }
    }

    /// Notes that one more call has ended and what it reported.
    pub fn record(&mut self, denied: bool)
        ensures
            final(self).view_of() == (ToolBatchView {
                reports: old(self).view_of().reports.push(denied),
                ..old(self).view_of()
            }),
    {
        proof {
            use_type_invariant(&*self);
        }
        let ghost before = self.reports@;
        let ghost after = before.push(denied);
        let finished = if self.finished < usize::MAX {
            self.finished + 1
        } else {
            self.finished
        };
        proof {
            if any_set(before) {
                let i = choose|i: int| 0 <= i < before.len() && #[trigger] before[i];
                assert(after[i]);
            }
            if denied {
                assert(after[after.len() - 1]);
            }
            if any_set(after) {
                let i = choose|i: int| 0 <= i < after.len() && #[trigger] after[i];
                if i < before.len() {
                    assert(before[i]);
                }
            }
        }
        *self = ToolBatch {
            total: self.total,
            finished,
            any_denied: self.any_denied || denied,
            reports: Ghost(after),
        };
    }

    /// The event that the turn reports once every call has ended; `None`
    /// before.
    pub fn completion(&self) -> (r: Option<InternalAgentEvent>)
        ensures
            r.deep_view() == self.view_of().completion(),
    {
        proof {
            use_type_invariant(self);
        }
        if self.finished >= self.total {
            Some(InternalAgentEvent::ToolsCompleted { any_denied: self.any_denied })
        } else {
            None
        }
    }
}

/// What a task's action does to the agent, where it touches it.
pub open spec fn absorb_action(
    core: crate::agent::agent::AgentCoreView,
    action: ToolTaskActionView,
) -> crate::agent::agent::AgentCoreView {
    match action {
        ToolTaskActionView::Append(message) => crate::agent::agent::AgentCoreView {
            trace: core.trace.push(message),
            ..core
        },
        ToolTaskActionView::GrantAlways { tool_name, parameters } =>
            crate::agent::agent::AgentCoreView {
                permissions: core.permissions.with_claim(
                    tool_name,
                    parameters,
                    crate::agent::claims::ClaimScope::Always,
                ),
                ..core
            },
        _ => core,
    }
}

impl AgentCore {
    /// Performs the part of a task's action that touches the agent: a
    /// message joins the conversation, a grant joins the claims. Any other
    /// action comes back for the caller to perform.
    pub fn absorb(&mut self, action: ToolTaskAction) -> (r: Option<ToolTaskAction>)
        ensures
            final(self).deep_view() == absorb_action(old(self).deep_view(), action.deep_view()),
            match action.deep_view() {
                ToolTaskActionView::Append(_) => r is None,
                ToolTaskActionView::GrantAlways { .. } => r is None,
                other => r is Some && r->Some_0.deep_view() == other,
            },
    {
        match action {
            ToolTaskAction::Append(message) => {
                push_deep(&mut self.trace, message);
                None
            },
            ToolTaskAction::GrantAlways { tool_name, parameters } => {
                self.permissions.grant_always(tool_name.as_str(), &parameters);
                None
            },
            other => Some(other),
        }
    }
}

} // verus!
