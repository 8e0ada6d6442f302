//! Putting an agent together.

use vstd::prelude::*;
use crate::agent::agent::{AgentCore, AgentCoreView, AgentSocket, ChannelState};
use crate::agent::claims::{ClaimManager, ClaimManagerView};
use crate::agent::error::{AgentError, AgentErrorView};
use crate::agent::states::InternalAgentStateView;
use crate::chat::{ChatMessage, ChatMessageContentView, ChatMessageView, ToolCallMethod};
use crate::config::agent::{contains_text, holds_text, AgentConfig, AgentTools, McpToolConfig};
use crate::sys::new_uuid_v4;
use crate::text::{prefixed, push_deep, str_eq};
use crate::tools::{AnyToolBox, ToolSpecView};

verus! {

/// What an agent is made of, collected step by step. The brain is
/// carried along as it is and handed back with the agent.
#[derive(Debug, PartialEq)]
pub struct AgentBuilder<B> {
    pub session_id: String,
    pub brain: B,
    /// What the user asks for first; it ends the initial conversation.
    pub goal: Option<String>,
    pub trace: Vec<ChatMessage>,
    pub available_tools: AnyToolBox,
    pub permissions: ClaimManager,
}

pub ghost struct AgentBuilderView {
    pub session_id: Seq<char>,
    pub goal: Option<Seq<char>>,
    pub trace: Seq<ChatMessageView>,
    pub available_tools: Seq<ToolSpecView>,
    pub permissions: ClaimManagerView,
}

impl<B> DeepView for AgentBuilder<B> {
    type V = AgentBuilderView;

    open spec fn deep_view(&self) -> AgentBuilderView {
        AgentBuilderView {
            session_id: self.session_id@,
            goal: self.goal.deep_view(),
            trace: self.trace.deep_view(),
            available_tools: self.available_tools.deep_view(),
            permissions: self.permissions.deep_view(),
        }
    }
}

impl AgentBuilderView {
    /// The conversation that the agent starts with: the trace, then the
    /// goal as the user's message.
    pub open spec fn initial_trace(self) -> Seq<ChatMessageView> {
        match self.goal {
            Some(goal) => self.trace.push(
                ChatMessageView::User { content: ChatMessageContentView::Text(goal), name: None },
            ),
            None => self.trace,
        }
    }
}

/// The names of the builtin tools, in the order in which they are made.
pub open spec fn builtin_names() -> Seq<Seq<char>> {
    seq![
        "bash"@,
        "edit"@,
        "multiedit"@,
        "fetch"@,
        "find"@,
        "ls"@,
        "read"@,
        "todo_read"@,
        "todo_write"@,
        "write"@,
    ]
}

/// Whether the name is that of a builtin tool.
pub open spec fn is_builtin(name: Seq<char>) -> bool {
    name == "bash"@ || name == "edit"@ || name == "multiedit"@ || name == "fetch"@ || name
        == "find"@ || name == "ls"@ || name == "read"@ || name == "todo_read"@ || name
        == "todo_write"@ || name == "write"@
}

/// The builtin tools asked for: all of them where `*` is named, else
/// those named.
pub open spec fn builtin_wanted(builtin: Seq<String>) -> Seq<Seq<char>> {
    if holds_text(builtin, "*"@) {
        builtin_names()
    } else {
        Seq::new(builtin.len(), |i: int| builtin[i]@)
    }
}

/// The tools to make out of those wanted: the excluded ones are passed
/// over; the first other name that is no builtin tool is the error.
pub open spec fn builtin_selected(wanted: Seq<Seq<char>>, excluded: Seq<String>) -> Result<
    Seq<Seq<char>>,
    Seq<char>,
>
    decreases wanted.len(),
{
    if wanted.len() == 0 {
        Ok(Seq::empty())
    } else {
        match builtin_selected(wanted.drop_last(), excluded) {
            Err(unknown) => Err(unknown),
            Ok(before) => if holds_text(excluded, wanted.last()) {
                Ok(before)
            } else if is_builtin(wanted.last()) {
                Ok(before.push(wanted.last()))
            } else {
                Err(wanted.last())
            },
        }
    }
}

/// The positions of the tools to take from a server that offers
/// `offered`: those enabled, by name or by `*`, and not excluded.
pub open spec fn mcp_selected(offered: Seq<String>, config: McpToolConfig) -> Seq<usize>
    decreases offered.len(),
{
    if offered.len() == 0 {
        Seq::empty()
    } else {
        let before = mcp_selected(offered.drop_last(), config);
        let name = offered.last()@;
        if (holds_text(config.enabled_tools@, "*"@) || holds_text(config.enabled_tools@, name))
            && !holds_text(config.excluded_tools@, name) {
            before.push((offered.len() - 1) as usize)
        } else {
            before
        }
    }
}

fn is_builtin_name(name: &str) -> (r: bool)
    ensures
        r == is_builtin(name@),
{
    str_eq(name, "bash") || str_eq(name, "edit") || str_eq(name, "multiedit") || str_eq(
        name,
        "fetch",
    ) || str_eq(name, "find") || str_eq(name, "ls") || str_eq(name, "read") || str_eq(
        name,
        "todo_read",
    ) || str_eq(name, "todo_write") || str_eq(name, "write")
}

fn all_builtin_names() -> (r: Vec<String>)
    ensures
        r.deep_view() == builtin_names(),
{
    let mut names: Vec<String> = Vec::new();
    names.push(String::from_str("bash"));
    names.push(String::from_str("edit"));
    names.push(String::from_str("multiedit"));
    names.push(String::from_str("fetch"));
    names.push(String::from_str("find"));
    names.push(String::from_str("ls"));
    names.push(String::from_str("read"));
    names.push(String::from_str("todo_read"));
    names.push(String::from_str("todo_write"));
    names.push(String::from_str("write"));
    assert(names.deep_view() =~= builtin_names());
    names
}

impl<B> AgentBuilder<B> {
    /// A builder with the brain under the given session id, and nothing
    /// else.
    pub fn with_session_id(session_id: String, brain: B) -> (r: Self)
        ensures
            r.brain == brain,
            r.deep_view() == (AgentBuilderView {
                session_id: session_id@,
                goal: None,
                trace: Seq::empty(),
                available_tools: Seq::empty(),
                permissions: ClaimManagerView { claims: Seq::empty(), sudo: false },
            }),
    {
        let r = AgentBuilder {
            session_id,
            brain,
            goal: None,
            trace: Vec::new(),
            available_tools: Vec::new(),
            permissions: ClaimManager::new(),
        };
        assert(r.trace.deep_view() =~= Seq::empty());
        assert(r.available_tools.deep_view() =~= Seq::empty());
        r
    }

    /// A builder with the brain under a fresh random session id, and
    /// nothing else.
    pub fn with_brain(brain: B) -> (r: Self)
        ensures
            r.brain == brain,
            exists|session_id: Seq<char>|
                r.deep_view() == (AgentBuilderView {
                    session_id,
                    goal: None,
                    trace: Seq::empty(),
                    available_tools: Seq::empty(),
                    permissions: ClaimManagerView { claims: Seq::empty(), sudo: false },
                }),
    {
        Self::with_session_id(new_uuid_v4(), brain)
    }

    /// The same builder with another brain.
    pub fn brain(self, brain: B) -> (r: Self)
        ensures
            r.brain == brain,
            r.deep_view() == self.deep_view(),
    {
        let mut builder = self;
        builder.brain = brain;
        builder
    }

    pub fn id(self, session_id: &str) -> (r: Self)
        ensures
            r.brain == self.brain,
            r.deep_view() == (AgentBuilderView { session_id: session_id@, ..self.deep_view() }),
    {
        let mut builder = self;
        builder.session_id = session_id.to_owned();
        builder
    }

    pub fn goal(self, goal: &str) -> (r: Self)
        ensures
            r.brain == self.brain,
            r.deep_view() == (AgentBuilderView { goal: Some(goal@), ..self.deep_view() }),
    {
        let mut builder = self;
        builder.goal = Some(goal.to_owned());
        builder
    }

    pub fn with_traces(self, trace: Vec<ChatMessage>) -> (r: Self)
        ensures
            r.brain == self.brain,
            r.deep_view() == (AgentBuilderView { trace: trace.deep_view(), ..self.deep_view() }),
    {
        let mut builder = self;
        builder.trace = trace;
        builder
    }

    pub fn tools(self, available_tools: AnyToolBox) -> (r: Self)
        ensures
            r.brain == self.brain,
            r.deep_view() == (AgentBuilderView {
                available_tools: available_tools.deep_view(),
                ..self.deep_view()
            }),
    {
        let mut builder = self;
        builder.available_tools = available_tools;
        builder
    }

    pub fn permissions(self, permissions: ClaimManager) -> (r: Self)
        ensures
            r.brain == self.brain,
            r.deep_view() == (AgentBuilderView {
                permissions: permissions.deep_view(),
                ..self.deep_view()
            }),
    {
        let mut builder = self;
        builder.permissions = permissions;
        builder
    }

    /// Turns sudo on: the agent will not ask for permission.
    pub fn sudo(self) -> (r: Self)
        ensures
            r.brain == self.brain,
            r.deep_view() == (AgentBuilderView {
                permissions: self.deep_view().permissions.with_sudo(true),
                ..self.deep_view()
            }),
    {
        let mut builder = self;
        builder.permissions.sudo();
        builder
    }

    /// The agent and its brain. The agent is in `Starting`, without
    /// channels, its conversation the trace followed by the goal.
    pub fn build(self) -> (r: (AgentCore, B))
        ensures
            r.1 == self.brain,
            r.0.deep_view() == (AgentCoreView {
                session_id: self.deep_view().session_id,
                socket: AgentSocket { command: ChannelState::Absent, event: false },
                method: ToolCallMethod::FunctionCall,
                trace: self.deep_view().initial_trace(),
                available_tools: self.deep_view().available_tools,
                permissions: self.deep_view().permissions,
                state: InternalAgentStateView::Starting,
                next_token: 0,
            }),
    {
        let AgentBuilder { session_id, brain, goal, trace, available_tools, permissions } = self;
        let mut trace = trace;
        match goal {
            Some(goal) => {
                push_deep(&mut trace, ChatMessage::user(goal));
            },
            None => {},
        }
        (AgentCore::new(session_id, trace, available_tools, permissions), brain)
    }

    /// A builder for the configured agent, with the brain and the tools
    /// made for it: its session id is `agent-` and the agent's name.
    pub fn from_config(config: &AgentConfig, brain: B, tools: AnyToolBox) -> (r: Self)
        ensures
            r.brain == brain,
            r.deep_view() == (AgentBuilderView {
                session_id: "agent-"@ + config.name@,
                goal: None,
                trace: Seq::empty(),
                available_tools: tools.deep_view(),
                permissions: ClaimManagerView { claims: Seq::empty(), sudo: false },
            }),
    {
        Self::with_session_id(prefixed("agent-", config.name.as_str()), brain).tools(tools)
    }

}

/// The names of the builtin tools to make for the configuration, in
/// order, or `ConfigurationError` for a name that is no builtin tool.
pub fn builtin_tools_to_add(tools: &AgentTools) -> (r: Result<Vec<String>, AgentError>)
    ensures
        match builtin_selected(builtin_wanted(tools.builtin@), tools.builtin_excluded@) {
            Ok(names) => r is Ok && r->Ok_0.deep_view() == names,
            Err(unknown) => r is Err && r->Err_0.deep_view()
                == AgentErrorView::ConfigurationError("Unknown builtin tool: "@ + unknown),
        },
{
    let all = contains_text(&tools.builtin, "*");
    let everything = all_builtin_names();
    let wanted: &Vec<String> = if all {
        &everything
    } else {
        &tools.builtin
    };
    let ghost goal = builtin_wanted(tools.builtin@);
    assert(wanted.deep_view() =~= goal);
    let mut out: Vec<String> = Vec::new();
    let mut i: usize = 0;
    assert(goal.subrange(0, 0) =~= Seq::empty());
    assert(out.deep_view() =~= Seq::empty());
    while i < wanted.len()
        invariant
            i <= wanted.len(),
            wanted.deep_view() == goal,
            goal == builtin_wanted(tools.builtin@),
            builtin_selected(goal.subrange(0, i as int), tools.builtin_excluded@) == Ok::<
                Seq<Seq<char>>,
                Seq<char>,
            >(out.deep_view()),
        decreases wanted.len() - i,
    {
        let name = &wanted[i];
        assert(goal[i as int] == name@);
        assert(goal.subrange(0, i + 1).drop_last() =~= goal.subrange(0, i as int));
        let ghost sofar = goal.subrange(0, i + 1);
        if contains_text(&tools.builtin_excluded, name.as_str()) {
        } else if is_builtin_name(name.as_str()) {
            push_deep(&mut out, name.clone());
        } else {
            proof {
                assert(sofar.last() == name@);
                assert(builtin_selected(sofar, tools.builtin_excluded@) == Err::<
                    Seq<Seq<char>>,
                    Seq<char>,
                >(name@));
                lemma_selection_fails_for_good(
                    goal,
                    i + 1,
                    tools.builtin_excluded@,
                );
                assert(goal.subrange(0, goal.len() as int) =~= goal);
            }
            return Err(
                AgentError::ConfigurationError(
                    prefixed("Unknown builtin tool: ", name.as_str()),
                ),
            );
        }
        i += 1;
    }
    assert(goal.subrange(0, goal.len() as int) =~= goal);
    Ok(out)
}

/// The positions, among the tools that a server offers, of those to
/// take for the configuration.
pub fn mcp_tools_to_add(offered: &Vec<String>, config: &McpToolConfig) -> (r: Vec<usize>)
    ensures
        r@ == mcp_selected(offered@, *config),
{
    let all = contains_text(&config.enabled_tools, "*");
    let mut out: Vec<usize> = Vec::new();
    let mut i: usize = 0;
    assert(offered@.subrange(0, 0) =~= Seq::empty());
    while i < offered.len()
        invariant
            i <= offered.len(),
            all == holds_text(config.enabled_tools@, "*"@),
            out@ == mcp_selected(offered@.subrange(0, i as int), *config),
        decreases offered.len() - i,
    {
        assert(offered@.subrange(0, i + 1).drop_last() =~= offered@.subrange(0, i as int));
        let name = offered[i].as_str();
        if (all || contains_text(&config.enabled_tools, name)) && !contains_text(
            &config.excluded_tools,
            name,
        ) {
            out.push(i);
        }
        i += 1;
    }
    assert(offered@.subrange(0, offered.len() as int) =~= offered@);
    out
}

/// The position of the first enabled tool, from `from` on, that is not
/// among the tools present.
pub open spec fn first_missing(present: Seq<String>, enabled: Seq<String>, from: int) -> Option<
    int,
>
    decreases enabled.len() - from,
{
    if from < 0 || from >= enabled.len() {
        None
    } else if !holds_text(present, enabled[from]@) {
        Some(from)
    } else {
        first_missing(present, enabled, from + 1)
    }
}

/// The complaint about a server that lacks a tool asked of it.
pub open spec fn missing_tool_text(tool: Seq<char>, mcp_name: Seq<char>) -> Seq<char> {
    "Tool '"@ + tool + "' not found in MCP client '"@ + mcp_name + "'"@
}

/// Whether a server's configuration asks for a tool by name that is not
/// among the tools present, and if so the `ConfigurationError` that names
/// the first such tool. A configuration that takes every tool asks for
/// none by name.
pub fn missing_mcp_tool(present: &Vec<String>, config: &McpToolConfig, mcp_name: &str) -> (r:
    Option<AgentError>)
    ensures
        match (if holds_text(config.enabled_tools@, "*"@) {
            None
        } else {
            first_missing(present@, config.enabled_tools@, 0)
        }) {
            Some(i) => r is Some && r->Some_0.deep_view() == AgentErrorView::ConfigurationError(
                missing_tool_text(config.enabled_tools@[i]@, mcp_name@),
            ),
            None => r is None,
        },
{
    if contains_text(&config.enabled_tools, "*") {
        return None;
    }
    let mut i: usize = 0;
    while i < config.enabled_tools.len()
        invariant
            i <= config.enabled_tools.len(),
            !holds_text(config.enabled_tools@, "*"@),
            first_missing(present@, config.enabled_tools@, 0) == first_missing(
                present@,
                config.enabled_tools@,
                i as int,
            ),
        decreases config.enabled_tools.len() - i,
    {
        let wanted = &config.enabled_tools[i];
        if !contains_text(present, wanted.as_str()) {
            let mut text = String::from_str("Tool '");
            text.append(wanted.as_str());
            text.append("' not found in MCP client '");
            text.append(mcp_name);
            text.append("'");
            return Some(AgentError::ConfigurationError(text));
        }
        i += 1;
    }
    None
}

/// Once the selection has failed on the first `upto` names it fails on
/// every longer list, with the same name.
pub proof fn lemma_selection_fails_for_good(
    wanted: Seq<Seq<char>>,
    upto: int,
    excluded: Seq<String>,
)
    requires
        0 <= upto <= wanted.len(),
        builtin_selected(wanted.subrange(0, upto), excluded) is Err,
    ensures
        builtin_selected(wanted, excluded) == builtin_selected(wanted.subrange(0, upto), excluded),
    decreases wanted.len() - upto,
{
    if upto < wanted.len() {
        assert(wanted.subrange(0, upto + 1).drop_last() =~= wanted.subrange(0, upto));
        lemma_selection_fails_for_good(wanted, upto + 1, excluded);
    } else {
        assert(wanted.subrange(0, upto) =~= wanted);
    }
}

} // verus!
