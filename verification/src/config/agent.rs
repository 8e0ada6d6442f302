//! The configuration of one named agent.

use vstd::prelude::*;
use crate::chat::ToolCallMethod;
use crate::config::config::{McpConfig, NamedValues, ShaiConfig};
use crate::text::{distinct_keys, find_key, key_position, str_eq};

verus! {

/// The provider that an agent uses.
#[derive(Debug, PartialEq)]
pub struct AgentProviderConfig {
    pub provider: String,
    pub env_vars: NamedValues,
    pub model: String,
    pub tool_method: ToolCallMethod,
}

/// One MCP server and the tools taken from it.
#[derive(Debug, PartialEq)]
pub struct McpToolConfig {
    pub config: McpConfig,
    /// The tools to take; `*` takes all.
    pub enabled_tools: Vec<String>,
    pub excluded_tools: Vec<String>,
}

/// The tools of an agent.
#[derive(Debug, PartialEq)]
pub struct AgentTools {
    /// The builtin tools to take; `*` takes all.
    pub builtin: Vec<String>,
    pub builtin_excluded: Vec<String>,
    /// MCP servers by name. A name should occur once; where it occurs
    /// twice, the first entry counts.
    pub mcp: Vec<(String, McpToolConfig)>,
}

impl AgentTools {
    /// Whether the servers stand for a map: no name occurs twice.
    pub open spec fn well_formed(&self) -> bool {
        distinct_keys(self.mcp@)
    }
}

impl Default for AgentTools {
    /// Every builtin tool, none excluded, no MCP server.
    fn default() -> (r: Self)
        ensures
            r.well_formed(),
            r.builtin.deep_view() == seq!["*"@],
            r.builtin_excluded.len() == 0,
            r.mcp.len() == 0,
    {
        let mut builtin: Vec<String> = Vec::new();
        builtin.push(String::from_str("*"));
        assert(builtin.deep_view() =~= seq!["*"@]);
        AgentTools { builtin, builtin_excluded: Vec::new(), mcp: Vec::new() }
    }
}

/// Whether the list holds the text.
pub open spec fn holds_text(list: Seq<String>, text: Seq<char>) -> bool {
    exists|i: int| 0 <= i < list.len() && (#[trigger] list[i])@ == text
}

/// Whether the list holds the text.
pub fn contains_text(list: &Vec<String>, text: &str) -> (r: bool)
    ensures
        r == holds_text(list@, text@),
{
    let mut i: usize = 0;
    while i < list.len()
        invariant
            i <= list.len(),
            forall|j: int| 0 <= j < i ==> (#[trigger] list@[j])@ != text@,
        decreases list.len() - i,
    {
        if str_eq(list[i].as_str(), text) {
            return true;
        }
        i += 1;
    }
    false
}

/// The system prompt of an agent that names none.
pub fn default_system_prompt() -> (r: String)
    ensures
        r@ == "{{CODER_BASE_PROMPT}}"@,
{
    String::from_str("{{CODER_BASE_PROMPT}}")
}

/// The token limit of an agent that names none.
pub fn default_max_tokens() -> (r: u32)
    ensures
        r == 4096,
{
    4096
}

/// The tools taken from an MCP server that names none: all.
pub fn default_enabled_tools() -> (r: Vec<String>)
    ensures
        r.deep_view() == seq!["*"@],
{
    let mut tools: Vec<String> = Vec::new();
    tools.push(String::from_str("*"));
    assert(tools.deep_view() =~= seq!["*"@]);
    tools
}

/// A copy of the named values, entry by entry.
pub fn clone_named_values(values: &NamedValues) -> (r: NamedValues)
    ensures
        r.deep_view() == values.deep_view(),
        distinct_keys(values@) ==> distinct_keys(r@),
{
    let mut out: NamedValues = Vec::new();
    let mut i: usize = 0;
    while i < values.len()
        invariant
            i <= values.len(),
            out.len() == i,
            forall|j: int| 0 <= j < i ==> out@[j].deep_view() == (#[trigger] values@[j]).deep_view(),
        decreases values.len() - i,
    {
        out.push((values[i].0.clone(), values[i].1.clone()));
        i += 1;
    }
    assert(out.deep_view() =~= values.deep_view());
    assert forall|i: int, j: int| 0 <= i < j < out.len() && distinct_keys(values@) implies (
    #[trigger] out@[i]).0@ != (#[trigger] out@[j]).0@ by {
        assert(out@[i].deep_view() == values@[i].deep_view());
        assert(out@[j].deep_view() == values@[j].deep_view());
    }
    out
}

/// The provider of an agent that names none: the one selected in the
/// configuration, `None` where the selection names no provider.
pub fn default_llm_provider(config: &ShaiConfig) -> (r: Option<AgentProviderConfig>)
    ensures
        config.selected_provider >= config.providers.len() ==> r is None,
        config.selected_provider < config.providers.len() ==> {
            let chosen = config.providers@[config.selected_provider as int];
            &&& r is Some
            &&& r->Some_0.provider@ == chosen.provider@
            &&& r->Some_0.env_vars.deep_view() == chosen.env_vars.deep_view()
            &&& r->Some_0.model@ == chosen.model@
            &&& r->Some_0.tool_method == chosen.tool_method
            &&& config.well_formed() ==> distinct_keys(r->Some_0.env_vars@)
        },
{
    match config.get_selected_provider() {
        Some(chosen) => Some(
            AgentProviderConfig {
                provider: chosen.provider.clone(),
                env_vars: clone_named_values(&chosen.env_vars),
                model: chosen.model.clone(),
                tool_method: chosen.tool_method,
            },
        ),
        None => None,
    }
}

/// One named agent. The temperature is kept as the bits of its
/// single-precision value.
#[derive(Debug, PartialEq)]
pub struct AgentConfig {
    pub name: String,
    pub description: String,
    pub llm_provider: AgentProviderConfig,
    pub tools: AgentTools,
    pub system_prompt: String,
    pub max_tokens: u32,
    pub temperature_bits: u32,
}

/// The tools enabled on the servers, server after server.
pub open spec fn enabled_on(servers: Seq<(String, McpToolConfig)>) -> Seq<Seq<char>>
    decreases servers.len(),
{
    if servers.len() == 0 {
        Seq::empty()
    } else {
        enabled_on(servers.drop_last()) + servers.last().1.enabled_tools.deep_view()
    }
}

impl AgentConfig {
    /// Whether the builtin tool is named among the tools to take.
    pub fn is_builtin_tool_enabled(&self, tool_name: &str) -> (r: bool)
        ensures
            r == holds_text(self.tools.builtin@, tool_name@),
    {
        contains_text(&self.tools.builtin, tool_name)
    }

    /// Whether the server is known and names the tool among those to take.
    pub fn is_mcp_tool_enabled(&self, mcp_name: &str, tool_name: &str) -> (r: bool)
        ensures
            r == match key_position(self.tools.mcp@, mcp_name@) {
                Some(i) => holds_text(self.tools.mcp@[i].1.enabled_tools@, tool_name@),
                None => false,
            },
    {
        match find_key(&self.tools.mcp, mcp_name) {
            Some(i) => contains_text(&self.tools.mcp[i].1.enabled_tools, tool_name),
            None => false,
        }
    }

    /// The tools enabled on all servers, server after server.
    pub fn get_all_enabled_mcp_tools(&self) -> (r: Vec<String>)
        ensures
            r.deep_view() == enabled_on(self.tools.mcp@),
    {
        let mut out: Vec<String> = Vec::new();
        let mut i: usize = 0;
        assert(out.deep_view() =~= enabled_on(self.tools.mcp@.subrange(0, 0)));
        while i < self.tools.mcp.len()
            invariant
                i <= self.tools.mcp.len(),
                out.deep_view() == enabled_on(self.tools.mcp@.subrange(0, i as int)),
            decreases self.tools.mcp.len() - i,
        {
            let list = &self.tools.mcp[i].1.enabled_tools;
            let ghost before = out.deep_view();
            let mut k: usize = 0;
            while k < list.len()
                invariant
                    k <= list.len(),
                    out.deep_view() == before + list.deep_view().subrange(0, k as int),
                decreases list.len() - k,
            {
                let ghost sofar = out.deep_view();
                out.push(list[k].clone());
                assert(out.deep_view() =~= sofar.push(list@[k as int]@));
                assert(list.deep_view().subrange(0, k + 1) =~= list.deep_view().subrange(
                    0,
                    k as int,
                ).push(list@[k as int]@));
                assert(before + list.deep_view().subrange(0, k as int).push(list@[k as int]@)
                    =~= (before + list.deep_view().subrange(0, k as int)).push(list@[k as int]@));
                k += 1;
            }
            assert(list.deep_view().subrange(0, list.len() as int) =~= list.deep_view());
            assert(self.tools.mcp@.subrange(0, i + 1).drop_last() =~= self.tools.mcp@.subrange(
                0,
                i as int,
            ));
            i += 1;
        }
        assert(self.tools.mcp@.subrange(0, self.tools.mcp.len() as int) =~= self.tools.mcp@);
        out
    }
}

} // verus!
