//! Tools as the agent sees them: capabilities, calls, results and the toolbox.

use vstd::prelude::*;
use crate::json::{JsonModel, JsonValue};
use crate::text::{distinct_keys, str_eq};

verus! {

/// Parameters of a tool that takes none.
#[derive(Debug, PartialEq)]
pub struct ToolEmptyParams {
    pub _unused: Option<String>,
}

impl Default for ToolEmptyParams {
    fn default() -> (r: Self)
        ensures
            r._unused is None,
    {
        ToolEmptyParams { _unused: None }
    }
}

/// What a tool may touch. A tool whose capabilities are all `Read` runs
/// without asking.
#[derive(Debug, Clone, Copy, PartialEq, Eq, Hash, Structural)]
pub enum ToolCapability {
    Read,
    Write,
    Network,
}

/// A call with its parameters already read as JSON.
#[derive(Debug, PartialEq)]
pub struct ToolCall {
    pub tool_call_id: String,
    pub tool_name: String,
    pub parameters: JsonValue,
}

pub ghost struct ToolCallView {
    pub tool_call_id: Seq<char>,
    pub tool_name: Seq<char>,
    pub parameters: JsonModel,
}

impl DeepView for ToolCall {
    type V = ToolCallView;

    open spec fn deep_view(&self) -> ToolCallView {
        ToolCallView {
            tool_call_id: self.tool_call_id@,
            tool_name: self.tool_name@,
            parameters: self.parameters.deep_view(),
        }
    }
}

impl Clone for ToolCall {
    fn clone(&self) -> (r: Self)
        ensures
            r.deep_view() == self.deep_view(),
    {
        ToolCall {
            tool_call_id: self.tool_call_id.clone(),
            tool_name: self.tool_name.clone(),
            parameters: self.parameters.clone(),
        }
    }
}

/// Named values that a tool attaches to its result. A name should occur
/// once: the list stands for a map.
pub type ToolMetadata = Vec<(String, JsonValue)>;

/// A copy of the metadata, entry by entry. Names that occur once each
/// occur once each in the copy.
pub fn clone_metadata(metadata: &Option<ToolMetadata>) -> (r: Option<ToolMetadata>)
    ensures
        r.deep_view() == metadata.deep_view(),
        metadata matches Some(entries) && distinct_keys(entries@) ==> r is Some && distinct_keys(
            r->Some_0@,
        ),
{
    match metadata {
        None => None,
        Some(entries) => {
            let mut out: ToolMetadata = Vec::new();
            let mut i: usize = 0;
            while i < entries.len()
                invariant
                    i <= entries.len(),
                    out.len() == i,
                    forall|j: int|
                        0 <= j < i ==> out@[j].deep_view() == (#[trigger] entries@[j]).deep_view(),
                decreases entries.len() - i,
            {
                out.push((entries[i].0.clone(), entries[i].1.clone()));
                i += 1;
            }
            assert(out.deep_view() =~= entries.deep_view());
            assert forall|i: int, j: int|
                0 <= i < j < out.len() && distinct_keys(entries@) implies (#[trigger] out@[i]).0@
                != (#[trigger] out@[j]).0@ by {
                assert(out@[i].deep_view() == entries@[i].deep_view());
                assert(out@[j].deep_view() == entries@[j].deep_view());
            }
            Some(out)
        },
    }
}

/// The outcome of one tool call.
#[derive(Debug, PartialEq)]
pub enum ToolResult {
    Success { output: String, metadata: Option<ToolMetadata> },
    Error { error: String, metadata: Option<ToolMetadata> },
    Denied,
}

pub ghost enum ToolResultView {
    Success { output: Seq<char>, metadata: Option<Seq<(Seq<char>, JsonModel)>> },
    Error { error: Seq<char>, metadata: Option<Seq<(Seq<char>, JsonModel)>> },
    Denied,
}

impl DeepView for ToolResult {
    type V = ToolResultView;

    open spec fn deep_view(&self) -> ToolResultView {
        match self {
            ToolResult::Success { output, metadata } => ToolResultView::Success {
                output: output@,
                metadata: metadata.deep_view(),
            },
            ToolResult::Error { error, metadata } => ToolResultView::Error {
                error: error@,
                metadata: metadata.deep_view(),
            },
            ToolResult::Denied => ToolResultView::Denied,
        }
    }
}

impl Clone for ToolResult {
    fn clone(&self) -> (r: Self)
        ensures
            r.deep_view() == self.deep_view(),
    {
        match self {
            ToolResult::Success { output, metadata } => ToolResult::Success {
                output: output.clone(),
                metadata: clone_metadata(metadata),
            },
            ToolResult::Error { error, metadata } => ToolResult::Error {
                error: error.clone(),
                metadata: clone_metadata(metadata),
            },
            ToolResult::Denied => ToolResult::Denied,
        }
    }
}

impl ToolResultView {
    /// The text that stands for the result in the conversation: the output
    /// of a success, a sentence for a failure or a refusal.
    pub open spec fn text(self) -> Seq<char> {
        match self {
            ToolResultView::Success { output, .. } => output,
            ToolResultView::Error { error, .. } =>
                "The tool failed with the following error: "@ + error,
            ToolResultView::Denied => "The tool call was rejected by the user"@,
        }
    }
}

impl ToolResult {
    /// A success with its output and no metadata.
    pub fn success(output: String) -> (r: Self)
        ensures
            r.deep_view() == (ToolResultView::Success { output: output@, metadata: None }),
    {
        ToolResult::Success { output, metadata: None }
    }

    /// A success with its output and metadata.
    pub fn success_with_metadata(output: String, metadata: ToolMetadata) -> (r: Self)
        ensures
            r.deep_view() == (ToolResultView::Success {
                output: output@,
                metadata: Some(metadata.deep_view()),
            }),
    {
        ToolResult::Success { output, metadata: Some(metadata) }
    }

    /// A failure with its message and no metadata.
    pub fn error(error: String) -> (r: Self)
        ensures
            r.deep_view() == (ToolResultView::Error { error: error@, metadata: None }),
    {
        ToolResult::Error { error, metadata: None }
    }

    /// The result of a call whose parameters are not those of the tool.
    pub fn parameters_rejected() -> (r: Self)
        ensures
            r.deep_view() == (ToolResultView::Error {
                error: "Parameter deserialization failed"@,
                metadata: None,
            }),
    {
        ToolResult::Error {
            error: String::from_str("Parameter deserialization failed"),
            metadata: None,
        }
    }

    /// The result of a call that the user refused.
    pub fn denied() -> (r: Self)
        ensures
            r.deep_view() == ToolResultView::Denied,
    {
        ToolResult::Denied
    }

    /// A failure with its message and metadata.
    pub fn error_with_metadata(error: String, metadata: ToolMetadata) -> (r: Self)
        ensures
            r.deep_view() == (ToolResultView::Error {
                error: error@,
                metadata: Some(metadata.deep_view()),
            }),
    {
        ToolResult::Error { error, metadata: Some(metadata) }
    }

    pub fn is_success(&self) -> (r: bool)
        ensures
            r == (self.deep_view() is Success),
    {
        match self {
            ToolResult::Success { .. } => true,
            _ => false,
        }
    }

    pub fn is_error(&self) -> (r: bool)
        ensures
            r == (self.deep_view() is Error),
    {
        match self {
            ToolResult::Error { .. } => true,
            _ => false,
        }
    }

    pub fn is_denied(&self) -> (r: bool)
        ensures
            r == (self.deep_view() is Denied),
    {
        match self {
            ToolResult::Denied => true,
            _ => false,
        }
    }

    /// The text that stands for the result in the conversation.
    pub fn to_string(&self) -> (r: String)
        ensures
            r@ == self.deep_view().text(),
    {
        match self {
            ToolResult::Success { output, .. } => output.clone(),
            ToolResult::Error { error, .. } => {
                let mut text = String::from_str("The tool failed with the following error: ");
                text.append(error.as_str());
                text
            },
            ToolResult::Denied => String::from_str("The tool call was rejected by the user"),
        }
    }
}

/// What the agent knows of a tool: how to name it and what it may touch.
/// The code that runs the tool lives with the caller.
#[derive(Debug, PartialEq)]
pub struct ToolSpec {
    pub name: String,
    pub description: String,
    /// JSON schema of the parameters.
    pub parameters_schema: JsonValue,
    pub capabilities: Vec<ToolCapability>,
    /// The family the tool belongs to, such as `builtin`.
    pub group: Option<String>,
}

pub ghost struct ToolSpecView {
    pub name: Seq<char>,
    pub description: Seq<char>,
    pub parameters_schema: JsonModel,
    pub capabilities: Seq<ToolCapability>,
    pub group: Option<Seq<char>>,
}

impl DeepView for ToolSpec {
    type V = ToolSpecView;

    open spec fn deep_view(&self) -> ToolSpecView {
        ToolSpecView {
            name: self.name@,
            description: self.description@,
            parameters_schema: self.parameters_schema.deep_view(),
            capabilities: self.capabilities@,
            group: self.group.deep_view(),
        }
    }
}

impl Clone for ToolSpec {
    fn clone(&self) -> (r: Self)
        ensures
            r.deep_view() == self.deep_view(),
    {
        let capabilities = self.capabilities.clone();
        assert(capabilities@ =~= self.capabilities@);
        ToolSpec {
            name: self.name.clone(),
            description: self.description.clone(),
            parameters_schema: self.parameters_schema.clone(),
            capabilities,
            group: self.group.clone(),
        }
    }
}

/// Every capability in the list is `Read`; an empty list counts.
pub open spec fn read_only(capabilities: Seq<ToolCapability>) -> bool {
    forall|i: int| 0 <= i < capabilities.len() ==> capabilities[i] == ToolCapability::Read
}

impl ToolSpec {
    /// Whether the tool only reads, so that it runs without permission.
    pub fn is_read_only(&self) -> (r: bool)
        ensures
            r == read_only(self.deep_view().capabilities),
    {
        let mut i: usize = 0;
        while i < self.capabilities.len()
            invariant
                i <= self.capabilities.len(),
                forall|j: int| 0 <= j < i ==> self.capabilities@[j] == ToolCapability::Read,
            decreases self.capabilities.len() - i,
        {
            match self.capabilities[i] {
                ToolCapability::Read => {},
                _ => {
                    return false;
                },
            }
            i += 1;
        }
        true
    }
}

/// A toolbox is a list of tools.
pub type AnyToolBox = Vec<ToolSpec>;

/// The position of the first tool called `name`, if there is one.
pub open spec fn first_tool_named(tools: Seq<ToolSpecView>, name: Seq<char>) -> Option<int>
    decreases tools.len(),
{
    if tools.len() == 0 {
        None
    } else if tools[0].name == name {
        Some(0)
    } else {
        match first_tool_named(tools.skip(1), name) {
            Some(i) => Some(i + 1),
            None => None,
        }
    }
}

/// `first_tool_named` finds a tool of that name, and none stands before it.
pub proof fn lemma_first_tool_named(tools: Seq<ToolSpecView>, name: Seq<char>)
    ensures
        match first_tool_named(tools, name) {
            Some(i) => 0 <= i < tools.len() && tools[i].name == name && forall|j: int|
                0 <= j < i ==> tools[j].name != name,
            None => forall|j: int| 0 <= j < tools.len() ==> tools[j].name != name,
        },
    decreases tools.len(),
{
    if tools.len() > 0 && tools[0].name != name {
        let rest = tools.skip(1);
        lemma_first_tool_named(rest, name);
        match first_tool_named(rest, name) {
            Some(i) => {
                assert forall|j: int| 0 <= j < i + 1 implies tools[j].name != name by {
                    if j > 0 {
                        assert(rest[j - 1] == tools[j]);
                    }
                }
            },
            None => {
                assert forall|j: int| 0 <= j < tools.len() implies tools[j].name != name by {
                    if j > 0 {
                        assert(rest[j - 1] == tools[j]);
                    }
                }
            },
        }
    }
}

/// Lookup by name in a toolbox.
pub trait ContainsAnyTool {
    spec fn tool_views(&self) -> Seq<ToolSpecView>;

    /// Whether a tool of that name is in the box.
    fn contains_tool(&self, name: &str) -> (r: bool)
        ensures
            r == first_tool_named(self.tool_views(), name@).is_some(),
    ;

    /// The position of the first tool of that name.
    fn get_tool(&self, name: &str) -> (r: Option<usize>)
        ensures
            r.is_some() == first_tool_named(self.tool_views(), name@).is_some(),
            r is Some ==> r->Some_0 as int == first_tool_named(self.tool_views(), name@)->Some_0,
    ;
}

impl ContainsAnyTool for AnyToolBox {
    open spec fn tool_views(&self) -> Seq<ToolSpecView> {
        self.deep_view()
    }

    fn contains_tool(&self, name: &str) -> (r: bool) {
        self.get_tool(name).is_some()
    }

    fn get_tool(&self, name: &str) -> (r: Option<usize>) {
        let mut i: usize = 0;
        let ghost views = self.deep_view();
        while i < self.len()
            invariant
                i <= self.len(),
                views == self.deep_view(),
                views.len() == self.len(),
                forall|j: int| 0 <= j < i ==> views[j].name != name@,
            decreases self.len() - i,
        {
            assert(views[i as int] == self@[i as int].deep_view());
            if str_eq(self[i].name.as_str(), name) {
                proof {
                    lemma_first_tool_named(views, name@);
                }
                return Some(i);
            }
            i += 1;
        }
        proof {
            lemma_first_tool_named(views, name@);
        }
        None
    }
}

} // verus!
