//! Sessions: how they are named in the log, which may be opened, and how
//! a request ends.

use vstd::prelude::*;
use crate::agent::error::{AgentError, AgentErrorView};
use crate::agent::events::AgentEvent;
use crate::agent::protocol::AgentRequest;
use crate::sys::{hash_str, str_writes};
use vstd::std_specs::hash::DefaultHasherAdditionalSpecFns;
use crate::text::{decimal, decimal_string, first_line, first_line_of, prefixed, str_eq};
use crate::tools::ToolResult;

verus! {

/// The colour of a session in the log: one of the 216 colours of the
/// cube, numbered from 16 to 231, picked by the hash of the session's id.
pub open spec fn session_color(session_id: Seq<char>) -> u8 {
    (16 + session_hash(session_id) % 216) as u8
}

/// The hash of a session's id: that of a fresh default hasher of the
/// standard library into which the id was hashed.
pub open spec fn session_hash(session_id: Seq<char>) -> u64 {
    std::collections::hash_map::DefaultHasher::spec_finish(str_writes(session_id))
}

/// The colour of a session in the log.
pub fn color_for_session(session_id: &str) -> (r: u8)
    ensures
        r == session_color(session_id@),
        16 <= r <= 231,
{
    let mut hasher = std::collections::hash_map::DefaultHasher::new();
    hash_str(session_id, &mut hasher);
    assert(hasher@ =~= str_writes(session_id@));
    let hash = std::hash::Hasher::finish(&hasher);
    16 + (hash % 216) as u8
}

/// The session's id as the log shows it: `sid=` and the id, in the
/// session's colour.
pub open spec fn colored_session_text(session_id: Seq<char>) -> Seq<char> {
    "\x1b[38;5;"@ + decimal(session_color(session_id) as nat) + "msid="@ + session_id
        + "\x1b[0m"@
}

/// The session's id as the log shows it.
pub fn colored_session_id(session_id: &str) -> (r: String)
    ensures
        r@ == colored_session_text(session_id@),
{
    let color = color_for_session(session_id);
    let mut text = String::from_str("\x1b[38;5;");
    text.append(decimal_string(color as u64).as_str());
    text.append("msid=");
    text.append(session_id);
    text.append("\x1b[0m");
    text
}

/// How loud a line of the log is.
#[derive(Debug, Clone, Copy, PartialEq, Eq, Structural)]
pub enum LogLevel {
    Debug,
    Info,
    Error,
}

/// What the log says of the end of a tool call, after the session and
/// the tool's name.
pub open spec fn tool_result_mark(result: crate::tools::ToolResultView, millis: Seq<char>) -> Seq<
    char,
> {
    match result {
        crate::tools::ToolResultView::Success { .. } => " \u{2713} ("@ + millis + "ms)"@,
        crate::tools::ToolResultView::Error { error, .. } => " \u{2717} "@ + first_line_of(error),
        crate::tools::ToolResultView::Denied => " \u{2298} denied"@,
    }
}

/// The decimal spelling of a whole number, with its sign.
pub open spec fn signed_decimal(n: int) -> Seq<char> {
    if n < 0 {
        "-"@ + decimal((-n) as nat)
    } else {
        decimal(n as nat)
    }
}

/// The decimal spelling of a whole number, with its sign.
pub fn signed_decimal_string(n: i64) -> (r: String)
    ensures
        r@ == signed_decimal(n as int),
{
    if n < 0 {
        let magnitude: u64 = if n == i64::MIN {
            0x8000_0000_0000_0000
        } else {
            (-n) as u64
        };
        prefixed("-", decimal_string(magnitude).as_str())
    } else {
        decimal_string(n as u64)
    }
}

/// The line that the log gets for an event, with its level; `None` for
/// the events that are not logged.
pub fn log_line(event: &AgentEvent, session_id: &str) -> (r: Option<(LogLevel, String)>)
    ensures
        match event.deep_view() {
            crate::agent::events::AgentEventView::ToolCallStarted { call, .. } => r is Some
                && r->Some_0.0 == LogLevel::Debug && r->Some_0.1@ == colored_session_text(
                session_id@,
            ) + " - ToolCall: "@ + call.tool_name,
            crate::agent::events::AgentEventView::ToolCallCompleted { call, result, duration } =>
                r is Some && r->Some_0.0 == LogLevel::Debug && r->Some_0.1@
                    == colored_session_text(session_id@) + " - ToolResult: "@ + call.tool_name
                    + tool_result_mark(result, signed_decimal(duration as int)),
            crate::agent::events::AgentEventView::BrainResult { .. } => r is Some && r->Some_0.0
                == LogLevel::Debug && r->Some_0.1@ == colored_session_text(session_id@)
                + " - BrainResult"@,
            crate::agent::events::AgentEventView::StatusChanged { old_status, new_status } =>
                r is Some && r->Some_0.0 == LogLevel::Debug && r->Some_0.1@
                    == colored_session_text(session_id@) + " - Status: "@ + new_status.name()
                    + " \u{2190} "@ + old_status.name(),
            crate::agent::events::AgentEventView::Error { error } => r is Some && r->Some_0.0
                == LogLevel::Error && r->Some_0.1@ == colored_session_text(session_id@)
                + " - Error: "@ + error,
            crate::agent::events::AgentEventView::Completed { success, message } => r is Some
                && r->Some_0.0 == LogLevel::Info && r->Some_0.1@ == colored_session_text(
                session_id@,
            ) + " - Completed: success="@ + (if success {
                "true"@
            } else {
                "false"@
            }) + " msg="@ + message,
            _ => r is None,
        },
{
    let mut line = colored_session_id(session_id);
    match event {
        AgentEvent::ToolCallStarted { call, .. } => {
            line.append(" - ToolCall: ");
            line.append(call.tool_name.as_str());
            Some((LogLevel::Debug, line))
        },
        AgentEvent::ToolCallCompleted { call, result, duration } => {
            line.append(" - ToolResult: ");
            line.append(call.tool_name.as_str());
            let ghost head = line@;
            match result {
                ToolResult::Success { .. } => {
                    line.append(" \u{2713} (");
                    line.append(signed_decimal_string(*duration).as_str());
                    line.append("ms)");
                    assert(line@ =~= head + (" \u{2713} ("@ + signed_decimal(*duration as int)
                        + "ms)"@));
                },
                ToolResult::Error { error, .. } => {
                    line.append(" \u{2717} ");
                    line.append(first_line(error.as_str()));
                    assert(line@ =~= head + (" \u{2717} "@ + first_line_of(error@)));
                },
                ToolResult::Denied => {
                    line.append(" \u{2298} denied");
                },
            }
            Some((LogLevel::Debug, line))
        },
        AgentEvent::BrainResult { .. } => {
            line.append(" - BrainResult");
            Some((LogLevel::Debug, line))
        },
        AgentEvent::StatusChanged { old_status, new_status } => {
            line.append(" - Status: ");
            line.append(new_status.name());
            line.append(" \u{2190} ");
            line.append(old_status.name());
            Some((LogLevel::Debug, line))
        },
        AgentEvent::Error { error } => {
            line.append(" - Error: ");
            line.append(error.as_str());
            Some((LogLevel::Error, line))
        },
        AgentEvent::Completed { success, message } => {
            line.append(" - Completed: success=");
            if *success {
                line.append("true");
            } else {
                line.append("false");
            }
            line.append(" msg=");
            line.append(message.as_str());
            Some((LogLevel::Info, line))
        },
        _ => None,
    }
}

/// How many sessions a manager takes, and of which kind.
#[derive(Debug, Clone, Copy, PartialEq)]
pub struct SessionManagerConfig {
    /// The greatest number of sessions at a time; `None` for no limit.
    pub max_sessions: Option<usize>,
    /// Whether only sessions that end with their request are taken.
    pub ephemeral: bool,
}

impl Default for SessionManagerConfig {
    /// A hundred sessions at most, of either kind.
    fn default() -> (r: Self)
        ensures
            r.max_sessions == Some(100usize),
            !r.ephemeral,
    {
        SessionManagerConfig { max_sessions: Some(100), ephemeral: false }
    }
}

/// One running agent as the manager knows it.
#[derive(Debug, PartialEq)]
pub struct AgentSession {
    pub session_id: String,
    pub agent_name: String,
    pub ephemeral: bool,
}

impl AgentSession {
    /// A session of the named agent, or of the agent `default`.
    pub fn new(session_id: String, agent_name: Option<String>, ephemeral: bool) -> (r: Self)
        ensures
            r.session_id == session_id,
            r.ephemeral == ephemeral,
            r.agent_name@ == (match agent_name {
                Some(name) => name@,
                None => "default"@,
            }),
    {
        let agent_name_display = match agent_name {
            Some(name) => name,
            None => String::from_str("default"),
        };
        AgentSession { session_id, agent_name: agent_name_display, ephemeral }
    }

    pub fn is_ephemeral(&self) -> (r: bool)
        ensures
            r == self.ephemeral,
    {
        self.ephemeral
    }
}

/// The sessions that are open, by id.
#[derive(Debug, PartialEq)]
pub struct SessionManager {
    sessions: Vec<String>,
    max_sessions: Option<usize>,
    ephemeral: bool,
}

/// Whether the id is among the ids.
pub open spec fn holds_id(ids: Seq<String>, id: Seq<char>) -> bool {
    exists|i: int| 0 <= i < ids.len() && (#[trigger] ids[i])@ == id
}

/// Whether no id occurs twice among the ids.
pub open spec fn distinct_ids(ids: Seq<String>) -> bool {
    forall|i: int, j: int| 0 <= i < j < ids.len() ==> (#[trigger] ids[i])@ != (#[trigger] ids[j])@
}

/// Why a session cannot be opened, if it cannot: the manager takes only
/// sessions that end with their request; or the id is in use; or the
/// manager is full. The reasons are tried in this order.
pub open spec fn refusal(
    ids: Seq<String>,
    max_sessions: Option<usize>,
    ephemeral_only: bool,
    session_id: Seq<char>,
    ephemeral: bool,
) -> Option<AgentErrorView> {
    if ephemeral_only && !ephemeral {
        Some(
            AgentErrorView::ExecutionError(
                "Only Ephemeral session are authorized on this server"@,
            ),
        )
    } else if holds_id(ids, session_id) {
        Some(AgentErrorView::ExecutionError("Session already exists: "@ + session_id))
    } else if max_sessions is Some && ids.len() >= max_sessions->Some_0 {
        Some(
            AgentErrorView::ExecutionError(
                "Maximum number of sessions reached: "@ + decimal(max_sessions->Some_0 as nat),
            ),
        )
    } else {
        None
    }
}

impl SessionManager {
    /// The ids of the open sessions, in the order of opening.
    pub closed spec fn ids(&self) -> Seq<String> {
        self.sessions@
    }

    pub closed spec fn config(&self) -> SessionManagerConfig {
        SessionManagerConfig { max_sessions: self.max_sessions, ephemeral: self.ephemeral }
    }

    /// A manager without sessions.
    pub fn new(config: SessionManagerConfig) -> (r: Self)
        ensures
            distinct_ids(r.ids()),
            r.ids() == Seq::<String>::empty(),
            r.config() == config,
    {
        SessionManager {
            sessions: Vec::new(),
            max_sessions: config.max_sessions,
            ephemeral: config.ephemeral,
        }
    }

    fn position(&self, session_id: &str) -> (r: Option<usize>)
        ensures
            r is Some ==> r->Some_0 < self.sessions.len() && self.sessions@[r->Some_0 as int]@
                == session_id@ && forall|j: int|
                0 <= j < r->Some_0 ==> self.sessions@[j]@ != session_id@,
            r is Some == holds_id(self.sessions@, session_id@),
    {
        let mut i: usize = 0;
        while i < self.sessions.len()
            invariant
                i <= self.sessions.len(),
                forall|j: int| 0 <= j < i ==> (#[trigger] self.sessions@[j])@ != session_id@,
            decreases self.sessions.len() - i,
        {
            if str_eq(self.sessions[i].as_str(), session_id) {
                return Some(i);
            }
            i += 1;
        }
        None
    }

    /// Whether a session is open under the id.
    pub fn has_session(&self, session_id: &str) -> (r: bool)
        ensures
            r == holds_id(self.ids(), session_id@),
    {
        self.position(session_id).is_some()
    }

    /// Opens a session under the id, or says why it cannot be opened.
    pub fn create_new_session(&mut self, session_id: &str, ephemeral: bool) -> (r: Result<
        (),
        AgentError,
    >)
        ensures
            final(self).config() == old(self).config(),
            distinct_ids(old(self).ids()) ==> distinct_ids(final(self).ids()),
            match refusal(
                old(self).ids(),
                old(self).config().max_sessions,
                old(self).config().ephemeral,
                session_id@,
                ephemeral,
            ) {
                Some(error) => r is Err && r->Err_0.deep_view() == error && final(self).ids()
                    == old(self).ids(),
                None => r is Ok && final(self).ids().len() == old(self).ids().len() + 1
                    && final(self).ids().drop_last() == old(self).ids()
                    && final(self).ids().last()@ == session_id@,
            },
    {
        if self.ephemeral && !ephemeral {
            return Err(
                AgentError::ExecutionError(
                    String::from_str("Only Ephemeral session are authorized on this server"),
                ),
            );
        }
        if self.position(session_id).is_some() {
            return Err(
                AgentError::ExecutionError(prefixed("Session already exists: ", session_id)),
            );
        }
        match self.max_sessions {
            Some(max) => {
                if self.sessions.len() >= max {
                    return Err(
                        AgentError::ExecutionError(
                            prefixed(
                                "Maximum number of sessions reached: ",
                                decimal_string(max as u64).as_str(),
                            ),
                        ),
                    );
                }
            },
            None => {},
        }
        self.sessions.push(session_id.to_owned());
        assert(self.sessions@.drop_last() =~= old(self).sessions@);
        Ok(())
    }

    /// Forgets the session under the id, if there is one. Returns
    /// whether there was.
    pub fn remove_session(&mut self, session_id: &str) -> (r: bool)
        ensures
            final(self).config() == old(self).config(),
            distinct_ids(old(self).ids()) ==> distinct_ids(final(self).ids()),
            distinct_ids(old(self).ids()) ==> !holds_id(final(self).ids(), session_id@),
            r == holds_id(old(self).ids(), session_id@),
            !r ==> final(self).ids() == old(self).ids(),
            r ==> exists|i: int|
                0 <= i < old(self).ids().len() && (#[trigger] old(self).ids()[i])@ == session_id@
                    && (forall|j: int| 0 <= j < i ==> old(self).ids()[j]@ != session_id@)
                    && final(self).ids() == old(self).ids().remove(i),
    {
        match self.position(session_id) {
            Some(i) => {
                self.sessions.remove(i);
                assert(old(self).ids()[i as int]@ == session_id@);
                true
            },
            None => false,
        }
    }

    /// The number of open sessions.
    pub fn session_count(&self) -> (r: usize)
        ensures
            r == self.ids().len(),
    {
        self.sessions.len()
    }
}

/// What a request does to its session when it ends.
#[derive(Debug, PartialEq)]
pub enum RequestLifecycle {
    /// The session goes on without the request.
    Background { request_id: String, session_id: String },
    /// The session ends with the request.
    Ephemeral { request_id: String, session_id: String },
}

impl RequestLifecycle {
    pub fn new(ephemeral: bool, request_id: String, session_id: String) -> (r: Self)
        ensures
            ephemeral ==> r == (RequestLifecycle::Ephemeral { request_id, session_id }),
            !ephemeral ==> r == (RequestLifecycle::Background { request_id, session_id }),
    {
        if ephemeral {
            RequestLifecycle::Ephemeral { request_id, session_id }
        } else {
            RequestLifecycle::Background { request_id, session_id }
        }
    }

    /// The command to send the agent when the request ends: `Terminate`
    /// for a session that ends with it, none for one that goes on.
    pub fn on_drop(&self) -> (r: Option<AgentRequest>)
        ensures
            match self {
                RequestLifecycle::Ephemeral { .. } => r is Some && r->Some_0.deep_view()
                    == crate::agent::protocol::AgentRequestView::Terminate,
                RequestLifecycle::Background { .. } => r is None,
            },
    {
        match self {
            RequestLifecycle::Ephemeral { .. } => Some(AgentRequest::Terminate),
            RequestLifecycle::Background { .. } => None,
        }
    }
}

} // verus!
