//! The states of an agent, as it keeps them and as it shows them.

use vstd::prelude::*;

verus! {

/// Names one cancellable piece of work. Firing it asks the brain task or
/// the tool tasks started under it to stop.
#[derive(Debug, Clone, Copy, PartialEq, Eq, Hash, Structural)]
pub struct CancellationToken {
    pub id: u64,
}

/// The state that the agent keeps.
#[derive(Debug, PartialEq)]
pub enum InternalAgentState {
    /// Created, not yet initialised.
    Starting,
    /// Ready to think.
    Running,
    /// The brain or the tools are at work. `tools_exec_at` is the time the
    /// work began, in milliseconds since the epoch.
    Processing { task_name: String, tools_exec_at: i64, cancellation_token: CancellationToken },
    /// Waiting for input.
    Paused,
    Completed { success: bool },
    Failed { error: String },
}

pub ghost enum InternalAgentStateView {
    Starting,
    Running,
    Processing { task_name: Seq<char>, tools_exec_at: i64, cancellation_token: CancellationToken },
    Paused,
    Completed { success: bool },
    Failed { error: Seq<char> },
}

/// The state that observers see.
#[derive(Debug, PartialEq)]
pub enum PublicAgentState {
    Starting,
    Running,
    Processing { task_name: String, tools_exec_at: i64 },
    Paused,
    Completed { success: bool },
    Failed { error: String },
    Cancelled,
}

pub ghost enum PublicAgentStateView {
    Starting,
    Running,
    Processing { task_name: Seq<char>, tools_exec_at: i64 },
    Paused,
    Completed { success: bool },
    Failed { error: Seq<char> },
    Cancelled,
}

impl PublicAgentStateView {
    /// A state from which the agent never reaches `Paused`.
    pub open spec fn is_final(self) -> bool {
        self is Completed || self is Failed || self is Cancelled
    }
}

impl InternalAgentStateView {
    /// The state as observers see it: the cancellation handle stays inside.
    pub open spec fn to_public(self) -> PublicAgentStateView {
        match self {
            InternalAgentStateView::Starting => PublicAgentStateView::Starting,
            InternalAgentStateView::Running => PublicAgentStateView::Running,
            InternalAgentStateView::Processing { task_name, tools_exec_at, .. } =>
                PublicAgentStateView::Processing { task_name, tools_exec_at },
            InternalAgentStateView::Paused => PublicAgentStateView::Paused,
            InternalAgentStateView::Completed { success } => PublicAgentStateView::Completed {
                success,
            },
            InternalAgentStateView::Failed { error } => PublicAgentStateView::Failed { error },
        }
    }

    /// `Completed` or `Failed`: the agent has stopped for good.
    pub open spec fn is_terminal(self) -> bool {
        self is Completed || self is Failed
    }
}

impl DeepView for InternalAgentState {
    type V = InternalAgentStateView;

    open spec fn deep_view(&self) -> InternalAgentStateView {
        match self {
            InternalAgentState::Starting => InternalAgentStateView::Starting,
            InternalAgentState::Running => InternalAgentStateView::Running,
            InternalAgentState::Processing { task_name, tools_exec_at, cancellation_token } =>
                InternalAgentStateView::Processing {
                    task_name: task_name@,
                    tools_exec_at: *tools_exec_at,
                    cancellation_token: *cancellation_token,
                },
            InternalAgentState::Paused => InternalAgentStateView::Paused,
            InternalAgentState::Completed { success } => InternalAgentStateView::Completed {
                success: *success,
            },
            InternalAgentState::Failed { error } => InternalAgentStateView::Failed {
                error: error@,
            },
        }
    }
}

impl DeepView for PublicAgentState {
    type V = PublicAgentStateView;

    open spec fn deep_view(&self) -> PublicAgentStateView {
        match self {
            PublicAgentState::Starting => PublicAgentStateView::Starting,
            PublicAgentState::Running => PublicAgentStateView::Running,
            PublicAgentState::Processing { task_name, tools_exec_at } =>
                PublicAgentStateView::Processing {
                    task_name: task_name@,
                    tools_exec_at: *tools_exec_at,
                },
            PublicAgentState::Paused => PublicAgentStateView::Paused,
            PublicAgentState::Completed { success } => PublicAgentStateView::Completed {
                success: *success,
            },
            PublicAgentState::Failed { error } => PublicAgentStateView::Failed { error: error@ },
            PublicAgentState::Cancelled => PublicAgentStateView::Cancelled,
        }
    }
}

impl Clone for InternalAgentState {
    fn clone(&self) -> (r: Self)
        ensures
            r.deep_view() == self.deep_view(),
    {
        match self {
            InternalAgentState::Starting => InternalAgentState::Starting,
            InternalAgentState::Running => InternalAgentState::Running,
            InternalAgentState::Processing { task_name, tools_exec_at, cancellation_token } =>
                InternalAgentState::Processing {
                    task_name: task_name.clone(),
                    tools_exec_at: *tools_exec_at,
                    cancellation_token: *cancellation_token,
                },
            InternalAgentState::Paused => InternalAgentState::Paused,
            InternalAgentState::Completed { success } => InternalAgentState::Completed {
                success: *success,
            },
            InternalAgentState::Failed { error } => InternalAgentState::Failed {
                error: error.clone(),
            },
        }
    }
}

impl Clone for PublicAgentState {
    fn clone(&self) -> (r: Self)
        ensures
            r.deep_view() == self.deep_view(),
    {
        match self {
            PublicAgentState::Starting => PublicAgentState::Starting,
            PublicAgentState::Running => PublicAgentState::Running,
            PublicAgentState::Processing { task_name, tools_exec_at } =>
                PublicAgentState::Processing {
                    task_name: task_name.clone(),
                    tools_exec_at: *tools_exec_at,
                },
            PublicAgentState::Paused => PublicAgentState::Paused,
            PublicAgentState::Completed { success } => PublicAgentState::Completed {
                success: *success,
            },
            PublicAgentState::Failed { error } => PublicAgentState::Failed { error: error.clone() },
            PublicAgentState::Cancelled => PublicAgentState::Cancelled,
        }
    }
}

impl PublicAgentStateView {
    /// The name of the state.
    pub open spec fn name(self) -> Seq<char> {
        match self {
            PublicAgentStateView::Starting => "Starting"@,
            PublicAgentStateView::Running => "Running"@,
            PublicAgentStateView::Processing { .. } => "Processing"@,
            PublicAgentStateView::Paused => "Paused"@,
            PublicAgentStateView::Completed { .. } => "Completed"@,
            PublicAgentStateView::Failed { .. } => "Failed"@,
            PublicAgentStateView::Cancelled => "Cancelled"@,
        }
    }
}

impl PublicAgentState {
    /// The name of the state.
    pub fn name(&self) -> (r: &'static str)
        ensures
            r@ == self.deep_view().name(),
    {
        match self {
            PublicAgentState::Starting => "Starting",
            PublicAgentState::Running => "Running",
            PublicAgentState::Processing { .. } => "Processing",
            PublicAgentState::Paused => "Paused",
            PublicAgentState::Completed { .. } => "Completed",
            PublicAgentState::Failed { .. } => "Failed",
            PublicAgentState::Cancelled => "Cancelled",
        }
    }

    pub fn is_paused(&self) -> (r: bool)
        ensures
            r == (self.deep_view() is Paused),
    {
        match self {
            PublicAgentState::Paused => true,
            _ => false,
        }
    }
}

impl InternalAgentState {
    /// The state as observers see it.
    pub fn to_public(&self) -> (r: PublicAgentState)
        ensures
            r.deep_view() == self.deep_view().to_public(),
    {
        match self {
            InternalAgentState::Starting => PublicAgentState::Starting,
            InternalAgentState::Running => PublicAgentState::Running,
            InternalAgentState::Processing { task_name, tools_exec_at, .. } =>
                PublicAgentState::Processing {
                    task_name: task_name.clone(),
                    tools_exec_at: *tools_exec_at,
                },
            InternalAgentState::Paused => PublicAgentState::Paused,
            InternalAgentState::Completed { success } => PublicAgentState::Completed {
                success: *success,
            },
            InternalAgentState::Failed { error } => PublicAgentState::Failed {
                error: error.clone(),
            },
        }
    }

    /// `Completed` or `Failed`.
    pub fn is_terminal(&self) -> (r: bool)
        ensures
            r == self.deep_view().is_terminal(),
    {
        match self {
            InternalAgentState::Completed { .. } => true,
            InternalAgentState::Failed { .. } => true,
            _ => false,
        }
    }

    /// The handle of the work in progress, if any.
    pub fn cancellation_token(&self) -> (r: Option<CancellationToken>)
        ensures
            match self.deep_view() {
                InternalAgentStateView::Processing { cancellation_token, .. } => r == Some(
                    cancellation_token,
                ),
                _ => r is None,
            },
    {
        match self {
            InternalAgentState::Processing { cancellation_token, .. } => Some(*cancellation_token),
            _ => None,
        }
    }
}

} // verus!
