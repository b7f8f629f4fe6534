//! The lifecycle of the node behind the host bridge.
//!
//! The host starts the node at most once per process. The bridge keeps one
//! guarded handle to the runtime; whether a start request creates it, and what
//! the request answers, is decided here.

use vstd::prelude::*;

verus! {

/// The answer to a start request that succeeded or had nothing to do.
pub const START_OK: i32 = 0;

/// The answer to a start request that could not create the runtime.
pub const START_FAILED: i32 = -1;

/// Whether the node runs.
#[derive(Debug, Clone, Copy, PartialEq, Eq, Structural)]
pub enum NodeLifecycle {
    Stopped,
    Running,
}

/// What a start request leads to.
#[derive(Debug, Clone, Copy, PartialEq, Eq, Structural)]
pub struct StartOutcome {
    /// The lifecycle after the request.
    pub state: NodeLifecycle,
    /// What the host is told.
    pub code: i32,
    /// Whether the node is to be launched on the runtime just created.
    pub launch: bool,
}

impl NodeLifecycle {
    /// Whether a start request in this state has to create the runtime first.
    pub fn needs_runtime(self) -> (needed: bool)
        ensures
            needed == (self == NodeLifecycle::Stopped),
    {
        match self {
            NodeLifecycle::Stopped => true,
            NodeLifecycle::Running => false,
        }
    }

    /// What a start request leads to, as a function of the state and of
    /// whether the runtime could be created.
    pub open spec fn start_spec(self, runtime_created: bool) -> StartOutcome {
        match self {
            NodeLifecycle::Running => StartOutcome {
                state: NodeLifecycle::Running,
                code: START_OK,
                launch: false,
            },
            NodeLifecycle::Stopped => if runtime_created {
                StartOutcome { state: NodeLifecycle::Running, code: START_OK, launch: true }
            } else {
                StartOutcome { state: NodeLifecycle::Stopped, code: START_FAILED, launch: false }
            },
        }
    }

    /// Decides a start request. `runtime_created` says whether the runtime
    /// could be created; it is not looked at while the node runs.
    pub fn start(self, runtime_created: bool) -> (outcome: StartOutcome)
        ensures
            outcome == self.start_spec(runtime_created),
    {
        match self {
            NodeLifecycle::Running => StartOutcome {
                state: NodeLifecycle::Running,
                code: START_OK,
                launch: false,
            },
            NodeLifecycle::Stopped => {
                if runtime_created {
                    StartOutcome { state: NodeLifecycle::Running, code: START_OK, launch: true }
                } else {
                    StartOutcome {
                        state: NodeLifecycle::Stopped,
                        code: START_FAILED,
                        launch: false,
                    }
                }
            },
        }
    }
}

/// Starting is idempotent: once a start request has left the node running,
/// every further request succeeds, launches nothing and leaves it running.
pub proof fn lemma_start_idempotent(state: NodeLifecycle, first: bool, second: bool)
    requires
        state.start_spec(first).state == NodeLifecycle::Running,
    ensures
        state.start_spec(first).state.start_spec(second) == (StartOutcome {
            state: NodeLifecycle::Running,
            code: START_OK,
            launch: false,
        }),
{
}

} // verus!
