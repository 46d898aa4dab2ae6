//! The status and runtime of a workflow run.
use vstd::prelude::*;

use crate::text;

verus! {

/// The lifecycle of a workflow run.
#[derive(Debug, Clone, Copy, PartialEq, Eq, Structural)]
pub enum RunStatus {
    Pending,
    Running,
    Completed,
    Failed,
    Cancelled,
}

/// Where a workflow run executes.
#[derive(Debug, Clone, Copy, PartialEq, Eq, Structural)]
pub enum WorkflowEnv {
    Host,
    Container,
}

impl RunStatus {
    /// Completed, failed and cancelled runs are finished.
    pub open spec fn spec_is_terminal(self) -> bool {
        self is Completed || self is Failed || self is Cancelled
    }

    /// The status's name as the manager lists it.
    pub open spec fn spec_label(self) -> Seq<char> {
        match self {
            RunStatus::Pending => "Pending"@,
            RunStatus::Running => "Running"@,
            RunStatus::Completed => "Completed"@,
            RunStatus::Failed => "Failed"@,
            RunStatus::Cancelled => "Cancelled"@,
        }
    }

    /// Whether the run is finished.
    pub fn is_terminal(self) -> (r: bool)
        ensures
            r == self.spec_is_terminal(),
    {
        match self {
            RunStatus::Completed | RunStatus::Failed | RunStatus::Cancelled => true,
            _ => false,
        }
    }

    /// The status's name (`Pending`, `Running`, ...).
    pub fn label(self) -> (r: String)
        ensures
            r@ == self.spec_label(),
    {
        match self {
            RunStatus::Pending => text::owned("Pending"),
            RunStatus::Running => text::owned("Running"),
            RunStatus::Completed => text::owned("Completed"),
            RunStatus::Failed => text::owned("Failed"),
            RunStatus::Cancelled => text::owned("Cancelled"),
        }
    }
}

impl WorkflowEnv {
    /// The runtime's name as the manager lists it.
    pub open spec fn spec_label(self) -> Seq<char> {
        match self {
            WorkflowEnv::Host => "Host"@,
            WorkflowEnv::Container => "Container"@,
        }
    }

    /// The runtime's name (`Host`, `Container`).
    pub fn label(self) -> (r: String)
        ensures
            r@ == self.spec_label(),
    {
        match self {
            WorkflowEnv::Host => text::owned("Host"),
            WorkflowEnv::Container => text::owned("Container"),
        }
    }
}

} // verus!
