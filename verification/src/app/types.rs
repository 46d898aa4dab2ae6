//! Value types of the command line.
use vstd::prelude::*;

verus! {

/// Runtime target of a workflow run.
#[derive(Debug, Clone, Copy, PartialEq, Eq, Structural)]
pub enum RuntimeEnv {
    Host,
    Container,
}

impl RuntimeEnv {
    /// The target's name as the command line and the runner spell it.
    pub open spec fn spec_as_str(self) -> Seq<char> {
        match self {
            RuntimeEnv::Host => "host"@,
            RuntimeEnv::Container => "container"@,
        }
    }

    /// `host` or `container`.
    pub fn as_str(self) -> (s: &'static str)
        ensures
            s@ == self.spec_as_str(),
    {
        match self {
            RuntimeEnv::Host => "host",
            RuntimeEnv::Container => "container",
        }
    }
}

/// `make` subcommands.
#[derive(Debug)]
pub enum MakeCommands {
    /// Create a new ticket.
    Ticket,
    /// Create a git worktree (and its ticket) for a branch.
    Worktree { branch: String },
}

/// `containment` subcommands.
#[derive(Debug, Clone, Copy, PartialEq, Eq, Structural)]
pub enum ContainmentCommands {
    /// Start the containment container.
    Up,
    /// Stop the containment container.
    Down,
}

} // verus!
