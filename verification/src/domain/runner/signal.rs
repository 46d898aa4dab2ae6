//! Ctrl+C handling and the interpretation of the runner's exit.
use vstd::prelude::*;

use crate::text;

verus! {

/// Seconds the runner gets to exit after shutdown before it is killed.
pub const SHUTDOWN_GRACE_PERIOD_SECS: u64 = 5;

/// Cancellation requested by the user: the first Ctrl+C asks the runner to
/// cancel gracefully, the second asks for a hard kill.
#[derive(Debug, Clone, Copy, PartialEq, Eq, Structural)]
pub struct CancelState {
    pub cancelled: bool,
    pub force_kill: bool,
}

impl CancelState {
    /// A hard kill is only ever requested after a graceful cancel.
    pub open spec fn wf(self) -> bool {
        self.force_kill ==> self.cancelled
    }

    /// The state after one more Ctrl+C.
    pub open spec fn interrupted(self) -> CancelState {
        if self.cancelled {
            CancelState { cancelled: true, force_kill: true }
        } else {
            CancelState { cancelled: true, force_kill: self.force_kill }
        }
    }

    /// No cancellation requested yet.
    pub fn new() -> (r: CancelState)
        ensures
            !r.cancelled,
            !r.force_kill,
    {
        CancelState { cancelled: false, force_kill: false }
    }

    /// Records one Ctrl+C: the first sets `cancelled`, a later one sets
    /// `force_kill`. Returns whether the handler stops listening (after the
    /// second).
    pub fn on_interrupt(&mut self) -> (stop: bool)
        ensures
            stop == old(self).cancelled,
            *final(self) == old(self).interrupted(),
    {
        if self.cancelled {
            self.force_kill = true;
            true
        } else {
            self.cancelled = true;
            false
        }
    }
}

/// The exit code of the runner, `-1` when it was killed by a signal.
pub open spec fn exit_code_of(code: Option<i32>) -> int {
    match code {
        Some(c) => c as int,
        None => -1,
    }
}

/// What the runner's exit means: success on code 0 and on 130 (an
/// interrupted, cancelled run); otherwise an error that reports the code.
pub fn child_exit_result(code: Option<i32>) -> (r: Result<(), String>)
    ensures
        match r {
            Ok(()) => exit_code_of(code) == 0 || exit_code_of(code) == 130,
            Err(msg) => exit_code_of(code) != 0 && exit_code_of(code) != 130 && msg@
                == "Node runner exited with status "@ + text::int_decimal(exit_code_of(code)),
        },
{
    let c: i32 = match code {
        Some(c) => c,
        None => -1,
    };
    if c != 0 && c != 130 {
        Err(text::concat("Node runner exited with status ", text::fmt_i64(c as i64).as_str()))
    } else {
        Ok(())
    }
}

/// Whether waiting for the runner ends by killing it: when a hard kill was
/// requested or the grace period is over.
pub fn should_kill(state: CancelState, grace_period_over: bool) -> (r: bool)
    ensures
        r == (state.force_kill || grace_period_over),
{
    state.force_kill || grace_period_over
}

/// Ctrl+C handling keeps a hard kill behind a graceful cancel: from a
/// well-formed state, one interrupt always leaves the run cancelled and the
/// state well formed, and a second interrupt always requests the hard kill.
pub proof fn law_second_interrupt_forces_kill(s: CancelState)
    requires
        s.wf(),
    ensures
        s.interrupted().wf(),
        s.interrupted().cancelled,
        s.interrupted().interrupted().force_kill,
        !s.cancelled ==> s.interrupted().force_kill == s.force_kill,
{
}

} // verus!
