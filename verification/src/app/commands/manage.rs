//! `manage`: what each key does, when the list is refreshed, which tmux
//! window a run is attached through, and cancelling the selected run.
pub mod panel;
pub mod query;
pub mod state;

use vstd::prelude::*;

use crate::app::commands::manage::state::{RunRow, State};
use crate::db::entities::workflow_run::RunStatus;
use crate::text;

verus! {

/// A run to interrupt: its id and the worker's process id.
#[derive(Debug, Clone, Copy, PartialEq, Eq, Structural)]
pub struct CancelTarget {
    pub run_id: i64,
    pub pid: i64,
}

/// Runs in these states are finished.
pub open spec fn is_finished_label(status: Seq<char>) -> bool {
    status == "Completed"@ || status == "Failed"@ || status == "Cancelled"@
}

/// The window to attach for a run: its first OpenCode window, else its
/// first window.
pub open spec fn preferred_window_of(windows: Seq<Seq<char>>) -> Option<Seq<char>> {
    if exists|i: int| 0 <= i < windows.len() && text::starts_with(windows[i], "opencode__"@) {
        let i = choose|i: int|
            0 <= i < windows.len() && text::starts_with(windows[i], "opencode__"@) && forall|j: int|
                0 <= j < i ==> !text::starts_with(#[trigger] windows[j], "opencode__"@);
        Some(windows[i])
    } else if windows.len() > 0 {
        Some(windows[0])
    } else {
        None
    }
}

/// The window to attach for a run.
pub fn preferred_window(run: &RunRow) -> (r: Option<&str>)
    ensures
        match preferred_window_of(run.tmux_windows@.map_values(|w: String| w@)) {
            Some(w) => r matches Some(s) && s@ == w,
            None => r is None,
        },
{
    let ghost ws = run.tmux_windows@.map_values(|w: String| w@);
    let mut i: usize = 0;
    while i < run.tmux_windows.len()
        invariant
            i <= run.tmux_windows.len(),
            ws == run.tmux_windows@.map_values(|w: String| w@),
            forall|j: int| 0 <= j < i ==> !text::starts_with(#[trigger] ws[j], "opencode__"@),
        decreases run.tmux_windows.len() - i,
    {
        if text::starts_with_str(run.tmux_windows[i].as_str(), "opencode__") {
            proof {
                assert(ws[i as int] == run.tmux_windows@[i as int]@);
                let c = choose|c: int|
                    0 <= c < ws.len() && text::starts_with(ws[c], "opencode__"@) && forall|j: int|
                        0 <= j < c ==> !text::starts_with(#[trigger] ws[j], "opencode__"@);
                if c < i {
                    assert(!text::starts_with(ws[c], "opencode__"@));
                }
                if c > i {
                    assert(!text::starts_with(ws[i as int], "opencode__"@));
                }
            }
            return Some(run.tmux_windows[i].as_str());
        }
        proof {
            assert(ws[i as int] == run.tmux_windows@[i as int]@);
        }
        i = i + 1;
    }
    if run.tmux_windows.len() > 0 {
        proof {
            assert(ws[0] == run.tmux_windows@[0]@);
        }
        Some(run.tmux_windows[0].as_str())
    } else {
        None
    }
}

/// The window to attach for the selected run; when the run has none, the
/// status line says so (as an error).
pub fn selected_window_name(state: &mut State) -> (r: Option<String>)
    ensures
        final(state).runs@ == old(state).runs@,
        final(state).selected_index == old(state).selected_index,
        final(state).events@ == old(state).events@,
        old(state).selected_index >= old(state).runs@.len() ==> r is None && final(state).status_line@
            == old(state).status_line@ && final(state).status_is_error == old(state).status_is_error,
        old(state).selected_index < old(state).runs@.len() ==> {
            let run = old(state).runs@[old(state).selected_index as int];
            match preferred_window_of(run.tmux_windows@.map_values(|w: String| w@)) {
                Some(w) => r matches Some(s) && s@ == w && final(state).status_line@
                    == old(state).status_line@ && final(state).status_is_error
                    == old(state).status_is_error,
                None => r is None && final(state).status_line@
                    == "No tmux window available for selected run"@ && final(state).status_is_error,
            }
        },
{
    let found = match state.selected_run() {
        None => return None,
        Some(run) => match preferred_window(run) {
            Some(w) => Some(text::owned(w)),
            None => None,
        },
    };
    match found {
        Some(w) => Some(w),
        None => {
            state.set_status("No tmux window available for selected run", true);
            None
        },
    }
}

/// Cancelling the selected run: nothing when none is selected; a finished
/// run or one without a worker process is refused on the status line;
/// otherwise the run and process to interrupt (the caller then reports
/// `cancel_sent_status`).
pub fn cancel_selected(state: &mut State) -> (r: Option<CancelTarget>)
    ensures
        final(state).runs@ == old(state).runs@,
        final(state).selected_index == old(state).selected_index,
        old(state).selected_index >= old(state).runs@.len() ==> r is None && final(state).status_line@
            == old(state).status_line@ && final(state).status_is_error == old(state).status_is_error,
        old(state).selected_index < old(state).runs@.len() ==> {
            let run = old(state).runs@[old(state).selected_index as int];
            if is_finished_label(run.status@) {
                r is None && final(state).status_line@ == "Selected run is already finished"@
                    && final(state).status_is_error
            } else {
                match run.pid {
                    None => r is None && final(state).status_line@
                        == "Selected run has no worker PID"@ && final(state).status_is_error,
                    Some(pid) => r == Some(CancelTarget { run_id: run.run_id, pid })
                        && final(state).status_line@ == old(state).status_line@
                        && final(state).status_is_error == old(state).status_is_error,
                }
            }
        },
{
    let (run_id, pid, finished) = match state.selected_run() {
        None => return None,
        Some(run) => {
            let s = run.status.as_str();
            let finished = text::str_eq(s, "Completed") || text::str_eq(s, "Failed")
                || text::str_eq(s, "Cancelled");
            (run.run_id, run.pid, finished)
        },
    };
    if finished {
        state.set_status("Selected run is already finished", true);
        return None;
    }
    match pid {
        None => {
            state.set_status("Selected run has no worker PID", true);
            None
        },
        Some(p) => Some(CancelTarget { run_id, pid: p }),
    }
}

/// The status line after the interrupt went out.
pub fn cancel_sent_status(target: CancelTarget) -> (r: String)
    ensures
        r@ == "Sent cancel signal to run "@ + text::int_decimal(target.run_id as int) + " (pid "@
            + text::int_decimal(target.pid as int) + ")"@,
{
    let mut r = text::concat("Sent cancel signal to run ", text::fmt_i64(target.run_id).as_str());
    r.append(" (pid ");
    r.append(text::fmt_i64(target.pid).as_str());
    r.append(")");
    r
}

/// The status line after a refresh.
pub fn refresh_status(run_count: usize) -> (r: String)
    ensures
        run_count == 0 ==> r@ == "No clankerflow runs found yet"@,
        run_count > 0 ==> r@ == "Loaded "@ + text::nat_digits(run_count as nat) + " runs"@,
{
    if run_count == 0 {
        text::owned("No clankerflow runs found yet")
    } else {
        let mut r = text::owned("Loaded ");
        r.append(text::fmt_u64(run_count as u64).as_str());
        r.append(" runs");
        r
    }
}

/// A key press the manager reads.
#[derive(Debug, Clone, Copy, PartialEq, Eq, Structural)]
pub enum Key {
    Char(char),
    Up,
    Down,
    Enter,
    Esc,
    /// Any other key.
    Other,
}

/// What a key press asks for.
#[derive(Debug, Clone, Copy, PartialEq, Eq, Structural)]
pub enum KeyAction {
    /// Leave the manager.
    Quit,
    /// Select the run above.
    MoveUp,
    /// Select the run below.
    MoveDown,
    /// Reload the runs.
    Refresh,
    /// Interrupt the selected run.
    Cancel,
    /// Attach to the selected run's window.
    Attach,
    /// Nothing.
    Ignore,
}

/// The key map: `q`/Esc quit, Up/`k` and Down/`j` move, `r` refreshes, `c`
/// cancels, Enter/`a` attaches; other keys do nothing.
pub open spec fn key_action_of(key: Key) -> KeyAction {
    match key {
        Key::Esc => KeyAction::Quit,
        Key::Up => KeyAction::MoveUp,
        Key::Down => KeyAction::MoveDown,
        Key::Enter => KeyAction::Attach,
        Key::Other => KeyAction::Ignore,
        Key::Char(c) => if c == 'q' {
            KeyAction::Quit
        } else if c == 'k' {
            KeyAction::MoveUp
        } else if c == 'j' {
            KeyAction::MoveDown
        } else if c == 'r' {
            KeyAction::Refresh
        } else if c == 'c' {
            KeyAction::Cancel
        } else if c == 'a' {
            KeyAction::Attach
        } else {
            KeyAction::Ignore
        },
    }
}

/// What the key `key` asks the manager to do.
pub fn key_action(key: Key) -> (r: KeyAction)
    ensures
        r == key_action_of(key),
{
    match key {
        Key::Esc => KeyAction::Quit,
        Key::Up => KeyAction::MoveUp,
        Key::Down => KeyAction::MoveDown,
        Key::Enter => KeyAction::Attach,
        Key::Other => KeyAction::Ignore,
        Key::Char(c) => if c == 'q' {
            KeyAction::Quit
        } else if c == 'k' {
            KeyAction::MoveUp
        } else if c == 'j' {
            KeyAction::MoveDown
        } else if c == 'r' {
            KeyAction::Refresh
        } else if c == 'c' {
            KeyAction::Cancel
        } else if c == 'a' {
            KeyAction::Attach
        } else {
            KeyAction::Ignore
        },
    }
}

/// How long the manager waits for a key before looking at the clock, in
/// milliseconds.
pub const KEY_POLL_MS: u64 = 200;

/// How often the manager reloads the runs, in milliseconds.
pub const REFRESH_INTERVAL_MS: u64 = 2000;

/// Whether the runs are due for a reload, `elapsed_ms` after the last one.
pub fn refresh_due(elapsed_ms: u64) -> (r: bool)
    ensures
        r == (elapsed_ms >= REFRESH_INTERVAL_MS),
{
    elapsed_ms >= REFRESH_INTERVAL_MS
}

/// A run counts as finished exactly when its status is a terminal one
/// (`Completed`, `Failed` or `Cancelled`), so cancelling never targets a run
/// whose stored status is terminal, and always considers a pending or
/// running one.
pub proof fn law_terminal_runs_are_finished(status: RunStatus)
    ensures
        is_finished_label(status.spec_label()) == status.spec_is_terminal(),
        is_finished_label("Failed"@),
        is_finished_label("Completed"@),
        is_finished_label("Cancelled"@),
{
    reveal_strlit("Pending");
    reveal_strlit("Running");
    reveal_strlit("Completed");
    reveal_strlit("Failed");
    reveal_strlit("Cancelled");
    assert("Pending"@.len() == 7 && "Running"@.len() == 7);
    assert("Completed"@.len() == 9 && "Failed"@.len() == 6 && "Cancelled"@.len() == 9);
}

} // verus!
