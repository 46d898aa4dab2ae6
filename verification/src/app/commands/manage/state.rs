//! The run manager's state: the listed runs, the selection, the selected
//! run's events and the status line. Times are seconds since the Unix
//! epoch.
use vstd::prelude::*;

use crate::text;

verus! {

/// One run as the manager lists it.
#[derive(Debug)]
pub struct RunRow {
    pub run_id: i64,
    pub workflow_name: String,
    pub status: String,
    pub env: String,
    pub pid: Option<i64>,
    pub created_at: i64,
    pub updated_at: i64,
    pub completed_at: Option<i64>,
    pub session_ids: Vec<String>,
    pub tmux_windows: Vec<String>,
}

/// One event of the selected run.
#[derive(Debug)]
pub struct EventRow {
    pub created_at: i64,
    pub event_type: String,
    pub summary: String,
}

/// The manager's state.
#[derive(Debug)]
pub struct State {
    pub runs: Vec<RunRow>,
    pub selected_index: usize,
    pub events: Vec<EventRow>,
    pub status_line: String,
    pub status_is_error: bool,
}

impl State {
    /// The selection points at a listed run, or at 0 when none is listed.
    pub open spec fn wf(&self) -> bool {
        if self.runs@.len() == 0 {
            self.selected_index == 0
        } else {
            self.selected_index < self.runs@.len()
        }
    }

    /// An empty manager: no runs, first position selected, no status.
    pub fn default() -> (r: State)
        ensures
            r.runs@.len() == 0,
            r.selected_index == 0,
            r.events@.len() == 0,
            r.status_line@.len() == 0,
            !r.status_is_error,
            r.wf(),
    {
        State {
            runs: Vec::new(),
            selected_index: 0,
            events: Vec::new(),
            status_line: String::new(),
            status_is_error: false,
        }
    }

    /// Replaces the listed runs, keeping the selection where it was but
    /// within the new list.
    pub fn set_runs(&mut self, runs: Vec<RunRow>)
        ensures
            final(self).runs@ == runs@,
            final(self).selected_index == (if runs@.len() == 0 {
                0
            } else if old(self).selected_index < runs@.len() {
                old(self).selected_index as int
            } else {
                runs@.len() - 1
            }),
            final(self).events@ == old(self).events@,
            final(self).status_line@ == old(self).status_line@,
            final(self).status_is_error == old(self).status_is_error,
            final(self).wf(),
    {
        self.runs = runs;
        if self.runs.len() == 0 {
            self.selected_index = 0;
            return;
        }
        if self.selected_index > self.runs.len() - 1 {
            self.selected_index = self.runs.len() - 1;
        }
    }

    /// Selects the previous run, if any.
    pub fn move_up(&mut self)
        ensures
            final(self).selected_index == (if old(self).selected_index > 0 {
                old(self).selected_index - 1
            } else {
                0
            }),
            final(self).runs@ == old(self).runs@,
            final(self).events@ == old(self).events@,
            final(self).status_line@ == old(self).status_line@,
            final(self).status_is_error == old(self).status_is_error,
            old(self).wf() ==> final(self).wf(),
    {
        if self.selected_index > 0 {
            self.selected_index = self.selected_index - 1;
        }
    }

    /// Selects the next run, if any.
    pub fn move_down(&mut self)
        ensures
            final(self).selected_index == (if old(self).selected_index + 1 < old(self).runs@.len() {
                old(self).selected_index + 1
            } else {
                old(self).selected_index as int
            }),
            final(self).runs@ == old(self).runs@,
            final(self).events@ == old(self).events@,
            final(self).status_line@ == old(self).status_line@,
            final(self).status_is_error == old(self).status_is_error,
            old(self).wf() ==> final(self).wf(),
    {
        if self.runs.len() > 0 && self.selected_index < self.runs.len() - 1 {
            self.selected_index = self.selected_index + 1;
        }
    }

    /// The selected run, if the selection points at one.
    pub fn selected_run(&self) -> (r: Option<&RunRow>)
        ensures
            match r {
                Some(run) => self.selected_index < self.runs@.len() && *run
                    == self.runs@[self.selected_index as int],
                None => self.selected_index >= self.runs@.len(),
            },
    {
        if self.selected_index < self.runs.len() {
            Some(&self.runs[self.selected_index])
        } else {
            None
        }
    }

    /// Sets the status line and whether it reports an error.
    pub fn set_status(&mut self, message: &str, is_error: bool)
        ensures
            final(self).status_line@ == message@,
            final(self).status_is_error == is_error,
            final(self).runs@ == old(self).runs@,
            final(self).selected_index == old(self).selected_index,
            final(self).events@ == old(self).events@,
    {
        self.status_line = text::owned(message);
        self.status_is_error = is_error;
    }
}

/// Moving the selection keeps it on a listed run, and stepping down then up
/// (or up then down) away from the ends returns to the same run.
pub proof fn law_selection_moves_are_inverse(index: usize, len: nat)
    requires
        0 < index + 1 < len,
    ensures
        ({
            let down = if index + 1 < len {
                index + 1
            } else {
                index as int
            };
            let back = if down > 0 {
                down - 1
            } else {
                0
            };
            back == index
        }),
        ({
            let up = if index > 0 {
                index - 1
            } else {
                0
            };
            index > 0 ==> (if up + 1 < len {
                up + 1
            } else {
                up
            }) == index
        }),
{
}

} // verus!
