//! The runner IPC loop: what each line from the runner means for the run
//! store and for the loop, and how Ctrl+C is relayed to the runner.
use vstd::prelude::*;

use crate::db::entities::workflow_run::RunStatus;
use crate::domain::ipc::Message;
use crate::domain::runner::protocol::{self, LoopControl};
use crate::domain::runner::WorkflowArgs;
use crate::json::JsonValue;
use crate::text;

verus! {

/// A store operation that the loop performs for the run.
#[derive(Debug)]
pub enum StoreAction {
    /// Record an event of the run.
    AppendEvent { run_id: i64, event_type: String, data: JsonValue },
    /// Link the run with an OpenCode session.
    CreateSession { run_id: i64, session_id: String },
    /// Change the run's status.
    SetStatus { run_id: i64, status: RunStatus },
}

/// A line read from the runner: blank, not a message (with the parser's
/// error), or a message.
#[derive(Debug)]
pub enum ParsedLine {
    Blank,
    Invalid(String),
    Parsed(Message),
}

/// What handling one line amounts to: whether to keep reading, the status
/// the run reached (if the line reported one) and the store operations to
/// perform, in order.
#[derive(Debug)]
pub struct LineOutcome {
    pub control: LoopControl,
    pub status: Option<RunStatus>,
    pub actions: Vec<StoreAction>,
}

/// `a` records an event of `run_id` with this type and data.
pub open spec fn appends(a: StoreAction, run_id: i64, event_type: Seq<char>, data: JsonValue) -> bool {
    match a {
        StoreAction::AppendEvent { run_id: r, event_type: e, data: d } => r == run_id && e@
            == event_type && d == data,
        _ => false,
    }
}

/// `a` records the parse error `error` for `run_id`: an `ipc_parse_error`
/// event whose data is `{"error": error}`.
pub open spec fn appends_parse_error(a: StoreAction, run_id: i64, error: Seq<char>) -> bool {
    match a {
        StoreAction::AppendEvent { run_id: r, event_type: e, data: d } => {
            &&& r == run_id
            &&& e@ == "ipc_parse_error"@
            &&& d.str_field("error"@) == Some(error)
            &&& d matches JsonValue::Object(f) && f@.len() == 1
        },
        _ => false,
    }
}

/// `a` links `run_id` with session `session_id`.
pub open spec fn creates_session(a: StoreAction, run_id: i64, session_id: Seq<char>) -> bool {
    match a {
        StoreAction::CreateSession { run_id: r, session_id: s } => r == run_id && s@ == session_id,
        _ => false,
    }
}

/// `a` sets the status of `run_id`.
pub open spec fn sets_status(a: StoreAction, run_id: i64, status: RunStatus) -> bool {
    match a {
        StoreAction::SetStatus { run_id: r, status: s } => r == run_id && s == status,
        _ => false,
    }
}

/// The status a `run_finished` event reports: `Cancelled` when its payload
/// says `"status": "CANCELLED"`, otherwise `Completed`.
pub open spec fn finished_status_of(m: Message) -> RunStatus {
    if m.payload.str_field("status"@) == Some("CANCELLED"@) {
        RunStatus::Cancelled
    } else {
        RunStatus::Completed
    }
}

/// The OpenCode session an `agent_session_started` event announces.
pub open spec fn session_of(m: Message) -> Option<Seq<char>> {
    if m.name@ == "agent_session_started"@ {
        m.payload.str_field("session_id"@)
    } else {
        None
    }
}

/// What an event does to the run: `run_started` makes it running;
/// `run_finished` and `run_failed` finish it and stop the loop.
pub open spec fn status_effect(m: Message) -> Option<(LoopControl, RunStatus)> {
    if m.name@ == "run_started"@ {
        Some((LoopControl::Continue, RunStatus::Running))
    } else if m.name@ == "run_finished"@ {
        Some((LoopControl::Stop, finished_status_of(m)))
    } else if m.name@ == "run_failed"@ {
        Some((LoopControl::Stop, RunStatus::Failed))
    } else {
        None
    }
}

/// The outcome of a message from the runner: an event is recorded, its
/// session (if it announces one) linked, and its status effect (if any)
/// stored and reported; any other kind of message is ignored.
pub open spec fn message_outcome(r: LineOutcome, run_id: i64, m: Message) -> bool {
    if m.kind@ == "event"@ {
        let k: int = if session_of(m) is Some {
            2
        } else {
            1
        };
        &&& appends(r.actions@[0], run_id, m.name@, m.payload)
        &&& (session_of(m) matches Some(sid) ==> creates_session(r.actions@[1], run_id, sid))
        &&& match status_effect(m) {
            Some((c, st)) => r.actions@.len() == k + 1 && sets_status(r.actions@[k], run_id, st)
                && r.control == c && r.status == Some(st),
            None => r.actions@.len() == k && r.control == LoopControl::Continue && r.status is None,
        }
    } else {
        r.control == LoopControl::Continue && r.status is None && r.actions@.len() == 0
    }
}

/// The text of a runner line once trimmed, or nothing for a blank line.
pub fn runner_line_text(line: &str) -> (r: Option<String>)
    ensures
        match r {
            Some(t) => t@ == text::trim(line@) && t@.len() > 0,
            None => text::trim(line@).len() == 0,
        },
{
    let t = text::trim_str(line);
    if t.unicode_len() == 0 {
        None
    } else {
        Some(t)
    }
}

/// The session id of an `agent_session_started` event.
pub fn session_id_from_event(message: &Message) -> (r: Option<&str>)
    ensures
        match r {
            Some(s) => session_of(*message) == Some(s@),
            None => session_of(*message) is None,
        },
{
    if !text::str_eq(message.name.as_str(), "agent_session_started") {
        return None;
    }
    message.payload.get_str("session_id")
}

/// The status a `run_finished` event reports.
pub fn run_finished_status(message: &Message) -> (r: RunStatus)
    ensures
        r == finished_status_of(*message),
{
    match message.payload.get_str("status") {
        Some(s) => if text::str_eq(s, "CANCELLED") {
            RunStatus::Cancelled
        } else {
            RunStatus::Completed
        },
        None => RunStatus::Completed,
    }
}

/// The status effect of an event.
pub fn update_run_status_for_event(message: &Message) -> (r: Option<(LoopControl, RunStatus)>)
    ensures
        r == status_effect(*message),
{
    if text::str_eq(message.name.as_str(), "run_started") {
        Some((LoopControl::Continue, RunStatus::Running))
    } else if text::str_eq(message.name.as_str(), "run_finished") {
        Some((LoopControl::Stop, run_finished_status(message)))
    } else if text::str_eq(message.name.as_str(), "run_failed") {
        Some((LoopControl::Stop, RunStatus::Failed))
    } else {
        None
    }
}

/// The session link an event asks for.
pub fn persist_session_from_event(run_id: i64, message: &Message) -> (r: Option<StoreAction>)
    ensures
        match session_of(*message) {
            Some(sid) => r matches Some(a) && creates_session(a, run_id, sid),
            None => r is None,
        },
{
    match session_id_from_event(message) {
        Some(sid) => Some(StoreAction::CreateSession { run_id, session_id: text::owned(sid) }),
        None => None,
    }
}

/// Handles one line from the runner of `run_id`: a blank line is skipped, a
/// line that is not a message is recorded as an `ipc_parse_error` event, and
/// a message has the outcome `message_outcome` describes.
pub fn handle_runner_line(run_id: i64, parsed: ParsedLine) -> (r: LineOutcome)
    ensures
        match parsed {
            ParsedLine::Blank => r.control == LoopControl::Continue && r.status is None
                && r.actions@.len() == 0,
            ParsedLine::Invalid(error) => r.control == LoopControl::Continue && r.status is None
                && r.actions@.len() == 1 && appends_parse_error(r.actions@[0], run_id, error@),
            ParsedLine::Parsed(m) => message_outcome(r, run_id, m),
        },
{
    match parsed {
        ParsedLine::Blank => LineOutcome {
            control: LoopControl::Continue,
            status: None,
            actions: Vec::new(),
        },
        ParsedLine::Invalid(error) => {
            let data = protocol::single_field("error", JsonValue::Str(error));
            let mut actions: Vec<StoreAction> = Vec::new();
            actions.push(
                StoreAction::AppendEvent {
                    run_id,
                    event_type: text::owned("ipc_parse_error"),
                    data,
                },
            );
            LineOutcome { control: LoopControl::Continue, status: None, actions }
        },
        ParsedLine::Parsed(m) => {
            if !text::str_eq(m.kind.as_str(), "event") {
                return LineOutcome {
                    control: LoopControl::Continue,
                    status: None,
                    actions: Vec::new(),
                };
            }
            let session = persist_session_from_event(run_id, &m);
            let effect = update_run_status_for_event(&m);
            let ghost m0 = m;
            let Message { v: _, id: _, kind: _, name, payload } = m;
            let mut actions: Vec<StoreAction> = Vec::new();
            actions.push(StoreAction::AppendEvent { run_id, event_type: name, data: payload });
            match session {
                Some(a) => actions.push(a),
                None => {},
            }
            match effect {
                Some((control, status)) => {
                    actions.push(StoreAction::SetStatus { run_id, status });
                    LineOutcome { control, status: Some(status), actions }
                },
                None => LineOutcome { control: LoopControl::Continue, status: None, actions },
            }
        },
    }
}

/// The command that starts the run: `{"run_id", "workflow_path",
/// "runtime_env", "yolo", "workflow_input": {}}`.
pub fn start_run_message(args: &WorkflowArgs<'_>, run_id: i64) -> (m: Message)
    ensures
        m.kind@ == "command"@,
        m.id@ == "cmd_start"@,
        m.name@ == "start_run"@,
        m.payload.field("run_id"@) matches Some(JsonValue::Number(n)) && n@ == text::int_decimal(
            run_id as int,
        ),
        m.payload.str_field("workflow_path"@) == Some(args.workflow_path@),
        m.payload.str_field("runtime_env"@) == Some(args.env.spec_as_str()),
        m.payload.field("yolo"@) == Some(JsonValue::Bool(args.yolo)),
        m.payload.field("workflow_input"@) matches Some(JsonValue::Object(f)) && f@.len() == 0,
{
    let mut fields: Vec<(String, JsonValue)> = Vec::new();
    fields.push((text::owned("run_id"), JsonValue::Number(text::fmt_i64(run_id))));
    fields.push((text::owned("workflow_path"), JsonValue::string(args.workflow_path)));
    fields.push((text::owned("runtime_env"), JsonValue::string(args.env.as_str())));
    fields.push((text::owned("yolo"), JsonValue::Bool(args.yolo)));
    fields.push((text::owned("workflow_input"), JsonValue::Object(Vec::new())));
    proof {
        reveal_strlit("run_id");
        reveal_strlit("workflow_path");
        reveal_strlit("runtime_env");
        reveal_strlit("yolo");
        reveal_strlit("workflow_input");
        let f = fields@;
        assert(f[0].0@[0] != f[1].0@[0]);
        assert(f[0].0@.len() != f[2].0@.len());
        assert(f[0].0@.len() != f[3].0@.len());
        assert(f[0].0@.len() != f[4].0@.len());
        assert(f[1].0@.len() != f[2].0@.len());
        assert(f[1].0@.len() != f[3].0@.len());
        assert(f[1].0@[9] != f[4].0@[9]);
        assert(f[2].0@.len() != f[3].0@.len());
        assert(f[2].0@.len() != f[4].0@.len());
        assert(f[3].0@.len() != f[4].0@.len());
        crate::json::lemma_lookup_at(f, "run_id"@, 0);
        crate::json::lemma_lookup_at(f, "workflow_path"@, 1);
        crate::json::lemma_lookup_at(f, "runtime_env"@, 2);
        crate::json::lemma_lookup_at(f, "yolo"@, 3);
        crate::json::lemma_lookup_at(f, "workflow_input"@, 4);
    }
    Message::command("cmd_start", "start_run", JsonValue::Object(fields))
}

// ---------------------------------------------------------------------------
// The loop
// ---------------------------------------------------------------------------

/// What the loop does before reading the next line.
#[derive(Debug, Clone, Copy, PartialEq, Eq, Structural)]
pub enum SignalStep {
    /// A hard kill was requested: store `Cancelled` and stop.
    ForceKill,
    /// Relay the user's cancel to the runner, then read.
    SendCancel,
    /// Read the next line.
    Proceed,
}

/// The loop's memory: whether the cancel command went out, and the status
/// the run ends with if the runner stops talking.
#[derive(Debug, Clone, Copy, PartialEq, Eq, Structural)]
pub struct DriveState {
    pub cancel_sent: bool,
    pub final_status: RunStatus,
}

impl DriveState {
    /// The step taken and the state after observing the cancel flags.
    pub open spec fn after_signals(self, cancelled: bool, force_kill: bool) -> (DriveState, SignalStep) {
        if force_kill {
            (DriveState { cancel_sent: self.cancel_sent, final_status: RunStatus::Cancelled }, SignalStep::ForceKill)
        } else if cancelled && !self.cancel_sent {
            (DriveState { cancel_sent: true, final_status: self.final_status }, SignalStep::SendCancel)
        } else {
            (self, SignalStep::Proceed)
        }
    }

    /// The state after a line that reported `status` (if any).
    pub open spec fn after_line(self, status: Option<RunStatus>) -> DriveState {
        match status {
            Some(s) => DriveState { cancel_sent: self.cancel_sent, final_status: s },
            None => self,
        }
    }

    /// Nothing sent yet; a run whose runner goes quiet counts as completed.
    pub fn new() -> (r: DriveState)
        ensures
            !r.cancel_sent,
            r.final_status == RunStatus::Completed,
    {
        DriveState { cancel_sent: false, final_status: RunStatus::Completed }
    }

    /// Looks at the cancel flags before a read.
    pub fn observe_signals(&mut self, cancelled: bool, force_kill: bool) -> (r: SignalStep)
        ensures
            (*final(self), r) == old(self).after_signals(cancelled, force_kill),
    {
        if force_kill {
            self.final_status = RunStatus::Cancelled;
            SignalStep::ForceKill
        } else if cancelled && !self.cancel_sent {
            self.cancel_sent = true;
            SignalStep::SendCancel
        } else {
            SignalStep::Proceed
        }
    }

    /// Takes in the outcome of a line; returns whether to keep reading.
    pub fn record_line(&mut self, outcome: &LineOutcome) -> (keep_reading: bool)
        ensures
            *final(self) == old(self).after_line(outcome.status),
            outcome.status matches Some(st) ==> final(self).final_status == st,
            outcome.status is None ==> *final(self) == *old(self),
            final(self).cancel_sent == old(self).cancel_sent,
            keep_reading == (outcome.control == LoopControl::Continue),
    {
        match outcome.status {
            Some(s) => {
                self.final_status = s;
            },
            None => {},
        }
        match outcome.control {
            LoopControl::Continue => true,
            LoopControl::Stop => false,
        }
    }
}

/// How many cancel commands the loop sends over a sequence of flag
/// observations `(cancelled, force_kill)` that all lead to a read.
pub open spec fn cancels_sent(s: DriveState, obs: Seq<(bool, bool)>) -> nat
    decreases obs.len(),
{
    if obs.len() == 0 {
        0
    } else {
        let (next, step) = s.after_signals(obs[0].0, obs[0].1);
        let rest = cancels_sent(next, obs.drop_first());
        if step == SignalStep::SendCancel {
            rest + 1
        } else {
            rest
        }
    }
}

/// The user's cancel reaches the runner at most once per run, however often
/// the flags are observed: none when it was already sent, at most one
/// otherwise. Lines read in between do not affect it.
pub proof fn law_cancel_sent_at_most_once(s: DriveState, obs: Seq<(bool, bool)>)
    ensures
        cancels_sent(s, obs) <= (if s.cancel_sent {
            0nat
        } else {
            1nat
        }),
        forall|st: Option<RunStatus>| #[trigger] s.after_line(st).cancel_sent == s.cancel_sent,
    decreases obs.len(),
{
    if obs.len() > 0 {
        let (next, step) = s.after_signals(obs[0].0, obs[0].1);
        law_cancel_sent_at_most_once(next, obs.drop_first());
    }
}

/// The loop stops exactly on the events that finish a run, and the status
/// it then stores is a finished one; `run_started` is the only event that
/// keeps the loop going while setting a status, and it sets `Running`.
pub proof fn law_stop_means_finished(m: Message)
    ensures
        match status_effect(m) {
            Some((LoopControl::Stop, st)) => st.spec_is_terminal() && (m.name@ == "run_finished"@
                || m.name@ == "run_failed"@),
            Some((LoopControl::Continue, st)) => st == RunStatus::Running && m.name@
                == "run_started"@,
            None => m.name@ != "run_started"@ && m.name@ != "run_finished"@ && m.name@
                != "run_failed"@,
        },
{
}

/// A hard kill always ends the run as cancelled, whatever it had reported.
pub proof fn law_force_kill_cancels(s: DriveState, cancelled: bool)
    ensures
        s.after_signals(cancelled, true).1 == SignalStep::ForceKill,
        s.after_signals(cancelled, true).0.final_status == RunStatus::Cancelled,
{
}

/// The status a line reports is the status the run ends with, unless a later
/// line reports another: after a reporting line the loop's final status is
/// exactly the reported one, a line that reports nothing changes nothing,
/// and neither touches whether the cancel went out.
pub proof fn law_reported_status_is_final(s: DriveState, st: RunStatus)
    ensures
        s.after_line(Some(st)).final_status == st,
        s.after_line(Some(st)).cancel_sent == s.cancel_sent,
        s.after_line(None) == s,
{
}

/// A `run_failed` event stops the loop and the run ends as failed, whatever
/// it had reported before; a `run_finished` event ends it as completed or,
/// when its payload says `CANCELLED`, as cancelled.
pub proof fn law_failed_event_ends_failed(s: DriveState, r: LineOutcome, run_id: i64, m: Message)
    requires
        m.kind@ == "event"@,
        message_outcome(r, run_id, m),
    ensures
        m.name@ == "run_failed"@ ==> r.control == LoopControl::Stop && s.after_line(r.status).final_status
            == RunStatus::Failed,
        m.name@ == "run_finished"@ ==> r.control == LoopControl::Stop && (s.after_line(
            r.status,
        ).final_status == RunStatus::Completed || s.after_line(r.status).final_status
            == RunStatus::Cancelled),
        m.name@ == "run_finished"@ && m.payload.str_field("status"@) == Some("CANCELLED"@) ==> s.after_line(
            r.status,
        ).final_status == RunStatus::Cancelled,
        m.name@ == "run_finished"@ && m.payload.str_field("status"@) != Some("CANCELLED"@) ==> s.after_line(
            r.status,
        ).final_status == RunStatus::Completed,
{
    reveal_strlit("run_failed");
    reveal_strlit("run_started");
    reveal_strlit("run_finished");
    assert("run_failed"@[4] != "run_started"@[4]);
    assert("run_failed"@[5] != "run_finished"@[5]);
    assert("run_finished"@[4] != "run_started"@[4]);
    if m.name@ == "run_failed"@ {
        assert(status_effect(m) == Some((LoopControl::Stop, RunStatus::Failed)));
    }
    if m.name@ == "run_finished"@ {
        assert(status_effect(m) == Some((LoopControl::Stop, finished_status_of(m))));
    }
}

} // verus!
