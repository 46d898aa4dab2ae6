//! The text of the manager's panels: the runs, the selected run's details
//! and events, and the help line with the status.
use vstd::prelude::*;

use crate::app::commands::manage::state::{EventRow, RunRow, State};
use crate::domain::tmux::views;
use crate::text;

verus! {

/// The layout of the details panel's update time.
pub const DATE_TIME_FORMAT: &'static str = "%Y-%m-%d %H:%M:%S UTC";

/// The layout of the events panel's times.
pub const CLOCK_FORMAT: &'static str = "%H:%M:%S";

/// The time layouts the panels use.
pub open spec fn panel_format(format: Seq<char>) -> bool {
    format == DATE_TIME_FORMAT@ || format == CLOCK_FORMAT@
}

/// `chrono`'s rendering of the Unix time `seconds` in UTC with the layout
/// `format`; none when chrono cannot represent that time.
pub uninterp spec fn utc_format_text(seconds: i64, format: Seq<char>) -> Option<Seq<char>>;

/// `chrono::DateTime::<Utc>::from_timestamp(seconds, 0)`, rendered with
/// `format(format).to_string()`. The contract names the text; it claims only
/// that the same time and layout always give the same text, and that no text
/// comes back exactly when chrono has no such time. The layout is one of the
/// panels' own, which chrono renders without error (an invalid layout would
/// make `to_string` panic).
#[verifier::external_body]
fn format_utc(seconds: i64, format: &str) -> (r: Option<String>)
    requires
        panel_format(format@),
    ensures
        match r {
            Some(t) => utc_format_text(seconds, format@) == Some(t@),
            None => utc_format_text(seconds, format@) is None,
        },
{
    match chrono::DateTime::<chrono::Utc>::from_timestamp(seconds, 0) {
        Some(time) => Some(time.format(format).to_string()),
        None => None,
    }
}

/// A time as a panel shows it: chrono's UTC rendering with `format`, or the
/// raw seconds when they lie outside the times chrono represents.
pub open spec fn time_text_of(seconds: i64, format: Seq<char>) -> Seq<char> {
    match utc_format_text(seconds, format) {
        Some(t) => t,
        None => text::int_decimal(seconds as int),
    }
}

/// Renders a time as `time_text_of` says.
fn time_text(seconds: i64, format: &str) -> (r: String)
    requires
        panel_format(format@),
    ensures
        r@ == time_text_of(seconds, format@),
{
    match format_utc(seconds, format) {
        Some(t) => t,
        None => text::fmt_i64(seconds),
    }
}

/// A list of the panel: each item indented by two spaces, or the one line
/// `empty` when there is none.
pub open spec fn indented(items: Seq<Seq<char>>, empty: Seq<char>) -> Seq<Seq<char>> {
    if items.len() == 0 {
        seq![empty]
    } else {
        items.map_values(|s: Seq<char>| "  "@ + s)
    }
}

/// The run the manager has selected, if any.
pub open spec fn selected_of(state: State) -> Option<RunRow> {
    if state.selected_index < state.runs@.len() {
        Some(state.runs@[state.selected_index as int])
    } else {
        None
    }
}

/// The lines of the details panel for `run`.
pub open spec fn details_of(run: Option<RunRow>) -> Seq<Seq<char>> {
    match run {
        None => seq!["No run selected"@],
        Some(r) => seq![
            "Workflow: "@ + r.workflow_name@,
            "Run ID: "@ + text::int_decimal(r.run_id as int),
            "Status: "@ + r.status@,
            "Env: "@ + r.env@,
            "PID: "@ + match r.pid {
                Some(p) => text::int_decimal(p as int),
                None => "-"@,
            },
            "Updated: "@ + time_text_of(r.updated_at, DATE_TIME_FORMAT@),
            ""@,
            "OpenCode Sessions:"@,
        ] + indented(views(r.session_ids@), "  waiting for session"@) + seq![
            ""@,
            "Tmux Windows:"@,
        ] + indented(views(r.tmux_windows@), "  missing"@),
    }
}

/// Appends the list `items` as `indented` lays it out.
fn push_indented(out: &mut Vec<String>, items: &Vec<String>, empty: &str)
    ensures
        views(final(out)@) == views(old(out)@) + indented(views(items@), empty@),
{
    let ghost start = views(out@);
    if items.len() == 0 {
        out.push(text::owned(empty));
        assert(views(out@) =~= start + seq![empty@]);
        return;
    }
    let mut i: usize = 0;
    while i < items.len()
        invariant
            i <= items.len(),
            views(out@) == start + views(items@).subrange(0, i as int).map_values(
                |s: Seq<char>| "  "@ + s,
            ),
        decreases items.len() - i,
    {
        let ghost before = out@;
        out.push(text::concat("  ", items[i].as_str()));
        assert(views(out@) =~= views(before).push("  "@ + items@[i as int]@));
        assert(views(items@).subrange(0, i + 1).map_values(|s: Seq<char>| "  "@ + s) =~= views(
            items@,
        ).subrange(0, i as int).map_values(|s: Seq<char>| "  "@ + s).push("  "@ + items@[i as int]@));
        i = i + 1;
    }
    assert(views(items@).subrange(0, items.len() as int) =~= views(items@));
}

/// The text of the details panel: the selected run's workflow, id, status,
/// environment, worker, last update, OpenCode sessions and tmux windows.
pub fn details_lines(state: &State) -> (r: Vec<String>)
    ensures
        views(r@) == details_of(selected_of(*state)),
{
    let mut lines: Vec<String> = Vec::new();
    match state.selected_run() {
        None => {
            lines.push(text::owned("No run selected"));
            assert(views(lines@) =~= seq!["No run selected"@]);
        },
        Some(run) => {
            lines.push(text::concat("Workflow: ", run.workflow_name.as_str()));
            lines.push(text::concat("Run ID: ", text::fmt_i64(run.run_id).as_str()));
            lines.push(text::concat("Status: ", run.status.as_str()));
            lines.push(text::concat("Env: ", run.env.as_str()));
            let pid = match run.pid {
                Some(p) => text::fmt_i64(p),
                None => text::owned("-"),
            };
            lines.push(text::concat("PID: ", pid.as_str()));
            let updated = time_text(run.updated_at, DATE_TIME_FORMAT);
            lines.push(text::concat("Updated: ", updated.as_str()));
            lines.push(text::owned(""));
            lines.push(text::owned("OpenCode Sessions:"));
            let ghost head = views(lines@);
            assert(head =~= seq![
                "Workflow: "@ + run.workflow_name@,
                "Run ID: "@ + text::int_decimal(run.run_id as int),
                "Status: "@ + run.status@,
                "Env: "@ + run.env@,
                "PID: "@ + match run.pid {
                    Some(p) => text::int_decimal(p as int),
                    None => "-"@,
                },
                "Updated: "@ + time_text_of(run.updated_at, DATE_TIME_FORMAT@),
                ""@,
                "OpenCode Sessions:"@,
            ]);
            push_indented(&mut lines, &run.session_ids, "  waiting for session");
            let ghost mid = views(lines@);
            lines.push(text::owned(""));
            lines.push(text::owned("Tmux Windows:"));
            assert(views(lines@) =~= mid + seq![""@, "Tmux Windows:"@]);
            push_indented(&mut lines, &run.tmux_windows, "  missing");
        },
    }
    lines
}

/// The panels' titles.
pub const RUNS_TITLE: &'static str = "Runs";
pub const DETAILS_TITLE: &'static str = "Details";
pub const EVENTS_TITLE: &'static str = "Events";
pub const HELP_TITLE: &'static str = "Clankerflow";

/// How a piece of panel text is drawn.
#[derive(Debug, Clone, Copy, PartialEq, Eq, Structural)]
pub enum Tone {
    /// The terminal's default.
    Plain,
    /// Dimmed (run numbers, times, and statuses without a tone of their own).
    Dim,
    /// Bright (workflow names).
    Bright,
    /// Highlighted (event types).
    Highlight,
    /// A key of the help line.
    Key,
    /// The status `Running`.
    Running,
    /// The status `Completed`.
    Completed,
    /// The status `Failed`.
    Failed,
    /// The status `Cancelled`.
    Cancelled,
    /// A status line that reports an error.
    StatusError,
    /// Any other status line.
    StatusInfo,
}

/// A piece of panel text and how it is drawn.
#[derive(Debug)]
pub struct Segment {
    pub text: String,
    pub tone: Tone,
}

/// The texts and tones of a line of segments.
pub open spec fn segs(line: Seq<Segment>) -> Seq<(Seq<char>, Tone)> {
    line.map_values(|s: Segment| (s.text@, s.tone))
}

/// The texts and tones of a list of lines.
pub open spec fn lines_of(lines: Seq<Vec<Segment>>) -> Seq<Seq<(Seq<char>, Tone)>> {
    lines.map_values(|l: Vec<Segment>| segs(l@))
}

/// The tone of a run status.
pub open spec fn status_tone_of(status: Seq<char>) -> Tone {
    if status == "Running"@ {
        Tone::Running
    } else if status == "Completed"@ {
        Tone::Completed
    } else if status == "Failed"@ {
        Tone::Failed
    } else if status == "Cancelled"@ {
        Tone::Cancelled
    } else {
        Tone::Dim
    }
}

/// The tone of the status `status`.
pub fn status_tone(status: &str) -> (r: Tone)
    ensures
        r == status_tone_of(status@),
{
    if text::str_eq(status, "Running") {
        Tone::Running
    } else if text::str_eq(status, "Completed") {
        Tone::Completed
    } else if text::str_eq(status, "Failed") {
        Tone::Failed
    } else if text::str_eq(status, "Cancelled") {
        Tone::Cancelled
    } else {
        Tone::Dim
    }
}

/// A run's line in the runs panel: a `>` marks the selected run, then its
/// number, workflow name and status.
pub open spec fn run_line_of(selected: bool, run: RunRow) -> Seq<(Seq<char>, Tone)> {
    seq![
        ((if selected {
            ">"@
        } else {
            " "@
        }) + " #"@ + text::int_decimal(run.run_id as int) + " "@, Tone::Dim),
        (run.workflow_name@, Tone::Bright),
        (" "@, Tone::Plain),
        (run.status@, status_tone_of(run.status@)),
    ]
}

/// The runs panel: one line per run, or `No runs yet`.
pub open spec fn runs_panel_of(state: State) -> Seq<Seq<(Seq<char>, Tone)>> {
    if state.runs@.len() == 0 {
        seq![seq![("No runs yet"@, Tone::Plain)]]
    } else {
        Seq::new(
            state.runs@.len(),
            |i: int| run_line_of(i == state.selected_index, state.runs@[i]),
        )
    }
}

/// An event's line in the events panel: its time, type and summary.
pub open spec fn event_line_of(event: EventRow) -> Seq<(Seq<char>, Tone)> {
    seq![
        (time_text_of(event.created_at, CLOCK_FORMAT@) + " "@, Tone::Dim),
        (event.event_type@, Tone::Highlight),
        (" "@, Tone::Plain),
        (event.summary@, Tone::Plain),
    ]
}

/// The events panel: one line per event of the selected run, or
/// `No events yet`.
pub open spec fn events_panel_of(state: State) -> Seq<Seq<(Seq<char>, Tone)>> {
    if state.events@.len() == 0 {
        seq![seq![("No events yet"@, Tone::Plain)]]
    } else {
        Seq::new(state.events@.len(), |i: int| event_line_of(state.events@[i]))
    }
}

/// The help line: the keys, then the status line in its tone.
pub open spec fn help_line_of(state: State) -> Seq<(Seq<char>, Tone)> {
    seq![
        ("Enter/a"@, Tone::Key),
        (" attach  "@, Tone::Plain),
        ("c"@, Tone::Key),
        (" cancel  "@, Tone::Plain),
        ("r"@, Tone::Key),
        (" refresh  "@, Tone::Plain),
        ("q"@, Tone::Key),
        (" quit  "@, Tone::Plain),
        (state.status_line@, if state.status_is_error {
            Tone::StatusError
        } else {
            Tone::StatusInfo
        }),
    ]
}

fn segment(text: String, tone: Tone) -> (r: Segment)
    ensures
        r.text@ == text@,
        r.tone == tone,
{
    Segment { text, tone }
}

fn one_line(text: &str) -> (r: Vec<Vec<Segment>>)
    ensures
        lines_of(r@) == seq![seq![(text@, Tone::Plain)]],
{
    let mut line: Vec<Segment> = Vec::new();
    line.push(segment(text::owned(text), Tone::Plain));
    let mut r: Vec<Vec<Segment>> = Vec::new();
    r.push(line);
    assert(segs(r@[0]@) =~= seq![(text@, Tone::Plain)]);
    assert(lines_of(r@) =~= seq![seq![(text@, Tone::Plain)]]);
    r
}

fn run_line(selected: bool, run: &RunRow) -> (r: Vec<Segment>)
    ensures
        segs(r@) == run_line_of(selected, *run),
{
    let mut head = text::owned(if selected {
        ">"
    } else {
        " "
    });
    head.append(" #");
    head.append(text::fmt_i64(run.run_id).as_str());
    head.append(" ");
    let mut r: Vec<Segment> = Vec::new();
    r.push(segment(head, Tone::Dim));
    r.push(segment(text::owned(run.workflow_name.as_str()), Tone::Bright));
    r.push(segment(text::owned(" "), Tone::Plain));
    r.push(segment(text::owned(run.status.as_str()), status_tone(run.status.as_str())));
    assert(segs(r@) =~= run_line_of(selected, *run));
    r
}

/// The runs panel of `state`.
pub fn runs_panel(state: &State) -> (r: Vec<Vec<Segment>>)
    ensures
        lines_of(r@) == runs_panel_of(*state),
{
    if state.runs.len() == 0 {
        return one_line("No runs yet");
    }
    let mut r: Vec<Vec<Segment>> = Vec::new();
    let mut i: usize = 0;
    while i < state.runs.len()
        invariant
            i <= state.runs@.len(),
            r@.len() == i,
            forall|j: int|
                0 <= j < i ==> segs(#[trigger] r@[j]@) == run_line_of(
                    j == state.selected_index,
                    state.runs@[j],
                ),
        decreases state.runs@.len() - i,
    {
        r.push(run_line(i == state.selected_index, &state.runs[i]));
        i = i + 1;
    }
    assert(lines_of(r@) =~= runs_panel_of(*state));
    r
}

fn event_line(event: &EventRow) -> (r: Vec<Segment>)
    ensures
        segs(r@) == event_line_of(*event),
{
    let mut time = time_text(event.created_at, CLOCK_FORMAT);
    time.append(" ");
    let mut r: Vec<Segment> = Vec::new();
    r.push(segment(time, Tone::Dim));
    r.push(segment(text::owned(event.event_type.as_str()), Tone::Highlight));
    r.push(segment(text::owned(" "), Tone::Plain));
    r.push(segment(text::owned(event.summary.as_str()), Tone::Plain));
    assert(segs(r@) =~= event_line_of(*event));
    r
}

/// The events panel of `state`.
pub fn events_panel(state: &State) -> (r: Vec<Vec<Segment>>)
    ensures
        lines_of(r@) == events_panel_of(*state),
{
    if state.events.len() == 0 {
        return one_line("No events yet");
    }
    let mut r: Vec<Vec<Segment>> = Vec::new();
    let mut i: usize = 0;
    while i < state.events.len()
        invariant
            i <= state.events@.len(),
            r@.len() == i,
            forall|j: int| 0 <= j < i ==> segs(#[trigger] r@[j]@) == event_line_of(state.events@[j]),
        decreases state.events@.len() - i,
    {
        r.push(event_line(&state.events[i]));
        i = i + 1;
    }
    assert(lines_of(r@) =~= events_panel_of(*state));
    r
}

/// The help line of `state`.
pub fn help_line(state: &State) -> (r: Vec<Segment>)
    ensures
        segs(r@) == help_line_of(*state),
{
    let mut r: Vec<Segment> = Vec::new();
    r.push(segment(text::owned("Enter/a"), Tone::Key));
    r.push(segment(text::owned(" attach  "), Tone::Plain));
    r.push(segment(text::owned("c"), Tone::Key));
    r.push(segment(text::owned(" cancel  "), Tone::Plain));
    r.push(segment(text::owned("r"), Tone::Key));
    r.push(segment(text::owned(" refresh  "), Tone::Plain));
    r.push(segment(text::owned("q"), Tone::Key));
    r.push(segment(text::owned(" quit  "), Tone::Plain));
    let tone = if state.status_is_error {
        Tone::StatusError
    } else {
        Tone::StatusInfo
    };
    r.push(segment(text::owned(state.status_line.as_str()), tone));
    assert(segs(r@) =~= help_line_of(*state));
    r
}

} // verus!
