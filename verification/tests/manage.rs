use agentctl::app::commands::manage::query::{summarize_event_payload, windows_for_run};
use agentctl::app::commands::manage::state::{EventRow, RunRow, State};
use agentctl::app::commands::manage::panel::{details_lines, events_panel, help_line, runs_panel, status_tone, Segment, Tone};
use agentctl::app::commands::manage::{
    cancel_selected, cancel_sent_status, key_action, preferred_window, refresh_due, refresh_status,
    selected_window_name, CancelTarget, Key, KeyAction,
};
use agentctl::domain::tmux::SessionWindow;
use agentctl::json::JsonValue;

fn row(run_id: i64, status: &str, pid: Option<i64>, windows: &[&str]) -> RunRow {
    RunRow {
        run_id,
        workflow_name: "duos".to_string(),
        status: status.to_string(),
        env: "Host".to_string(),
        pid,
        created_at: 0,
        updated_at: 0,
        completed_at: None,
        session_ids: vec!["sess_123".to_string()],
        tmux_windows: windows.iter().map(|w| w.to_string()).collect(),
    }
}

#[test]
fn preferred_window_uses_opencode_window_first() {
    let run = row(1, "Running", None, &["run__1__duos", "opencode__1__sess_123"]);

    assert_eq!(preferred_window(&run), Some("opencode__1__sess_123"));
}

#[test]
fn preferred_window_falls_back_to_first_window() {
    assert_eq!(preferred_window(&row(1, "Running", None, &["run__1__duos", "x"])), Some("run__1__duos"));
    assert_eq!(preferred_window(&row(1, "Running", None, &[])), None);
}

#[test]
fn cancel_selected_rejects_finished_runs() {
    let mut state = State { runs: vec![row(1, "Completed", Some(123), &[])], ..State::default() };

    let result = cancel_selected(&mut state);

    assert!(result.is_none());
    assert!(state.status_is_error);
    assert_eq!(state.status_line, "Selected run is already finished");
}

#[test]
fn cancel_selected_targets_running_worker() {
    let mut state = State { runs: vec![row(4, "Running", Some(99), &[])], ..State::default() };
    let target = cancel_selected(&mut state).unwrap();
    assert_eq!(target, CancelTarget { run_id: 4, pid: 99 });
    assert_eq!(cancel_sent_status(target), "Sent cancel signal to run 4 (pid 99)");

    let mut no_pid = State { runs: vec![row(4, "Running", None, &[])], ..State::default() };
    assert!(cancel_selected(&mut no_pid).is_none());
    assert_eq!(no_pid.status_line, "Selected run has no worker PID");
}

#[test]
fn selected_window_reports_missing_windows() {
    let mut state = State { runs: vec![row(4, "Running", None, &[])], ..State::default() };
    assert_eq!(selected_window_name(&mut state), None);
    assert_eq!(state.status_line, "No tmux window available for selected run");
    let mut with = State { runs: vec![row(4, "Running", None, &["run__4__duos"])], ..State::default() };
    assert_eq!(selected_window_name(&mut with), Some("run__4__duos".to_string()));
}

#[test]
fn selection_stays_within_runs() {
    let mut state = State::default();
    state.move_down();
    assert_eq!(state.selected_index, 0);
    state.set_runs(vec![row(1, "Running", None, &[]), row(2, "Running", None, &[]), row(3, "Running", None, &[])]);
    state.move_down();
    state.move_down();
    state.move_down();
    assert_eq!(state.selected_index, 2);
    state.move_up();
    assert_eq!(state.selected_index, 1);
    assert_eq!(state.selected_run().unwrap().run_id, 2);
    state.set_runs(vec![row(9, "Running", None, &[])]);
    assert_eq!(state.selected_index, 0);
    state.set_runs(vec![]);
    assert!(state.selected_run().is_none());
    state.set_status("Loaded", false);
    assert_eq!(state.status_line, "Loaded");
}

#[test]
fn windows_for_run_matches_marker() {
    let w = |n: &str| SessionWindow { session_name: "S".to_string(), window_name: n.to_string(), active: false };
    let windows = vec![w("run__1__duos"), w("run__11__duos"), w("opencode__1__s"), w("other")];
    assert_eq!(windows_for_run(&windows, 1), vec!["run__1__duos", "opencode__1__s"]);
    assert_eq!(windows_for_run(&windows, 11), vec!["run__11__duos"]);
}

#[test]
fn event_payload_summaries() {
    let obj = |fields: Vec<(&str, &str)>| {
        JsonValue::Object(fields.into_iter().map(|(k, v)| (k.to_string(), JsonValue::Str(v.to_string()))).collect())
    };
    assert_eq!(summarize_event_payload(None, ""), "no payload");
    assert_eq!(summarize_event_payload(Some(&obj(vec![("message", "hi"), ("status", "x")])), "{}"), "hi");
    assert_eq!(summarize_event_payload(Some(&obj(vec![("session_id", "s1")])), "{}"), "session s1");
    assert_eq!(summarize_event_payload(Some(&obj(vec![("status", "OK")])), "{}"), "OK");
    assert_eq!(summarize_event_payload(Some(&obj(vec![])), "{}"), "{}");
    assert_eq!(refresh_status(0), "No clankerflow runs found yet");
    assert_eq!(refresh_status(3), "Loaded 3 runs");
}

#[test]
fn key_map_matches_the_help_line() {
    assert_eq!(key_action(Key::Char('q')), KeyAction::Quit);
    assert_eq!(key_action(Key::Esc), KeyAction::Quit);
    assert_eq!(key_action(Key::Up), KeyAction::MoveUp);
    assert_eq!(key_action(Key::Char('k')), KeyAction::MoveUp);
    assert_eq!(key_action(Key::Down), KeyAction::MoveDown);
    assert_eq!(key_action(Key::Char('j')), KeyAction::MoveDown);
    assert_eq!(key_action(Key::Char('r')), KeyAction::Refresh);
    assert_eq!(key_action(Key::Char('c')), KeyAction::Cancel);
    assert_eq!(key_action(Key::Enter), KeyAction::Attach);
    assert_eq!(key_action(Key::Char('a')), KeyAction::Attach);
    assert_eq!(key_action(Key::Char('x')), KeyAction::Ignore);
    assert_eq!(key_action(Key::Other), KeyAction::Ignore);
}

#[test]
fn refresh_every_two_seconds() {
    assert!(!refresh_due(0));
    assert!(!refresh_due(1999));
    assert!(refresh_due(2000));
    assert!(refresh_due(5000));
}

#[test]
fn details_panel_of_the_selected_run() {
    let state = State { runs: vec![row(7, "Running", Some(4242), &["run__7__duos"])], ..State::default() };
    assert_eq!(
        details_lines(&state),
        vec![
            "Workflow: duos",
            "Run ID: 7",
            "Status: Running",
            "Env: Host",
            "PID: 4242",
            "Updated: 1970-01-01 00:00:00 UTC",
            "",
            "OpenCode Sessions:",
            "  sess_123",
            "",
            "Tmux Windows:",
            "  run__7__duos",
        ]
    );

    let mut quiet = row(8, "Pending", None, &[]);
    quiet.session_ids.clear();
    quiet.updated_at = 86_400 + 3_661;
    let state = State { runs: vec![quiet], ..State::default() };
    let lines = details_lines(&state);
    assert_eq!(lines[4], "PID: -");
    assert_eq!(lines[5], "Updated: 1970-01-02 01:01:01 UTC");
    assert_eq!(lines[8], "  waiting for session");
    assert_eq!(lines[11], "  missing");

    assert_eq!(details_lines(&State::default()), vec!["No run selected"]);
}

fn texts(line: &[Segment]) -> Vec<(String, Tone)> {
    line.iter().map(|segment| (segment.text.clone(), segment.tone)).collect()
}

fn pair(text: &str, tone: Tone) -> (String, Tone) {
    (text.to_string(), tone)
}

#[test]
fn runs_panel_marks_the_selected_run() {
    assert_eq!(texts(&runs_panel(&State::default())[0]), vec![pair("No runs yet", Tone::Plain)]);
    let mut state = State { runs: vec![row(3, "Running", None, &[]), row(2, "Failed", None, &[])], ..State::default() };
    state.move_down();
    let lines = runs_panel(&state);
    assert_eq!(lines.len(), 2);
    assert_eq!(
        texts(&lines[0]),
        vec![pair("  #3 ", Tone::Dim), pair("duos", Tone::Bright), pair(" ", Tone::Plain), pair("Running", Tone::Running)]
    );
    assert_eq!(
        texts(&lines[1]),
        vec![pair("> #2 ", Tone::Dim), pair("duos", Tone::Bright), pair(" ", Tone::Plain), pair("Failed", Tone::Failed)]
    );
    assert_eq!(status_tone("Completed"), Tone::Completed);
    assert_eq!(status_tone("Cancelled"), Tone::Cancelled);
    assert_eq!(status_tone("Pending"), Tone::Dim);
}

#[test]
fn events_panel_shows_time_type_and_summary() {
    assert_eq!(texts(&events_panel(&State::default())[0]), vec![pair("No events yet", Tone::Plain)]);
    let state = State {
        events: vec![EventRow { created_at: 3_661, event_type: "run_started".to_string(), summary: "RUNNING".to_string() }],
        ..State::default()
    };
    assert_eq!(
        texts(&events_panel(&state)[0]),
        vec![
            pair("01:01:01 ", Tone::Dim),
            pair("run_started", Tone::Highlight),
            pair(" ", Tone::Plain),
            pair("RUNNING", Tone::Plain),
        ]
    );
}

#[test]
fn help_line_carries_the_status() {
    let mut state = State::default();
    state.set_status("Loaded 2 runs", false);
    let line = texts(&help_line(&state));
    assert_eq!(line.len(), 9);
    assert_eq!(line[0], pair("Enter/a", Tone::Key));
    assert_eq!(line[7], pair(" quit  ", Tone::Plain));
    assert_eq!(line[8], pair("Loaded 2 runs", Tone::StatusInfo));
    state.set_status("Selected run is already finished", true);
    assert_eq!(texts(&help_line(&state))[8], pair("Selected run is already finished", Tone::StatusError));
}

#[test]
fn attaching_leaves_the_status_alone() {
    let mut state = State { runs: vec![row(1, "Running", None, &["run__1__duos"])], ..State::default() };
    state.set_status("Loaded 1 runs", false);
    assert_eq!(selected_window_name(&mut state), Some("run__1__duos".to_string()));
    assert_eq!(state.status_line, "Loaded 1 runs");
    assert!(!state.status_is_error);
}
