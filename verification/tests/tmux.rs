use agentctl::domain::tmux::{
    attach_session, attach_window, create_opencode_window, create_run_window, create_window, list_windows_args,
    opencode_window_name, parse_window_list, project_session_name, run_window_name, sanitize_token, shell_escape,
    window_listed, SessionWindow, TmuxError, WindowTarget,
};

#[test]
fn project_session_name_uses_prefix() {
    assert_eq!(project_session_name("abc123"), "clankerflow__abc123".to_string());
}

#[test]
fn run_window_name_includes_run_id_and_workflow_name() {
    assert_eq!(run_window_name(42, "duos"), "run__42__duos".to_string());
}

#[test]
fn opencode_window_name_includes_session_id() {
    assert_eq!(opencode_window_name(42, "sess_abc"), "opencode__42__sess_abc".to_string());
}

#[test]
fn sanitize_token_replaces_unsafe_characters() {
    assert_eq!(sanitize_token("sess:abc/123"), "sess_abc_123".to_string());
}

#[test]
fn sanitize_token_names_empty_values_and_is_idempotent() {
    assert_eq!(sanitize_token(""), "unknown");
    let once = sanitize_token("a b/é");
    assert_eq!(once, "a_b__");
    assert_eq!(sanitize_token(&once), once);
}

#[test]
fn shell_escape_quotes_and_escapes() {
    assert_eq!(shell_escape("a\"b"), "\"a\\\"b\"");
    assert_eq!(shell_escape(""), "\"\"");
}

#[test]
fn window_plans() {
    let target = WindowTarget { session_name: "clankerflow__x", run_id: 3, work_dir: "/p" };
    let run = create_run_window("duos", target, "cmd");
    assert_eq!(run.window_name, "run__3__duos");
    assert_eq!(run.command, "cmd");
    let oc = create_opencode_window("s:1", target, "http://h:1");
    assert_eq!(oc.window_name, "opencode__3__s_1");
    assert_eq!(oc.command, "opencode attach http://h:1 -s \"s:1\"");
}

#[test]
fn create_window_invocations() {
    let target = WindowTarget { session_name: "S", run_id: 3, work_dir: "/p" };
    let plan = create_run_window("duos", target, "cmd");
    assert!(create_window(&plan, true, true).is_empty());
    let fresh = create_window(&plan, false, false);
    assert_eq!(fresh[0], vec!["new-session", "-d", "-s", "S", "-n", "run__3__duos", "-c", "/p", "cmd"]);
    assert_eq!(fresh[1], vec!["set-window-option", "-t", "S:run__3__duos", "remain-on-exit", "on"]);
    let existing = create_window(&plan, false, true);
    assert_eq!(existing[0][0], "new-window");
    assert_eq!(existing[0][2], "-t");
}

#[test]
fn attach_invocations() {
    assert_eq!(attach_session("S", true), vec!["switch-client", "-t", "S"]);
    assert_eq!(attach_session("S", false), vec!["attach-session", "-t", "S"]);
    assert_eq!(attach_window("S", "w", false), vec!["attach-session", "-t", "S", ";", "select-window", "-t", "S:w"]);
    assert_eq!(list_windows_args("S")[4], "#{window_name}\x1f#{window_active}");
}

#[test]
fn parses_window_listing() {
    let out = "run__1__duos\x1f1\r\n\n  \nopencode__1__s\x1f0\n";
    let windows = parse_window_list("S", out).unwrap();
    assert_eq!(
        windows,
        vec![
            SessionWindow { session_name: "S".to_string(), window_name: "run__1__duos".to_string(), active: true },
            SessionWindow { session_name: "S".to_string(), window_name: "opencode__1__s".to_string(), active: false },
        ]
    );
    match parse_window_list("S", "ok\x1f1\nbroken\n") {
        Err(e @ TmuxError::MalformedLine(_)) => assert_eq!(e.message(), "failed to parse tmux window line: broken"),
        other => panic!("unexpected {other:?}"),
    }
}

#[test]
fn window_listed_compares_trimmed_lines() {
    assert!(window_listed("a\n  run__1__x  \n", "run__1__x"));
    assert!(!window_listed("a\nrun__1__xy\n", "run__1__x"));
}
