//! tmux naming and the tmux invocations that create, attach and list the
//! project's windows.
use vstd::prelude::*;

use crate::text;

verus! {

/// A window of the project's tmux session.
#[derive(Debug, Clone, PartialEq, Eq)]
pub struct SessionWindow {
    pub session_name: String,
    pub window_name: String,
    pub active: bool,
}

/// Where a new window goes: the session, the run it belongs to and the
/// directory it starts in.
#[derive(Debug, Clone, Copy)]
pub struct WindowTarget<'a> {
    pub session_name: &'a str,
    pub run_id: i64,
    pub work_dir: &'a str,
}

/// A window to create: its session, name, working directory and the shell
/// command it runs.
#[derive(Debug)]
pub struct WindowPlan {
    pub session_name: String,
    pub window_name: String,
    pub work_dir: String,
    pub command: String,
}

/// Why the listing of tmux windows could not be read.
#[derive(Debug)]
pub enum TmuxError {
    /// A non-blank line of `list-windows` output had no field separator.
    MalformedLine(String),
}

impl TmuxError {
    /// The error's text.
    pub fn message(&self) -> (r: String)
        ensures
            match self {
                TmuxError::MalformedLine(line) => r@ == "failed to parse tmux window line: "@ + line@,
            },
    {
        match self {
            TmuxError::MalformedLine(line) => text::concat(
                "failed to parse tmux window line: ",
                line.as_str(),
            ),
        }
    }
}

/// Characters that tmux names keep as they are.
pub open spec fn is_token_char(c: char) -> bool {
    ('a' <= c && c <= 'z') || ('A' <= c && c <= 'Z') || ('0' <= c && c <= '9') || c == '_' || c
        == '-'
}

/// `value` with every character outside `[A-Za-z0-9_-]` replaced by `_`, or
/// `unknown` when `value` is empty.
pub open spec fn sanitized(value: Seq<char>) -> Seq<char> {
    if value.len() == 0 {
        "unknown"@
    } else {
        Seq::new(value.len(), |i: int| if is_token_char(value[i]) { value[i] } else { '_' })
    }
}

/// `value` quoted for a shell: wrapped in double quotes, with inner double
/// quotes preceded by a backslash.
pub open spec fn shell_quoted(value: Seq<char>) -> Seq<char> {
    seq!['"'] + text::replace_char(value, '"', seq!['\\', '"']) + seq!['"']
}

/// The tmux session of a project.
pub open spec fn session_name_of(project_key: Seq<char>) -> Seq<char> {
    "clankerflow__"@ + sanitized(project_key)
}

/// The tmux window that runs a workflow.
pub open spec fn run_window_of(run_id: int, workflow_name: Seq<char>) -> Seq<char> {
    "run__"@ + text::int_decimal(run_id) + "__"@ + sanitized(workflow_name)
}

/// The tmux window attached to an OpenCode session.
pub open spec fn opencode_window_of(run_id: int, session_id: Seq<char>) -> Seq<char> {
    "opencode__"@ + text::int_decimal(run_id) + "__"@ + sanitized(session_id)
}

/// `session:window`, the target of a window.
pub open spec fn window_target_of(session_name: Seq<char>, window_name: Seq<char>) -> Seq<char> {
    session_name + seq![':'] + window_name
}

/// The strings of a vector of `String`s.
pub open spec fn views(v: Seq<String>) -> Seq<Seq<char>> {
    v.map_values(|s: String| s@)
}

/// Replaces characters outside `[A-Za-z0-9_-]` with `_`; an empty value
/// becomes `unknown`.
pub fn sanitize_token(value: &str) -> (r: String)
    ensures
        r@ == sanitized(value@),
{
    let v = text::chars_of(value);
    if v.len() == 0 {
        return text::owned("unknown");
    }
    let mut out: Vec<char> = Vec::new();
    let mut i: usize = 0;
    while i < v.len()
        invariant
            v@ == value@,
            i <= v.len(),
            out@.len() == i,
            forall|j: int|
                0 <= j < i ==> out@[j] == (if is_token_char(v@[j]) {
                    v@[j]
                } else {
                    '_'
                }),
        decreases v.len() - i,
    {
        let c = v[i];
        if ('a' <= c && c <= 'z') || ('A' <= c && c <= 'Z') || ('0' <= c && c <= '9') || c == '_'
            || c == '-' {
            out.push(c);
        } else {
            out.push('_');
        }
        i = i + 1;
    }
    let r = text::string_of(&out);
    assert(r@ =~= sanitized(value@));
    r
}

/// Quotes `value` for a shell command line.
pub fn shell_escape(value: &str) -> (r: String)
    ensures
        r@ == shell_quoted(value@),
{
    let escaped = text::replace_char_str(value, '"', "\\\"");
    proof {
        reveal_strlit("\\\"");
        assert("\\\""@ =~= seq!['\\', '"']);
    }
    let mut out = String::new();
    text::push_char(&mut out, '"');
    out.append(escaped.as_str());
    text::push_char(&mut out, '"');
    assert(out@ =~= shell_quoted(value@));
    out
}

/// The tmux session name of a project.
pub fn project_session_name(project_key: &str) -> (r: String)
    ensures
        r@ == session_name_of(project_key@),
{
    let t = sanitize_token(project_key);
    text::concat("clankerflow__", t.as_str())
}

/// The tmux window name of a workflow run.
pub fn run_window_name(run_id: i64, workflow_name: &str) -> (r: String)
    ensures
        r@ == run_window_of(run_id as int, workflow_name@),
{
    let mut r = text::owned("run__");
    r.append(text::fmt_i64(run_id).as_str());
    r.append("__");
    r.append(sanitize_token(workflow_name).as_str());
    assert(r@ =~= run_window_of(run_id as int, workflow_name@));
    r
}

/// The tmux window name of an OpenCode session of a run.
pub fn opencode_window_name(run_id: i64, session_id: &str) -> (r: String)
    ensures
        r@ == opencode_window_of(run_id as int, session_id@),
{
    let mut r = text::owned("opencode__");
    r.append(text::fmt_i64(run_id).as_str());
    r.append("__");
    r.append(sanitize_token(session_id).as_str());
    assert(r@ =~= opencode_window_of(run_id as int, session_id@));
    r
}

/// The window that runs a workflow's worker `command`.
pub fn create_run_window(workflow_name: &str, target: WindowTarget<'_>, command: &str) -> (r:
    WindowPlan)
    ensures
        r.session_name@ == target.session_name@,
        r.window_name@ == run_window_of(target.run_id as int, workflow_name@),
        r.work_dir@ == target.work_dir@,
        r.command@ == command@,
{
    WindowPlan {
        session_name: text::owned(target.session_name),
        window_name: run_window_name(target.run_id, workflow_name),
        work_dir: text::owned(target.work_dir),
        command: text::owned(command),
    }
}

/// The window that attaches to an OpenCode session at `base_url`.
pub fn create_opencode_window(
    opencode_session_id: &str,
    target: WindowTarget<'_>,
    base_url: &str,
) -> (r: WindowPlan)
    ensures
        r.session_name@ == target.session_name@,
        r.window_name@ == opencode_window_of(target.run_id as int, opencode_session_id@),
        r.work_dir@ == target.work_dir@,
        r.command@ == "opencode attach "@ + base_url@ + " -s "@ + shell_quoted(
            opencode_session_id@,
        ),
{
    let mut command = text::owned("opencode attach ");
    command.append(base_url);
    command.append(" -s ");
    command.append(shell_escape(opencode_session_id).as_str());
    WindowPlan {
        session_name: text::owned(target.session_name),
        window_name: opencode_window_name(target.run_id, opencode_session_id),
        work_dir: text::owned(target.work_dir),
        command,
    }
}

/// The tmux invocations that create the planned window: none when the window
/// already exists; otherwise `new-window` (or `new-session` when the session
/// does not exist yet) followed by `set-window-option ... remain-on-exit on`.
pub fn create_window(plan: &WindowPlan, window_exists: bool, session_exists: bool) -> (r: Vec<
    Vec<String>,
>)
    ensures
        window_exists ==> r@.len() == 0,
        !window_exists ==> {
            &&& r@.len() == 2
            &&& views(r@[0]@) == seq![
                if session_exists {
                    "new-window"@
                } else {
                    "new-session"@
                },
                "-d"@,
                if session_exists {
                    "-t"@
                } else {
                    "-s"@
                },
                plan.session_name@,
                "-n"@,
                plan.window_name@,
                "-c"@,
                plan.work_dir@,
                plan.command@,
            ]
            &&& views(r@[1]@) == seq![
                "set-window-option"@,
                "-t"@,
                window_target_of(plan.session_name@, plan.window_name@),
                "remain-on-exit"@,
                "on"@,
            ]
        },
{
    let mut r: Vec<Vec<String>> = Vec::new();
    if window_exists {
        return r;
    }
    let mut create: Vec<String> = Vec::new();
    if session_exists {
        create.push(text::owned("new-window"));
    } else {
        create.push(text::owned("new-session"));
    }
    create.push(text::owned("-d"));
    if session_exists {
        create.push(text::owned("-t"));
    } else {
        create.push(text::owned("-s"));
    }
    create.push(plan.session_name.clone());
    create.push(text::owned("-n"));
    create.push(plan.window_name.clone());
    create.push(text::owned("-c"));
    create.push(plan.work_dir.clone());
    create.push(plan.command.clone());
    let mut remain: Vec<String> = Vec::new();
    remain.push(text::owned("set-window-option"));
    remain.push(text::owned("-t"));
    remain.push(window_target(plan.session_name.as_str(), plan.window_name.as_str()));
    remain.push(text::owned("remain-on-exit"));
    remain.push(text::owned("on"));
    assert(views(create@) =~= seq![
        if session_exists {
            "new-window"@
        } else {
            "new-session"@
        },
        "-d"@,
        if session_exists {
            "-t"@
        } else {
            "-s"@
        },
        plan.session_name@,
        "-n"@,
        plan.window_name@,
        "-c"@,
        plan.work_dir@,
        plan.command@,
    ]);
    assert(views(remain@) =~= seq![
        "set-window-option"@,
        "-t"@,
        window_target_of(plan.session_name@, plan.window_name@),
        "remain-on-exit"@,
        "on"@,
    ]);
    r.push(create);
    r.push(remain);
    r
}


/// A line of `list-windows` output holds no text but white space.
pub open spec fn is_blank(line: Seq<char>) -> bool {
    text::trim(line).len() == 0
}

/// The non-blank lines of `list-windows` output.
pub open spec fn listed_lines(output: Seq<char>) -> Seq<Seq<char>> {
    text::lines(output).filter(|l: Seq<char>| !is_blank(l))
}

/// The window name and active flag that a `list-windows` line records, when
/// the line has the `\x1f` separator.
pub open spec fn window_of_line(line: Seq<char>) -> Option<(Seq<char>, bool)> {
    match text::split_once(line, '\x1f') {
        Some((name, flag)) => Some((name, flag == "1"@)),
        None => None,
    }
}

/// The window name that a well-formed `list-windows` line records.
pub open spec fn line_window_name(line: Seq<char>) -> Seq<char> {
    match window_of_line(line) {
        Some((name, _)) => name,
        None => line,
    }
}

/// The active flag that a well-formed `list-windows` line records.
pub open spec fn line_window_active(line: Seq<char>) -> bool {
    match window_of_line(line) {
        Some((_, active)) => active,
        None => false,
    }
}

proof fn lemma_filter_push(s: Seq<Seq<char>>, x: Seq<char>)
    ensures
        s.push(x).filter(|l: Seq<char>| !is_blank(l)) == (if !is_blank(x) {
            s.filter(|l: Seq<char>| !is_blank(l)).push(x)
        } else {
            s.filter(|l: Seq<char>| !is_blank(l))
        }),
{
    reveal(Seq::filter);
    assert(s.push(x).drop_last() =~= s);
}

/// The tmux arguments that list a session's windows with their active flag,
/// separated by `\x1f`.
pub fn list_windows_args(session_name: &str) -> (r: Vec<String>)
    ensures
        views(r@) == seq![
            "list-windows"@,
            "-t"@,
            session_name@,
            "-F"@,
            "#{window_name}\x1f#{window_active}"@,
        ],
{
    let mut r: Vec<String> = Vec::new();
    r.push(text::owned("list-windows"));
    r.push(text::owned("-t"));
    r.push(text::owned(session_name));
    r.push(text::owned("-F"));
    r.push(text::owned("#{window_name}\x1f#{window_active}"));
    assert(views(r@) =~= seq![
        "list-windows"@,
        "-t"@,
        session_name@,
        "-F"@,
        "#{window_name}\x1f#{window_active}"@,
    ]);
    r
}

/// Reads the windows of `session_name` from `list-windows` output: one
/// window per non-blank line, `name\x1factive`; a non-blank line without the
/// separator is an error.
pub fn parse_window_list(session_name: &str, output: &str) -> (r: Result<Vec<SessionWindow>, TmuxError>)
    ensures
        match r {
            Ok(ws) => {
                let nb = listed_lines(output@);
                &&& ws@.len() == nb.len()
                &&& forall|i: int|
                    0 <= i < nb.len() ==> {
                        &&& (#[trigger] window_of_line(nb[i])) is Some
                        &&& ws@[i].session_name@ == session_name@
                        &&& ws@[i].window_name@ == line_window_name(nb[i])
                        &&& ws@[i].active == line_window_active(nb[i])
                    }
            },
            Err(TmuxError::MalformedLine(line)) => {
                let nb = listed_lines(output@);
                exists|i: int|
                    0 <= i < nb.len() && nb[i] == line@ && window_of_line(nb[i]) is None && forall|
                        j: int,
                    |
                        0 <= j < i ==> (#[trigger] window_of_line(nb[j])) is Some
            },
        },
{
    let ls = text::lines_of(output);
    let ghost lv = ls@.map_values(|x: String| x@);
    let mut ws: Vec<SessionWindow> = Vec::new();
    let mut i: usize = 0;
    proof {
        reveal(Seq::filter);
        assert(lv.subrange(0, 0) =~= Seq::<Seq<char>>::empty());
    }
    while i < ls.len()
        invariant
            i <= ls.len(),
            lv == ls@.map_values(|x: String| x@),
            lv == text::lines(output@),
            ({
                let f = lv.subrange(0, i as int).filter(|l: Seq<char>| !is_blank(l));
                &&& ws@.len() == f.len()
                &&& forall|k: int|
                    0 <= k < f.len() ==> {
                        &&& (#[trigger] window_of_line(f[k])) is Some
                        &&& ws@[k].session_name@ == session_name@
                        &&& ws@[k].window_name@ == line_window_name(f[k])
                        &&& ws@[k].active == line_window_active(f[k])
                    }
            }),
        decreases ls.len() - i,
    {
        let line = &ls[i];
        let ghost prev = lv.subrange(0, i as int);
        proof {
            assert(lv.subrange(0, i + 1) =~= prev.push(lv[i as int]));
            lemma_filter_push(prev, lv[i as int]);
            assert(lv[i as int] == line@);
        }
        let t = text::trim_str(line.as_str());
        if t.unicode_len() > 0 {
            match text::split_once_char(line.as_str(), '\x1f') {
                Some((name, flag)) => {
                    let active = text::str_eq(flag.as_str(), "1");
                    ws.push(SessionWindow { session_name: text::owned(session_name), window_name: name, active });
                },
                None => {
                    proof {
                        let f = prev.filter(|l: Seq<char>| !is_blank(l));
                        let full = lv.filter(|l: Seq<char>| !is_blank(l));
                        lemma_filter_prefix(lv, i as int + 1);
                        assert(full.subrange(0, f.len() as int + 1) == f.push(line@));
                        let pre = full.subrange(0, f.len() as int + 1);
                        assert(pre[f.len() as int] == f.push(line@)[f.len() as int]);
                        assert(full[f.len() as int] == pre[f.len() as int]);
                        assert(full[f.len() as int] == line@);
                        assert forall|j: int| 0 <= j < f.len() implies (#[trigger] window_of_line(full[j])) is Some by {
                            assert(pre[j] == f.push(line@)[j]);
                            assert(full[j] == pre[j]);
                            assert(full[j] == f[j]);
                        }
                    }
                    return Err(TmuxError::MalformedLine(text::owned(line.as_str())));
                },
            }
        }
        i = i + 1;
    }
    proof {
        assert(lv.subrange(0, ls.len() as int) =~= lv);
    }
    Ok(ws)
}

proof fn lemma_filter_prefix(s: Seq<Seq<char>>, n: int)
    requires
        0 <= n <= s.len(),
    ensures
        s.filter(|l: Seq<char>| !is_blank(l)).subrange(0, s.subrange(0, n).filter(|l: Seq<char>| !is_blank(l)).len() as int)
            == s.subrange(0, n).filter(|l: Seq<char>| !is_blank(l)),
        s.subrange(0, n).filter(|l: Seq<char>| !is_blank(l)).len() <= s.filter(|l: Seq<char>| !is_blank(l)).len(),
    decreases s.len() - n,
{
    if n == s.len() {
        assert(s.subrange(0, n) =~= s);
        let f = s.filter(|l: Seq<char>| !is_blank(l));
        assert(f.subrange(0, f.len() as int) =~= f);
    } else {
        lemma_filter_prefix(s, n + 1);
        let a = s.subrange(0, n);
        assert(s.subrange(0, n + 1) =~= a.push(s[n]));
        lemma_filter_push(a, s[n]);
        let fa = a.filter(|l: Seq<char>| !is_blank(l));
        let fb = s.subrange(0, n + 1).filter(|l: Seq<char>| !is_blank(l));
        let full = s.filter(|l: Seq<char>| !is_blank(l));
        assert(full.subrange(0, fb.len() as int) == fb);
        assert(fb.subrange(0, fa.len() as int) =~= fa);
        assert(full.subrange(0, fa.len() as int) =~= fb.subrange(0, fa.len() as int));
    }
}

/// Whether `list-windows -F #{window_name}` output names `window_name` on
/// some line (compared after trimming).
pub fn window_listed(output: &str, window_name: &str) -> (r: bool)
    ensures
        r == exists|i: int| 0 <= i < text::lines(output@).len() && text::trim(#[trigger] text::lines(output@)[i]) == window_name@,
{
    let ls = text::lines_of(output);
    let ghost lv = ls@.map_values(|x: String| x@);
    let mut i: usize = 0;
    while i < ls.len()
        invariant
            i <= ls.len(),
            lv == ls@.map_values(|x: String| x@),
            lv == text::lines(output@),
            forall|k: int| 0 <= k < i ==> text::trim(#[trigger] lv[k]) != window_name@,
        decreases ls.len() - i,
    {
        let t = text::trim_str(ls[i].as_str());
        assert(lv[i as int] == ls@[i as int]@);
        if text::str_eq(t.as_str(), window_name) {
            return true;
        }
        i = i + 1;
    }
    false
}

/// Sanitized names are safe tmux tokens: never empty, made only of
/// `[A-Za-z0-9_-]`, and sanitizing them again changes nothing.
pub proof fn law_sanitized_is_token(value: Seq<char>)
    ensures
        sanitized(value).len() > 0,
        forall|i: int| 0 <= i < sanitized(value).len() ==> is_token_char(#[trigger] sanitized(value)[i]),
        sanitized(sanitized(value)) == sanitized(value),
{
    reveal_strlit("unknown");
    let s = sanitized(value);
    assert forall|i: int| 0 <= i < s.len() implies is_token_char(#[trigger] s[i]) by {
        if value.len() == 0 {
            assert(s[i] == "unknown"@[i]);
        }
    }
    assert(sanitized(s) =~= s);
}

proof fn lemma_escaped_quotes(v: Seq<char>)
    ensures
        ({
            let e = text::replace_char(v, '"', seq!['\\', '"']);
            &&& (e.len() > 0 && e[0] == '"' ==> false)
            &&& forall|i: int| 0 < i < e.len() && #[trigger] e[i] == '"' ==> e[i - 1] == '\\'
        }),
    decreases v.len(),
{
    if v.len() > 0 {
        lemma_escaped_quotes(v.drop_first());
        let rest = text::replace_char(v.drop_first(), '"', seq!['\\', '"']);
        let head = if v[0] == '"' {
            seq!['\\', '"']
        } else {
            seq![v[0]]
        };
        let e = text::replace_char(v, '"', seq!['\\', '"']);
        assert(e == head + rest);
        assert forall|i: int| 0 < i < e.len() && #[trigger] e[i] == '"' implies e[i - 1] == '\\' by {
            if i < head.len() {
            } else if i == head.len() {
                assert(e[i] == rest[0]);
            } else {
                assert(e[i] == rest[i - head.len()]);
                assert(e[i - 1] == rest[i - 1 - head.len()]);
            }
        }
    }
}

/// A quoted value opens and closes with a double quote, and every double
/// quote between the two is preceded by a backslash. (Backslashes of the
/// value itself are kept as they are.)
pub proof fn law_shell_quoted_inner_quotes_escaped(value: Seq<char>)
    ensures
        shell_quoted(value)[0] == '"',
        shell_quoted(value).last() == '"',
        forall|i: int|
            0 < i < shell_quoted(value).len() - 1 && #[trigger] shell_quoted(value)[i] == '"'
                ==> shell_quoted(value)[i - 1] == '\\',
{
    lemma_escaped_quotes(value);
    let e = text::replace_char(value, '"', seq!['\\', '"']);
    let q = shell_quoted(value);
    assert forall|i: int| 0 < i < q.len() - 1 && #[trigger] q[i] == '"' implies q[i - 1] == '\\' by {
        assert(q[i] == e[i - 1]);
        if i - 1 > 0 {
            assert(q[i - 1] == e[i - 2]);
        }
    }
}

/// `session:window`.
pub fn window_target(session_name: &str, window_name: &str) -> (r: String)
    ensures
        r@ == window_target_of(session_name@, window_name@),
{
    let mut r = text::owned(session_name);
    text::push_char(&mut r, ':');
    r.append(window_name);
    assert(r@ =~= window_target_of(session_name@, window_name@));
    r
}

/// The tmux arguments that attach to (or, inside tmux, switch the client to)
/// a session.
pub fn attach_session(session_name: &str, inside_tmux: bool) -> (r: Vec<String>)
    ensures
        views(r@) == seq![
            if inside_tmux {
                "switch-client"@
            } else {
                "attach-session"@
            },
            "-t"@,
            session_name@,
        ],
{
    let mut r: Vec<String> = Vec::new();
    if inside_tmux {
        r.push(text::owned("switch-client"));
    } else {
        r.push(text::owned("attach-session"));
    }
    r.push(text::owned("-t"));
    r.push(text::owned(session_name));
    assert(views(r@) =~= seq![
        if inside_tmux {
            "switch-client"@
        } else {
            "attach-session"@
        },
        "-t"@,
        session_name@,
    ]);
    r
}

/// The tmux arguments that attach to a session and select one of its
/// windows.
pub fn attach_window(session_name: &str, window_name: &str, inside_tmux: bool) -> (r: Vec<String>)
    ensures
        views(r@) == seq![
            if inside_tmux {
                "switch-client"@
            } else {
                "attach-session"@
            },
            "-t"@,
            session_name@,
            ";"@,
            "select-window"@,
            "-t"@,
            window_target_of(session_name@, window_name@),
        ],
{
    let mut r: Vec<String> = Vec::new();
    if inside_tmux {
        r.push(text::owned("switch-client"));
    } else {
        r.push(text::owned("attach-session"));
    }
    r.push(text::owned("-t"));
    r.push(text::owned(session_name));
    r.push(text::owned(";"));
    r.push(text::owned("select-window"));
    r.push(text::owned("-t"));
    r.push(window_target(session_name, window_name));
    assert(views(r@) =~= seq![
        if inside_tmux {
            "switch-client"@
        } else {
            "attach-session"@
        },
        "-t"@,
        session_name@,
        ";"@,
        "select-window"@,
        "-t"@,
        window_target_of(session_name@, window_name@),
    ]);
    r
}

} // verus!
