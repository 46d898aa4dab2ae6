//! What the run manager shows of runs and events.
use vstd::prelude::*;

use crate::domain::tmux::{self, SessionWindow};
use crate::json::JsonValue;
use crate::text;

verus! {

/// The marker a run's windows carry: `__<run_id>__`.
pub open spec fn run_marker(run_id: int) -> Seq<char> {
    "__"@ + text::int_decimal(run_id) + "__"@
}

/// The one-line summary of an event payload: its `message`, else
/// `session <session_id>`, else its `status`, else the payload's JSON text
/// (`payload_text`); `no payload` when there is none.
pub open spec fn summary_of(payload: Option<JsonValue>, payload_text: Seq<char>) -> Seq<char> {
    match payload {
        None => "no payload"@,
        Some(p) => match p.str_field("message"@) {
            Some(m) => m,
            None => match p.str_field("session_id"@) {
                Some(s) => "session "@ + s,
                None => match p.str_field("status"@) {
                    Some(st) => st,
                    None => payload_text,
                },
            },
        },
    }
}

/// The names of the windows that belong to run `run_id`, in order.
pub fn windows_for_run(windows: &Vec<SessionWindow>, run_id: i64) -> (r: Vec<String>)
    ensures
        tmux::views(r@) == windows@.map_values(|w: SessionWindow| w.window_name@).filter(
            |n: Seq<char>| text::contains(n, run_marker(run_id as int)),
        ),
{
    let mut needle = text::owned("__");
    needle.append(text::fmt_i64(run_id).as_str());
    needle.append("__");
    let nv = text::chars_of(needle.as_str());
    let ghost names = windows@.map_values(|w: SessionWindow| w.window_name@);
    let ghost pred = |n: Seq<char>| text::contains(n, run_marker(run_id as int));
    let mut r: Vec<String> = Vec::new();
    let mut i: usize = 0;
    proof {
        reveal(Seq::filter);
        assert(names.subrange(0, 0) =~= Seq::<Seq<char>>::empty());
        assert(tmux::views(r@) =~= Seq::<Seq<char>>::empty());
    }
    while i < windows.len()
        invariant
            i <= windows.len(),
            nv@ == run_marker(run_id as int),
            names == windows@.map_values(|w: SessionWindow| w.window_name@),
            pred == (|n: Seq<char>| text::contains(n, run_marker(run_id as int))),
            tmux::views(r@) == names.subrange(0, i as int).filter(pred),
        decreases windows.len() - i,
    {
        let name = &windows[i].window_name;
        let v = text::chars_of(name.as_str());
        let hit = text::contains_chars(&v, &nv);
        proof {
            reveal(Seq::filter);
            assert(names.subrange(0, i + 1).drop_last() =~= names.subrange(0, i as int));
            assert(names.subrange(0, i + 1).last() == name@);
        }
        if hit {
            let ghost before = r@;
            r.push(name.clone());
            assert(tmux::views(r@) =~= tmux::views(before).push(name@));
        }
        i = i + 1;
    }
    proof {
        assert(names.subrange(0, windows.len() as int) =~= names);
    }
    r
}

/// The one-line summary of an event's payload.
pub fn summarize_event_payload(payload: Option<&JsonValue>, payload_text: &str) -> (r: String)
    ensures
        r@ == summary_of(
            match payload {
                Some(p) => Some(*p),
                None => None,
            },
            payload_text@,
        ),
{
    let p = match payload {
        None => return text::owned("no payload"),
        Some(p) => p,
    };
    match p.get_str("message") {
        Some(m) => return text::owned(m),
        None => {},
    }
    match p.get_str("session_id") {
        Some(s) => return text::concat("session ", s),
        None => {},
    }
    match p.get_str("status") {
        Some(st) => return text::owned(st),
        None => {},
    }
    text::owned(payload_text)
}

/// A run's own windows are found again: the window that runs it and the
/// windows of its OpenCode sessions carry its marker.
pub proof fn law_run_windows_carry_marker(run_id: int, workflow_name: Seq<char>, session_id: Seq<char>)
    ensures
        text::contains(tmux::run_window_of(run_id, workflow_name), run_marker(run_id)),
        text::contains(tmux::opencode_window_of(run_id, session_id), run_marker(run_id)),
{
    let m = run_marker(run_id);
    let a = tmux::run_window_of(run_id, workflow_name);
    reveal_strlit("run__");
    reveal_strlit("__");
    assert(a.subrange(3, 3 + m.len() as int) =~= m);
    assert(text::occurs_at(a, m, 3));
    let b = tmux::opencode_window_of(run_id, session_id);
    reveal_strlit("opencode__");
    assert(b.subrange(8, 8 + m.len() as int) =~= m);
    assert(text::occurs_at(b, m, 8));
}

} // verus!
