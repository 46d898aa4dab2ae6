//! `init`: the overwrite confirmation and the runtime dependency install.
use vstd::prelude::*;

use crate::domain::tmux;
use crate::text;

verus! {

/// ASCII lower case of one character.
pub open spec fn ascii_lower(c: char) -> char {
    if 'A' <= c && c <= 'Z' {
        ((c as u32) + 32) as char
    } else {
        c
    }
}

/// The answer, trimmed and in ASCII lower case.
pub open spec fn normalized_answer(input: Seq<char>) -> Seq<char> {
    text::trim(input).map_values(|c: char| ascii_lower(c))
}

/// Whether an answer to the overwrite question agrees: `y` or `yes`, in any
/// case, surrounded by any white space.
pub fn confirms_overwrite(input: &str) -> (r: bool)
    ensures
        r == (normalized_answer(input@) == "y"@ || normalized_answer(input@) == "yes"@),
{
    let t = text::trim_str(input);
    let v = text::chars_of(t.as_str());
    let mut lower: Vec<char> = Vec::new();
    let mut i: usize = 0;
    while i < v.len()
        invariant
            i <= v.len(),
            lower@ == v@.subrange(0, i as int).map_values(|c: char| ascii_lower(c)),
        decreases v.len() - i,
    {
        let c = v[i];
        let l = if 'A' <= c && c <= 'Z' {
            char_from_upper(c)
        } else {
            c
        };
        lower.push(l);
        i = i + 1;
        assert(lower@ =~= v@.subrange(0, i as int).map_values(|c: char| ascii_lower(c)));
    }
    assert(v@.subrange(0, v.len() as int) =~= v@);
    let s = text::string_of(&lower);
    text::str_eq(s.as_str(), "y") || text::str_eq(s.as_str(), "yes")
}

fn char_from_upper(c: char) -> (r: char)
    requires
        'A' <= c && c <= 'Z',
    ensures
        r == ascii_lower(c),
{
    ((c as u8) + 32) as char
}

/// The workflow runtime library of a project.
pub open spec fn runtime_lib_of(project_root: Seq<char>) -> Seq<char> {
    text::join_path(project_root, ".agents/.clankerflow/lib"@)
}

/// The `npm` arguments that install the runtime's dependencies.
pub fn npm_install_args(project_root: &str) -> (r: Vec<String>)
    ensures
        tmux::views(r@) == seq!["install"@, "--prefix"@, runtime_lib_of(project_root@)],
{
    let mut r: Vec<String> = Vec::new();
    r.push(text::owned("install"));
    r.push(text::owned("--prefix"));
    r.push(text::join(project_root, ".agents/.clankerflow/lib"));
    assert(tmux::views(r@) =~= seq!["install"@, "--prefix"@, runtime_lib_of(project_root@)]);
    r
}

} // verus!
