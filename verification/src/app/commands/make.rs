//! `make`: tickets and git worktrees.
use vstd::prelude::*;

use crate::domain::tmux;
use crate::text;

verus! {

/// A branch name that cannot be used.
#[derive(Debug)]
pub enum MakeError {
    /// The branch name is empty.
    EmptyBranch,
    /// The branch name holds `..`, starts with `-` or holds a space.
    InvalidBranch(String),
}

impl MakeError {
    /// The error's text.
    pub fn message(&self) -> (r: String)
        ensures
            r@ == match self {
                MakeError::EmptyBranch => "Branch name cannot be empty"@,
                MakeError::InvalidBranch(b) => "Invalid branch name: '"@ + b@ + "'"@,
            },
    {
        match self {
            MakeError::EmptyBranch => text::owned("Branch name cannot be empty"),
            MakeError::InvalidBranch(b) => {
                let mut r = text::concat("Invalid branch name: '", b.as_str());
                r.append("'");
                r
            },
        }
    }
}

/// A branch name the `make worktree` command accepts: not empty, no `..`,
/// no leading `-`, no space.
pub open spec fn valid_branch(branch: Seq<char>) -> bool {
    &&& branch.len() > 0
    &&& !text::contains(branch, ".."@)
    &&& !text::starts_with(branch, "-"@)
    &&& !text::has_char(branch, ' ')
}

/// The worktree of a branch.
pub open spec fn worktree_of(project_root: Seq<char>, branch: Seq<char>) -> Seq<char> {
    text::join_path(text::join_path(text::join_path(project_root, ".agents"@), ".worktrees"@), branch)
}

/// Checks a branch name.
pub fn validate_branch_name(branch: &str) -> (r: Result<(), MakeError>)
    ensures
        r is Ok <==> valid_branch(branch@),
        branch@.len() == 0 ==> r matches Err(MakeError::EmptyBranch),
        branch@.len() > 0 && !valid_branch(branch@) ==> (r matches Err(MakeError::InvalidBranch(b))
            && b@ == branch@),
{
    if branch.unicode_len() == 0 {
        return Err(MakeError::EmptyBranch);
    }
    if text::contains_str(branch, "..") || text::starts_with_str(branch, "-") || text::contains_char(
        branch,
        ' ',
    ) {
        return Err(MakeError::InvalidBranch(text::owned(branch)));
    }
    Ok(())
}

/// `<project_root>/.agents/.worktrees/<branch>`.
pub fn worktree_path(project_root: &str, branch: &str) -> (r: String)
    ensures
        r@ == worktree_of(project_root@, branch@),
{
    let a = text::join(project_root, ".agents");
    let b = text::join(a.as_str(), ".worktrees");
    text::join(b.as_str(), branch)
}

/// The `git` arguments that add a worktree on a new branch.
pub fn worktree_git_args(branch: &str, worktree_path: &str) -> (r: Vec<String>)
    ensures
        tmux::views(r@) == seq!["worktree"@, "add"@, "-b"@, branch@, worktree_path@],
{
    let mut r: Vec<String> = Vec::new();
    r.push(text::owned("worktree"));
    r.push(text::owned("add"));
    r.push(text::owned("-b"));
    r.push(text::owned(branch));
    r.push(text::owned(worktree_path));
    assert(tmux::views(r@) =~= seq!["worktree"@, "add"@, "-b"@, branch@, worktree_path@]);
    r
}

/// The error text when `git worktree add` fails, with git's trimmed
/// diagnostics.
pub fn worktree_failure_message(stderr: &str) -> (r: String)
    ensures
        r@ == "Failed to create git worktree: "@ + text::trim(stderr@),
{
    let t = text::trim_str(stderr);
    text::concat("Failed to create git worktree: ", t.as_str())
}

/// A branch that passes validation yields a worktree inside the project's
/// `.agents/.worktrees` directory: its path starts with that directory
/// followed by a separator, since a valid branch is not empty.
pub proof fn law_valid_branch_stays_in_worktrees(project_root: Seq<char>, branch: Seq<char>)
    requires
        valid_branch(branch),
        branch[0] != '/',
    ensures
        worktree_of(project_root, branch) == text::join_path(
            text::join_path(project_root, ".agents"@),
            ".worktrees"@,
        ) + seq!['/'] + branch,
{
    let d = text::join_path(text::join_path(project_root, ".agents"@), ".worktrees"@);
    reveal_strlit(".worktrees");
    assert(d.len() > 0 && d.last() == 's') by {
        let a = text::join_path(project_root, ".agents"@);
        reveal_strlit(".agents");
        if a.len() == 0 || a.last() == '/' {
            assert(d =~= a + ".worktrees"@);
        } else {
            assert(d =~= a + seq!['/'] + ".worktrees"@);
        }
    }
}

} // verus!
