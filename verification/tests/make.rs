use agentctl::app::commands::make::{
    validate_branch_name, worktree_failure_message, worktree_git_args, worktree_path, MakeError,
};

#[test]
fn validate_branch_name_accepts_valid_names() {
    assert!(validate_branch_name("feat/new-feature").is_ok());
    assert!(validate_branch_name("fix-bug-123").is_ok());
    assert!(validate_branch_name("release/v1.0").is_ok());
}

#[test]
fn validate_branch_name_rejects_empty_name() {
    assert!(validate_branch_name("").is_err());
}

#[test]
fn validate_branch_name_rejects_double_dot() {
    assert!(validate_branch_name("feat..bad").is_err());
}

#[test]
fn validate_branch_name_rejects_leading_dash() {
    assert!(validate_branch_name("-bad").is_err());
}

#[test]
fn validate_branch_name_rejects_spaces() {
    assert!(validate_branch_name("bad branch").is_err());
}

#[test]
fn constructs_worktree_path_under_agents_worktrees() {
    let path = worktree_path("/tmp/project", "feat/new-feature");

    assert_eq!(path, "/tmp/project/.agents/.worktrees/feat/new-feature");
}

#[test]
fn branch_errors_carry_their_messages() {
    match validate_branch_name("") {
        Err(e @ MakeError::EmptyBranch) => assert_eq!(e.message(), "Branch name cannot be empty"),
        other => panic!("unexpected {other:?}"),
    }
    match validate_branch_name("a b") {
        Err(e @ MakeError::InvalidBranch(_)) => assert_eq!(e.message(), "Invalid branch name: 'a b'"),
        other => panic!("unexpected {other:?}"),
    }
}

#[test]
fn worktree_git_invocation() {
    assert_eq!(
        worktree_git_args("feat/x", "/p/.agents/.worktrees/feat/x"),
        vec!["worktree", "add", "-b", "feat/x", "/p/.agents/.worktrees/feat/x"]
    );
    assert_eq!(
        worktree_failure_message("  fatal: exists \n"),
        "Failed to create git worktree: fatal: exists"
    );
}
