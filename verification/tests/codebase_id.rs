use agentctl::domain::codebase_id;
use agentctl::domain::project::{ancestors, find_project_root, require_project_root, ProjectError};
use agentctl::domain::runtime::{bundled_node_path, resolve_node_bin_from, RuntimeError};

#[test]
fn derives_base64_without_padding() {
    let id = codebase_id::derive("/srv/project");

    assert_eq!(id, "L3Nydi9wcm9qZWN0");
    assert!(!id.contains('='));
}

#[test]
fn derivation_is_deterministic() {
    let path = "/tmp/my-project";

    let first = codebase_id::derive(path);
    let second = codebase_id::derive(path);

    assert_eq!(first, second);
}

#[test]
fn ancestors_walk_up_to_the_root() {
    assert_eq!(ancestors("/tmp/a/b"), vec!["/tmp/a/b", "/tmp/a", "/tmp", "/"]);
    assert_eq!(ancestors("rel/x"), vec!["rel/x", "rel", ""]);
}

#[test]
fn project_root_is_the_nearest_initialized_ancestor() {
    let chain = ancestors("/tmp/a/b");
    assert_eq!(find_project_root(&chain, &vec![false, true, true, false]), Some("/tmp/a".to_string()));
    assert_eq!(find_project_root(&chain, &vec![false, false, false, false]), None);
    assert_eq!(require_project_root("/tmp/a/b", &chain, &vec![true, false, false, false]).unwrap(), "/tmp/a/b");
    match require_project_root("/tmp/a/b", &chain, &vec![false; 4]) {
        Err(e @ ProjectError::ProjectNotInitialized(_)) => {
            assert_eq!(e.message(), "no .agents directory found from /tmp/a/b upwards; run `init` first")
        }
        other => panic!("unexpected {other:?}"),
    }
}

#[test]
fn env_override_is_respected() {
    let result = resolve_node_bin_from("/tmp/agentctl-test", Some("/usr/bin/node"), false);

    assert_eq!(result.unwrap(), "/usr/bin/node");
}

#[test]
fn errors_when_bundled_binary_missing_and_no_env_override() {
    let err = resolve_node_bin_from("/tmp/agentctl-test-nonexistent", None, false)
        .expect_err("should error when bundled node is missing");

    assert!(err.message().contains("bundled Node runtime not found"));
    match err {
        RuntimeError::NodeNotFound(p) => assert_eq!(p, "/tmp/agentctl-test-nonexistent/node/bin/node"),
    }
}

#[test]
fn bundled_runtime_is_used_when_present() {
    assert_eq!(resolve_node_bin_from("/opt/x", None, true).unwrap(), "/opt/x/node/bin/node");
    assert_eq!(bundled_node_path("/opt/x/"), "/opt/x/node/bin/node");
}
