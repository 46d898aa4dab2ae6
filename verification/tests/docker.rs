use agentctl::domain::docker::{compose_args, compose_file_path, ComposeAction, Docker, DockerError};

#[test]
fn compose_file_path_returns_correct_path() {
    let path = compose_file_path("/home/user/project");

    assert_eq!(path, "/home/user/project/.agents/.agentctl/docker/agent.docker-compose.yaml");
}

#[test]
fn compose_args_contains_file_flag_and_path() {
    let args = compose_args("/home/user/project");

    assert_eq!(args.len(), 2);
    assert_eq!(args[0], "-f");
    assert!(args[1].ends_with("agent.docker-compose.yaml"));
}

#[test]
fn compose_commands_carry_subcommand_and_codebase() {
    let build = Docker::build("/p", "ID");
    assert_eq!(build.action, ComposeAction::Build);
    assert_eq!(build.args, vec!["compose", "-f", "/p/.agents/.agentctl/docker/agent.docker-compose.yaml", "build"]);
    assert_eq!(build.codebase_id, "ID");
    assert_eq!(Docker::up("/p", "ID").args[3..], ["up".to_string(), "-d".to_string()]);
    assert_eq!(Docker::down("/p", "ID").args[3..], ["down".to_string()]);
    assert_eq!(
        Docker::is_running("/p", "ID").args[3..],
        ["ps".to_string(), "-q".to_string(), "--status=running".to_string()]
    );
    assert_eq!(Docker::get_container_id("/p", "ID").args.last().unwrap(), "agent");
}

#[test]
fn ensure_running_builds_and_starts_only_when_stopped() {
    let stopped = Docker::ensure_running("/p", "ID", false);
    let actions: Vec<ComposeAction> = stopped.iter().map(|c| c.action).collect();
    assert_eq!(actions, vec![ComposeAction::Build, ComposeAction::Up, ComposeAction::ContainerId]);

    let running = Docker::ensure_running("/p", "ID", true);
    assert_eq!(running.len(), 1);
    assert_eq!(running[0].action, ComposeAction::ContainerId);
}

#[test]
fn compose_output_is_read_after_trimming() {
    assert!(Docker::running_from_output("abc123\n"));
    assert!(!Docker::running_from_output("  \n"));
    assert_eq!(Docker::container_id_from_output(" abc123\n").unwrap(), "abc123");
    assert_eq!(Docker::container_id_from_output("\n").unwrap_err(), DockerError::NoRunningContainer);
}

#[test]
fn compose_failures_name_the_step() {
    assert_eq!(Docker::outcome(ComposeAction::Build, false), Err(DockerError::BuildFailed));
    assert_eq!(Docker::outcome(ComposeAction::Up, false), Err(DockerError::UpFailed));
    assert_eq!(Docker::outcome(ComposeAction::Down, false), Err(DockerError::DownFailed));
    assert_eq!(Docker::outcome(ComposeAction::Build, true), Ok(()));
    assert_eq!(Docker::outcome(ComposeAction::Ps, false), Ok(()));
    assert_eq!(DockerError::BuildFailed.message(), "docker compose build failed");
    assert_eq!(DockerError::UpFailed.message(), "docker compose up failed");
    assert_eq!(DockerError::DownFailed.message(), "docker compose down failed");
    assert_eq!(DockerError::NoRunningContainer.message(), "no running agent container found");
}
