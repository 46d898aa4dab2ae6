use agentctl::app::cli::{resolve_work_flags, run, Cli, CliError, Commands, Dispatch};
use agentctl::app::types::{ContainmentCommands, MakeCommands, RuntimeEnv};

#[test]
fn containment_resolves_to_container_and_yolo() {
    let (env, yolo) = resolve_work_flags(RuntimeEnv::Host, false, true).unwrap();

    assert_eq!(env, RuntimeEnv::Container);
    assert!(yolo);
}

#[test]
fn containment_conflicts_with_explicit_env() {
    let result = resolve_work_flags(RuntimeEnv::Container, false, true);

    assert!(result.is_err());
    assert!(result.unwrap_err().message().contains("--containment"));
}

#[test]
fn containment_conflicts_with_explicit_yolo() {
    let result = resolve_work_flags(RuntimeEnv::Host, true, true);

    assert!(result.is_err());
    assert!(result.unwrap_err().message().contains("--containment"));
}

#[test]
fn flags_without_containment_stand_as_given() {
    assert_eq!(resolve_work_flags(RuntimeEnv::Container, true, false).unwrap(), (RuntimeEnv::Container, true));
    assert_eq!(resolve_work_flags(RuntimeEnv::Host, false, false).unwrap(), (RuntimeEnv::Host, false));
}

#[test]
fn resolved_flags_resolve_to_themselves() {
    let (env, yolo) = resolve_work_flags(RuntimeEnv::Host, false, true).unwrap();
    assert_eq!(resolve_work_flags(env, yolo, false).unwrap(), (env, yolo));
}

#[test]
fn run_dispatches_work_with_resolved_flags() {
    let cli = Cli {
        command: Commands::Work { name: "duos".to_string(), env: RuntimeEnv::Host, yolo: false, containment: true },
    };
    match run(cli).unwrap() {
        Dispatch::Work { name, env, yolo } => {
            assert_eq!(name, "duos");
            assert_eq!(env, RuntimeEnv::Container);
            assert!(yolo);
        }
        other => panic!("unexpected dispatch {other:?}"),
    }
}

#[test]
fn run_refuses_conflicting_work_flags() {
    let cli = Cli {
        command: Commands::Work { name: "duos".to_string(), env: RuntimeEnv::Container, yolo: false, containment: true },
    };
    assert_eq!(run(cli).unwrap_err(), CliError::ContainmentConflict);
}

#[test]
fn run_dispatches_other_commands() {
    assert!(matches!(run(Cli { command: Commands::Init }).unwrap(), Dispatch::Init));
    assert!(matches!(run(Cli { command: Commands::Manage }).unwrap(), Dispatch::Manage));
    assert!(matches!(
        run(Cli { command: Commands::Make { command: MakeCommands::Ticket } }).unwrap(),
        Dispatch::MakeTicket
    ));
    match run(Cli { command: Commands::Make { command: MakeCommands::Worktree { branch: "feat/x".to_string() } } })
        .unwrap()
    {
        Dispatch::MakeWorktree { branch } => assert_eq!(branch, "feat/x"),
        other => panic!("unexpected dispatch {other:?}"),
    }
    assert!(matches!(
        run(Cli { command: Commands::Containment { command: ContainmentCommands::Up } }).unwrap(),
        Dispatch::ContainmentUp
    ));
    assert!(matches!(
        run(Cli { command: Commands::Containment { command: ContainmentCommands::Down } }).unwrap(),
        Dispatch::ContainmentDown
    ));
}

#[test]
fn runtime_env_names() {
    assert_eq!(RuntimeEnv::Host.as_str(), "host");
    assert_eq!(RuntimeEnv::Container.as_str(), "container");
}
