use agentctl::app::types::RuntimeEnv;
use agentctl::db::entities::workflow_run::WorkflowEnv;
use agentctl::domain::runner::env::{
    container_runner_args, host_runner_command, parse_runtime_env, runner_entry_path, runner_ts_path, tsx_bin_path,
};
use agentctl::domain::runner::{worker_command, WorkflowArgs};

#[test]
fn parse_runtime_env_maps_host() {
    assert!(matches!(parse_runtime_env(RuntimeEnv::Host), WorkflowEnv::Host));
}

#[test]
fn parse_runtime_env_maps_container() {
    assert!(matches!(parse_runtime_env(RuntimeEnv::Container), WorkflowEnv::Container));
}

#[test]
fn host_runner_uses_project_tsx_without_bundle() {
    let (program, args) = host_runner_command("/p", None);
    assert_eq!(program, "/p/.agents/.agentkata/lib/node_modules/.bin/tsx");
    assert_eq!(args, vec!["--tsconfig", "/p/.agents/tsconfig.json", "/p/.agents/.agentkata/lib/src/runner.ts"]);
    assert_eq!(tsx_bin_path("/p"), program);
    assert_eq!(runner_ts_path("/p"), "/p/.agents/.agentkata/lib/src/runner.ts");
    assert_eq!(runner_entry_path("/p", true), None);
}

#[test]
fn host_runner_uses_node_with_bundle() {
    let (program, args) = host_runner_command("/p", Some("/b/runner.cjs"));
    assert_eq!(program, "node");
    assert_eq!(args, vec!["/b/runner.cjs"]);
}

#[test]
fn container_runner_exec_line() {
    let args = container_runner_args("c0ffee", 40123);
    assert_eq!(args[0], "exec");
    assert_eq!(args[2], "AGENTKATA_IPC_PORT=40123");
    assert_eq!(args[5], "c0ffee");
    assert_eq!(args.len(), 10);
}

#[test]
fn worker_command_quotes_and_orders_arguments() {
    let args = WorkflowArgs {
        project_root: "/p",
        workflow_name: "du\"os",
        workflow_path: "/p/.agents/workflows/duos.ts",
        env: RuntimeEnv::Container,
        yolo: true,
    };
    assert_eq!(
        worker_command(&args, -7, "/bin/agentctl"),
        "\"/bin/agentctl\" _run --run-id -7 --workflow-name \"du\\\"os\" --workflow-path \"/p/.agents/workflows/duos.ts\" --env container --project-root \"/p\" --yolo"
    );
    let quiet = WorkflowArgs { yolo: false, ..args };
    assert!(!worker_command(&quiet, 1, "x").ends_with("--yolo"));
}
