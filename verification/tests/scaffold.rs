use agentctl::app::commands::init::{confirms_overwrite, npm_install_args};
use agentctl::domain::embeds::{agents_dir, copy_kit, gitignore_paths, gitkeep_pattern, opencode_config_destination};
use agentctl::domain::opencode_config::config_path;
use agentctl::domain::settings::{opencode_base_url, settings_path, GitConfig, OpencodeConfig, Settings, WorkflowConfig};

#[test]
fn copy_kit_skips_present_files_unless_reinitializing() {
    let files = vec!["settings.json".to_string(), "workflows/default.ts".to_string()];
    let fresh = copy_kit("/p", false, &files, &vec![true, false]);
    assert_eq!(fresh.len(), 1);
    assert_eq!(fresh[0].source, "workflows/default.ts");
    assert_eq!(fresh[0].target, "/p/.agents/workflows/default.ts");
    let reinit = copy_kit("/p", true, &files, &vec![true, false]);
    assert_eq!(reinit.len(), 2);
    assert_eq!(reinit[0].target, "/p/.agents/settings.json");
}

#[test]
fn scaffold_paths() {
    assert_eq!(agents_dir("/p"), "/p/.agents");
    let (sample, target) = gitignore_paths("/p/.agents");
    assert_eq!(sample, "/p/.agents/.example.gitignore");
    assert_eq!(target, "/p/.agents/.gitignore");
    assert_eq!(gitkeep_pattern("/p/.agents"), "/p/.agents/**/.gitkeep");
    assert_eq!(opencode_config_destination("/p"), "/p/.opencode/opencode.json");
    assert_eq!(config_path("/p"), "/p/.opencode/opencode.json");
    assert_eq!(settings_path("/p"), "/p/.agents/settings.json");
    assert_eq!(npm_install_args("/p"), vec!["install", "--prefix", "/p/.agents/.clankerflow/lib"]);
}

#[test]
fn overwrite_confirmation() {
    assert!(confirms_overwrite("y\n"));
    assert!(confirms_overwrite("  YeS "));
    assert!(!confirms_overwrite("no"));
    assert!(!confirms_overwrite(""));
    assert!(!confirms_overwrite("yess"));
}

#[test]
fn settings_server_url() {
    let mut settings = Settings {
        git: GitConfig {
            user_name: "Alex".to_string(),
            user_email: "alex@example.com".to_string(),
            default_branch: "main".to_string(),
        },
        workflows: WorkflowConfig { default: "duos".to_string() },
        opencode: None,
    };
    assert_eq!(settings.server_url(), None);
    settings.opencode = Some(OpencodeConfig { server_url: Some("http://10.0.0.5:8080".to_string()) });
    assert_eq!(settings.server_url(), Some("http://10.0.0.5:8080"));
}

#[test]
fn opencode_url_comes_from_settings_or_default() {
    let mut settings = Settings {
        git: GitConfig {
            user_name: "Alex".to_string(),
            user_email: "alex@example.com".to_string(),
            default_branch: "main".to_string(),
        },
        workflows: WorkflowConfig { default: "duos".to_string() },
        opencode: None,
    };
    assert_eq!(opencode_base_url(None), "http://127.0.0.1:4096");
    assert_eq!(opencode_base_url(Some(&settings)), "http://127.0.0.1:4096");
    settings.opencode = Some(OpencodeConfig { server_url: None });
    assert_eq!(opencode_base_url(Some(&settings)), "http://127.0.0.1:4096");
    settings.opencode = Some(OpencodeConfig { server_url: Some("http://10.0.0.5:8080".to_string()) });
    assert_eq!(opencode_base_url(Some(&settings)), "http://10.0.0.5:8080");
}
