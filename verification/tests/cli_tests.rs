use devflow::cli::{
    connect_summary, gui_candidates, init_project_name, is_mcp_stdio, link_path, log_filter, status_label, McpCommands,
    agent_matches, completion_shell, dispatch, filter_description, generate_shell_hook, get_known_host_targets, gui_url,
    indent_lines, init_template, link_dirs, mcp_logs_mode, uninstall_message, urlencoding_simple, Cli, CliAction, Commands,
    CompletionShell, DispatchPlan, McpLogsMode,
};
use devflow::config::DevflowConfig;

fn cli(command: Option<Commands>, gui: bool, web: bool) -> Cli {
    Cli { command, dir: None, gui, web, verbose: false }
}

#[test]
fn dispatch_routes_invocations() {
    match dispatch(cli(None, false, true), "/w", true) {
        DispatchPlan::Act(CliAction::LaunchGui { dir, port, open_browser }) => {
            assert_eq!((dir.as_str(), port, open_browser), ("/w", 9292, true));
        },
        _ => panic!("expected the companion"),
    }
    match dispatch(cli(None, false, false), "/w", true) {
        DispatchPlan::Act(CliAction::LaunchTui { dir }) => assert_eq!(dir, "/w"),
        _ => panic!("expected the hub"),
    }
    assert!(matches!(dispatch(cli(None, false, false), "/w", false), DispatchPlan::Hub));
    match dispatch(cli(Some(Commands::Open { path: "proj".to_string(), port: 8080, web: false }), false, false), "/w", true) {
        DispatchPlan::OpenGui { path, port, open_browser } => assert_eq!((path.as_str(), port, open_browser), ("proj", 8080, false)),
        _ => panic!("expected the companion on a path"),
    }
    assert!(matches!(dispatch(cli(Some(Commands::Reload), false, false), "/w", true), DispatchPlan::Run(Commands::Reload)));
}

#[test]
fn init_writes_the_framework_scaffold() {
    assert_eq!(init_template(Some("RN"), None, "app"), DevflowConfig::template_react_native("app"));
    assert_eq!(init_template(Some("MacOS"), None, "app"), DevflowConfig::template_swift("app"));
    assert_eq!(init_template(None, None, "app"), DevflowConfig::template_generic("app"));
    let android = init_template(None, Some("android"), "svc");
    assert!(android.contains("name = \"svc\"\nplatform = \"android\"\nframework = \"generic\""));
    assert!(!android.contains("desktop"));
    assert_eq!(
        init_template(None, Some("android"), "svc"),
        DevflowConfig::template_generic("svc").replace("platform = \"desktop\"", "platform = \"android\"")
    );
    let apple = init_template(Some("flutter"), Some("apple"), "f");
    assert!(apple.contains("platform = \"apple\"\nframework = \"flutter\""));
}

#[test]
fn shell_hooks_and_completions() {
    assert!(generate_shell_hook("FISH").starts_with("# DevFlow Shell Integration for Fish\nalias dfr=\"devflow reload\""));
    assert!(generate_shell_hook("bash").contains("alias dflog='devflow logs -f'"));
    assert!(generate_shell_hook("nu").starts_with("# DevFlow Shell Integration for Zsh / Default"));
    assert_eq!(completion_shell("Pwsh"), Ok(CompletionShell::PowerShell));
    assert_eq!(completion_shell("zsh"), Ok(CompletionShell::Zsh));
    assert_eq!(completion_shell("tcsh"), Err("Unsupported shell 'tcsh'. Supported: bash, zsh, fish, powershell, elvish".to_string()));
}

#[test]
fn links_and_addresses() {
    assert_eq!(link_dirs(None, Some("/h")), vec!["/usr/local/bin", "/h/.local/bin", "/h/.cargo/bin", "/h/bin"]);
    assert_eq!(link_dirs(None, None)[1], "./.local/bin");
    assert_eq!(link_dirs(Some("/opt/bin"), Some("/h")), vec!["/opt/bin"]);
    assert_eq!(uninstall_message(&vec![]), "No existing 'devflow' symlink found in candidate PATH directories.");
    assert_eq!(uninstall_message(&vec!["/a/devflow".to_string(), "/b/devflow".to_string()]), "Removed 'devflow' symlink from: /a/devflow, /b/devflow");
    assert_eq!(urlencoding_simple("/a b/c"), "%2Fa%20b%2Fc");
    assert_eq!(gui_url(9292, "/x y"), "http://localhost:9292?dir=%2Fx%20y");
}

#[test]
fn mcp_hosts_and_agents() {
    let hosts = get_known_host_targets("/h");
    assert_eq!(hosts[0].path, "/h/.cursor/mcp.json");
    assert_eq!(hosts[4].server_key, "servers");
    assert!(agent_matches("all", "Cursor (Global)"));
    assert!(agent_matches("code", "VS Code (Workspace)"));
    assert!(agent_matches("agy", "Antigravity (Global)"));
    assert!(agent_matches("cursor", "Cursor (Workspace)"));
    assert!(!agent_matches("cursor", "VS Code (Workspace)"));
    assert!(agent_matches("CURSOR", "Cursor (Global)"));
    assert!(agent_matches("VSCode", "VS Code (Workspace)"));
}

#[test]
fn mcp_log_listing_pieces() {
    assert!(matches!(mcp_logs_mode(true, &None, &Some("x".to_string())), McpLogsMode::ClearAll));
    match mcp_logs_mode(false, &None, &Some("x".to_string())) {
        McpLogsMode::Delete(id) => assert_eq!(id, "x"),
        _ => panic!("expected a deletion"),
    }
    assert!(matches!(mcp_logs_mode(false, &None, &None), McpLogsMode::List));
    assert_eq!(filter_description(&Some("s".to_string()), &None, &Some("t".to_string())), " | session: s, tool: t");
    assert_eq!(filter_description(&None, &None, &None), "");
    assert_eq!(indent_lines("{\n  \"a\": 1\n}"), "       {\n         \"a\": 1\n       }");
}

#[test]
fn small_command_line_choices() {
    let stdio = cli(Some(Commands::Mcp { command: McpCommands::Serve { http: false, port: 9090, token: None, agent: None } }), false, false);
    assert!(is_mcp_stdio(&stdio));
    let http = cli(Some(Commands::Mcp { command: McpCommands::Serve { http: true, port: 9090, token: None, agent: None } }), false, false);
    assert!(!is_mcp_stdio(&http));
    assert!(!is_mcp_stdio(&cli(Some(Commands::Reload), false, false)));
    assert_eq!(log_filter(true), "debug");
    assert_eq!(log_filter(false), "warn");
    assert_eq!(init_project_name(Some("shop")), "shop");
    assert_eq!(init_project_name(None), "my-app");
    assert_eq!(link_path("/usr/local/bin"), "/usr/local/bin/devflow");
    assert_eq!(status_label("success"), "\u{2713} SUCCESS");
    assert_eq!(status_label("error"), "\u{2717} FAILED");
    assert_eq!(connect_summary(2, "all"), "Connected 2 configuration file(s). Restart your AI agent to activate DevFlow MCP tools.");
    assert_eq!(connect_summary(0, "zed"), "No matching AI hosts found for 'zed'. Available: cursor, antigravity, vscode, all");
    let (apps, bins) = gui_candidates(Some("/home/u"), true);
    assert_eq!(apps, vec!["/Applications/DevFlow.app", "/home/u/Applications/DevFlow.app"]);
    assert_eq!(bins, vec!["/home/u/.local/bin/devflow-gui", "/usr/local/bin/devflow-gui"]);
    let (apps, bins) = gui_candidates(None, false);
    assert!(apps.is_empty());
    assert_eq!(bins, vec!["", "/usr/local/bin/devflow-gui"]);
}

#[test]
fn every_shell_hook_has_the_aliases_and_ignores_case() {
    for shell in ["fish", "Bash", "zsh", "nu", ""] {
        let h = generate_shell_hook(shell);
        for alias in ["alias dfr=", "alias dfrs=", "alias dflog=", "alias dfopen="] {
            assert!(h.contains(alias), "{} lacks {}", shell, alias);
        }
        assert_eq!(h, generate_shell_hook(&shell.to_lowercase()));
    }
    assert_eq!(generate_shell_hook("PowerShell"), generate_shell_hook("zsh"));
}

#[test]
fn non_ascii_shell_names_get_the_default_script_with_the_aliases() {
    let h = generate_shell_hook("Ünïx");
    assert_eq!(h, generate_shell_hook("zsh"));
    assert!(h.contains("alias dfopen="));
}
