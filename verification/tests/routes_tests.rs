use devflow::platform::Platform;
use devflow::registry::KnownProject;
use devflow::project::ProjectTarget;
use devflow::routes::{
    clean_removal_input, clean_workspace_input, expand_tilde, fallback_route, log_deletion, logs_query_filter, mcp_endpoint,
    asset_path, picked_folder, primary_of, unresolved_workspace_error, workspace_candidates, workspace_name, AssetRoute, DeleteMcpLogsQuery, LogDeletion, McpLogsQuery,
};

#[test]
fn typed_workspace_paths_are_cleaned() {
    assert_eq!(clean_workspace_input("  \"file:///Users/me/proj/\"  "), Some("/Users/me/proj".to_string()));
    assert_eq!(clean_workspace_input(" 'proj' "), Some("proj".to_string()));
    assert_eq!(clean_workspace_input("  ''  "), None);
    assert_eq!(clean_workspace_input("///"), None);
    assert_eq!(clean_removal_input(" \"file:///a/b/\" "), "/a/b/");
}

#[test]
fn tilde_means_home() {
    assert_eq!(expand_tilde("~/dev", Some("/home/u")), "/home/u/dev");
    assert_eq!(expand_tilde("~", Some("/home/u")), "/home/u");
    assert_eq!(expand_tilde("~x", Some("/home/u")), "~x");
    assert_eq!(expand_tilde("~/dev", None), "~/dev");
}

#[test]
fn workspace_lookup_order() {
    let known = vec![
        KnownProject { name: "proj".to_string(), path: "/p/proj/".to_string(), platform: Platform::Android, framework: "kotlin".to_string(), last_opened: 1 },
        KnownProject { name: "other".to_string(), path: "/q".to_string(), platform: Platform::Desktop, framework: "tauri".to_string(), last_opened: 2 },
        KnownProject { name: "x".to_string(), path: "/P/PROJ".to_string(), platform: Platform::Desktop, framework: "tauri".to_string(), last_opened: 3 },
    ];
    assert_eq!(workspace_candidates("Proj", Some("/h"), Some("/cwd"), &known), vec!["Proj", "/cwd/Proj", "/p/proj/"]);
    assert_eq!(workspace_candidates("/p/proj", None, None, &known), vec!["/p/proj", "/p/proj/", "/P/PROJ"]);
    assert_eq!(workspace_name(None), "Workspace");
}

#[test]
fn unmatched_requests() {
    match fallback_route("GET", "/api/x", true) {
        AssetRoute::ApiNotFound(m) => assert_eq!(m, "API route not found: GET /api/x"),
        _ => panic!("expected not found"),
    }
    assert!(matches!(fallback_route("POST", "/app.js", false), AssetRoute::MethodNotAllowed));
    match fallback_route("GET", "//assets/a.js", true) {
        AssetRoute::Serve(a) => assert_eq!(a, "assets/a.js"),
        _ => panic!("expected an asset"),
    }
    match fallback_route("HEAD", "/", true) {
        AssetRoute::Serve(a) => assert_eq!(a, "index.html"),
        _ => panic!("expected the index"),
    }
}

#[test]
fn mcp_log_queries() {
    let q = McpLogsQuery { limit: None, offset: None, session_id: None, client: None, agent: Some("Cursor".to_string()), tool_name: None, status: None, search: None };
    assert_eq!(logs_query_filter(&q), (100, Some("Cursor".to_string())));
    let d = DeleteMcpLogsQuery { id: None, session_id: Some("s".to_string()) };
    assert!(matches!(log_deletion(&d), LogDeletion::Session(s) if s == "s"));
    assert_eq!(mcp_endpoint(9292), "http://localhost:9292/rpc");
}

#[test]
fn picked_folder_is_trimmed_or_cancelled() {
    assert_eq!(picked_folder("/Users/me/Dev/app/\n").as_deref(), Some("/Users/me/Dev/app"));
    assert_eq!(picked_folder("  \n"), None);
    assert_eq!(picked_folder("/"), None);
}

#[test]
fn workspace_answers() {
    use_targets();
    assert_eq!(unresolved_workspace_error("~/nowhere"), "Directory does not exist or cannot be resolved: ~/nowhere");
    assert_eq!(asset_path(""), "index.html");
    assert_eq!(asset_path("assets/app.js"), "assets/app.js");
}

fn use_targets() {
    let t = vec![ProjectTarget {
        id: "a-root".to_string(),
        name: "A".to_string(),
        path: "/a".to_string(),
        platform: Platform::Android,
        framework: "kotlin".to_string(),
        is_default: true,
    }];
    assert_eq!(primary_of(&t), (Platform::Android, "kotlin".to_string()));
    assert_eq!(primary_of(&Vec::new()), (Platform::Generic, "generic".to_string()));
}
