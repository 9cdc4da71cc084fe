use devflow::config::{DevflowConfig, ProjectConfig};
use devflow::platform::Platform;
use devflow::project::{is_skipped_dir, ChildProject, DetectedFramework, Project, ProjectMarkers};
use std::collections::HashMap;

fn markers() -> ProjectMarkers {
    ProjectMarkers {
        has_gradle: false,
        has_package_swift: false,
        has_pubspec: false,
        package_json: None,
        has_tauri: false,
        has_cargo_toml: false,
    }
}

fn config(name: &str, platform: &str, framework: &str) -> DevflowConfig {
    DevflowConfig {
        project: ProjectConfig {
            name: name.to_string(),
            platform: platform.to_string(),
            framework: framework.to_string(),
            package_id: None,
        },
        build: None,
        install: None,
        launch: None,
        logs: None,
        watch: None,
        env: HashMap::new(),
    }
}

#[test]
fn markers_decide_in_order() {
    let mut m = markers();
    m.has_cargo_toml = true;
    m.has_tauri = true;
    let (fw, p, name) = Project::infer_from_filesystem(&m, Some("desk"));
    assert_eq!((fw, p, name.as_str()), (DetectedFramework::Tauri, Platform::Desktop, "desk"));
    m.package_json = Some("{\"dependencies\": {\"react-native\": \"0.74\"}}".to_string());
    assert_eq!(Project::infer_from_filesystem(&m, None).0, DetectedFramework::ReactNative);
    m.has_pubspec = true;
    assert_eq!(Project::infer_from_filesystem(&m, None).0, DetectedFramework::Flutter);
    m.has_package_swift = true;
    assert_eq!(Project::infer_from_filesystem(&m, None).1, Platform::Macos);
    m.has_gradle = true;
    let (fw, p, name) = Project::infer_from_filesystem(&m, None);
    assert_eq!((fw, p, name.as_str()), (DetectedFramework::KotlinAndroid, Platform::Android, "app"));
    let (fw, p, _) = Project::infer_from_filesystem(&markers(), None);
    assert_eq!((fw, p), (DetectedFramework::Generic, Platform::Generic));
    let mut web = markers();
    web.package_json = Some("{\"dependencies\": {\"react\": \"18\"}}".to_string());
    assert_eq!(Project::infer_from_filesystem(&web, None).0, DetectedFramework::Generic);
}

#[test]
fn configuration_wins_over_markers() {
    let mut m = markers();
    m.has_gradle = true;
    let p = Project::detect("/w/app".to_string(), Some(config("Shop", "iOS", "XCode")), &m, Some("app"));
    assert_eq!(p.root_dir, "/w/app");
    assert_eq!(p.name, "Shop");
    assert_eq!(p.detected_framework, DetectedFramework::XcodeProject);
    assert_eq!(p.detected_platform, Platform::Ios);
    assert!(p.config.is_some());
    let q = Project::detect("/w/app".to_string(), None, &m, Some("app"));
    assert_eq!(q.detected_framework, DetectedFramework::KotlinAndroid);
    assert!(q.config.is_none());
}

#[test]
fn framework_names_from_configuration() {
    assert_eq!(DetectedFramework::from_config_name("RN"), DetectedFramework::ReactNative);
    assert_eq!(DetectedFramework::from_config_name("cargo"), DetectedFramework::RustCargo);
    assert_eq!(DetectedFramework::from_config_name("swiftpm"), DetectedFramework::SwiftPM);
    assert_eq!(DetectedFramework::from_config_name("something"), DetectedFramework::Generic);
    assert_eq!(DetectedFramework::RustCargo.as_str(), "rust");
}

#[test]
fn effective_configuration_without_a_file() {
    let p = Project {
        root_dir: "/w/x".to_string(),
        name: "X".to_string(),
        detected_framework: DetectedFramework::Flutter,
        detected_platform: Platform::Android,
        config: None,
    };
    let c = p.effective_config();
    assert_eq!(c.project.name, "X");
    assert_eq!(c.project.platform, "android");
    assert_eq!(c.project.framework, "flutter");
    assert!(c.build.is_none() && c.launch.is_none());
    let w = c.watch.unwrap();
    assert_eq!(w.paths, vec!["src".to_string()]);
    assert_eq!(w.extensions, vec!["rs", "kt", "swift", "ts", "js"]);
    assert_eq!(w.action, "reload");
    assert_eq!(w.debounce_ms, 300);
    let own = Project { config: Some(config("Y", "desktop", "tauri")), ..p };
    assert_eq!(own.effective_config().project.name, "Y");
}

fn child(dir: &str, project: Option<Project>, has_config: bool) -> ChildProject {
    ChildProject { dir_name: dir.to_string(), path: format!("/ws/{}", dir), project, has_config_file: has_config }
}

fn project(name: &str, fw: DetectedFramework, platform: Platform) -> Project {
    Project { root_dir: String::new(), name: name.to_string(), detected_framework: fw, detected_platform: platform, config: None }
}

#[test]
fn workspace_targets_root_then_children() {
    let root = project("My App", DetectedFramework::SwiftPM, Platform::Macos);
    let children = vec![
        child("android", Some(project("My App", DetectedFramework::KotlinAndroid, Platform::Android)), false),
        child("docs", Some(project("docs", DetectedFramework::Generic, Platform::Generic)), false),
        child("tools", Some(project("tools", DetectedFramework::Generic, Platform::Generic)), true),
        child("node_modules", Some(project("nm", DetectedFramework::ReactNative, Platform::Android)), false),
        child("broken", None, true),
    ];
    let t = Project::discover_workspace_targets("/ws", Some(&root), false, &children);
    let ids: Vec<&str> = t.iter().map(|x| x.id.as_str()).collect();
    assert_eq!(ids, vec!["my-app-root", "my-app-android", "tools-tools"]);
    assert_eq!(t[0].name, "My App");
    assert!(t[0].is_default);
    assert_eq!(t[1].name, "My App (android)");
    assert_eq!(t[1].path, "/ws/android");
    assert_eq!(t[1].framework, "kotlin");
    assert!(!t[1].is_default);
}

#[test]
fn first_child_is_default_without_runnable_root() {
    let root = project("ws", DetectedFramework::Generic, Platform::Generic);
    let children = vec![child("ios", Some(project("App", DetectedFramework::XcodeProject, Platform::Ios)), false)];
    let t = Project::discover_workspace_targets("/ws", Some(&root), false, &children);
    assert_eq!(t.len(), 1);
    assert!(t[0].is_default);
    let with_config = Project::discover_workspace_targets("/ws", Some(&root), true, &children);
    assert_eq!(with_config[0].id, "ws-root");
    assert!(!with_config[1].is_default);
    assert!(is_skipped_dir(".git") && is_skipped_dir("target") && !is_skipped_dir("app"));
}
