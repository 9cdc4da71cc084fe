use devflow::adapters::{
    app_path_candidates, build_outcome, command_parts, flutter_build_command, generic_build_result, generic_launch_plan, macos_app_plist, metro_reload_request, rn_reload_step, swift_artifact, swift_build_args, tauri_build_command, tauri_needs_restart, xcode_bundle_id, xcode_destination, AdapterDetection, AdapterKind, FlutterFrameworkAdapter, FrameworkRegistry, LaunchPlan, ReactNativeFrameworkAdapter, ReloadStep, XcodeAdapter,
};
use devflow::config::{BuildConfig, DevflowConfig, LaunchConfig, ProjectConfig};
use devflow::platform::{Device, DeviceState, Platform};
use devflow::project::{DetectedFramework, Project};
use std::collections::HashMap;

fn config(build: Option<BuildConfig>, launch: Option<LaunchConfig>, framework: &str) -> DevflowConfig {
    DevflowConfig {
        project: ProjectConfig { name: "demo".to_string(), platform: "desktop".to_string(), framework: framework.to_string(), package_id: None },
        build,
        install: None,
        launch,
        logs: None,
        watch: None,
        env: HashMap::new(),
    }
}

fn none_found() -> AdapterDetection {
    AdapterDetection { xcode: false, swift: false, kotlin: false, react_native: false, flutter: false, tauri: false }
}

#[test]
fn configured_framework_picks_the_adapter() {
    let reg = FrameworkRegistry::new();
    assert_eq!(reg.adapters.len(), 7);
    let mut p = Project { root_dir: "/p".to_string(), name: "demo".to_string(), detected_framework: DetectedFramework::Generic, detected_platform: Platform::Desktop, config: Some(config(None, None, "Apple")) };
    assert_eq!(reg.select_adapter(&p, &none_found()), AdapterKind::Xcode);
    p.config = Some(config(None, None, "RN"));
    assert_eq!(reg.select_adapter(&p, &none_found()), AdapterKind::ReactNative);
    p.config = Some(config(None, None, "cobol"));
    let mut found = none_found();
    found.kotlin = true;
    assert_eq!(reg.select_adapter(&p, &found), AdapterKind::Generic);
}

#[test]
fn detection_prefers_the_most_specific_adapter() {
    let reg = FrameworkRegistry::new();
    let p = Project { root_dir: "/p".to_string(), name: "demo".to_string(), detected_framework: DetectedFramework::Generic, detected_platform: Platform::Desktop, config: None };
    let mut found = none_found();
    found.kotlin = true;
    found.xcode = true;
    assert_eq!(reg.select_adapter(&p, &found), AdapterKind::Kotlin);
    found.tauri = true;
    assert_eq!(reg.select_adapter(&p, &found), AdapterKind::Tauri);
    assert_eq!(reg.select_adapter(&p, &none_found()), AdapterKind::Generic);
    assert_eq!(AdapterKind::ReactNative.name(), "react-native");
}

#[test]
fn content_based_detection() {
    assert!(FlutterFrameworkAdapter::detect(Some("dependencies:\n  flutter:\n    sdk: flutter\n")));
    assert!(!FlutterFrameworkAdapter::detect(Some("name: dart_only\n")));
    assert!(!FlutterFrameworkAdapter::detect(None));
    assert!(ReactNativeFrameworkAdapter::detect(true, None));
    assert!(ReactNativeFrameworkAdapter::detect(false, Some("{\"dependencies\":{\"react-native\":\"0.74\"}}")));
    assert!(!ReactNativeFrameworkAdapter::detect(false, Some("{\"dependencies\":{\"react\":\"18\"}}")));
}

#[test]
fn build_outcomes() {
    let ok = build_outcome(true, 3, Some("a".to_string()), "o".to_string(), "e".to_string(), "X failed: ");
    assert!(ok.success && ok.error_message.is_none() && ok.artifact_path == Some("a".to_string()));
    let bad = build_outcome(false, 3, Some("a".to_string()), "o".to_string(), "boom".to_string(), "Tauri build failed: ");
    assert_eq!(bad.error_message, Some("Tauri build failed: boom".to_string()));
    assert_eq!(bad.artifact_path, None);
}

#[test]
fn tauri_build_commands() {
    let plain = config(None, None, "tauri");
    assert_eq!(tauri_build_command(&plain, true, false), "cargo build --manifest-path src-tauri/Cargo.toml");
    assert_eq!(tauri_build_command(&plain, true, true), "cargo build --manifest-path src-tauri/Cargo.toml --release");
    assert_eq!(tauri_build_command(&plain, false, true), "npm run tauri build");
    let own = config(Some(BuildConfig { command: "make app".to_string(), artifact: None, clean_command: None, working_dir: None }), None, "tauri");
    assert_eq!(tauri_build_command(&own, true, true), "make app");
    assert_eq!(command_parts("  cargo   build --release "), ("cargo".to_string(), vec!["build".to_string(), "--release".to_string()]));
    assert_eq!(command_parts("   "), ("cargo".to_string(), Vec::<String>::new()));
}

#[test]
fn tauri_restarts_only_for_native_changes() {
    assert!(tauri_needs_restart(&vec!["src/App.tsx".to_string(), "src-tauri/src/main.rs".to_string()]));
    assert!(tauri_needs_restart(&vec!["src-tauri/Cargo.toml".to_string()]));
    assert!(!tauri_needs_restart(&vec!["src/App.tsx".to_string(), "src-tauri/.rs".to_string()]));
    assert!(!tauri_needs_restart(&vec![]));
}

#[test]
fn flutter_builds_for_the_target_platform() {
    let plain = config(None, None, "flutter");
    assert_eq!(flutter_build_command(&plain, None), "flutter build apk --debug");
    assert_eq!(flutter_build_command(&plain, Some(Platform::Ios)), "flutter build ios --simulator --debug");
    assert_eq!(flutter_build_command(&plain, Some(Platform::Desktop)), "flutter build macos --debug");
    assert_eq!(flutter_build_command(&plain, Some(Platform::Generic)), "flutter build apk --debug");
}

#[test]
fn react_native_reload_steps() {
    assert!(matches!(rn_reload_step(true, Platform::Android, "e1"), ReloadStep::Done));
    match rn_reload_step(false, Platform::Android, "e1") {
        ReloadStep::KeyEvent(a) => assert_eq!(a, vec!["-s", "e1", "shell", "input", "text", "rr"]),
        _ => panic!("expected the key sequence"),
    }
    assert!(matches!(rn_reload_step(false, Platform::Ios, "x"), ReloadStep::Restart));
    assert_eq!(metro_reload_request(8081), "GET /reload HTTP/1.1\r\nHost: localhost:8081\r\nConnection: close\r\n\r\n");
}

#[test]
fn swift_pieces() {
    assert_eq!(swift_build_args(true), vec!["build", "-c", "release"]);
    assert_eq!(swift_artifact(None, false, "Tool"), ".build/debug/Tool");
    let plist = macos_app_plist("Foo");
    assert!(plist.contains("<key>CFBundleIdentifier</key>\n    <string>com.example.Foo</string>"));
    assert_eq!(XcodeAdapter::extract_bundle_id(&plist), Some("com.example.Foo".to_string()));
}

#[test]
fn xcode_pieces() {
    assert_eq!(XcodeAdapter::extract_bundle_id("<key>CFBundleIdentifier</key>\n  <string> com.acme.app </string>"), Some("com.acme.app".to_string()));
    assert_eq!(XcodeAdapter::extract_bundle_id("<key>CFBundleName</key><string>x</string>"), None);
    assert_eq!(xcode_bundle_id(None, None, "Demo"), "com.example.Demo");
    assert_eq!(xcode_bundle_id(Some("a.b"), Some("c.d".to_string()), "Demo"), "a.b");
    assert_eq!(xcode_destination(&None), "generic/platform=iOS Simulator");
    let sim = Device::new("UDID-1".to_string(), "iPhone".to_string(), Platform::Ios, DeviceState::Booted);
    assert_eq!(xcode_destination(&Some(sim)), "id=UDID-1");
    assert_eq!(xcode_destination(&Some(Device::host_desktop())), "generic/platform=macOS");
    let entries = vec!["/p/App.xcodeproj".to_string(), "/p/App.xcworkspace".to_string()];
    assert_eq!(XcodeAdapter::find_xcode_container(&entries), Some(("/p/App.xcworkspace".to_string(), true)));
    assert_eq!(XcodeAdapter::find_xcode_container(&vec!["/p/App.xcodeproj".to_string()]), Some(("/p/App.xcodeproj".to_string(), false)));
    let out = "Build settings\nSigning /tmp/Build/Products/App.app (in target 'App')\nCompile x\n** BUILD SUCCEEDED **\n";
    assert_eq!(app_path_candidates(out), vec!["/tmp/Build/Products/App.app".to_string()]);
}

#[test]
fn xcode_scheme_listing() {
    assert_eq!(XcodeAdapter::list_schemes(b"{\"project\":{\"schemes\":[\"App\",3,\"Tests\"]}}"), vec!["App", "Tests"]);
    assert_eq!(XcodeAdapter::list_schemes(b"{\"workspace\":{\"schemes\":[\"W\"]}}"), vec!["W"]);
    assert_eq!(XcodeAdapter::list_schemes(b"{\"project\":{\"targets\":[]},\"workspace\":{\"schemes\":[\"W\"]}}"), Vec::<String>::new());
    assert_eq!(XcodeAdapter::list_schemes(b"not json"), Vec::<String>::new());
}

#[test]
fn generic_build_and_launch() {
    let cfg = config(
        Some(BuildConfig { command: "make".to_string(), artifact: Some("out/{project_name}-{target}".to_string()), clean_command: None, working_dir: None }),
        Some(LaunchConfig { command: "run {device_id}".to_string(), working_dir: None, stop_command: None }),
        "generic",
    );
    let r = generic_build_result(&cfg, Some("dev1"), true, 9, String::new(), String::new());
    assert_eq!(r.artifact_path, Some("out/demo-dev1".to_string()));
    let f = generic_build_result(&cfg, None, false, 9, String::new(), "bad".to_string());
    assert_eq!(f.error_message, Some("Build command failed: bad".to_string()));
    match generic_launch_plan(&cfg, Platform::Android, "dev1", None) {
        LaunchPlan::Shell(c) => assert_eq!(c, "run dev1"),
        _ => panic!("expected a shell launch"),
    }
    match generic_launch_plan(&cfg, Platform::Desktop, "host", None) {
        LaunchPlan::Runner(c) => assert_eq!(c, "run host"),
        _ => panic!("expected a runner launch"),
    }
    let bare = config(None, None, "generic");
    assert!(matches!(generic_launch_plan(&bare, Platform::Desktop, "host", None), LaunchPlan::Nothing));
}
