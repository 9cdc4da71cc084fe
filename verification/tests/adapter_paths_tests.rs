use devflow::adapters::{
    apk_search_dirs, app_bundle_paths, first_apk, generic_build_command, generic_install_command, gradle_build_task, gradle_candidates, has_extension, installer_for, is_apk, is_bare_executable, kotlin_build_result, manifest_candidates, no_build_result, rn_build_command, rn_launch_package, runner_for, step_failure, swift_binary_candidate, swift_build_dir, swift_launch_binary, tauri_binary_candidates, tauri_launch_binary, xcode_build_args, xcode_scheme, KotlinFrameworkAdapter, RunnerKind, SwiftFrameworkAdapter,
};
use devflow::config::{BuildConfig, DevflowConfig, InstallConfig, ProjectConfig};
use devflow::platform::Platform;
use std::collections::HashMap;

fn config(build: Option<&str>, install: Option<&str>, package_id: Option<&str>) -> DevflowConfig {
    DevflowConfig {
        project: ProjectConfig {
            name: "demo".to_string(),
            platform: "android".to_string(),
            framework: "react-native".to_string(),
            package_id: package_id.map(|p| p.to_string()),
        },
        build: build.map(|c| BuildConfig { command: c.to_string(), artifact: Some("out.apk".to_string()), clean_command: None, working_dir: None }),
        install: install.map(|c| InstallConfig { command: c.to_string(), working_dir: None }),
        launch: None,
        logs: None,
        watch: None,
        env: HashMap::new(),
    }
}

#[test]
fn kotlin_paths_and_results() {
    assert_eq!(
        gradle_candidates("/p"),
        vec!["/p/app/build.gradle.kts", "/p/app/build.gradle", "/p/build.gradle.kts", "/p/build.gradle"]
    );
    assert_eq!(
        manifest_candidates("/p"),
        vec!["/p/app/src/main/AndroidManifest.xml", "/p/src/main/AndroidManifest.xml", "/p/AndroidManifest.xml"]
    );
    assert_eq!(KotlinFrameworkAdapter::find_gradlew(true), "./gradlew");
    assert_eq!(KotlinFrameworkAdapter::find_gradlew(false), "gradle");
    assert_eq!(gradle_build_task(true), "assembleRelease");
    assert_eq!(gradle_build_task(false), "assembleDebug");
    assert_eq!(apk_search_dirs("/p", false), vec!["/p/app/build/outputs/apk/debug", "/p/build/outputs/apk/debug"]);
    assert!(is_apk("/x/app-debug.apk"));
    assert!(!is_apk("/x/app-debug.apk.idsig"));
    assert!(has_extension("notes.txt", "txt"));
    assert!(!has_extension(".hidden", "hidden"));
    assert_eq!(first_apk(&vec!["/d/output.json".to_string(), "/d/app.apk".to_string()]), Some("/d/app.apk".to_string()));
    assert_eq!(first_apk(&vec!["/d/output.json".to_string()]), None);

    let ok = kotlin_build_result(true, 5, None, true, "out".to_string(), String::new());
    assert!(ok.success);
    assert_eq!(ok.artifact_path.as_deref(), Some("app/build/outputs/apk/release/app-release.apk"));
    let failed = kotlin_build_result(false, 5, Some("x.apk".to_string()), false, String::new(), "boom".to_string());
    assert!(!failed.success);
    assert!(failed.artifact_path.is_none());
    assert_eq!(failed.error_message.as_deref(), Some("Gradle build failed: boom"));
}

#[test]
fn swift_and_tauri_paths() {
    assert_eq!(swift_build_dir("/p", false), "/p/.build/debug");
    assert_eq!(swift_binary_candidate("/p", true, "Tool"), "/p/.build/release/Tool");
    assert!(is_bare_executable("Tool"));
    assert!(!is_bare_executable("Tool.swiftmodule"));
    assert_eq!(swift_launch_binary(None, "Tool"), "./.build/debug/Tool");
    assert_eq!(swift_launch_binary(Some("bin/x"), "Tool"), "bin/x");
    let found = SwiftFrameworkAdapter::find_built_binary(
        &vec!["/b/Tool.o".to_string(), "/b/Modules".to_string(), "/b/Tool".to_string()],
        &vec!["Tool.o".to_string(), "Modules".to_string(), "Tool".to_string()],
        &vec![true, false, true],
    );
    assert_eq!(found.as_deref(), Some("/b/Tool"));
    let (app, macos, resources, exe, plist) = app_bundle_paths("/out", "Tool");
    assert_eq!(app, "/out/Tool.app");
    assert_eq!(macos, "/out/Tool.app/Contents/MacOS");
    assert_eq!(resources, "/out/Tool.app/Contents/Resources");
    assert_eq!(exe, "/out/Tool.app/Contents/MacOS/Tool");
    assert_eq!(plist, "/out/Tool.app/Contents/Info.plist");
    assert_eq!(
        tauri_binary_candidates("/p", false, "app"),
        vec!["/p/src-tauri/target/debug/app", "/p/target/debug/app"]
    );
    assert_eq!(tauri_launch_binary(None, "app"), "src-tauri/target/debug/app");
    assert_eq!(tauri_launch_binary(Some("/x/app"), "app"), "/x/app");
}

#[test]
fn runners_and_react_native() {
    assert_eq!(runner_for(Platform::Android), RunnerKind::Android);
    assert_eq!(runner_for(Platform::Apple), RunnerKind::Apple);
    assert_eq!(runner_for(Platform::Ios), RunnerKind::Apple);
    assert_eq!(runner_for(Platform::Macos), RunnerKind::Desktop);
    assert_eq!(installer_for(Platform::Desktop), None);
    assert_eq!(installer_for(Platform::Android), Some(RunnerKind::Android));
    assert_eq!(rn_build_command(&config(Some("yarn build"), None, None)), "yarn build");
    assert!(rn_build_command(&config(None, None, None)).starts_with("npx react-native bundle --platform android"));
    assert_eq!(rn_launch_package(&config(None, None, Some("com.shop"))), "com.shop");
    assert_eq!(rn_launch_package(&config(None, None, None)), "com.example.app");
}

#[test]
fn xcode_arguments() {
    assert_eq!(xcode_scheme(&vec!["App".to_string(), "Tests".to_string()], "demo"), "App");
    assert_eq!(xcode_scheme(&Vec::new(), "demo"), "demo");
    assert_eq!(
        xcode_build_args("App.xcworkspace", true, "App", "id=U1", false),
        vec!["-workspace", "App.xcworkspace", "-scheme", "App", "-destination", "id=U1", "-configuration", "Debug"]
    );
    assert_eq!(xcode_build_args("App.xcodeproj", false, "App", "generic/platform=iOS Simulator", true)[0], "-project");
}

#[test]
fn generic_commands() {
    let c = config(Some("make {project_name}"), Some("scp {artifact} {device_id}:"), None);
    assert_eq!(generic_build_command(&c, None).as_deref(), Some("make demo"));
    assert_eq!(generic_install_command(&c, "box").as_deref(), Some("scp out.apk box:"));
    assert_eq!(generic_build_command(&config(None, None, None), None), None);
    assert_eq!(generic_install_command(&config(None, None, None), "box"), None);
    let none = no_build_result();
    assert!(none.success);
    assert_eq!(none.stdout, "No build step configured");
    assert_eq!(step_failure("Install failed", "o", "e"), "Install failed: o\ne");
}
