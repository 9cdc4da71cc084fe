use devflow::config::{
    default_debounce_ms, default_framework_str, default_platform_str, default_watch_action, default_watch_extensions,
    default_watch_paths, BuildConfig, DevflowConfig, ProjectConfig,
};
use devflow::platform::Platform;
use std::collections::HashMap;

#[test]
fn test_template_generation() {
    let generic_tpl = DevflowConfig::template_generic("my-service");
    assert!(generic_tpl.contains("name = \"my-service\""));
    assert!(generic_tpl.contains("platform = \"desktop\""));
}

fn sample(artifact: Option<&str>) -> DevflowConfig {
    DevflowConfig {
        project: ProjectConfig {
            name: "demo".to_string(),
            platform: "Android".to_string(),
            framework: "kotlin".to_string(),
            package_id: None,
        },
        build: Some(BuildConfig {
            command: "./gradlew assembleDebug".to_string(),
            artifact: artifact.map(|a| a.to_string()),
            clean_command: None,
            working_dir: None,
        }),
        install: None,
        launch: None,
        logs: None,
        watch: None,
        env: HashMap::new(),
    }
}

#[test]
fn placeholders_are_filled_in() {
    let c = sample(Some("out/{project_name}.apk"));
    assert_eq!(
        c.expand_template("adb -s {device_id} install {artifact} # {project_name} {platform} {framework} {target}", Some("emu-1")),
        "adb -s emu-1 install out/{project_name}.apk # demo Android kotlin emu-1"
    );
    assert_eq!(c.expand_template("run {device_id}", None), "run {device_id}");
    let none = sample(None);
    assert_eq!(none.expand_template("install {artifact}", Some("x")), "install {artifact}");
}

#[test]
fn configured_platform_is_read_without_case() {
    assert_eq!(sample(None).target_platform(), Platform::Android);
    let mut c = sample(None);
    c.project.platform = "Apple".to_string();
    assert_eq!(c.target_platform(), Platform::Ios);
    c.project.platform = "beos".to_string();
    assert_eq!(c.target_platform(), Platform::Generic);
}

#[test]
fn defaults_and_scaffolds() {
    assert_eq!(default_platform_str(), "generic");
    assert_eq!(default_framework_str(), "generic");
    assert_eq!(default_watch_paths(), vec!["src".to_string()]);
    assert_eq!(default_watch_extensions(), vec!["rs", "kt", "swift", "ts", "js"]);
    assert_eq!(default_watch_action(), "reload");
    assert_eq!(default_debounce_ms(), 300);
    let android = DevflowConfig::template_android("shop");
    assert!(android.contains("name = \"shop\""));
    assert!(android.contains("command = \"adb shell am start -n com.example.shop/.MainActivity\""));
    let swift = DevflowConfig::template_swift("Tool");
    assert!(swift.contains("artifact = \".build/debug/Tool\""));
    assert!(DevflowConfig::template_flutter("f").contains("framework = \"flutter\""));
    assert!(DevflowConfig::template_react_native("r").contains("framework = \"react-native\""));
    assert!(DevflowConfig::template_tauri("t").contains("command = \"cargo tauri dev\""));
    assert!(DevflowConfig::template_generic("g").contains("command = \"./target/debug/g\""));
}
