use devflow::config::DevflowConfig;
use devflow::explainer::ToolchainExplainer;
use devflow::updater::{is_version_newer, parse_version_tuple};

#[test]
fn version_tuples_are_read_leniently() {
    assert_eq!(parse_version_tuple("v1.2.3"), (1, 2, 3));
    assert_eq!(parse_version_tuple("  V2.10 "), (2, 10, 0));
    assert_eq!(parse_version_tuple("1.x.5"), (1, 0, 5));
    assert_eq!(parse_version_tuple(""), (0, 0, 0));
}

#[test]
fn newer_versions_compare_field_by_field() {
    assert!(is_version_newer("v1.2.4", "1.2.3"));
    assert!(is_version_newer("2.0.0", "1.99.99"));
    assert!(!is_version_newer("1.2.3", "v1.2.3"));
    assert!(!is_version_newer("1.2.3", "1.3.0"));
}

#[test]
fn every_template_names_the_project() {
    for t in [
        DevflowConfig::template_generic("demo"),
        DevflowConfig::template_android("demo"),
        DevflowConfig::template_swift("demo"),
        DevflowConfig::template_react_native("demo"),
        DevflowConfig::template_flutter("demo"),
        DevflowConfig::template_tauri("demo"),
    ] {
        assert!(t.starts_with("[project]\nname = \"demo\""));
    }
    assert!(DevflowConfig::template_android("demo").contains("platform = \"android\""));
    assert!(DevflowConfig::template_tauri("demo").contains("framework = \"tauri\""));
}

#[test]
fn explainer_recognises_xcode_license() {
    let e = ToolchainExplainer::explain_error("swift", "You have not agreed to the Xcode license agreement", "", "App").unwrap();
    assert_eq!(e.framework, "swift");
    assert_eq!(e.title, "Xcode License Agreement Not Accepted");
    assert_eq!(e.fix_hint, "sudo xcodebuild -license accept");
    assert_eq!(e.steps, vec!["Run: sudo xcodebuild -license accept".to_string()]);
    assert!(e.ansi_banner.contains(" ✗ BUILD FAILED:\x1b[0m \x1b[1;37mApp [swift]"));
    assert!(e.ansi_banner.contains("\x1b[36m1.\x1b[0m \x1b[97mRun: sudo xcodebuild -license accept"));
}

#[test]
fn explainer_says_nothing_of_clean_output() {
    assert!(ToolchainExplainer::explain_error("generic", "all good", "done", "App").is_none());
}

#[test]
fn swapping_the_outputs_gives_the_same_explanation() {
    let a = ToolchainExplainer::explain_error("kotlin", "ERROR: JAVA_HOME is not set", "BUILD FAILED", "Pixel").unwrap();
    let b = ToolchainExplainer::explain_error("kotlin", "BUILD FAILED", "ERROR: JAVA_HOME is not set", "Pixel").unwrap();
    assert_eq!(a.title, b.title);
    assert_eq!(a.ansi_banner, b.ansi_banner);
    assert!(ToolchainExplainer::explain_error("generic", "JAVA_HOME is", "not set", "Pixel").is_none());
}

#[test]
fn explanations_ignore_case_and_name_the_target_only_in_the_banner() {
    let a = ToolchainExplainer::explain_error("tauri", "vite: not found", "", "Desktop").unwrap();
    let b = ToolchainExplainer::explain_error("TAURI", "VITE: NOT FOUND", "", "Laptop").unwrap();
    assert_eq!((&a.framework, &a.title, &a.issue, &a.fix_hint, &a.steps), (&b.framework, &b.title, &b.issue, &b.fix_hint, &b.steps));
    assert!(a.ansi_banner.contains("Desktop"));
    assert!(b.ansi_banner.contains("Laptop"));
    assert_ne!(a.ansi_banner, b.ansi_banner);
}

#[test]
fn swapping_outputs_holds_for_any_framework_name() {
    let a = ToolchainExplainer::explain_error("Kötlin-Ünïcode", "error: linker `cc` not found", "cargo build", "Box");
    let b = ToolchainExplainer::explain_error("Kötlin-Ünïcode", "cargo build", "error: linker `cc` not found", "Box");
    let (a, b) = (a.unwrap(), b.unwrap());
    assert_eq!(a.title, b.title);
    assert_eq!(a.ansi_banner, b.ansi_banner);
}
