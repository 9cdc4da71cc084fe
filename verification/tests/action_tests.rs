use devflow::target_actions::{step, ActionEffect, ActionEvent, ActionState, CustomTargetActionRequest, RunOutcome};

fn req(fw: &str, action: &str, device: Option<&str>, port: Option<u16>) -> CustomTargetActionRequest {
    CustomTargetActionRequest {
        target_id: "app".to_string(),
        target_path: "/w/app".to_string(),
        framework: fw.to_string(),
        action: action.to_string(),
        device_id: device.map(|d| d.to_string()),
        port,
    }
}

fn reply_of(e: &ActionEffect) -> (bool, String) {
    match e {
        ActionEffect::Reply(r) => (r.success, r.text.clone()),
        _ => panic!("expected a reply"),
    }
}

fn run_of(e: &ActionEffect) -> (String, Vec<String>, bool) {
    match e {
        ActionEffect::Run(c) => (c.program.clone(), c.args.clone(), c.in_dir),
        _ => panic!("expected a command"),
    }
}

#[test]
fn unknown_actions_fail_at_once() {
    let (s, e) = step(&req("Kotlin", "dance", None, None), ActionState::Begin, ActionEvent::Start);
    assert!(matches!(s, ActionState::Done));
    assert_eq!(reply_of(&e), (false, "Unknown action 'dance'".to_string()));
}

#[test]
fn clear_data_needs_android() {
    let (_, e) = step(&req("Swift", "clear_data", None, None), ActionState::Begin, ActionEvent::Start);
    assert_eq!(reply_of(&e), (false, "Clear data only supported for Android targets".to_string()));
}

#[test]
fn android_launch_goes_through_adb() {
    let r = req("Kotlin", "launch_app", Some("emulator-5554"), None);
    let (s, e) = step(&r, ActionState::Begin, ActionEvent::Start);
    assert!(matches!(e, ActionEffect::InspectAndroid));
    let (s, e) = step(&r, s, ActionEvent::Inspected { package: Some("com.a".to_string()), activity: Some(".Main".to_string()) });
    assert_eq!(
        run_of(&e),
        ("adb".to_string(), vec!["-s", "emulator-5554", "shell", "am", "start", "-n", "com.a.Main"].into_iter().map(String::from).collect(), false)
    );
    let (s, e) = step(&r, s, ActionEvent::Ran(RunOutcome::Success { stdout: "Starting: Intent\n".to_string(), stderr: String::new() }));
    assert!(matches!(s, ActionState::Done));
    assert_eq!(reply_of(&e), (true, "Launched com.a: Starting: Intent".to_string()));
}

#[test]
fn android_launch_reports_adb_errors() {
    let r = req("android", "launch_app", None, None);
    let (s, _) = step(&r, ActionState::Begin, ActionEvent::Start);
    let (s, e) = step(&r, s, ActionEvent::Inspected { package: Some("com.a".to_string()), activity: None });
    assert_eq!(run_of(&e).1, vec!["shell", "monkey", "-p", "com.a", "-c", "android.intent.category.LAUNCHER", "1"]);
    let (_, e) = step(&r, s, ActionEvent::Ran(RunOutcome::Success { stdout: "Error: no such app\n".to_string(), stderr: String::new() }));
    assert_eq!(reply_of(&e), (false, "Error: no such app".to_string()));
}

#[test]
fn reinstall_falls_back_to_gradle() {
    let r = req("kotlin", "reinstall_apk", None, None);
    let (s, e) = step(&r, ActionState::Begin, ActionEvent::Start);
    assert!(matches!(e, ActionEffect::FindApk));
    let (s, e) = step(&r, s, ActionEvent::ApkFound(Some("/w/app/x/app-debug.apk".to_string())));
    assert_eq!(run_of(&e).1, vec!["install", "-r", "/w/app/x/app-debug.apk"]);
    let (s, e) = step(&r, s, ActionEvent::Ran(RunOutcome::Failure { stdout: String::new(), stderr: "offline".to_string() }));
    match &e {
        ActionEffect::CheckExists(p) => assert_eq!(p, "/w/app/gradlew"),
        _ => panic!("expected a look for the wrapper"),
    }
    let (s, e) = step(&r, s, ActionEvent::Exists(true));
    assert_eq!(run_of(&e), ("./gradlew".to_string(), vec!["installDebug".to_string()], true));
    let (_, e) = step(&r, s, ActionEvent::Ran(RunOutcome::Failure { stdout: String::new(), stderr: "oops".to_string() }));
    assert_eq!(reply_of(&e), (false, "Gradle installDebug failed: oops".to_string()));
}

#[test]
fn direct_install_names_the_apk() {
    let r = req("kotlin", "reinstall_apk", None, None);
    let (s, _) = step(&r, ActionState::Begin, ActionEvent::Start);
    let (s, _) = step(&r, s, ActionEvent::ApkFound(Some("/w/app/out/app-debug.apk".to_string())));
    let (_, e) = step(&r, s, ActionEvent::Ran(RunOutcome::Success { stdout: String::new(), stderr: String::new() }));
    assert_eq!(reply_of(&e), (true, "Directly installed app-debug.apk to device via ADB.".to_string()));
}

#[test]
fn web_targets_open_in_the_browser() {
    let r = req("React", "launch_app", None, Some(5173));
    let (s, e) = step(&r, ActionState::Begin, ActionEvent::Start);
    assert_eq!(run_of(&e), ("open".to_string(), vec!["http://localhost:5173".to_string()], false));
    let (_, e) = step(&r, s, ActionEvent::Ran(RunOutcome::SpawnError("no open".to_string())));
    assert_eq!(reply_of(&e), (true, "Opened http://localhost:5173".to_string()));
}

#[test]
fn free_port_defaults_to_3000() {
    let r = req("web", "free_port", None, None);
    let (s, e) = step(&r, ActionState::Begin, ActionEvent::Start);
    assert_eq!(run_of(&e), ("sh".to_string(), vec!["-c".to_string(), "lsof -ti :3000 | xargs kill -9".to_string()], false));
    let (_, e) = step(&r, s, ActionEvent::Ran(RunOutcome::Success { stdout: String::new(), stderr: String::new() }));
    assert_eq!(reply_of(&e), (true, "Freed port 3000".to_string()));
}

#[test]
fn ide_falls_back_to_plain_open() {
    let r = req("swift", "open_ide", None, None);
    let (s, e) = step(&r, ActionState::Begin, ActionEvent::Start);
    assert_eq!(run_of(&e).1, vec!["-a", "Xcode", "/w/app"]);
    let (s, e) = step(&r, s, ActionEvent::Ran(RunOutcome::Failure { stdout: String::new(), stderr: String::new() }));
    assert_eq!(run_of(&e), ("open".to_string(), vec!["/w/app".to_string()], false));
    let (_, e) = step(&r, s, ActionEvent::Ran(RunOutcome::Success { stdout: String::new(), stderr: String::new() }));
    assert_eq!(reply_of(&e), (true, "Opened in Xcode".to_string()));
}

#[test]
fn swift_launch_needs_the_binary() {
    let r = req("swift", "launch_app", None, None);
    let (s, e) = step(&r, ActionState::Begin, ActionEvent::Start);
    match &e {
        ActionEffect::CheckExists(p) => assert_eq!(p, "/w/app/.build/debug/app"),
        _ => panic!("expected a look for the binary"),
    }
    let (_, e) = step(&r, s, ActionEvent::Exists(false));
    assert_eq!(reply_of(&e), (false, "Binary not found at /w/app/.build/debug/app. Build with Run first.".to_string()));
}

#[test]
fn clean_by_framework() {
    let (_, e) = step(&req("rust", "clean_build", None, None), ActionState::Begin, ActionEvent::Start);
    assert_eq!(run_of(&e), ("cargo".to_string(), vec!["clean".to_string()], true));
    let (_, e) = step(&req("vue", "clean_cache", None, None), ActionState::Begin, ActionEvent::Start);
    assert_eq!(run_of(&e).1, vec!["-rf", "node_modules/.vite", ".next", "dist"]);
}
