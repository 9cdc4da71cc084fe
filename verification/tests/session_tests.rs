use devflow::adapters::{AdapterKind, BuildResult};
use devflow::error::DevflowError;
use devflow::ipc::{first_line, frame_line, invalid_request_reply, IpcRequest, IpcResponse, IpcServer};
use devflow::logs::LogLevel;
use devflow::platform::{Device, DeviceState, Platform};
use devflow::project::{DetectedFramework, Project};
use devflow::session::{
    apply_framework_override, build_end_line, build_start_line, compiler_lines, session_reply, SessionState,
    SessionStatus, StartAction, StartEvent, StartStage,
};

fn project() -> Project {
    Project {
        root_dir: "/w/app".to_string(),
        name: "App".to_string(),
        detected_framework: DetectedFramework::Tauri,
        detected_platform: Platform::Desktop,
        config: None,
    }
}

fn state() -> SessionState {
    SessionState::new("s1".to_string(), &project(), AdapterKind::Tauri, Device::host_desktop(), 10)
}

#[test]
fn new_session_is_idle() {
    let s = state();
    assert_eq!(s.session_id, "s1");
    assert_eq!(s.framework, "tauri");
    assert_eq!(s.platform, "desktop");
    assert_eq!(s.status, SessionStatus::Idle);
    assert_eq!((s.started_at, s.updated_at, s.reload_count, s.restart_count), (10, 10, 0, 0));
}

#[test]
fn a_full_start_runs() {
    let mut s = state();
    s.begin_build(11);
    assert_eq!(s.status, SessionStatus::Building);
    let b = BuildResult::ok(1200, Some("bin".to_string()), String::new(), String::new());
    assert!(s.finish_build(&b, 12).is_ok());
    assert_eq!(s.status, SessionStatus::Installing);
    assert_eq!(s.build_duration_ms, Some(1200));
    assert!(s.finish_install(Ok(()), 13).is_ok());
    assert_eq!(s.status, SessionStatus::Launching);
    assert!(s.finish_launch(Ok(()), 14).is_ok());
    assert_eq!(s.status, SessionStatus::Running);
    assert_eq!(s.updated_at, 14);
    assert_eq!(s.started_at, 10);
}

#[test]
fn a_failed_build_fails_the_session() {
    let mut s = state();
    let b = BuildResult::failed(5, String::new(), "e".to_string(), "Gradle build failed: e".to_string());
    let r = s.finish_build(&b, 20);
    match r {
        Err(e) => assert_eq!(e.message(), "Build error: Build failed"),
        Ok(()) => panic!("build should fail"),
    }
    assert_eq!(s.status, SessionStatus::Failed);
    assert_eq!(s.last_error, Some("Gradle build failed: e".to_string()));
    assert_eq!(s.build_duration_ms, None);
}

#[test]
fn failed_install_keeps_its_error() {
    let mut s = state();
    let r = s.finish_install(Err(DevflowError::Install("no device".to_string())), 30);
    assert!(r.is_err());
    assert_eq!(s.status, SessionStatus::Failed);
    assert_eq!(s.last_error, Some("Install error: no device".to_string()));
}

#[test]
fn reloads_and_restarts_are_counted_when_they_work() {
    let mut s = state();
    s.begin_reload(40);
    assert_eq!(s.status, SessionStatus::Reloading);
    assert!(s.finish_reload(Err(DevflowError::Reload("x".to_string())), 41).is_err());
    assert_eq!(s.status, SessionStatus::Running);
    assert_eq!(s.reload_count, 0);
    assert_eq!(s.last_error, Some("Reload error: x".to_string()));
    assert!(s.finish_reload(Ok(()), 42).is_ok());
    assert_eq!(s.reload_count, 1);
    s.begin_restart(43);
    assert_eq!(s.status, SessionStatus::Restarting);
    assert!(s.finish_restart(Ok(()), 44).is_ok());
    assert_eq!((s.restart_count, s.status), (1, SessionStatus::Running));
    s.stop(45);
    assert_eq!(s.status, SessionStatus::Stopped);
}

#[test]
fn framework_override_goes_into_the_configuration() {
    let mut p = project();
    apply_framework_override(&mut p, "flutter");
    let c = p.config.as_ref().unwrap();
    assert_eq!(c.project.framework, "flutter");
    assert_eq!(c.project.name, "App");
    assert_eq!(p.detected_framework, DetectedFramework::Tauri);
}

#[test]
fn build_log_lines() {
    let start = build_start_line("App", "tauri", "This Computer");
    assert_eq!(start.message, "\u{26a1} Starting build for 'App' [tauri] on device 'This Computer'...");
    assert_eq!(start.tag, Some("build".to_string()));
    let ok = BuildResult::ok(1200, None, "a\n\n b\n".to_string(), "warn\n".to_string());
    let lines = compiler_lines(&ok);
    let msgs: Vec<&str> = lines.iter().map(|l| l.message.as_str()).collect();
    assert_eq!(msgs, vec!["a", " b", "warn"]);
    assert_eq!(lines[2].level, LogLevel::W);
    assert_eq!(build_end_line(&ok).message, "\u{2713} Build succeeded in 1200ms");
    let bad = BuildResult { success: false, duration_ms: 7, artifact_path: None, stdout: String::new(), stderr: "e1".to_string(), error_message: None };
    assert_eq!(compiler_lines(&bad)[0].level, LogLevel::E);
    let end = build_end_line(&bad);
    assert_eq!(end.message, "\u{2717} Build failed in 7ms: Unknown compiler error");
    assert_eq!(end.level, LogLevel::E);
}

#[test]
fn session_replies_to_commands() {
    let r = session_reply(&IpcRequest::Reload { files: vec![] }, &Ok(()), "");
    assert!(r.success && r.message == "Reload succeeded");
    let r = session_reply(&IpcRequest::Restart, &Err(DevflowError::Launch("x".to_string())), "");
    assert!(!r.success);
    assert_eq!(r.message, "Restart failed: Launch error: x");
    let r = session_reply(&IpcRequest::Status, &Ok(()), "{\"status\":\"Running\"}");
    assert_eq!(r.message, "{\"status\":\"Running\"}");
    let r = session_reply(&IpcRequest::Stop, &Ok(()), "");
    assert_eq!(r.message, "Session stopped");
}

#[test]
fn ipc_messages_are_framed_as_lines() {
    let f = frame_line("{\"action\":\"Restart\"}");
    assert_eq!(f, "{\"action\":\"Restart\"}\n");
    assert_eq!(first_line(&f), Some("{\"action\":\"Restart\"}".to_string()));
    assert_eq!(first_line(""), None);
    let bad = invalid_request_reply("expected value");
    assert!(!bad.success);
    assert_eq!(bad.message, "Invalid IPC request JSON: expected value");
    let ok = IpcResponse::ok("Running");
    assert!(ok.success);
    assert_eq!(IpcResponse::err("Unknown command").message, "Unknown command");
    assert_eq!(IpcServer::new("/tmp/s.sock").socket_path, "/tmp/s.sock");
}

#[test]
fn errors_show_their_kind() {
    assert_eq!(DevflowError::Ipc("gone".to_string()).message(), "IPC error: gone");
    assert_eq!(DevflowError::ToolExecution("sh".to_string()).message(), "Tool execution failed: sh");
}

#[test]
fn status_and_error_stamp_the_time() {
    let mut s = state();
    s.set_status(SessionStatus::Failed, 20);
    assert_eq!((s.status, s.updated_at, s.started_at), (SessionStatus::Failed, 20, 10));
    s.set_last_error(Some("boom".to_string()), 21);
    assert_eq!(s.last_error.as_deref(), Some("boom"));
    assert_eq!(s.updated_at, 21);
    assert!(Platform::Ios.accepts(Platform::Apple));
    assert!(!Platform::Apple.accepts(Platform::Ios));
    assert!(Platform::Android.accepts(Platform::Android));
}

#[test]
fn start_steps_hand_the_artifact_to_install_and_launch() {
    let mut s = state();
    let (stage, action) = s.start_step(StartStage::NotStarted, StartEvent::Begin, 11);
    assert!(matches!(action, StartAction::Build { is_release: false }));
    assert!(matches!(stage, StartStage::Building));
    assert_eq!(s.status, SessionStatus::Building);
    let b = BuildResult::ok(900, Some("/w/app/bin".to_string()), String::new(), String::new());
    let (stage, action) = s.start_step(stage, StartEvent::Built(Ok(b)), 12);
    match &action {
        StartAction::Install { artifact } => assert_eq!(artifact.as_deref(), Some("/w/app/bin")),
        other => panic!("expected an install, got {:?}", other),
    }
    assert_eq!(s.status, SessionStatus::Installing);
    assert_eq!(s.build_duration_ms, Some(900));
    let (stage, action) = s.start_step(stage, StartEvent::Installed(Ok(())), 13);
    match &action {
        StartAction::Launch { artifact } => assert_eq!(artifact.as_deref(), Some("/w/app/bin")),
        other => panic!("expected a launch, got {:?}", other),
    }
    assert_eq!(s.status, SessionStatus::Launching);
    let (stage, action) = s.start_step(stage, StartEvent::Launched(Ok(())), 14);
    assert!(matches!(action, StartAction::StreamLogs));
    assert!(matches!(stage, StartStage::Done));
    assert_eq!(s.status, SessionStatus::Running);
    assert_eq!(s.updated_at, 14);
}

#[test]
fn a_failed_build_step_fails_the_start() {
    let mut s = state();
    let b = BuildResult::failed(5, String::new(), "e".to_string(), "swift build failed: e".to_string());
    let (stage, action) = s.start_step(StartStage::Building, StartEvent::Built(Ok(b)), 20);
    match action {
        StartAction::Fail(e) => assert_eq!(e.message(), "Build error: Build failed"),
        other => panic!("expected a failure, got {:?}", other),
    }
    assert!(matches!(stage, StartStage::Done));
    assert_eq!(s.status, SessionStatus::Failed);
    assert_eq!(s.last_error, Some("swift build failed: e".to_string()));
}

#[test]
fn a_build_that_cannot_run_fails_the_start_and_leaves_the_state() {
    let mut s = state();
    let err = DevflowError::Build("Failed to run swift build: not found".to_string());
    let (_, action) = s.start_step(StartStage::Building, StartEvent::Built(Err(err)), 21);
    match action {
        StartAction::Fail(e) => assert_eq!(e.message(), "Build error: Failed to run swift build: not found"),
        other => panic!("expected a failure, got {:?}", other),
    }
    assert_eq!(s.status, SessionStatus::Idle);
    assert_eq!(s.updated_at, 10);
}

#[test]
fn a_failed_launch_step_fails_the_session() {
    let mut s = state();
    let (stage, action) = s.start_step(StartStage::Launching, StartEvent::Launched(Err(DevflowError::Launch("crash".to_string()))), 30);
    match action {
        StartAction::Fail(e) => assert_eq!(e.message(), "Launch error: crash"),
        other => panic!("expected a failure, got {:?}", other),
    }
    assert!(matches!(stage, StartStage::Done));
    assert_eq!(s.status, SessionStatus::Failed);
    assert_eq!(s.last_error, Some("Launch error: crash".to_string()));
}
