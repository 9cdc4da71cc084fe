use devflow::adapters::AdapterKind;
use devflow::error::DevflowError;
use devflow::devices::DeviceCache;
use devflow::platform::{Device, DeviceState, Platform};
use devflow::project::{DetectedFramework, Project};
use devflow::running::RunningTargets;
use devflow::session::SessionState;
use devflow::target_actions::{StartTargetRequest, TargetActionRequest};

fn session(id: &str) -> SessionState {
    let project = Project {
        root_dir: format!("/w/{}", id),
        name: id.to_string(),
        detected_framework: DetectedFramework::RustCargo,
        detected_platform: Platform::Desktop,
        config: None,
    };
    SessionState::new(id.to_string(), &project, AdapterKind::Generic, Device::host_desktop(), 1)
}

fn start(id: &str) -> StartTargetRequest {
    StartTargetRequest {
        target_id: id.to_string(),
        target_path: format!("/w/{}", id),
        framework: "generic".to_string(),
        device_id: None,
    }
}

fn named(id: &str) -> TargetActionRequest {
    TargetActionRequest { target_id: id.to_string() }
}

#[test]
fn started_target_can_be_reloaded_and_stopped() {
    let mut t = RunningTargets::new();
    let r = t.start_target(&start("api-root"), Ok(session("api")));
    assert!(r.success);
    assert_eq!(r.text, "api-root");
    assert!(t.contains("api-root"));
    assert_eq!(t.count(), 1);

    let reload = t.signal_target(&named("api-root"), true);
    assert!(reload.success);
    assert_eq!(reload.text, "Reloaded api-root");
    let restart = t.signal_target(&named("api-root"), false);
    assert_eq!(restart.text, "Restarted api-root");

    let (stopped, reply) = t.stop_target(&named("api-root"));
    assert_eq!(stopped.unwrap().session_id, "api");
    assert!(reply.success);
    assert_eq!(reply.text, "Stopped target api-root");
    assert!(!t.contains("api-root"));

    let refused = t.signal_target(&named("api-root"), true);
    assert!(!refused.success);
    assert_eq!(refused.text, "Target not running");
    let (none, again) = t.stop_target(&named("api-root"));
    assert!(none.is_none());
    assert_eq!(again.text, "Cleaned up target api-root");
}

#[test]
fn failed_start_answers_the_error_and_runs_nothing() {
    let mut t = RunningTargets::new();
    let r = t.start_target(&start("x"), Err(DevflowError::ProjectDetection("no project".to_string())));
    assert!(!r.success);
    assert_eq!(r.text, "Project detection error: no project");
    assert_eq!(t.count(), 0);
}

#[test]
fn starting_again_replaces_the_session() {
    let mut t = RunningTargets::new();
    t.start_target(&start("a"), Ok(session("first")));
    t.start_target(&start("b"), Ok(session("other")));
    t.start_target(&start("a"), Ok(session("second")));
    assert_eq!(t.count(), 2);
    let (s, _) = t.stop_target(&named("a"));
    assert_eq!(s.unwrap().session_id, "second");
    assert!(t.contains("b"));
}

#[test]
fn every_target_is_counted_in_the_answer() {
    let mut t = RunningTargets::new();
    assert_eq!(t.signal_all_reply(true).text, "Reloaded 0 active targets");
    t.start_target(&start("a"), Ok(session("a")));
    t.start_target(&start("b"), Ok(session("b")));
    let all = t.signal_all_reply(false);
    assert!(all.success);
    assert_eq!(all.text, "Restarted 2 active targets");
}

#[test]
fn device_cache_answers_desktop_first_then_last_stored() {
    let mut cache = DeviceCache::new();
    let first = cache.request(vec![Device::host_desktop()]);
    assert_eq!(first.len(), 1);
    assert_eq!(first[0].id, "host");
    let phone = Device::new("emulator-5554".to_string(), "Pixel".to_string(), Platform::Android, DeviceState::Connected);
    cache.store(vec![Device::host_desktop(), phone]);
    let second = cache.request(Vec::new());
    assert_eq!(second.len(), 2);
    assert_eq!(second[1].id, "emulator-5554");
    assert_eq!(cache.cached().len(), 2);
}
