use devflow::adapters::{AdapterKind, BuildResult};
use devflow::platform::{Device, Platform};
use devflow::project::{DetectedFramework, Project};
use devflow::registry::{ActiveSessionInfo, GlobalRegistry, KnownProject, SessionFileFate};
use devflow::session::{SessionState, SessionStatus};

#[test]
fn registry_paths() {
    assert_eq!(GlobalRegistry::root_dir(Some("/custom"), Some("/home/u"), "/tmp"), "/custom");
    assert_eq!(GlobalRegistry::root_dir(None, Some("/home/u"), "/tmp"), "/home/u/.devflow");
    assert_eq!(GlobalRegistry::root_dir(None, None, "/tmp"), "/tmp/.devflow");
    assert_eq!(GlobalRegistry::sessions_dir("/r"), "/r/sessions");
    assert_eq!(GlobalRegistry::projects_file("/r"), "/r/projects.json");
    assert_eq!(GlobalRegistry::session_file("/r", "abc"), "/r/sessions/abc.json");
    assert_eq!(GlobalRegistry::socket_file("/r", "abc"), "/r/sessions/abc.sock");
}

fn known(name: &str, path: &str, t: i64) -> KnownProject {
    KnownProject {
        name: name.to_string(),
        path: path.to_string(),
        platform: Platform::Android,
        framework: "kotlin".to_string(),
        last_opened: t,
    }
}

#[test]
fn opening_a_new_project_puts_it_first() {
    let list = vec![known("a", "/a", 5), known("b", "/b", 3)];
    let r = GlobalRegistry::record_project(list, "/c", "c", Platform::Desktop, "tauri", 10);
    let paths: Vec<&str> = r.iter().map(|p| p.path.as_str()).collect();
    assert_eq!(paths, vec!["/c", "/a", "/b"]);
    assert_eq!(r[0].framework, "tauri");
    assert_eq!(r[0].platform, Platform::Desktop);
    assert_eq!(r[0].last_opened, 10);
}

#[test]
fn reopening_a_project_updates_it() {
    let list = vec![known("a", "/a", 5), known("b", "/b", 3)];
    let r = GlobalRegistry::record_project(list, "/b", "B2", Platform::Ios, "xcode", 9);
    assert_eq!(r.len(), 2);
    assert_eq!(r[0].path, "/b");
    assert_eq!(r[0].name, "B2");
    assert_eq!(r[0].framework, "xcode");
    assert_eq!(r[1].path, "/a");
}

#[test]
fn known_projects_are_capped_at_fifty() {
    let list: Vec<KnownProject> = (0..50).map(|i| known("p", &format!("/p{}", i), i as i64)).collect();
    let r = GlobalRegistry::record_project(list, "/new", "new", Platform::Generic, "generic", 100);
    assert_eq!(r.len(), 50);
    assert_eq!(r[0].path, "/new");
    assert!(r.iter().all(|p| p.path != "/p0"));
    assert!(r.windows(2).all(|w| w[0].last_opened >= w[1].last_opened));
}

fn info(id: &str, name: &str, path: &str, updated: i64) -> ActiveSessionInfo {
    ActiveSessionInfo {
        session_id: id.to_string(),
        pid: 42,
        project_name: name.to_string(),
        project_path: path.to_string(),
        framework: "generic".to_string(),
        platform: "desktop".to_string(),
        target_device: None,
        status: SessionStatus::Running,
        socket_path: format!("/r/sessions/{}.sock", id),
        build_duration_ms: None,
        reload_count: 0,
        restart_count: 0,
        started_at: 0,
        updated_at: updated,
    }
}

#[test]
fn sessions_are_listed_from_the_latest() {
    let sorted = GlobalRegistry::sort_active_sessions(vec![info("a", "A", "/a", 1), info("b", "B", "/b", 3), info("c", "C", "/c", 2)]);
    let ids: Vec<&str> = sorted.iter().map(|s| s.session_id.as_str()).collect();
    assert_eq!(ids, vec!["b", "c", "a"]);
}

#[test]
fn the_addressed_session_is_chosen() {
    let s = vec![info("abc123", "Shop App", "/work/shop", 2), info("def456", "Admin", "/work/admin-panel", 1)];
    assert_eq!(GlobalRegistry::find_active_session(&s, Some("ABC"), None), Some(0));
    assert_eq!(GlobalRegistry::find_active_session(&s, Some("admin"), None), Some(1));
    assert_eq!(GlobalRegistry::find_active_session(&s, Some("panel"), None), Some(1));
    assert_eq!(GlobalRegistry::find_active_session(&s, Some("zzz"), None), None);
    assert_eq!(GlobalRegistry::find_active_session(&s, None, Some("/work/admin-panel")), Some(1));
    assert_eq!(GlobalRegistry::find_active_session(&s, None, Some("/elsewhere")), None);
    let one = vec![info("solo", "Solo", "/solo", 0)];
    assert_eq!(GlobalRegistry::find_active_session(&one, None, None), Some(0));
    assert_eq!(GlobalRegistry::find_active_session(&s, None, None), None);
    assert_eq!(GlobalRegistry::find_active_session(&Vec::new(), Some("abc"), None), None);
}

#[test]
fn session_records_follow_the_state() {
    let project = Project {
        root_dir: "/w/app".to_string(),
        name: "App".to_string(),
        detected_framework: DetectedFramework::Tauri,
        detected_platform: Platform::Desktop,
        config: None,
    };
    let mut state = SessionState::new("s1".to_string(), &project, AdapterKind::Tauri, Device::host_desktop(), 7);
    let mut rec = GlobalRegistry::session_info(&state, 99, "/r/sessions/s1.sock");
    assert_eq!(rec.session_id, "s1");
    assert_eq!(rec.pid, 99);
    assert_eq!(rec.project_path, "/w/app");
    assert_eq!(rec.framework, "tauri");
    assert_eq!(rec.socket_path, "/r/sessions/s1.sock");
    assert_eq!(rec.status, SessionStatus::Idle);
    assert_eq!(rec.target_device.as_ref().unwrap().id, "host");
    state.begin_build(8);
    assert!(state.finish_build(&BuildResult::ok(120, None, String::new(), String::new()), 9).is_ok());
    GlobalRegistry::refresh_session_info(&mut rec, &state);
    assert_eq!(rec.status, state.status);
    assert_eq!(rec.build_duration_ms, Some(120));
    assert_eq!(rec.updated_at, 9);
    assert_eq!(rec.started_at, 7);
    assert_eq!(rec.pid, 99);
}

#[test]
fn session_files_are_the_json_records() {
    assert!(GlobalRegistry::is_session_file("/h/.devflow/sessions/abc.json"));
    assert!(!GlobalRegistry::is_session_file("/h/.devflow/sessions/abc.sock"));
    assert!(!GlobalRegistry::is_session_file("/h/.devflow/sessions/json"));
}

#[test]
fn dead_sessions_are_swept_with_their_socket() {
    assert_eq!(GlobalRegistry::session_file_fate(true, true), SessionFileFate::Keep);
    assert_eq!(GlobalRegistry::session_file_fate(false, true), SessionFileFate::Remove { socket: true });
    assert_eq!(GlobalRegistry::session_file_fate(false, false), SessionFileFate::Remove { socket: false });
}

#[test]
fn a_reopened_project_has_one_record_and_the_others_stay() {
    let list = vec![known("a", "/a", 5), known("b", "/b", 3), known("c", "/c", 1)];
    let r = GlobalRegistry::record_project(list, "/b", "b", Platform::Android, "kotlin", 20);
    assert_eq!(r.iter().filter(|p| p.path == "/b").count(), 1);
    let paths: Vec<&str> = r.iter().map(|p| p.path.as_str()).collect();
    assert_eq!(paths, vec!["/b", "/a", "/c"]);
}

#[test]
fn the_projects_file_lies_under_the_home_directory() {
    let root = GlobalRegistry::root_dir(None, Some("/home/u"), "/tmp");
    assert_eq!(GlobalRegistry::projects_file(&root), "/home/u/.devflow/projects.json");
    let root = GlobalRegistry::root_dir(Some("/custom"), Some("/home/u"), "/tmp");
    assert_eq!(GlobalRegistry::projects_file(&root), "/custom/projects.json");
}

#[test]
fn repeated_paths_come_only_from_the_list() {
    let list = vec![known("a", "/a", 5), known("a2", "/a", 4), known("b", "/b", 3)];
    let r = GlobalRegistry::record_project(list, "/c", "c", Platform::Desktop, "tauri", 10);
    let paths: Vec<&str> = r.iter().map(|p| p.path.as_str()).collect();
    assert_eq!(paths, vec!["/c", "/a", "/a", "/b"]);
}
