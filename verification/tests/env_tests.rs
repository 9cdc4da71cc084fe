use devflow::devices::AdbDiscoverer;
use devflow::env::{
    android_home_candidates, asks_java_home_tool, java_home_candidates, adb_candidates, choose_android_home, choose_java_home, emulator_candidates, existing, java_home_from_tool,
    latest_nvm_bin, merge_path, path_candidates, prepare_environment, which_candidates, EnvValues,
};

fn v(items: &[&str]) -> Vec<String> {
    items.iter().map(|s| s.to_string()).collect()
}

#[test]
fn path_merge_prepends_what_is_missing_once() {
    let extra = v(&["/a", "/b"]);
    let current = v(&["/b", "/c"]);
    let merged = merge_path(&extra, &current).unwrap();
    assert_eq!(merged, v(&["/a", "/b", "/c"]));
    assert_eq!(merge_path(&extra, &merged), None);
    assert_eq!(merge_path(&v(&["/c"]), &current), None);
}

#[test]
fn android_home_is_chosen_only_when_unset() {
    let home = Some("/h".to_string());
    assert_eq!(choose_android_home(&None, &home, &vec![false, true, false]), Some("/h/Android/Sdk".to_string()));
    assert_eq!(choose_android_home(&Some("/sdk".to_string()), &home, &vec![true, true, true]), None);
    assert_eq!(choose_android_home(&None, &None, &vec![true]), None);
    assert_eq!(choose_android_home(&None, &home, &vec![false, false, false]), None);
}

#[test]
fn java_home_prefers_known_installations() {
    assert_eq!(
        choose_java_home(&None, &vec![false, false, true, false, false], Some("/x".to_string()), true),
        Some("/Library/Java/JavaVirtualMachines/temurin-21.jdk/Contents/Home".to_string())
    );
    assert_eq!(choose_java_home(&None, &vec![false; 5], Some("/x".to_string()), true), Some("/x".to_string()));
    assert_eq!(choose_java_home(&None, &vec![false; 5], Some("/x".to_string()), false), None);
    assert_eq!(choose_java_home(&Some("/j".to_string()), &vec![true; 5], None, false), None);
    assert!(asks_java_home_tool(&None, &vec![false; 5]));
    assert!(!asks_java_home_tool(&None, &vec![false, true, false, false, false]));
    assert!(!asks_java_home_tool(&Some("/j".to_string()), &vec![false; 5]));
    assert_eq!(java_home_from_tool("  /jdk \n"), Some("/jdk".to_string()));
    assert_eq!(java_home_from_tool(" \n"), None);
}

#[test]
fn newest_nvm_version_with_bin_wins() {
    let versions = v(&["/n/v18.1.0", "/n/v20.2.0", "/n/v9.0.0"]);
    assert_eq!(latest_nvm_bin(&versions, &vec![true, false, true]), Some("/n/v9.0.0/bin".to_string()));
    assert_eq!(latest_nvm_bin(&versions, &vec![true, true, false]), Some("/n/v20.2.0/bin".to_string()));
    assert_eq!(latest_nvm_bin(&versions, &vec![false, false, false]), None);
}

#[test]
fn path_candidates_in_order() {
    let c = path_candidates(&Some("/h".to_string()), &Some("/n/bin".to_string()), &Some("/sdk".to_string()), &Some("/jdk".to_string()));
    assert_eq!(
        c,
        v(&["/h/.local/bin", "/h/.cargo/bin", "/h/.bun/bin", "/n/bin", "/sdk/platform-tools", "/sdk/emulator", "/sdk/cmdline-tools/latest/bin", "/jdk/bin"])
    );
    assert_eq!(existing(&c, &vec![true, false, false, true, false, false, false, true]), v(&["/h/.local/bin", "/n/bin", "/jdk/bin"]));
}

#[test]
fn tool_locations() {
    let a = adb_candidates(&Some("/sdk".to_string()), &None, &Some("/h".to_string()));
    assert_eq!(a, v(&["/sdk/platform-tools/adb", "/h/Library/Android/sdk/platform-tools/adb"]));
    assert_eq!(AdbDiscoverer::resolve_adb_binary(true, &a, &vec![true, true]), "adb");
    assert_eq!(AdbDiscoverer::resolve_adb_binary(false, &a, &vec![false, true]), "/h/Library/Android/sdk/platform-tools/adb");
    assert_eq!(AdbDiscoverer::resolve_adb_binary(false, &a, &vec![false, false]), "adb");
    assert_eq!(
        emulator_candidates(&None, &None, &Some("/h".to_string()), &None),
        v(&["/h/Library/Android/sdk/emulator/emulator", "/h/Library/Android/sdk/tools/emulator", "/h/Android/Sdk/emulator/emulator", "/h/Android/Sdk/tools/emulator"])
    );
    assert_eq!(which_candidates("/usr/bin:/bin", "emulator"), v(&["/usr/bin/emulator", "/bin/emulator"]));
}

#[test]
fn sdk_and_java_places() {
    assert_eq!(
        android_home_candidates("/home/u"),
        v(&["/home/u/Library/Android/sdk", "/home/u/Android/Sdk", "/home/u/.android-sdk"])
    );
    let java = java_home_candidates();
    assert_eq!(java[0], "/Library/Java/JavaVirtualMachines/jdk-21.jdk/Contents/Home");
    assert!(java.iter().all(|p| p.starts_with("/")));
}

#[test]
fn preparing_the_environment_twice_changes_nothing() {
    let home = Some("/h".to_string());
    let sdk = choose_android_home(&None, &home, &vec![false, true, false]);
    assert_eq!(sdk, Some("/h/Android/Sdk".to_string()));
    assert_eq!(choose_android_home(&sdk, &home, &vec![false, true, false]), None);
    let java = choose_java_home(&None, &vec![true, false, false, false, false], None, false);
    assert_eq!(choose_java_home(&java, &vec![true, false, false, false, false], None, false), None);
    let cands = path_candidates(&home, &None, &sdk, &java);
    let flags: Vec<bool> = cands.iter().map(|c| c.ends_with("platform-tools") || c.ends_with("cargo/bin")).collect();
    let extra = existing(&cands, &flags);
    let path = merge_path(&extra, &v(&["/usr/bin"])).unwrap();
    assert_eq!(path, v(&["/h/.cargo/bin", "/h/Android/Sdk/platform-tools", "/usr/bin"]));
    assert_eq!(merge_path(&extra, &path), None);
}

fn env(android: Option<&str>, java: Option<&str>, path: &[&str]) -> EnvValues {
    EnvValues {
        android_home: android.map(|s| s.to_string()),
        sdk_root: None,
        java_home: java.map(|s| s.to_string()),
        path: v(path),
    }
}

#[test]
fn prepare_environment_sets_what_is_missing_and_is_stable() {
    let home = Some("/h".to_string());
    let present = v(&["/h/Android/Sdk", "/h/Android/Sdk/platform-tools", "/h/.cargo/bin", "/jdk", "/jdk/bin"]);
    let first = prepare_environment(env(None, None, &["/usr/bin"]), &home, &present, &None, Some("/jdk".to_string()));
    assert_eq!(first.android_home, Some("/h/Android/Sdk".to_string()));
    assert_eq!(first.sdk_root, Some("/h/Android/Sdk".to_string()));
    assert_eq!(first.java_home, Some("/jdk".to_string()));
    assert_eq!(first.path, v(&["/h/.cargo/bin", "/h/Android/Sdk/platform-tools", "/jdk/bin", "/usr/bin"]));
    let again = EnvValues {
        android_home: first.android_home.clone(),
        sdk_root: first.sdk_root.clone(),
        java_home: first.java_home.clone(),
        path: first.path.clone(),
    };
    let second = prepare_environment(again, &home, &present, &None, Some("/jdk".to_string()));
    assert_eq!(second.android_home, first.android_home);
    assert_eq!(second.java_home, first.java_home);
    assert_eq!(second.path, first.path);
}

#[test]
fn prepare_environment_keeps_set_variables() {
    let home = Some("/h".to_string());
    let present = v(&["/h/Android/Sdk", "/mine/platform-tools"]);
    let r = prepare_environment(env(Some("/mine"), Some("/j"), &["/a", "/b"]), &home, &present, &None, Some("/gone".to_string()));
    assert_eq!(r.android_home, Some("/mine".to_string()));
    assert_eq!(r.sdk_root, None);
    assert_eq!(r.java_home, Some("/j".to_string()));
    assert_eq!(r.path, v(&["/mine/platform-tools", "/a", "/b"]));
    let none = prepare_environment(env(None, None, &["/a"]), &home, &v(&[]), &None, Some("/gone".to_string()));
    assert_eq!(none.android_home, None);
    assert_eq!(none.java_home, None);
    assert_eq!(none.path, v(&["/a"]));
}
