use devflow::adapters::{
    gradle_namespace, launch_component, launcher_activity, KotlinFrameworkAdapter,
};

#[test]
fn test_inspect_android_project() {
    let sample_manifest = r#"
<manifest xmlns:android="http://schemas.android.com/apk/res/android">
    <application>
        <activity android:name=".ui.MainActivity" android:exported="true">
            <intent-filter>
                <action android:name="android.intent.action.MAIN" />
                <category android:name="android.intent.category.LAUNCHER" />
            </intent-filter>
        </activity>
    </application>
</manifest>
"#;
    let matched_activity = launcher_activity(sample_manifest);
    assert_eq!(matched_activity, Some(".ui.MainActivity".to_string()));

    let sample_gradle = r#"
android {
    namespace = "com.maclink.companion"
    compileSdk = 34
}
"#;
    let ns = gradle_namespace(sample_gradle).unwrap();
    assert_eq!(ns.as_str(), "com.maclink.companion");
}

#[test]
fn inspect_takes_first_package_and_last_launcher() {
    let gradle = vec![
        "plugins { id(\"x\") }".to_string(),
        "android { applicationId 'com.first.app' }".to_string(),
        "android { namespace = \"com.second.app\" }".to_string(),
    ];
    let manifests = vec![
        "<activity android:name=\".A\"><action android:name=\"android.intent.action.MAIN\"/><category android:name=\"android.intent.category.LAUNCHER\"/></activity>".to_string(),
        "<activity android:name=\".Other\"></activity>".to_string(),
        "<activity android:name=\"com.x.B\"><action android:name=\"android.intent.action.MAIN\"/><category android:name=\"LAUNCHER\"/></activity>".to_string(),
    ];
    let (pkg, act) = KotlinFrameworkAdapter::inspect_android_project(&gradle, &manifests);
    assert_eq!(pkg, Some("com.first.app".to_string()));
    assert_eq!(act, Some("com.x.B".to_string()));
}

#[test]
fn inspect_finds_nothing_in_plain_files() {
    let (pkg, act) = KotlinFrameworkAdapter::inspect_android_project(&vec!["nothing".to_string()], &vec!["<manifest/>".to_string()]);
    assert_eq!(pkg, None);
    assert_eq!(act, None);
}

#[test]
fn activity_without_launcher_is_skipped() {
    let m = "<activity android:name=\".Main\"><action android:name=\"android.intent.action.MAIN\"/></activity><activity android:name=\".Second\"><action android:name=\"android.intent.action.MAIN\"/><category android:name=\"android.intent.category.LAUNCHER\"/></activity>";
    assert_eq!(launcher_activity(m), Some(".Second".to_string()));
}

#[test]
fn launch_component_rules() {
    assert_eq!(launch_component(Some("com.cfg/.Main"), Some("com.p"), Some(".X")), "com.cfg/.Main");
    assert_eq!(launch_component(None, Some("com.p"), Some(".ui.Main")), "com.p/com.p.ui.Main");
    assert_eq!(launch_component(None, Some("com.p"), Some("Main")), "com.p/com.p.Main");
    assert_eq!(launch_component(None, Some("com.p"), Some("org.q.Main")), "com.p/org.q.Main");
    assert_eq!(launch_component(None, Some("com.p"), None), "com.p/.MainActivity");
    assert_eq!(launch_component(None, None, Some(".Main")), "com.example.app/.MainActivity");
}
