//! The framework adapters' decisions: which adapter serves a project, what
//! each one builds and runs, and how it reads what the tools and the project
//! files say. Running the tools stays with the caller.
use vstd::prelude::*;
use crate::config::{DevflowConfig, opt_text, strs};
use crate::json::{
    field_present, field_text, json_fields, json_fields_of, json_records, json_records_of, rec_present, rec_text,
    record_view, records_view,
};
use crate::paths::{join, path_join};
use crate::platform::Platform;
use crate::project::Project;
use crate::text::{
    chars_of, concat_str, contains, contains_chars, has_char, owned, starts_with, to_lowercase,
    unicode_lower,
};

verus! {

/// One of the framework adapters.
#[derive(Clone, Copy, Debug, PartialEq, Eq, Structural)]
pub enum AdapterKind {
    Generic,
    Xcode,
    Swift,
    Kotlin,
    ReactNative,
    Flutter,
    Tauri,
}

/// The name of an adapter.
pub open spec fn adapter_name(k: AdapterKind) -> Seq<char> {
    match k {
        AdapterKind::Generic => "generic"@,
        AdapterKind::Xcode => "xcode"@,
        AdapterKind::Swift => "swift"@,
        AdapterKind::Kotlin => "kotlin"@,
        AdapterKind::ReactNative => "react-native"@,
        AdapterKind::Flutter => "flutter"@,
        AdapterKind::Tauri => "tauri"@,
    }
}

impl AdapterKind {
    /// The name of the adapter.
    pub fn name(&self) -> (r: &'static str)
        ensures
            r@ == adapter_name(*self),
    {
        match self {
            AdapterKind::Generic => "generic",
            AdapterKind::Xcode => "xcode",
            AdapterKind::Swift => "swift",
            AdapterKind::Kotlin => "kotlin",
            AdapterKind::ReactNative => "react-native",
            AdapterKind::Flutter => "flutter",
            AdapterKind::Tauri => "tauri",
        }
    }
}

/// What each specialised adapter's detection saw in a project directory.
pub struct AdapterDetection {
    /// An `.xcworkspace` or `.xcodeproj` entry.
    pub xcode: bool,
    /// `Package.swift`.
    pub swift: bool,
    /// A Gradle build or settings file at the root or under `app/`.
    pub kotlin: bool,
    /// What `react_native_detect` says.
    pub react_native: bool,
    /// What `flutter_detect` says.
    pub flutter: bool,
    /// `src-tauri/Cargo.toml`, `src-tauri/tauri.conf.json` or `tauri.conf.json`.
    pub tauri: bool,
}

/// The adapter a lower-cased framework name from `devflow.toml` selects.
pub open spec fn adapter_for_name(l: Seq<char>) -> AdapterKind {
    if l == "xcode"@ || l == "ios"@ || l == "apple"@ {
        AdapterKind::Xcode
    } else if l == "swift"@ || l == "swiftpm"@ {
        AdapterKind::Swift
    } else if l == "kotlin"@ || l == "android"@ {
        AdapterKind::Kotlin
    } else if l == "react-native"@ || l == "rn"@ {
        AdapterKind::ReactNative
    } else if l == "flutter"@ {
        AdapterKind::Flutter
    } else if l == "tauri"@ {
        AdapterKind::Tauri
    } else {
        AdapterKind::Generic
    }
}

/// The adapter that detection picks: the specialised adapters are asked in
/// this order, Tauri, Flutter, React Native, Kotlin, Swift, Xcode, and the
/// first that recognises the directory is taken; else the generic one.
pub open spec fn adapter_detected(d: AdapterDetection) -> AdapterKind {
    if d.tauri {
        AdapterKind::Tauri
    } else if d.flutter {
        AdapterKind::Flutter
    } else if d.react_native {
        AdapterKind::ReactNative
    } else if d.kotlin {
        AdapterKind::Kotlin
    } else if d.swift {
        AdapterKind::Swift
    } else if d.xcode {
        AdapterKind::Xcode
    } else {
        AdapterKind::Generic
    }
}

/// The adapters known, in the order they are registered.
pub struct FrameworkRegistry {
    pub adapters: Vec<AdapterKind>,
}

impl FrameworkRegistry {
    /// All adapters: generic, Xcode, Swift, Kotlin, React Native, Flutter,
    /// Tauri.
    pub fn new() -> (r: FrameworkRegistry)
        ensures
            r.adapters@ == seq![
                AdapterKind::Generic,
                AdapterKind::Xcode,
                AdapterKind::Swift,
                AdapterKind::Kotlin,
                AdapterKind::ReactNative,
                AdapterKind::Flutter,
                AdapterKind::Tauri,
            ],
    {
        FrameworkRegistry {
            adapters: vec![
                AdapterKind::Generic,
                AdapterKind::Xcode,
                AdapterKind::Swift,
                AdapterKind::Kotlin,
                AdapterKind::ReactNative,
                AdapterKind::Flutter,
                AdapterKind::Tauri,
            ],
        }
    }

    /// The adapter for a project: the one its configured framework names
    /// (compared without regard to case), else the one detection picks.
    pub fn select_adapter(&self, project: &Project, found: &AdapterDetection) -> (r: AdapterKind)
        ensures
            r == match project.config {
                Some(c) => adapter_for_name(unicode_lower(c.project.framework@)),
                None => adapter_detected(*found),
            },
    {
        if let Some(cfg) = &project.config {
            let lower = to_lowercase(cfg.project.framework.as_str());
            let l = chars_of(lower.as_str());
            let t = |lit: &str| -> (b: bool)
                ensures
                    b == (l@ == lit@),
                { crate::config::is_text(l.as_slice(), lit) };
            if t("xcode") || t("ios") || t("apple") {
                return AdapterKind::Xcode;
            } else if t("swift") || t("swiftpm") {
                return AdapterKind::Swift;
            } else if t("kotlin") || t("android") {
                return AdapterKind::Kotlin;
            } else if t("react-native") || t("rn") {
                return AdapterKind::ReactNative;
            } else if t("flutter") {
                return AdapterKind::Flutter;
            } else if t("tauri") {
                return AdapterKind::Tauri;
            } else {
                return AdapterKind::Generic;
            }
        }
        if found.tauri {
            AdapterKind::Tauri
        } else if found.flutter {
            AdapterKind::Flutter
        } else if found.react_native {
            AdapterKind::ReactNative
        } else if found.kotlin {
            AdapterKind::Kotlin
        } else if found.swift {
            AdapterKind::Swift
        } else if found.xcode {
            AdapterKind::Xcode
        } else {
            AdapterKind::Generic
        }
    }
}

/// Whether a `pubspec.yaml` (its text, when it could be read) is a Flutter
/// one.
pub open spec fn spec_flutter_detect(pubspec: Option<Seq<char>>) -> bool {
    match pubspec {
        Some(t) => contains(t, "flutter:"@) || contains(t, "sdk: flutter"@),
        None => false,
    }
}

/// The adapter for Flutter apps.
pub struct FlutterFrameworkAdapter;

impl FlutterFrameworkAdapter {
    /// Whether a `pubspec.yaml` (its text, when it could be read) is a Flutter
    /// one.
    pub fn detect(pubspec: Option<&str>) -> (r: bool)
        ensures
            r == spec_flutter_detect(match pubspec {
                Some(t) => Some(t@),
                None => None,
            }),
    {
        match pubspec {
            Some(t) => {
                let c = chars_of(t);
                let a = chars_of("flutter:");
                let b = chars_of("sdk: flutter");
                contains_chars(c.as_slice(), a.as_slice()) || contains_chars(c.as_slice(), b.as_slice())
            },
            None => false,
        }
    }
}

/// Whether a directory is a React Native project: it has `metro.config.js`,
/// or its `package.json` (when it could be read) names `react-native` in
/// double or single quotes.
pub open spec fn spec_react_native_detect(has_metro: bool, package_json: Option<Seq<char>>) -> bool {
    has_metro || match package_json {
        Some(t) => contains(t, "\"react-native\""@) || contains(t, "'react-native'"@),
        None => false,
    }
}

/// The adapter for React Native apps.
pub struct ReactNativeFrameworkAdapter;

impl ReactNativeFrameworkAdapter {
    /// Whether a directory is a React Native project (see
    /// `spec_react_native_detect`).
    pub fn detect(has_metro: bool, package_json: Option<&str>) -> (r: bool)
        ensures
            r == spec_react_native_detect(
                has_metro,
                match package_json {
                    Some(t) => Some(t@),
                    None => None,
                },
            ),
    {
        if has_metro {
            return true;
        }
        match package_json {
            Some(t) => {
                let c = chars_of(t);
                let a = chars_of("\"react-native\"");
                let b = chars_of("'react-native'");
                contains_chars(c.as_slice(), a.as_slice()) || contains_chars(c.as_slice(), b.as_slice())
            },
            None => false,
        }
    }
}

/// What a build produced.
#[derive(Debug)]
pub struct BuildResult {
    pub success: bool,
    pub duration_ms: u64,
    pub artifact_path: Option<String>,
    pub stdout: String,
    pub stderr: String,
    pub error_message: Option<String>,
}

/// The contents of a build result.
pub struct BuildView {
    pub success: bool,
    pub duration_ms: u64,
    pub artifact_path: Option<Seq<char>>,
    pub stdout: Seq<char>,
    pub stderr: Seq<char>,
    pub error_message: Option<Seq<char>>,
}

/// The contents of a build result.
pub open spec fn build_view(b: BuildResult) -> BuildView {
    BuildView {
        success: b.success,
        duration_ms: b.duration_ms,
        artifact_path: opt_text(b.artifact_path),
        stdout: b.stdout@,
        stderr: b.stderr@,
        error_message: opt_text(b.error_message),
    }
}

impl BuildResult {
    /// A successful build.
    pub fn ok(duration_ms: u64, artifact_path: Option<String>, stdout: String, stderr: String) -> (r: BuildResult)
        ensures
            build_view(r) == (BuildView {
                success: true,
                duration_ms,
                artifact_path: opt_text(artifact_path),
                stdout: stdout@,
                stderr: stderr@,
                error_message: None,
            }),
    {
        BuildResult { success: true, duration_ms, artifact_path, stdout, stderr, error_message: None }
    }

    /// A failed build.
    pub fn failed(duration_ms: u64, stdout: String, stderr: String, error_message: String) -> (r: BuildResult)
        ensures
            build_view(r) == (BuildView {
                success: false,
                duration_ms,
                artifact_path: None,
                stdout: stdout@,
                stderr: stderr@,
                error_message: Some(error_message@),
            }),
    {
        BuildResult { success: false, duration_ms, artifact_path: None, stdout, stderr, error_message: Some(error_message) }
    }
}

/// The result of a build command that ran: successful with the artifact,
/// or failed with `prefix` followed by what the tool wrote on standard
/// error.
pub open spec fn spec_outcome(
    success: bool,
    duration_ms: u64,
    artifact: Option<Seq<char>>,
    stdout: Seq<char>,
    stderr: Seq<char>,
    prefix: Seq<char>,
) -> BuildView {
    if success {
        BuildView { success: true, duration_ms, artifact_path: artifact, stdout, stderr, error_message: None }
    } else {
        BuildView {
            success: false,
            duration_ms,
            artifact_path: None,
            stdout,
            stderr,
            error_message: Some(prefix + stderr),
        }
    }
}

/// The result of a build command that ran (see `spec_outcome`).
pub fn build_outcome(
    success: bool,
    duration_ms: u64,
    artifact: Option<String>,
    stdout: String,
    stderr: String,
    prefix: &str,
) -> (r: BuildResult)
    ensures
        build_view(r) == spec_outcome(success, duration_ms, opt_text(artifact), stdout@, stderr@, prefix@),
{
    if success {
        BuildResult::ok(duration_ms, artifact, stdout, stderr)
    } else {
        let msg = concat_str(prefix, stderr.as_str());
        BuildResult::failed(duration_ms, stdout, stderr, msg)
    }
}

/// The build configuration name.
pub open spec fn config_dir(is_release: bool) -> Seq<char> {
    if is_release {
        "release"@
    } else {
        "debug"@
    }
}

fn config_dir_str(is_release: bool) -> (r: &'static str)
    ensures
        r@ == config_dir(is_release),
{
    if is_release {
        "release"
    } else {
        "debug"
    }
}

/// The pattern that finds an Android package name in a Gradle script.
pub const NAMESPACE_PATTERN: &'static str = r#"(?:namespace|applicationId)\s*=?\s*["']([^"']+)["']"#;

/// The pattern that finds an activity and its body in an Android manifest.
pub const LAUNCHER_ACTIVITY_PATTERN: &'static str =
    r#"<activity[^>]*android:name=["']([^"']+)["'][^>]*>([\s\S]*?)</activity>"#;

/// The text of capture group `group` in the leftmost match of the regular
/// expression `pattern` in `text` (the regex crate's syntax), `None` when
/// the pattern is not valid, does not match, or the group took no part in
/// the match.
pub uninterp spec fn regex_group_of(pattern: Seq<char>, text: Seq<char>, group: usize) -> Option<Seq<char>>;

/// The texts of capture groups `g1` and `g2` of each successive
/// non-overlapping match of `pattern` in `text` (the regex crate's
/// syntax), in order; empty when the pattern is not valid.
pub uninterp spec fn regex_group_pairs_of(
    pattern: Seq<char>,
    text: Seq<char>,
    g1: usize,
    g2: usize,
) -> Seq<(Option<Seq<char>>, Option<Seq<char>>)>;

/// The texts of a list of optional pairs.
pub open spec fn pair_texts(s: Seq<(Option<String>, Option<String>)>) -> Seq<(Option<Seq<char>>, Option<Seq<char>>)> {
    s.map_values(|p: (Option<String>, Option<String>)| (opt_text(p.0), opt_text(p.1)))
}

/// Calls the regex crate: `Regex::new(pattern)`, then `captures(text)` and
/// the group's `as_str`. The result is named `regex_group_of` of the
/// arguments; what the regular expression matches is not stated.
#[verifier::external_body]
fn regex_group(pattern: &str, text: &str, group: usize) -> (r: Option<String>)
    ensures
        opt_text(r) == regex_group_of(pattern@, text@, group),
{
    match regex::Regex::new(pattern) {
        Ok(re) => match re.captures(text) {
            Some(caps) => match caps.get(group) {
                Some(m) => Some(m.as_str().to_string()),
                None => None,
            },
            None => None,
        },
        Err(_) => None,
    }
}

/// Calls the regex crate: `Regex::new(pattern)`, then `captures_iter(text)`
/// with the text of groups `g1` and `g2` of each match. The result is
/// named `regex_group_pairs_of` of the arguments; what the regular
/// expression matches is not stated.
#[verifier::external_body]
fn regex_group_pairs(pattern: &str, text: &str, g1: usize, g2: usize) -> (r: Vec<(Option<String>, Option<String>)>)
    ensures
        pair_texts(r@) == regex_group_pairs_of(pattern@, text@, g1, g2),
{
    let mut out = Vec::new();
    if let Ok(re) = regex::Regex::new(pattern) {
        for c in re.captures_iter(text) {
            out.push((c.get(g1).map(|m| m.as_str().to_string()), c.get(g2).map(|m| m.as_str().to_string())));
        }
    }
    out
}

/// The package name a Gradle script declares, if any.
pub open spec fn spec_gradle_namespace(text: Seq<char>) -> Option<Seq<char>> {
    regex_group_of(NAMESPACE_PATTERN@, text, 1)
}

/// The package name a Gradle script declares (`namespace` or
/// `applicationId`), if any.
pub fn gradle_namespace(text: &str) -> (r: Option<String>)
    ensures
        opt_text(r) == spec_gradle_namespace(text@),
{
    regex_group(NAMESPACE_PATTERN, text, 1)
}

/// Whether an activity's body makes it the launcher: it has the main action
/// and a launcher category.
pub open spec fn is_launcher_body(body: Seq<char>) -> bool {
    contains(body, "android.intent.action.MAIN"@) && (contains(
        body,
        "android.intent.category.LAUNCHER"@,
    ) || contains(body, "LAUNCHER"@))
}

/// The body of a capture, empty when the group took no part.
pub open spec fn body_of(b: Option<Seq<char>>) -> Seq<char> {
    match b {
        Some(t) => t,
        None => Seq::empty(),
    }
}

/// The first activity among `caps` whose body makes it the launcher: found
/// or not, and its name.
pub open spec fn first_launcher(caps: Seq<(Option<Seq<char>>, Option<Seq<char>>)>) -> Option<Option<Seq<char>>>
    decreases caps.len(),
{
    if caps.len() == 0 {
        None
    } else if is_launcher_body(body_of(caps[0].1)) {
        Some(caps[0].0)
    } else {
        first_launcher(caps.drop_first())
    }
}

/// The launcher activity of a manifest: found or not, and its name.
pub open spec fn spec_launcher_activity(text: Seq<char>) -> Option<Option<Seq<char>>> {
    first_launcher(regex_group_pairs_of(LAUNCHER_ACTIVITY_PATTERN@, text, 1, 2))
}

fn launcher_in(caps: &Vec<(Option<String>, Option<String>)>) -> (r: Option<Option<String>>)
    ensures
        match r {
            Some(n) => first_launcher(pair_texts(caps@)) == Some(opt_text(n)),
            None => first_launcher(pair_texts(caps@)) is None,
        },
{
    let ghost all = pair_texts(caps@);
    let mut i: usize = 0;
    let main = chars_of("android.intent.action.MAIN");
    let cat = chars_of("android.intent.category.LAUNCHER");
    let short = chars_of("LAUNCHER");
    assert(all.skip(0) =~= all);
    while i < caps.len()
        invariant
            all == pair_texts(caps@),
            i <= caps@.len(),
            main@ == "android.intent.action.MAIN"@,
            cat@ == "android.intent.category.LAUNCHER"@,
            short@ == "LAUNCHER"@,
            first_launcher(all) == first_launcher(all.skip(i as int)),
        decreases caps@.len() - i,
    {
        let body: Vec<char> = match &caps[i].1 {
            Some(b) => chars_of(b.as_str()),
            None => Vec::new(),
        };
        assert(body@ == body_of(all[i as int].1));
        assert(all.skip(i as int)[0] == all[i as int]);
        if contains_chars(body.as_slice(), main.as_slice()) && (contains_chars(
            body.as_slice(),
            cat.as_slice(),
        ) || contains_chars(body.as_slice(), short.as_slice())) {
            let name = match &caps[i].0 {
                Some(n) => Some(owned(n.as_str())),
                None => None,
            };
            return Some(name);
        }
        assert(all.skip(i as int).drop_first() =~= all.skip(i + 1));
        i = i + 1;
    }
    None
}

/// The launcher activity a manifest declares, if any: the first activity
/// whose body has the main action and a launcher category.
pub fn launcher_activity(text: &str) -> (r: Option<String>)
    ensures
        opt_text(r) == match spec_launcher_activity(text@) {
            Some(n) => n,
            None => None,
        },
{
    let caps = regex_group_pairs(LAUNCHER_ACTIVITY_PATTERN, text, 1, 2);
    match launcher_in(&caps) {
        Some(n) => n,
        None => None,
    }
}

/// The first package name declared among the Gradle scripts, in order.
pub open spec fn first_namespace(texts: Seq<Seq<char>>) -> Option<Seq<char>>
    decreases texts.len(),
{
    if texts.len() == 0 {
        None
    } else {
        match spec_gradle_namespace(texts[0]) {
            Some(n) => Some(n),
            None => first_namespace(texts.drop_first()),
        }
    }
}

/// The launcher activity of the manifests: each manifest that has one
/// replaces what came before, so the last one counts.
pub open spec fn last_launcher(texts: Seq<Seq<char>>) -> Option<Seq<char>>
    decreases texts.len(),
{
    if texts.len() == 0 {
        None
    } else {
        match spec_launcher_activity(texts.last()) {
            Some(n) => n,
            None => last_launcher(texts.drop_last()),
        }
    }
}

/// The Gradle scripts looked at for the package name, in order.
pub open spec fn spec_gradle_candidates(dir: Seq<char>) -> Seq<Seq<char>> {
    seq![
        path_join(dir, "app/build.gradle.kts"@),
        path_join(dir, "app/build.gradle"@),
        path_join(dir, "build.gradle.kts"@),
        path_join(dir, "build.gradle"@),
    ]
}

/// The manifests looked at for the launcher activity, in order.
pub open spec fn spec_manifest_candidates(dir: Seq<char>) -> Seq<Seq<char>> {
    seq![
        path_join(dir, "app/src/main/AndroidManifest.xml"@),
        path_join(dir, "src/main/AndroidManifest.xml"@),
        path_join(dir, "AndroidManifest.xml"@),
    ]
}

/// The Gradle scripts looked at for the package name, in order.
pub fn gradle_candidates(dir: &str) -> (r: Vec<String>)
    ensures
        strs(r@) == spec_gradle_candidates(dir@),
{
    let r = vec![
        join(dir, "app/build.gradle.kts"),
        join(dir, "app/build.gradle"),
        join(dir, "build.gradle.kts"),
        join(dir, "build.gradle"),
    ];
    assert(strs(r@) =~= spec_gradle_candidates(dir@));
    r
}

/// The manifests looked at for the launcher activity, in order.
pub fn manifest_candidates(dir: &str) -> (r: Vec<String>)
    ensures
        strs(r@) == spec_manifest_candidates(dir@),
{
    let r = vec![
        join(dir, "app/src/main/AndroidManifest.xml"),
        join(dir, "src/main/AndroidManifest.xml"),
        join(dir, "AndroidManifest.xml"),
    ];
    assert(strs(r@) =~= spec_manifest_candidates(dir@));
    r
}

/// The adapter for Android apps built with Gradle.
pub struct KotlinFrameworkAdapter;

impl KotlinFrameworkAdapter {
    /// The package name and launcher activity of an Android project, from the
    /// texts of those of its Gradle scripts and manifests that exist and could
    /// be read, each list in candidate order: the first package name declared,
    /// and the launcher activity of the last manifest that has one.
    pub fn inspect_android_project(gradle_texts: &Vec<String>, manifest_texts: &Vec<String>) -> (r: (Option<String>, Option<String>))
        ensures
            opt_text(r.0) == first_namespace(strs(gradle_texts@)),
            opt_text(r.1) == last_launcher(strs(manifest_texts@)),
    {
        let ghost gs = strs(gradle_texts@);
        let mut package_id: Option<String> = None;
        let mut i: usize = 0;
        assert(gs.skip(0) =~= gs);
        while i < gradle_texts.len() && package_id.is_none()
            invariant
                gs == strs(gradle_texts@),
                i <= gradle_texts@.len(),
                match package_id {
                    Some(p) => first_namespace(gs) == Some(p@),
                    None => first_namespace(gs) == first_namespace(gs.skip(i as int)),
                },
            decreases gradle_texts@.len() - i, if package_id is None { 1int } else { 0int },
        {
            assert(gs.skip(i as int)[0] == gs[i as int]);
            let ns = gradle_namespace(gradle_texts[i].as_str());
            if ns.is_some() {
                package_id = ns;
            } else {
                assert(gs.skip(i as int).drop_first() =~= gs.skip(i + 1));
                i = i + 1;
            }
        }
        proof {
            if package_id is None {
                assert(gs.skip(i as int) =~= Seq::<Seq<char>>::empty());
            }
        }
        let ghost ms = strs(manifest_texts@);
        let mut main_activity: Option<String> = None;
        let mut j: usize = 0;
        assert(ms.take(0) =~= Seq::<Seq<char>>::empty());
        while j < manifest_texts.len()
            invariant
                ms == strs(manifest_texts@),
                j <= manifest_texts@.len(),
                opt_text(main_activity) == last_launcher(ms.take(j as int)),
            decreases manifest_texts@.len() - j,
        {
            assert(ms.take(j + 1).drop_last() =~= ms.take(j as int));
            assert(ms.take(j + 1).last() == ms[j as int]);
            let caps = regex_group_pairs(LAUNCHER_ACTIVITY_PATTERN, manifest_texts[j].as_str(), 1, 2);
            if let Some(name) = launcher_in(&caps) {
                main_activity = name;
            }
            j = j + 1;
        }
        assert(ms.take(ms.len() as int) =~= ms);
        (package_id, main_activity)
    }
}

/// The extension of a path's file name (std's `Path::extension`), if any.
pub uninterp spec fn path_extension_of(p: Seq<char>) -> Option<Seq<char>>;

/// Calls std's `Path::extension`. The result is named `path_extension_of`
/// of the path; what std takes for the file name and its extension is not
/// stated.
#[verifier::external_body]
fn path_extension(p: &str) -> (r: Option<String>)
    ensures
        opt_text(r) == path_extension_of(p@),
{
    match std::path::Path::new(p).extension() {
        Some(e) => Some(e.to_string_lossy().to_string()),
        None => None,
    }
}

/// Whether the extension of a path's file name is `ext`.
pub fn has_extension(p: &str, ext: &str) -> (r: bool)
    ensures
        r == (path_extension_of(p@) == Some(ext@)),
{
    match path_extension(p) {
        Some(e) => {
            let a = chars_of(e.as_str());
            let b = chars_of(ext);
            crate::text::chars_eq(a.as_slice(), b.as_slice())
        },
        None => false,
    }
}

/// The Gradle program: the project's wrapper when it has one.
pub open spec fn gradle_program(has_gradlew: bool) -> Seq<char> {
    if has_gradlew {
        "./gradlew"@
    } else {
        "gradle"@
    }
}

impl KotlinFrameworkAdapter {
    /// The Gradle program: the project's wrapper when it has one.
    pub fn find_gradlew(has_gradlew: bool) -> (r: String)
        ensures
            r@ == gradle_program(has_gradlew),
    {
        if has_gradlew {
            owned("./gradlew")
        } else {
            owned("gradle")
        }
    }
}

/// The Gradle task that assembles the app.
pub open spec fn gradle_task(is_release: bool) -> Seq<char> {
    if is_release {
        "assembleRelease"@
    } else {
        "assembleDebug"@
    }
}

/// The Gradle task that assembles the app.
pub fn gradle_build_task(is_release: bool) -> (r: &'static str)
    ensures
        r@ == gradle_task(is_release),
{
    if is_release {
        "assembleRelease"
    } else {
        "assembleDebug"
    }
}

/// Where the APK is taken to be when none was found.
pub open spec fn default_apk(is_release: bool) -> Seq<char> {
    if is_release {
        "app/build/outputs/apk/release/app-release.apk"@
    } else {
        "app/build/outputs/apk/debug/app-debug.apk"@
    }
}

/// The directories searched for a built APK, in order.
pub open spec fn spec_apk_dirs(dir: Seq<char>, is_release: bool) -> Seq<Seq<char>> {
    seq![
        path_join(path_join(dir, "app/build/outputs/apk"@), config_dir(is_release)),
        path_join(path_join(dir, "build/outputs/apk"@), config_dir(is_release)),
    ]
}

/// The directories searched for a built APK, in order.
pub fn apk_search_dirs(dir: &str, is_release: bool) -> (r: Vec<String>)
    ensures
        strs(r@) == spec_apk_dirs(dir@, is_release),
{
    let c = config_dir_str(is_release);
    let a = join(dir, "app/build/outputs/apk");
    let b = join(dir, "build/outputs/apk");
    let r = vec![join(a.as_str(), c), join(b.as_str(), c)];
    assert(strs(r@) =~= spec_apk_dirs(dir@, is_release));
    r
}

/// Whether a directory entry is an APK.
pub fn is_apk(path: &str) -> (r: bool)
    ensures
        r == (path_extension_of(path@) == Some("apk"@)),
{
    has_extension(path, "apk")
}

/// The result of a Gradle build: on success the APK found, or the default
/// path when none was.
pub fn kotlin_build_result(
    success: bool,
    duration_ms: u64,
    found_apk: Option<String>,
    is_release: bool,
    stdout: String,
    stderr: String,
) -> (r: BuildResult)
    ensures
        build_view(r) == spec_outcome(
            success,
            duration_ms,
            Some(
                match found_apk {
                    Some(a) => a@,
                    None => default_apk(is_release),
                },
            ),
            stdout@,
            stderr@,
            "Gradle build failed: "@,
        ),
{
    let apk = match found_apk {
        Some(a) => a,
        None => if is_release {
            owned("app/build/outputs/apk/release/app-release.apk")
        } else {
            owned("app/build/outputs/apk/debug/app-debug.apk")
        },
    };
    build_outcome(success, duration_ms, Some(apk), stdout, stderr, "Gradle build failed: ")
}

/// The activity component an app is started with: the configured one; else
/// from the package name and launcher activity found (an activity starting
/// with `.` or without any `.` is taken relative to the package); else the
/// package's `.MainActivity`; else `com.example.app/.MainActivity`.
pub open spec fn spec_launch_component(
    configured: Option<Seq<char>>,
    pkg: Option<Seq<char>>,
    activity: Option<Seq<char>>,
) -> Seq<char> {
    match configured {
        Some(c) => c,
        None => match (pkg, activity) {
            (Some(p), Some(a)) => p + "/"@ + if a.len() > 0 && a[0] == '.' {
                p + a
            } else if !a.contains('.') {
                p + "."@ + a
            } else {
                a
            },
            (Some(p), None) => p + "/.MainActivity"@,
            _ => "com.example.app/.MainActivity"@,
        },
    }
}

/// The activity component an app is started with (see
/// `spec_launch_component`).
pub fn launch_component(configured: Option<&str>, pkg: Option<&str>, activity: Option<&str>) -> (r: String)
    ensures
        r@ == spec_launch_component(
            match configured {
                Some(t) => Some(t@),
                None => None,
            },
            match pkg {
                Some(t) => Some(t@),
                None => None,
            },
            match activity {
                Some(t) => Some(t@),
                None => None,
            },
        ),
{
    if let Some(c) = configured {
        return owned(c);
    }
    match (pkg, activity) {
        (Some(p), Some(a)) => {
            let ac = chars_of(a);
            let full = if ac.len() > 0 && ac[0] == '.' {
                concat_str(p, a)
            } else if !has_char(ac.as_slice(), '.') {
                let p1 = concat_str(p, ".");
                concat_str(p1.as_str(), a)
            } else {
                owned(a)
            };
            let p2 = concat_str(p, "/");
            concat_str(p2.as_str(), full.as_str())
        },
        (Some(p), None) => concat_str(p, "/.MainActivity"),
        _ => owned("com.example.app/.MainActivity"),
    }
}

/// A configured command with the project's placeholders filled in.
pub open spec fn expand_with(c: DevflowConfig, t: Seq<char>, target: Option<Seq<char>>) -> Seq<char> {
    crate::config::spec_expand(
        t,
        c.project.name@,
        c.project.platform@,
        c.project.framework@,
        target,
        crate::config::configured_artifact(c),
    )
}

/// The configured build command, if any.
pub open spec fn build_command_of(c: DevflowConfig) -> Option<Seq<char>> {
    match c.build {
        Some(b) => Some(b.command@),
        None => None,
    }
}

/// The command a Tauri project is built with: the configured one; else
/// Cargo on `src-tauri/Cargo.toml` when it exists (with `--release` for a
/// release build); else the npm script.
pub open spec fn spec_tauri_build_command(configured: Option<Seq<char>>, has_manifest: bool, is_release: bool) -> Seq<char> {
    match configured {
        Some(c) => c,
        None => if has_manifest {
            if is_release {
                "cargo build --manifest-path src-tauri/Cargo.toml --release"@
            } else {
                "cargo build --manifest-path src-tauri/Cargo.toml"@
            }
        } else {
            "npm run tauri build"@
        },
    }
}

/// The command a Tauri project is built with (see
/// `spec_tauri_build_command`).
pub fn tauri_build_command(config: &DevflowConfig, has_manifest: bool, is_release: bool) -> (r: String)
    ensures
        r@ == spec_tauri_build_command(build_command_of(*config), has_manifest, is_release),
{
    match &config.build {
        Some(b) => owned(b.command.as_str()),
        None => if has_manifest {
            if is_release {
                owned("cargo build --manifest-path src-tauri/Cargo.toml --release")
            } else {
                owned("cargo build --manifest-path src-tauri/Cargo.toml")
            }
        } else {
            owned("npm run tauri build")
        },
    }
}

/// A command line as a program and its arguments: its whitespace-separated
/// words, the program being `cargo` when there are none.
pub open spec fn spec_command_parts(cmd: Seq<char>) -> (Seq<char>, Seq<Seq<char>>) {
    let w = crate::split::words(cmd);
    if w.len() == 0 {
        ("cargo"@, Seq::empty())
    } else {
        (w[0], w.drop_first())
    }
}

/// A command line as a program and its arguments (see
/// `spec_command_parts`).
pub fn command_parts(cmd: &str) -> (r: (String, Vec<String>))
    ensures
        (r.0@, strs(r.1@)) == spec_command_parts(cmd@),
{
    let c = chars_of(cmd);
    let w = crate::split::split_words(c.as_slice());
    if w.len() == 0 {
        let r = (owned("cargo"), Vec::new());
        assert(strs(r.1@) =~= Seq::<Seq<char>>::empty());
        return r;
    }
    let program = crate::text::string_of(w[0].as_slice());
    let mut args: Vec<String> = Vec::new();
    let mut i: usize = 1;
    while i < w.len()
        invariant
            1 <= i <= w@.len(),
            w@.len() == crate::split::words(c@).len(),
            forall|k: int| 0 <= k < w@.len() ==> #[trigger] w@[k]@ == crate::split::words(c@)[k],
            strs(args@) == crate::split::words(c@).subrange(1, i as int),
        decreases w@.len() - i,
    {
        let ghost before = strs(args@);
        let piece = crate::text::string_of(w[i].as_slice());
        assert(piece@ == crate::split::words(c@)[i as int]);
        args.push(piece);
        assert(strs(args@) =~= before.push(piece@));
        assert(strs(args@) =~= crate::split::words(c@).subrange(1, i + 1));
        i = i + 1;
    }
    assert(crate::split::words(c@).subrange(1, w@.len() as int) =~= crate::split::words(c@).drop_first());
    (program, args)
}

/// Where a built Tauri binary is looked for, in order.
pub open spec fn spec_tauri_binaries(dir: Seq<char>, is_release: bool, name: Seq<char>) -> Seq<Seq<char>> {
    seq![
        path_join(path_join(path_join(path_join(dir, "src-tauri"@), "target"@), config_dir(is_release)), name),
        path_join(path_join(path_join(dir, "target"@), config_dir(is_release)), name),
    ]
}

/// Where a built Tauri binary is looked for, in order.
pub fn tauri_binary_candidates(dir: &str, is_release: bool, name: &str) -> (r: Vec<String>)
    ensures
        strs(r@) == spec_tauri_binaries(dir@, is_release, name@),
{
    let c = config_dir_str(is_release);
    let a1 = join(dir, "src-tauri");
    let a2 = join(a1.as_str(), "target");
    let a3 = join(a2.as_str(), c);
    let b1 = join(dir, "target");
    let b2 = join(b1.as_str(), c);
    let r = vec![join(a3.as_str(), name), join(b2.as_str(), name)];
    assert(strs(r@) =~= spec_tauri_binaries(dir@, is_release, name@));
    r
}

/// The binary a Tauri app is launched from: the built artifact, else the
/// debug build of the project.
pub fn tauri_launch_binary(artifact: Option<&str>, project_name: &str) -> (r: String)
    ensures
        r@ == match artifact {
            Some(a) => a@,
            None => "src-tauri/target/debug/"@ + project_name@,
        },
{
    match artifact {
        Some(a) => owned(a),
        None => concat_str("src-tauri/target/debug/", project_name),
    }
}

/// Whether a change to a Tauri project touches its native side: some file
/// changed is Rust source or a TOML manifest, so the app is rebuilt and
/// restarted; otherwise the web dev server updates it live.
pub open spec fn spec_tauri_needs_restart(changed: Seq<Seq<char>>) -> bool {
    exists|k: int|
        0 <= k < changed.len() && (path_extension_of(#[trigger] changed[k]) == Some("rs"@)
            || path_extension_of(changed[k]) == Some("toml"@))
}

/// Whether a change to a Tauri project touches its native side (see
/// `spec_tauri_needs_restart`).
pub fn tauri_needs_restart(changed: &Vec<String>) -> (r: bool)
    ensures
        r == spec_tauri_needs_restart(strs(changed@)),
{
    let ghost cs = strs(changed@);
    let mut i: usize = 0;
    while i < changed.len()
        invariant
            cs == strs(changed@),
            i <= changed@.len(),
            forall|k: int|
                0 <= k < i ==> !(path_extension_of(#[trigger] cs[k]) == Some("rs"@)
                    || path_extension_of(cs[k]) == Some("toml"@)),
        decreases changed@.len() - i,
    {
        if has_extension(changed[i].as_str(), "rs") || has_extension(changed[i].as_str(), "toml") {
            assert(cs[i as int] == changed@[i as int]@);
            return true;
        }
        i = i + 1;
    }
    false
}

/// The command a Flutter project is built with: the configured one, else
/// by the target device's platform (Android when there is none).
pub open spec fn spec_flutter_build_command(configured: Option<Seq<char>>, target: Option<Platform>) -> Seq<char> {
    match configured {
        Some(c) => c,
        None => match target {
            Some(Platform::Apple) | Some(Platform::Ios) => "flutter build ios --simulator --debug"@,
            Some(Platform::Macos) | Some(Platform::Desktop) => "flutter build macos --debug"@,
            _ => "flutter build apk --debug"@,
        },
    }
}

/// The command a Flutter project is built with (see
/// `spec_flutter_build_command`).
pub fn flutter_build_command(config: &DevflowConfig, target: Option<Platform>) -> (r: String)
    ensures
        r@ == spec_flutter_build_command(build_command_of(*config), target),
{
    match &config.build {
        Some(b) => owned(b.command.as_str()),
        None => match target {
            Some(Platform::Apple) | Some(Platform::Ios) => owned("flutter build ios --simulator --debug"),
            Some(Platform::Macos) | Some(Platform::Desktop) => owned("flutter build macos --debug"),
            _ => owned("flutter build apk --debug"),
        },
    }
}

/// Which platform runner serves a device.
#[derive(Clone, Copy, Debug, PartialEq, Eq, Structural)]
pub enum RunnerKind {
    Android,
    Apple,
    Desktop,
}

/// The runner that launches, stops and follows a cross-platform app on a
/// device of the given platform.
pub open spec fn spec_runner_for(p: Platform) -> RunnerKind {
    match p {
        Platform::Android => RunnerKind::Android,
        Platform::Apple | Platform::Ios => RunnerKind::Apple,
        _ => RunnerKind::Desktop,
    }
}

/// The runner that launches, stops and follows a cross-platform app on a
/// device of the given platform.
pub fn runner_for(p: Platform) -> (r: RunnerKind)
    ensures
        r == spec_runner_for(p),
{
    match p {
        Platform::Android => RunnerKind::Android,
        Platform::Apple | Platform::Ios => RunnerKind::Apple,
        _ => RunnerKind::Desktop,
    }
}

/// The runner that installs a cross-platform app on a device of the given
/// platform; `None` where nothing is installed (desktop).
pub fn installer_for(p: Platform) -> (r: Option<RunnerKind>)
    ensures
        r == match spec_runner_for(p) {
            RunnerKind::Desktop => None,
            k => Some(k),
        },
{
    match runner_for(p) {
        RunnerKind::Desktop => None,
        k => Some(k),
    }
}

/// The default command a React Native project is built with.
pub open spec fn rn_default_build() -> Seq<char> {
    "npx react-native bundle --platform android --dev false --entry-file index.js --bundle-output android/app/src/main/assets/index.android.bundle"@
}

/// The command a React Native project is built with: the configured one,
/// else the Android bundle.
pub fn rn_build_command(config: &DevflowConfig) -> (r: String)
    ensures
        r@ == match build_command_of(*config) {
            Some(c) => c,
            None => rn_default_build(),
        },
{
    match &config.build {
        Some(b) => owned(b.command.as_str()),
        None => owned(
            "npx react-native bundle --platform android --dev false --entry-file index.js --bundle-output android/app/src/main/assets/index.android.bundle",
        ),
    }
}

/// The package a React Native app is launched as: the configured one, else
/// `com.example.app`.
pub fn rn_launch_package(config: &DevflowConfig) -> (r: String)
    ensures
        r@ == match config.project.package_id {
            Some(p) => p@,
            None => "com.example.app"@,
        },
{
    match &config.project.package_id {
        Some(p) => owned(p.as_str()),
        None => owned("com.example.app"),
    }
}

/// What a React Native reload does next.
pub enum ReloadStep {
    /// Metro took the reload request: done.
    Done,
    /// Send the reload key sequence with `adb` and these arguments.
    KeyEvent(Vec<String>),
    /// Fall back to a full restart.
    Restart,
}

/// What a React Native reload does next, given whether Metro on port 8081
/// took the request: done when it did; on Android, the reload key sequence
/// `rr` typed on the device; else a full restart.
pub fn rn_reload_step(metro_reached: bool, device_platform: Platform, device_id: &str) -> (r: ReloadStep)
    ensures
        metro_reached ==> r is Done,
        !metro_reached && device_platform == Platform::Android ==> (r matches ReloadStep::KeyEvent(a)
            && strs(a@) == seq!["-s"@, device_id@, "shell"@, "input"@, "text"@, "rr"@]),
        !metro_reached && device_platform != Platform::Android ==> r is Restart,
{
    if metro_reached {
        return ReloadStep::Done;
    }
    if device_platform == Platform::Android {
        let a = vec![
            owned("-s"),
            owned(device_id),
            owned("shell"),
            owned("input"),
            owned("text"),
            owned("rr"),
        ];
        assert(strs(a@) =~= seq!["-s"@, device_id@, "shell"@, "input"@, "text"@, "rr"@]);
        return ReloadStep::KeyEvent(a);
    }
    ReloadStep::Restart
}

/// The HTTP request that asks Metro on `port` to reload.
pub fn metro_reload_request(port: u16) -> (r: String)
    ensures
        r@ == "GET /reload HTTP/1.1\r\nHost: localhost:"@ + crate::number::decimal(port as nat)
            + "\r\nConnection: close\r\n\r\n"@,
{
    let d = crate::number::to_decimal(port as u64);
    let ds = crate::text::string_of(d.as_slice());
    let a = concat_str("GET /reload HTTP/1.1\r\nHost: localhost:", ds.as_str());
    concat_str(a.as_str(), "\r\nConnection: close\r\n\r\n")
}

/// The arguments of `swift`: a build, in release configuration when asked.
pub fn swift_build_args(is_release: bool) -> (r: Vec<String>)
    ensures
        strs(r@) == if is_release {
            seq!["build"@, "-c"@, "release"@]
        } else {
            seq!["build"@]
        },
{
    let r = if is_release {
        vec![owned("build"), owned("-c"), owned("release")]
    } else {
        vec![owned("build")]
    };
    assert(strs(r@) =~= if is_release {
        seq!["build"@, "-c"@, "release"@]
    } else {
        seq!["build"@]
    });
    r
}

/// The directory a Swift package is built into.
pub open spec fn spec_swift_build_dir(dir: Seq<char>, is_release: bool) -> Seq<char> {
    path_join(path_join(dir, ".build"@), config_dir(is_release))
}

/// The directory a Swift package is built into.
pub fn swift_build_dir(dir: &str, is_release: bool) -> (r: String)
    ensures
        r@ == spec_swift_build_dir(dir@, is_release),
{
    let a = join(dir, ".build");
    join(a.as_str(), config_dir_str(is_release))
}

/// The binary a Swift build is expected to produce, named after the
/// project.
pub fn swift_binary_candidate(dir: &str, is_release: bool, project_name: &str) -> (r: String)
    ensures
        r@ == path_join(spec_swift_build_dir(dir@, is_release), project_name@),
{
    let d = swift_build_dir(dir, is_release);
    join(d.as_str(), project_name)
}

/// Whether an entry of the build directory can be the executable: its file
/// name has no `.`.
pub fn is_bare_executable(file_name: &str) -> (r: bool)
    ensures
        r == !file_name@.contains('.'),
{
    let c = chars_of(file_name);
    !has_char(c.as_slice(), '.')
}

/// The artifact of a Swift build: the binary found, else the expected
/// path.
pub fn swift_artifact(found: Option<String>, is_release: bool, project_name: &str) -> (r: String)
    ensures
        r@ == match found {
            Some(f) => f@,
            None => ".build/"@ + config_dir(is_release) + "/"@ + project_name@,
        },
{
    match found {
        Some(f) => f,
        None => {
            let a = concat_str(".build/", config_dir_str(is_release));
            let b = concat_str(a.as_str(), "/");
            concat_str(b.as_str(), project_name)
        },
    }
}

/// The binary a Swift app is launched from: the built artifact, else the
/// debug build of the project.
pub fn swift_launch_binary(artifact: Option<&str>, project_name: &str) -> (r: String)
    ensures
        r@ == match artifact {
            Some(a) => a@,
            None => "./.build/debug/"@ + project_name@,
        },
{
    match artifact {
        Some(a) => owned(a),
        None => concat_str("./.build/debug/", project_name),
    }
}

/// The pieces of the `Info.plist` of a macOS app bundle, between which the
/// app's name stands.
pub open spec fn plist_pieces() -> Seq<Seq<char>> {
    seq![
        "<?xml version=\"1.0\" encoding=\"UTF-8\"?>\n<!DOCTYPE plist PUBLIC \"-//Apple//DTD PLIST 1.0//EN\" \"http://www.apple.com/DTDs/PropertyList-1.0.dtd\">\n<plist version=\"1.0\">\n<dict>\n    <key>CFBundleExecutable</key>\n    <string>"@,
        "</string>\n    <key>CFBundleIdentifier</key>\n    <string>com.example."@,
        "</string>\n    <key>CFBundleName</key>\n    <string>"@,
        "</string>\n    <key>CFBundlePackageType</key>\n    <string>APPL</string>\n    <key>CFBundleShortVersionString</key>\n    <string>1.0</string>\n</dict>\n</plist>"@,
    ]
}

/// The `Info.plist` of a macOS app bundle made from a Swift executable: the
/// app's name as executable, as `com.example.` identifier and as bundle
/// name.
pub fn macos_app_plist(app_name: &str) -> (r: String)
    ensures
        r@ == plist_pieces()[0] + app_name@ + plist_pieces()[1] + app_name@ + plist_pieces()[2]
            + app_name@ + plist_pieces()[3],
{
    let a = concat_str(
        "<?xml version=\"1.0\" encoding=\"UTF-8\"?>\n<!DOCTYPE plist PUBLIC \"-//Apple//DTD PLIST 1.0//EN\" \"http://www.apple.com/DTDs/PropertyList-1.0.dtd\">\n<plist version=\"1.0\">\n<dict>\n    <key>CFBundleExecutable</key>\n    <string>",
        app_name,
    );
    let b = concat_str(
        a.as_str(),
        "</string>\n    <key>CFBundleIdentifier</key>\n    <string>com.example.",
    );
    let c = concat_str(b.as_str(), app_name);
    let d = concat_str(c.as_str(), "</string>\n    <key>CFBundleName</key>\n    <string>");
    let e = concat_str(d.as_str(), app_name);
    concat_str(
        e.as_str(),
        "</string>\n    <key>CFBundlePackageType</key>\n    <string>APPL</string>\n    <key>CFBundleShortVersionString</key>\n    <string>1.0</string>\n</dict>\n</plist>",
    )
}

/// The paths of a macOS app bundle in `output_dir`: the bundle, its
/// `Contents/MacOS` and `Contents/Resources` directories, the executable and
/// `Info.plist`.
pub fn app_bundle_paths(output_dir: &str, app_name: &str) -> (r: (String, String, String, String, String))
    ensures
        r.0@ == path_join(output_dir@, app_name@ + ".app"@),
        r.1@ == path_join(path_join(r.0@, "Contents"@), "MacOS"@),
        r.2@ == path_join(path_join(r.0@, "Contents"@), "Resources"@),
        r.3@ == path_join(r.1@, app_name@),
        r.4@ == path_join(path_join(r.0@, "Contents"@), "Info.plist"@),
{
    let bundle_name = concat_str(app_name, ".app");
    let bundle = join(output_dir, bundle_name.as_str());
    let contents = join(bundle.as_str(), "Contents");
    let macos = join(contents.as_str(), "MacOS");
    let resources = join(contents.as_str(), "Resources");
    let bin = join(macos.as_str(), app_name);
    let plist = join(contents.as_str(), "Info.plist");
    (bundle, macos, resources, bin, plist)
}

/// The first entry with the extension `ext`, if any.
pub open spec fn first_with_extension(entries: Seq<Seq<char>>, ext: Seq<char>) -> Option<Seq<char>>
    decreases entries.len(),
{
    if entries.len() == 0 {
        None
    } else if path_extension_of(entries[0]) == Some(ext) {
        Some(entries[0])
    } else {
        first_with_extension(entries.drop_first(), ext)
    }
}

fn find_with_extension(entries: &Vec<String>, ext: &str) -> (r: Option<String>)
    ensures
        opt_text(r) == first_with_extension(strs(entries@), ext@),
{
    let ghost es = strs(entries@);
    let mut i: usize = 0;
    assert(es.skip(0) =~= es);
    while i < entries.len()
        invariant
            es == strs(entries@),
            i <= entries@.len(),
            first_with_extension(es, ext@) == first_with_extension(es.skip(i as int), ext@),
        decreases entries@.len() - i,
    {
        assert(es.skip(i as int)[0] == entries@[i as int]@);
        if has_extension(entries[i].as_str(), ext) {
            return Some(owned(entries[i].as_str()));
        }
        assert(es.skip(i as int).drop_first() =~= es.skip(i + 1));
        i = i + 1;
    }
    assert(es.skip(i as int) =~= Seq::<Seq<char>>::empty());
    None
}

/// The adapter for Xcode projects and workspaces.
pub struct XcodeAdapter;

impl XcodeAdapter {
    /// The Xcode container among a directory's entries, and whether it is a
    /// workspace: the first `.xcworkspace`, else the first `.xcodeproj`.
    pub fn find_xcode_container(entries: &Vec<String>) -> (r: Option<(String, bool)>)
        ensures
            match first_with_extension(strs(entries@), "xcworkspace"@) {
                Some(w) => r matches Some(x) && x.0@ == w && x.1,
                None => match first_with_extension(strs(entries@), "xcodeproj"@) {
                    Some(p) => r matches Some(x) && x.0@ == p && !x.1,
                    None => r is None,
                },
            },
    {
        match find_with_extension(entries, "xcworkspace") {
            Some(w) => Some((w, true)),
            None => match find_with_extension(entries, "xcodeproj") {
                Some(p) => Some((p, false)),
                None => None,
            },
        }
    }
}

/// The scheme an Xcode project is built with: the first one listed, else
/// the project's name.
pub fn xcode_scheme(schemes: &Vec<String>, project_name: &str) -> (r: String)
    ensures
        r@ == if schemes@.len() > 0 {
            schemes@[0]@
        } else {
            project_name@
        },
{
    if schemes.len() > 0 {
        owned(schemes[0].as_str())
    } else {
        owned(project_name)
    }
}

/// Where `xcodebuild` builds for: the target device by its id when it is
/// an Apple or iOS one, any Mac for another device, and any iOS simulator
/// without one.
pub open spec fn spec_xcode_destination(target: Option<(Platform, Seq<char>)>) -> Seq<char> {
    match target {
        Some((p, id)) => if p == Platform::Ios || p == Platform::Apple {
            "id="@ + id
        } else {
            "generic/platform=macOS"@
        },
        None => "generic/platform=iOS Simulator"@,
    }
}

/// Where `xcodebuild` builds for (see `spec_xcode_destination`).
pub fn xcode_destination(target: &Option<crate::platform::Device>) -> (r: String)
    ensures
        r@ == spec_xcode_destination(match target {
            Some(d) => Some((d.platform, d.id@)),
            None => None,
        }),
{
    match target {
        Some(d) => if d.platform == Platform::Ios || d.platform == Platform::Apple {
            concat_str("id=", d.id.as_str())
        } else {
            owned("generic/platform=macOS")
        },
        None => owned("generic/platform=iOS Simulator"),
    }
}

/// The arguments of `xcodebuild`: the container (as workspace or project),
/// the scheme, the destination and the configuration.
pub fn xcode_build_args(
    container: &str,
    is_workspace: bool,
    scheme: &str,
    destination: &str,
    is_release: bool,
) -> (r: Vec<String>)
    ensures
        strs(r@) == seq![
            if is_workspace {
                "-workspace"@
            } else {
                "-project"@
            },
            container@,
            "-scheme"@,
            scheme@,
            "-destination"@,
            destination@,
            "-configuration"@,
            if is_release {
                "Release"@
            } else {
                "Debug"@
            },
        ],
{
    let kind = if is_workspace {
        owned("-workspace")
    } else {
        owned("-project")
    };
    let conf = if is_release {
        owned("Release")
    } else {
        owned("Debug")
    };
    let r = vec![
        kind,
        owned(container),
        owned("-scheme"),
        owned(scheme),
        owned("-destination"),
        owned(destination),
        owned("-configuration"),
        conf,
    ];
    assert(strs(r@) =~= seq![
        if is_workspace {
            "-workspace"@
        } else {
            "-project"@
        },
        container@,
        "-scheme"@,
        scheme@,
        "-destination"@,
        destination@,
        "-configuration"@,
        if is_release {
            "Release"@
        } else {
            "Debug"@
        },
    ]);
    r
}

/// Whether a line of `xcodebuild` output may name the built app.
pub open spec fn names_product(line: Seq<char>) -> bool {
    (contains(line, ".app"@) && contains(line, "BUILD SUCCESSFUL"@)) || contains(line, "Signing"@)
}

/// The app path a line of `xcodebuild` output names: from its first `/` up
/// to and with the first `.app` after it.
pub open spec fn product_in(line: Seq<char>) -> Option<Seq<char>> {
    match crate::text::index_of(line, "/"@) {
        Some(p) => {
            let rest = line.skip(p);
            match crate::text::index_of(rest, ".app"@) {
                Some(e) => Some(rest.take(e + 4)),
                None => None,
            }
        },
        None => None,
    }
}

/// The app paths named in `xcodebuild` output, last line first.
pub open spec fn spec_product_candidates(ls: Seq<Seq<char>>) -> Seq<Seq<char>>
    decreases ls.len(),
{
    if ls.len() == 0 {
        Seq::empty()
    } else {
        let here = if names_product(ls.last()) {
            match product_in(ls.last()) {
                Some(p) => seq![p],
                None => Seq::empty(),
            }
        } else {
            Seq::empty()
        };
        here + spec_product_candidates(ls.drop_last())
    }
}

fn product_of_line(line: &[char]) -> (r: Option<String>)
    ensures
        opt_text(r) == product_in(line@),
{
    let slash = chars_of("/");
    match crate::text::find_index(line, slash.as_slice()) {
        Some(p) => {
            let rest = crate::text::slice_of(line, p, line.len());
            assert(rest@ =~= line@.skip(p as int));
            let app = chars_of(".app");
            match crate::text::find_index(rest.as_slice(), app.as_slice()) {
                Some(e) => {
                    proof {
                        reveal_strlit(".app");
                    }
                    let full = crate::text::slice_of(rest.as_slice(), 0, e + 4);
                    assert(full@ =~= rest@.take(e + 4));
                    Some(crate::text::string_of(full.as_slice()))
                },
                None => None,
            }
        },
        None => None,
    }
}

/// The app paths named in `xcodebuild` output, last line first; the first
/// of them that exists is the build's product.
pub fn app_path_candidates(stdout: &str) -> (r: Vec<String>)
    ensures
        strs(r@) == spec_product_candidates(crate::split::lines(stdout@)),
{
    let c = chars_of(stdout);
    let ls = crate::split::split_lines(c.as_slice());
    let ghost gl = crate::split::lines(stdout@);
    let app = chars_of(".app");
    let ok = chars_of("BUILD SUCCESSFUL");
    let sign = chars_of("Signing");
    let mut out: Vec<String> = Vec::new();
    let mut i: usize = ls.len();
    assert(gl.take(gl.len() as int) =~= gl);
    while i > 0
        invariant
            ls@.len() == gl.len(),
            forall|k: int| 0 <= k < ls@.len() ==> #[trigger] ls@[k]@ == gl[k],
            i <= ls@.len(),
            app@ == ".app"@,
            ok@ == "BUILD SUCCESSFUL"@,
            sign@ == "Signing"@,
            strs(out@) + spec_product_candidates(gl.take(i as int)) == spec_product_candidates(gl),
        decreases i,
    {
        let ghost prev = gl.take(i as int);
        assert(prev.drop_last() =~= gl.take(i - 1));
        assert(prev.last() == gl[i - 1]);
        let line = &ls[i - 1];
        let ghost before = strs(out@);
        if (contains_chars(line.as_slice(), app.as_slice()) && contains_chars(
            line.as_slice(),
            ok.as_slice(),
        )) || contains_chars(line.as_slice(), sign.as_slice()) {
            if let Some(p) = product_of_line(line.as_slice()) {
                out.push(p);
                assert(strs(out@) =~= before + seq![product_in(gl[i - 1])->0]);
            }
        }
        assert(strs(out@) + spec_product_candidates(gl.take(i - 1)) =~= spec_product_candidates(gl));
        i = i - 1;
    }
    assert(gl.take(0) =~= Seq::<Seq<char>>::empty());
    assert(strs(out@) =~= strs(out@) + Seq::<Seq<char>>::empty());
    out
}

/// The bundle identifier in an app's `Info.plist` text: the text of the
/// first `<string>` after `CFBundleIdentifier`, trimmed.
pub open spec fn spec_bundle_id(t: Seq<char>) -> Option<Seq<char>> {
    match crate::text::index_of(t, "CFBundleIdentifier"@) {
        Some(p1) => {
            let rest = t.skip(p1);
            match crate::text::index_of(rest, "<string>"@) {
                Some(p2) => {
                    let after = rest.skip(p2 + 8);
                    match crate::text::index_of(after, "</string>"@) {
                        Some(p3) => Some(crate::text::trim(after.take(p3))),
                        None => None,
                    }
                },
                None => None,
            }
        },
        None => None,
    }
}

impl XcodeAdapter {
    /// The bundle identifier in an app's `Info.plist` text (see
    /// `spec_bundle_id`).
    pub fn extract_bundle_id(plist: &str) -> (r: Option<String>)
        ensures
            opt_text(r) == spec_bundle_id(plist@),
    {
        let t = chars_of(plist);
        let key = chars_of("CFBundleIdentifier");
        let open = chars_of("<string>");
        let close = chars_of("</string>");
        proof {
            reveal_strlit("<string>");
            assert(open@.len() == 8);
        }
        let p1 = match crate::text::find_index(t.as_slice(), key.as_slice()) {
            Some(p) => p,
            None => return None,
        };
        let rest = crate::text::slice_of(t.as_slice(), p1, t.len());
        assert(rest@ =~= t@.skip(p1 as int));
        let p2 = match crate::text::find_index(rest.as_slice(), open.as_slice()) {
            Some(p) => p,
            None => return None,
        };
        let after = crate::text::slice_of(rest.as_slice(), p2 + 8, rest.len());
        assert(after@ =~= rest@.skip(p2 + 8));
        let p3 = match crate::text::find_index(after.as_slice(), close.as_slice()) {
            Some(p) => p,
            None => return None,
        };
        let inner = crate::text::slice_of(after.as_slice(), 0, p3);
        assert(inner@ =~= after@.take(p3 as int));
        let trimmed = crate::text::trim_ws(inner.as_slice());
        Some(crate::text::string_of(trimmed.as_slice()))
    }
}

/// The bundle identifier an Xcode app is launched with: the configured
/// package name, else the one in the built app's `Info.plist`, else
/// `com.example.` and the project name.
pub fn xcode_bundle_id(configured: Option<&str>, from_plist: Option<String>, project_name: &str) -> (r: String)
    ensures
        r@ == match configured {
            Some(c) => c@,
            None => match from_plist {
                Some(b) => b@,
                None => "com.example."@ + project_name@,
            },
        },
{
    match configured {
        Some(c) => owned(c),
        None => match from_plist {
            Some(b) => b,
            None => concat_str("com.example.", project_name),
        },
    }
}

/// The build command of a project built by its configuration, with the
/// target device filled in; `None` when no build is configured.
pub fn generic_build_command(config: &DevflowConfig, target: Option<&str>) -> (r: Option<String>)
    ensures
        opt_text(r) == match config.build {
            Some(b) => Some(expand_with(*config, b.command@, match target {
                Some(t) => Some(t@),
                None => None,
            })),
            None => None,
        },
{
    match &config.build {
        Some(b) => Some(config.expand_template(b.command.as_str(), target)),
        None => None,
    }
}

/// The result of a build when none is configured: a success that took no
/// time and says so.
pub fn no_build_result() -> (r: BuildResult)
    ensures
        build_view(r) == (BuildView {
            success: true,
            duration_ms: 0,
            artifact_path: None,
            stdout: "No build step configured"@,
            stderr: Seq::empty(),
            error_message: None,
        }),
{
    let e = String::new();
    proof {
        assert(e@ == Seq::<char>::empty());
    }
    BuildResult::ok(0, None, owned("No build step configured"), e)
}

/// The result of a configured build that ran: on success the configured
/// artifact with the target device filled in.
pub fn generic_build_result(
    config: &DevflowConfig,
    target: Option<&str>,
    success: bool,
    duration_ms: u64,
    stdout: String,
    stderr: String,
) -> (r: BuildResult)
    ensures
        build_view(r) == spec_outcome(
            success,
            duration_ms,
            match crate::config::configured_artifact(*config) {
                Some(a) => Some(expand_with(*config, a, match target {
                    Some(t) => Some(t@),
                    None => None,
                })),
                None => None,
            },
            stdout@,
            stderr@,
            "Build command failed: "@,
        ),
{
    let artifact = match &config.build {
        Some(b) => match &b.artifact {
            Some(a) => Some(config.expand_template(a.as_str(), target)),
            None => None,
        },
        None => None,
    };
    build_outcome(success, duration_ms, artifact, stdout, stderr, "Build command failed: ")
}

/// The install command of a project installed by its configuration, with
/// the device filled in; `None` when the platform runner installs it.
pub fn generic_install_command(config: &DevflowConfig, device_id: &str) -> (r: Option<String>)
    ensures
        opt_text(r) == match config.install {
            Some(i) => Some(expand_with(*config, i.command@, Some(device_id@))),
            None => None,
        },
{
    match &config.install {
        Some(i) => Some(config.expand_template(i.command.as_str(), Some(device_id))),
        None => None,
    }
}

/// The error of a step run as a shell command that failed: the label, what
/// it wrote on standard output and on standard error.
pub fn step_failure(label: &str, stdout: &str, stderr: &str) -> (r: String)
    ensures
        r@ == label@ + ": "@ + stdout@ + "\n"@ + stderr@,
{
    let a = concat_str(label, ": ");
    let b = concat_str(a.as_str(), stdout);
    let c = concat_str(b.as_str(), "\n");
    concat_str(c.as_str(), stderr)
}

/// How a configured project is launched.
pub enum LaunchPlan {
    /// The platform runner launches this command or artifact.
    Runner(String),
    /// This command runs in a shell in the project directory.
    Shell(String),
    /// Nothing is launched.
    Nothing,
}

/// How a project built by its configuration is launched: its launch command
/// (device filled in) through the desktop runner on a desktop or generic
/// device and in a shell elsewhere; else its artifact through the runner;
/// else nothing.
pub fn generic_launch_plan(config: &DevflowConfig, device_platform: Platform, device_id: &str, artifact: Option<&str>) -> (r: LaunchPlan)
    ensures
        match config.launch {
            Some(l) => {
                let cmd = expand_with(*config, l.command@, Some(device_id@));
                if device_platform == Platform::Desktop || device_platform == Platform::Generic {
                    r matches LaunchPlan::Runner(c) && c@ == cmd
                } else {
                    r matches LaunchPlan::Shell(c) && c@ == cmd
                }
            },
            None => match artifact {
                Some(a) => r matches LaunchPlan::Runner(c) && c@ == a@,
                None => r is Nothing,
            },
        },
{
    match &config.launch {
        Some(l) => {
            let cmd = config.expand_template(l.command.as_str(), Some(device_id));
            if device_platform == Platform::Desktop || device_platform == Platform::Generic {
                LaunchPlan::Runner(cmd)
            } else {
                LaunchPlan::Shell(cmd)
            }
        },
        None => match artifact {
            Some(a) => LaunchPlan::Runner(owned(a)),
            None => LaunchPlan::Nothing,
        },
    }
}

/// The strings among the items, in order.
pub open spec fn present(items: Seq<Option<Seq<char>>>) -> Seq<Seq<char>>
    decreases items.len(),
{
    if items.len() == 0 {
        Seq::empty()
    } else {
        match items.last() {
            Some(t) => present(items.drop_last()).push(t),
            None => present(items.drop_last()),
        }
    }
}

/// The members of an `xcodebuild -list -json` listing that may hold schemes.
pub open spec fn container_fields() -> Seq<Seq<char>> {
    seq!["/project"@, "/workspace"@]
}

/// Where the schemes stand: under `project` when the listing has that
/// member, else under `workspace` when it has that one.
pub open spec fn schemes_pointer(containers: Seq<Option<(Option<Seq<char>>, Option<bool>)>>) -> Option<Seq<char>> {
    if field_present(containers, 0) {
        Some("/project/schemes"@)
    } else if field_present(containers, 1) {
        Some("/workspace/schemes"@)
    } else {
        None
    }
}

/// The field read from each scheme: the item itself.
pub open spec fn item_field() -> Seq<Seq<char>> {
    seq![Seq::<char>::empty()]
}

/// The text of each item that is a string.
pub open spec fn item_texts(items: Seq<Seq<Option<(Option<Seq<char>>, Option<bool>)>>>) -> Seq<Option<Seq<char>>> {
    items.map_values(|rec: Seq<Option<(Option<Seq<char>>, Option<bool>)>>| field_text(rec, 0))
}

/// The schemes that `xcodebuild -list -json` printed: the strings of the
/// `schemes` array of the project, or of the workspace when there is no
/// project; none when the output is not such a listing.
pub open spec fn spec_schemes(out: Seq<u8>) -> Seq<Seq<char>> {
    match json_fields_of(out, container_fields()) {
        Some(containers) => match schemes_pointer(containers) {
            Some(ptr) => match json_records_of(out, ptr, item_field()) {
                Some(Some(items)) => present(item_texts(items)),
                _ => Seq::empty(),
            },
            None => Seq::empty(),
        },
        None => Seq::empty(),
    }
}

impl XcodeAdapter {
    /// The schemes that `xcodebuild -list -json` printed (see `spec_schemes`).
    pub fn list_schemes(out: &[u8]) -> (r: Vec<String>)
        ensures
            strs(r@) == spec_schemes(out@),
    {
        let empty: Vec<String> = Vec::new();
        assert(strs(empty@) =~= Seq::<Seq<char>>::empty());
        let containers_list = vec![owned("/project"), owned("/workspace")];
        assert(strs(containers_list@) =~= container_fields());
        let containers = match json_fields(out, &containers_list) {
            Some(c) => c,
            None => return empty,
        };
        let ptr = if rec_present(&containers, 0) {
            "/project/schemes"
        } else if rec_present(&containers, 1) {
            "/workspace/schemes"
        } else {
            return empty;
        };
        let item_list = vec![String::new()];
        assert(strs(item_list@) =~= item_field());
        let items = match json_records(out, ptr, &item_list) {
            Some(Some(v)) => v,
            _ => return empty,
        };
        let ghost gi = item_texts(records_view(items@));
        let mut r: Vec<String> = Vec::new();
        let mut i: usize = 0;
        assert(present(gi.take(0)) =~= Seq::<Seq<char>>::empty());
        while i < items.len()
            invariant
                gi == item_texts(records_view(items@)),
                i <= items@.len(),
                strs(r@) == present(gi.take(i as int)),
            decreases items@.len() - i,
        {
            let ghost before = strs(r@);
            assert(gi.take(i + 1).drop_last() =~= gi.take(i as int));
            assert(gi.take(i + 1).last() == field_text(record_view(items@[i as int]), 0));
            match rec_text(&items[i], 0) {
                Some(t) => {
                    r.push(owned(t));
                    assert(strs(r@) =~= before.push(t@));
                },
                None => {},
            }
            i = i + 1;
        }
        assert(gi.take(i as int) =~= gi);
        r
    }
}

/// The first APK among a directory's entries, if any.
pub fn first_apk(entries: &Vec<String>) -> (r: Option<String>)
    ensures
        opt_text(r) == first_with_extension(strs(entries@), "apk"@),
{
    find_with_extension(entries, "apk")
}

/// The first entry of the build directory that can be the executable: a
/// file (`is_file[k]` tells whether the k-th entry is one) whose name
/// (`names[k]`) has no `.`.
pub open spec fn first_bare_file(paths: Seq<Seq<char>>, names: Seq<Seq<char>>, is_file: Seq<bool>) -> Option<Seq<char>>
    decreases paths.len(),
{
    if paths.len() == 0 || names.len() == 0 || is_file.len() == 0 {
        None
    } else if is_file[0] && !names[0].contains('.') {
        Some(paths[0])
    } else {
        first_bare_file(paths.drop_first(), names.drop_first(), is_file.drop_first())
    }
}

/// The adapter for Swift packages.
pub struct SwiftFrameworkAdapter;

impl SwiftFrameworkAdapter {
    /// The executable a Swift build left in its build directory, when it is not
    /// named after the project (see `first_bare_file`).
    pub fn find_built_binary(paths: &Vec<String>, names: &Vec<String>, is_file: &Vec<bool>) -> (r: Option<String>)
        ensures
            opt_text(r) == first_bare_file(strs(paths@), strs(names@), is_file@),
    {
        let ghost ps = strs(paths@);
        let ghost ns = strs(names@);
        let mut i: usize = 0;
        assert(ps.skip(0) =~= ps);
        assert(ns.skip(0) =~= ns);
        assert(is_file@.skip(0) =~= is_file@);
        while i < paths.len() && i < names.len() && i < is_file.len()
            invariant
                ps == strs(paths@),
                ns == strs(names@),
                i <= paths@.len(),
                i <= names@.len(),
                i <= is_file@.len(),
                first_bare_file(ps, ns, is_file@) == first_bare_file(ps.skip(i as int), ns.skip(i as int), is_file@.skip(i as int)),
            decreases paths@.len() - i,
        {
            assert(ps.skip(i as int)[0] == paths@[i as int]@);
            assert(ns.skip(i as int)[0] == names@[i as int]@);
            if is_file[i] && is_bare_executable(names[i].as_str()) {
                return Some(owned(paths[i].as_str()));
            }
            assert(ps.skip(i as int).drop_first() =~= ps.skip(i + 1));
            assert(ns.skip(i as int).drop_first() =~= ns.skip(i + 1));
            assert(is_file@.skip(i as int).drop_first() =~= is_file@.skip(i + 1));
            i = i + 1;
        }
        assert(ps.skip(i as int).len() == 0 || ns.skip(i as int).len() == 0 || is_file@.skip(i as int).len() == 0);
        None
    }
}


/// The framework names told apart.
proof fn lemma_framework_names_differ()
    ensures
        "kotlin"@ != "android"@,
        "kotlin"@ != "swift"@,
        "kotlin"@ != "swiftpm"@,
        "kotlin"@ != "xcode"@,
        "kotlin"@ != "ios"@,
        "kotlin"@ != "apple"@,
        "kotlin"@ != "react-native"@,
        "kotlin"@ != "rn"@,
        "kotlin"@ != "flutter"@,
        "kotlin"@ != "tauri"@,
        "kotlin"@ != "rust"@,
        "kotlin"@ != "cargo"@,
        "kotlin"@ != "generic"@,
        "android"@ != "swift"@,
        "android"@ != "swiftpm"@,
        "android"@ != "xcode"@,
        "android"@ != "ios"@,
        "android"@ != "apple"@,
        "android"@ != "react-native"@,
        "android"@ != "rn"@,
        "android"@ != "flutter"@,
        "android"@ != "tauri"@,
        "android"@ != "rust"@,
        "android"@ != "cargo"@,
        "android"@ != "generic"@,
        "swift"@ != "swiftpm"@,
        "swift"@ != "xcode"@,
        "swift"@ != "ios"@,
        "swift"@ != "apple"@,
        "swift"@ != "react-native"@,
        "swift"@ != "rn"@,
        "swift"@ != "flutter"@,
        "swift"@ != "tauri"@,
        "swift"@ != "rust"@,
        "swift"@ != "cargo"@,
        "swift"@ != "generic"@,
        "swiftpm"@ != "xcode"@,
        "swiftpm"@ != "ios"@,
        "swiftpm"@ != "apple"@,
        "swiftpm"@ != "react-native"@,
        "swiftpm"@ != "rn"@,
        "swiftpm"@ != "flutter"@,
        "swiftpm"@ != "tauri"@,
        "swiftpm"@ != "rust"@,
        "swiftpm"@ != "cargo"@,
        "swiftpm"@ != "generic"@,
        "xcode"@ != "ios"@,
        "xcode"@ != "apple"@,
        "xcode"@ != "react-native"@,
        "xcode"@ != "rn"@,
        "xcode"@ != "flutter"@,
        "xcode"@ != "tauri"@,
        "xcode"@ != "rust"@,
        "xcode"@ != "cargo"@,
        "xcode"@ != "generic"@,
        "ios"@ != "apple"@,
        "ios"@ != "react-native"@,
        "ios"@ != "rn"@,
        "ios"@ != "flutter"@,
        "ios"@ != "tauri"@,
        "ios"@ != "rust"@,
        "ios"@ != "cargo"@,
        "ios"@ != "generic"@,
        "apple"@ != "react-native"@,
        "apple"@ != "rn"@,
        "apple"@ != "flutter"@,
        "apple"@ != "tauri"@,
        "apple"@ != "rust"@,
        "apple"@ != "cargo"@,
        "apple"@ != "generic"@,
        "react-native"@ != "rn"@,
        "react-native"@ != "flutter"@,
        "react-native"@ != "tauri"@,
        "react-native"@ != "rust"@,
        "react-native"@ != "cargo"@,
        "react-native"@ != "generic"@,
        "rn"@ != "flutter"@,
        "rn"@ != "tauri"@,
        "rn"@ != "rust"@,
        "rn"@ != "cargo"@,
        "rn"@ != "generic"@,
        "flutter"@ != "tauri"@,
        "flutter"@ != "rust"@,
        "flutter"@ != "cargo"@,
        "flutter"@ != "generic"@,
        "tauri"@ != "rust"@,
        "tauri"@ != "cargo"@,
        "tauri"@ != "generic"@,
        "rust"@ != "cargo"@,
        "rust"@ != "generic"@,
        "cargo"@ != "generic"@,
{
    reveal_strlit("kotlin");
    reveal_strlit("android");
    reveal_strlit("swift");
    reveal_strlit("swiftpm");
    reveal_strlit("xcode");
    reveal_strlit("ios");
    reveal_strlit("apple");
    reveal_strlit("react-native");
    reveal_strlit("rn");
    reveal_strlit("flutter");
    reveal_strlit("tauri");
    reveal_strlit("rust");
    reveal_strlit("cargo");
    reveal_strlit("generic");
    assert("kotlin"@.len() != "android"@.len());
    assert("kotlin"@.len() != "swift"@.len());
    assert("kotlin"@.len() != "swiftpm"@.len());
    assert("kotlin"@.len() != "xcode"@.len());
    assert("kotlin"@.len() != "ios"@.len());
    assert("kotlin"@.len() != "apple"@.len());
    assert("kotlin"@.len() != "react-native"@.len());
    assert("kotlin"@.len() != "rn"@.len());
    assert("kotlin"@.len() != "flutter"@.len());
    assert("kotlin"@.len() != "tauri"@.len());
    assert("kotlin"@.len() != "rust"@.len());
    assert("kotlin"@.len() != "cargo"@.len());
    assert("kotlin"@.len() != "generic"@.len());
    assert("android"@.len() != "swift"@.len());
    assert("android"@[0] != "swiftpm"@[0]);
    assert("android"@.len() != "xcode"@.len());
    assert("android"@.len() != "ios"@.len());
    assert("android"@.len() != "apple"@.len());
    assert("android"@.len() != "react-native"@.len());
    assert("android"@.len() != "rn"@.len());
    assert("android"@[0] != "flutter"@[0]);
    assert("android"@.len() != "tauri"@.len());
    assert("android"@.len() != "rust"@.len());
    assert("android"@.len() != "cargo"@.len());
    assert("android"@[0] != "generic"@[0]);
    assert("swift"@.len() != "swiftpm"@.len());
    assert("swift"@[0] != "xcode"@[0]);
    assert("swift"@.len() != "ios"@.len());
    assert("swift"@[0] != "apple"@[0]);
    assert("swift"@.len() != "react-native"@.len());
    assert("swift"@.len() != "rn"@.len());
    assert("swift"@.len() != "flutter"@.len());
    assert("swift"@[0] != "tauri"@[0]);
    assert("swift"@.len() != "rust"@.len());
    assert("swift"@[0] != "cargo"@[0]);
    assert("swift"@.len() != "generic"@.len());
    assert("swiftpm"@.len() != "xcode"@.len());
    assert("swiftpm"@.len() != "ios"@.len());
    assert("swiftpm"@.len() != "apple"@.len());
    assert("swiftpm"@.len() != "react-native"@.len());
    assert("swiftpm"@.len() != "rn"@.len());
    assert("swiftpm"@[0] != "flutter"@[0]);
    assert("swiftpm"@.len() != "tauri"@.len());
    assert("swiftpm"@.len() != "rust"@.len());
    assert("swiftpm"@.len() != "cargo"@.len());
    assert("swiftpm"@[0] != "generic"@[0]);
    assert("xcode"@.len() != "ios"@.len());
    assert("xcode"@[0] != "apple"@[0]);
    assert("xcode"@.len() != "react-native"@.len());
    assert("xcode"@.len() != "rn"@.len());
    assert("xcode"@.len() != "flutter"@.len());
    assert("xcode"@[0] != "tauri"@[0]);
    assert("xcode"@.len() != "rust"@.len());
    assert("xcode"@[0] != "cargo"@[0]);
    assert("xcode"@.len() != "generic"@.len());
    assert("ios"@.len() != "apple"@.len());
    assert("ios"@.len() != "react-native"@.len());
    assert("ios"@.len() != "rn"@.len());
    assert("ios"@.len() != "flutter"@.len());
    assert("ios"@.len() != "tauri"@.len());
    assert("ios"@.len() != "rust"@.len());
    assert("ios"@.len() != "cargo"@.len());
    assert("ios"@.len() != "generic"@.len());
    assert("apple"@.len() != "react-native"@.len());
    assert("apple"@.len() != "rn"@.len());
    assert("apple"@.len() != "flutter"@.len());
    assert("apple"@[0] != "tauri"@[0]);
    assert("apple"@.len() != "rust"@.len());
    assert("apple"@[0] != "cargo"@[0]);
    assert("apple"@.len() != "generic"@.len());
    assert("react-native"@.len() != "rn"@.len());
    assert("react-native"@.len() != "flutter"@.len());
    assert("react-native"@.len() != "tauri"@.len());
    assert("react-native"@.len() != "rust"@.len());
    assert("react-native"@.len() != "cargo"@.len());
    assert("react-native"@.len() != "generic"@.len());
    assert("rn"@.len() != "flutter"@.len());
    assert("rn"@.len() != "tauri"@.len());
    assert("rn"@.len() != "rust"@.len());
    assert("rn"@.len() != "cargo"@.len());
    assert("rn"@.len() != "generic"@.len());
    assert("flutter"@.len() != "tauri"@.len());
    assert("flutter"@.len() != "rust"@.len());
    assert("flutter"@.len() != "cargo"@.len());
    assert("flutter"@[0] != "generic"@[0]);
    assert("tauri"@.len() != "rust"@.len());
    assert("tauri"@[0] != "cargo"@[0]);
    assert("tauri"@.len() != "generic"@.len());
    assert("rust"@.len() != "cargo"@.len());
    assert("rust"@.len() != "generic"@.len());
    assert("cargo"@.len() != "generic"@.len());
}

/// The framework names that `devflow init` writes and that DevFlow gives each
/// framework (`kotlin`, `swift`, `xcode`, `react-native`, `flutter`,
/// `tauri`), written in any case in `devflow.toml`, select that framework's
/// adapter; `android`, `swiftpm`, `ios`, `apple` and `rn` do too.
pub proof fn law_configured_names_select_adapters(name: Seq<char>)
    ensures
        unicode_lower(name) == "kotlin"@ || unicode_lower(name) == "android"@ ==> adapter_for_name(unicode_lower(name))
            == AdapterKind::Kotlin,
        unicode_lower(name) == "swift"@ || unicode_lower(name) == "swiftpm"@ ==> adapter_for_name(unicode_lower(name))
            == AdapterKind::Swift,
        unicode_lower(name) == "xcode"@ || unicode_lower(name) == "ios"@ || unicode_lower(name) == "apple"@
            ==> adapter_for_name(unicode_lower(name)) == AdapterKind::Xcode,
        unicode_lower(name) == "react-native"@ || unicode_lower(name) == "rn"@ ==> adapter_for_name(
            unicode_lower(name),
        ) == AdapterKind::ReactNative,
        unicode_lower(name) == "flutter"@ ==> adapter_for_name(unicode_lower(name)) == AdapterKind::Flutter,
        unicode_lower(name) == "tauri"@ ==> adapter_for_name(unicode_lower(name)) == AdapterKind::Tauri,
{
    lemma_framework_names_differ();
}

/// The adapter a configured name selects agrees with the framework that the
/// same name makes a project: the Kotlin, Swift, React Native, Flutter and
/// Tauri adapters go exactly with those frameworks, and an Xcode project
/// gets the Xcode adapter.
pub proof fn law_adapter_agrees_with_framework(l: Seq<char>)
    ensures
        (adapter_for_name(l) == AdapterKind::Kotlin) <==> (crate::project::framework_from_name(l)
            == crate::project::DetectedFramework::KotlinAndroid),
        (adapter_for_name(l) == AdapterKind::Swift) <==> (crate::project::framework_from_name(l)
            == crate::project::DetectedFramework::SwiftPM),
        (adapter_for_name(l) == AdapterKind::ReactNative) <==> (crate::project::framework_from_name(l)
            == crate::project::DetectedFramework::ReactNative),
        (adapter_for_name(l) == AdapterKind::Flutter) <==> (crate::project::framework_from_name(l)
            == crate::project::DetectedFramework::Flutter),
        (adapter_for_name(l) == AdapterKind::Tauri) <==> (crate::project::framework_from_name(l)
            == crate::project::DetectedFramework::Tauri),
        crate::project::framework_from_name(l) == crate::project::DetectedFramework::XcodeProject ==> adapter_for_name(
            l,
        ) == AdapterKind::Xcode,
{
    lemma_framework_names_differ();
}

/// Each framework's own name selects its adapter (Rust programs and generic
/// projects get the generic one).
pub proof fn law_framework_name_selects_adapter(f: crate::project::DetectedFramework)
    ensures
        adapter_for_name(crate::project::framework_name(f)) == match f {
            crate::project::DetectedFramework::KotlinAndroid => AdapterKind::Kotlin,
            crate::project::DetectedFramework::SwiftPM => AdapterKind::Swift,
            crate::project::DetectedFramework::XcodeProject => AdapterKind::Xcode,
            crate::project::DetectedFramework::ReactNative => AdapterKind::ReactNative,
            crate::project::DetectedFramework::Flutter => AdapterKind::Flutter,
            crate::project::DetectedFramework::Tauri => AdapterKind::Tauri,
            crate::project::DetectedFramework::RustCargo => AdapterKind::Generic,
            crate::project::DetectedFramework::Generic => AdapterKind::Generic,
        },
{
    lemma_framework_names_differ();
}


/// Without `devflow.toml`, a directory that only one adapter recognises
/// gets that adapter, a Tauri one gets the Tauri adapter whatever else is
/// there, and one no adapter recognises gets the generic one.
pub proof fn law_detection_selects_adapter(d: AdapterDetection)
    ensures
        d.tauri ==> adapter_detected(d) == AdapterKind::Tauri,
        !d.tauri && d.flutter ==> adapter_detected(d) == AdapterKind::Flutter,
        !d.tauri && !d.flutter && d.react_native ==> adapter_detected(d) == AdapterKind::ReactNative,
        !d.tauri && !d.flutter && !d.react_native && d.kotlin ==> adapter_detected(d) == AdapterKind::Kotlin,
        !d.tauri && !d.flutter && !d.react_native && !d.kotlin && d.swift ==> adapter_detected(d) == AdapterKind::Swift,
        !d.tauri && !d.flutter && !d.react_native && !d.kotlin && !d.swift && d.xcode ==> adapter_detected(d)
            == AdapterKind::Xcode,
        (adapter_detected(d) == AdapterKind::Generic) <==> !(d.tauri || d.flutter || d.react_native || d.kotlin
            || d.swift || d.xcode),
{
}

} // verus!
