//! The project configuration read from `devflow.toml`: its sections, their
//! defaults, the scaffolds that `devflow init` writes, and the expansion of
//! `{placeholder}` names in configured commands.
use vstd::prelude::*;
use std::collections::HashMap;
use crate::platform::Platform;
use crate::text::{chars_of, chars_eq, owned, replace, replace_all, string_of, to_lowercase, unicode_lower};

verus! {

/// The whole configuration of a project.
pub struct DevflowConfig {
    pub project: ProjectConfig,
    pub build: Option<BuildConfig>,
    pub install: Option<InstallConfig>,
    pub launch: Option<LaunchConfig>,
    pub logs: Option<LogsConfig>,
    pub watch: Option<WatchConfig>,
    pub env: HashMap<String, String>,
}

/// The `[project]` section.
pub struct ProjectConfig {
    pub name: String,
    pub platform: String,
    pub framework: String,
    pub package_id: Option<String>,
}

/// The `[build]` section.
pub struct BuildConfig {
    pub command: String,
    pub artifact: Option<String>,
    pub clean_command: Option<String>,
    pub working_dir: Option<String>,
}

/// The `[install]` section.
pub struct InstallConfig {
    pub command: String,
    pub working_dir: Option<String>,
}

/// The `[launch]` section.
pub struct LaunchConfig {
    pub command: String,
    pub working_dir: Option<String>,
    pub stop_command: Option<String>,
}

/// The `[logs]` section.
pub struct LogsConfig {
    pub command: Option<String>,
    pub filter: Option<String>,
    pub tags: Vec<String>,
}

/// The `[watch]` section.
pub struct WatchConfig {
    pub paths: Vec<String>,
    pub extensions: Vec<String>,
    pub action: String,
    pub debounce_ms: u64,
}

/// The texts of a list of strings.
pub open spec fn strs(v: Seq<String>) -> Seq<Seq<char>> {
    v.map_values(|s: String| s@)
}

/// The text of an optional string.
pub open spec fn opt_text(o: Option<String>) -> Option<Seq<char>> {
    match o {
        Some(s) => Some(s@),
        None => None,
    }
}

/// The default platform name of a project.
pub fn default_platform_str() -> (r: String)
    ensures
        r@ == "generic"@,
{
    owned("generic")
}

/// The default framework name of a project.
pub fn default_framework_str() -> (r: String)
    ensures
        r@ == "generic"@,
{
    owned("generic")
}

/// The default watched paths: `src`.
pub fn default_watch_paths() -> (r: Vec<String>)
    ensures
        strs(r@) == seq!["src"@],
{
    let r = vec![owned("src")];
    assert(strs(r@) =~= seq!["src"@]);
    r
}

/// The default watched file extensions.
pub fn default_watch_extensions() -> (r: Vec<String>)
    ensures
        strs(r@) == seq!["rs"@, "kt"@, "swift"@, "ts"@, "js"@],
{
    let r = vec![owned("rs"), owned("kt"), owned("swift"), owned("ts"), owned("js")];
    assert(strs(r@) =~= seq!["rs"@, "kt"@, "swift"@, "ts"@, "js"@]);
    r
}

/// The default action on a watched change: `reload`.
pub fn default_watch_action() -> (r: String)
    ensures
        r@ == "reload"@,
{
    owned("reload")
}

/// The default debounce interval of the watcher, in milliseconds.
pub fn default_debounce_ms() -> (r: u64)
    ensures
        r == 300,
{
    300
}

impl Default for ProjectConfig {
    fn default() -> (r: Self)
        ensures
            r.name@ == "unnamed-project"@,
            r.platform@ == "generic"@,
            r.framework@ == "generic"@,
            r.package_id is None,
    {
        ProjectConfig {
            name: owned("unnamed-project"),
            platform: default_platform_str(),
            framework: default_framework_str(),
            package_id: None,
        }
    }
}

impl Default for WatchConfig {
    fn default() -> (r: Self)
        ensures
            strs(r.paths@) == seq!["src"@],
            strs(r.extensions@) == seq!["rs"@, "kt"@, "swift"@, "ts"@, "js"@],
            r.action@ == "reload"@,
            r.debounce_ms == 300,
    {
        WatchConfig {
            paths: default_watch_paths(),
            extensions: default_watch_extensions(),
            action: default_watch_action(),
            debounce_ms: default_debounce_ms(),
        }
    }
}

impl Default for BuildConfig {
    fn default() -> (r: Self)
        ensures
            r.command@ == Seq::<char>::empty(),
            r.artifact is None,
            r.clean_command is None,
            r.working_dir is None,
    {
        BuildConfig { command: String::new(), artifact: None, clean_command: None, working_dir: None }
    }
}

impl Default for InstallConfig {
    fn default() -> (r: Self)
        ensures
            r.command@ == Seq::<char>::empty(),
            r.working_dir is None,
    {
        InstallConfig { command: String::new(), working_dir: None }
    }
}

impl Default for LaunchConfig {
    fn default() -> (r: Self)
        ensures
            r.command@ == Seq::<char>::empty(),
            r.working_dir is None,
            r.stop_command is None,
    {
        LaunchConfig { command: String::new(), working_dir: None, stop_command: None }
    }
}

impl Default for LogsConfig {
    fn default() -> (r: Self)
        ensures
            r.command is None,
            r.filter is None,
            r.tags@.len() == 0,
    {
        LogsConfig { command: None, filter: None, tags: Vec::new() }
    }
}

impl Default for DevflowConfig {
    fn default() -> (r: Self)
        ensures
            r.project.name@ == "unnamed-project"@,
            r.project.platform@ == "generic"@,
            r.project.framework@ == "generic"@,
            r.project.package_id is None,
            r.build is None,
            r.install is None,
            r.launch is None,
            r.logs is None,
            r.watch is None,
            r.env@ == Map::<String, String>::empty(),
    {
        DevflowConfig {
            project: ProjectConfig::default(),
            build: None,
            install: None,
            launch: None,
            logs: None,
            watch: None,
            env: HashMap::new(),
        }
    }
}

/// The pieces joined with `name` between each two of them.
pub open spec fn interleave(pieces: Seq<Seq<char>>, name: Seq<char>) -> Seq<char>
    decreases pieces.len(),
{
    if pieces.len() == 0 {
        Seq::empty()
    } else if pieces.len() == 1 {
        pieces[0]
    } else {
        interleave(pieces.drop_last(), name) + name + pieces.last()
    }
}

/// Joins the literal pieces of a scaffold with the project name between them.
pub(crate) fn fill_template(pieces: &[&str], name: &str) -> (r: String)
    requires
        pieces@.len() >= 1,
    ensures
        r@ == interleave(pieces@.map_values(|p: &str| p@), name@),
{
    let ghost ps = pieces@.map_values(|p: &str| p@);
    let mut r = owned(pieces[0]);
    let mut i: usize = 1;
    assert(ps.take(1).drop_last() =~= Seq::<Seq<char>>::empty());
    assert(interleave(ps.take(1), name@) == ps[0]);
    while i < pieces.len()
        invariant
            1 <= i <= pieces@.len(),
            ps == pieces@.map_values(|p: &str| p@),
            r@ == interleave(ps.take(i as int), name@),
        decreases pieces@.len() - i,
    {
        r.append(name);
        r.append(pieces[i]);
        assert(ps.take(i + 1).drop_last() =~= ps.take(i as int));
        i = i + 1;
    }
    assert(ps.take(pieces@.len() as int) =~= ps);
    r
}

/// The literal pieces of the `devflow.toml` scaffold for a desktop project built with Cargo, between
/// which the project name stands.
pub open spec fn template_generic_pieces() -> Seq<Seq<char>> {
    seq!["[project]\nname = \""@, "\"\nplatform = \"desktop\"\nframework = \"generic\"\n\n[build]\ncommand = \"cargo build\"\nartifact = \"target/debug/"@, "\"\n\n[launch]\ncommand = \"./target/debug/"@, "\"\n\n[watch]\npaths = [\"src\"]\nextensions = [\"rs\", \"toml\"]\naction = \"restart\"\ndebounce_ms = 300\n"@]
}

/// The literal pieces of the `devflow.toml` scaffold for an Android project built with Gradle, between
/// which the project name stands.
pub open spec fn template_android_pieces() -> Seq<Seq<char>> {
    seq!["[project]\nname = \""@, "\"\nplatform = \"android\"\nframework = \"kotlin\"\n\n[build]\ncommand = \"./gradlew assembleDebug\"\nartifact = \"app/build/outputs/apk/debug/app-debug.apk\"\n\n[install]\ncommand = \"adb install -r {artifact}\"\n\n[launch]\ncommand = \"adb shell am start -n com.example."@, "/.MainActivity\"\n\n[logs]\ncommand = \"adb logcat\"\n\n[watch]\npaths = [\"app/src\"]\nextensions = [\"kt\", \"xml\", \"gradle\"]\naction = \"restart\"\ndebounce_ms = 500\n"@]
}

/// The literal pieces of the `devflow.toml` scaffold for a macOS Swift package, between
/// which the project name stands.
pub open spec fn template_swift_pieces() -> Seq<Seq<char>> {
    seq!["[project]\nname = \""@, "\"\nplatform = \"macos\"\nframework = \"swift\"\n\n[build]\ncommand = \"swift build\"\nartifact = \".build/debug/"@, "\"\n\n[launch]\ncommand = \".build/debug/"@, "\"\n\n[watch]\npaths = [\"Sources\"]\nextensions = [\"swift\"]\naction = \"restart\"\ndebounce_ms = 300\n"@]
}

/// The literal pieces of the `devflow.toml` scaffold for a React Native app, between
/// which the project name stands.
pub open spec fn template_react_native_pieces() -> Seq<Seq<char>> {
    seq!["[project]\nname = \""@, "\"\nplatform = \"android\"\nframework = \"react-native\"\n\n[build]\ncommand = \"npx react-native bundle --platform android --dev false\"\n\n[launch]\ncommand = \"npx react-native run-android\"\n\n[watch]\npaths = [\"src\", \"App.tsx\", \"App.js\"]\nextensions = [\"ts\", \"tsx\", \"js\", \"jsx\", \"json\"]\naction = \"reload\"\ndebounce_ms = 200\n"@]
}

/// The literal pieces of the `devflow.toml` scaffold for a Flutter app, between
/// which the project name stands.
pub open spec fn template_flutter_pieces() -> Seq<Seq<char>> {
    seq!["[project]\nname = \""@, "\"\nplatform = \"android\"\nframework = \"flutter\"\n\n[build]\ncommand = \"flutter build apk --debug\"\n\n[launch]\ncommand = \"flutter run\"\n\n[watch]\npaths = [\"lib\"]\nextensions = [\"dart\"]\naction = \"reload\"\ndebounce_ms = 200\n"@]
}

/// The literal pieces of the `devflow.toml` scaffold for a Tauri desktop app, between
/// which the project name stands.
pub open spec fn template_tauri_pieces() -> Seq<Seq<char>> {
    seq!["[project]\nname = \""@, "\"\nplatform = \"desktop\"\nframework = \"tauri\"\n\n[build]\ncommand = \"cargo build --manifest-path src-tauri/Cargo.toml\"\n\n[launch]\ncommand = \"cargo tauri dev\"\n\n[watch]\npaths = [\"src\", \"src-tauri/src\"]\nextensions = [\"rs\", \"html\", \"css\", \"js\", \"ts\", \"tsx\", \"vue\", \"svelte\"]\naction = \"reload\"\ndebounce_ms = 300\n"@]
}

/// A configured command with its placeholders filled in: `{project_name}`,
/// `{platform}` and `{framework}` always, `{target}` and `{device_id}`
/// when a target device is given, `{artifact}` when the build names one, in
/// that order, each occurrence left to right.
pub open spec fn spec_expand(
    template: Seq<char>,
    name: Seq<char>,
    platform: Seq<char>,
    framework: Seq<char>,
    target: Option<Seq<char>>,
    artifact: Option<Seq<char>>,
) -> Seq<char> {
    let a = replace_all(template, "{project_name}"@, name);
    let b = replace_all(a, "{platform}"@, platform);
    let c = replace_all(b, "{framework}"@, framework);
    let d = match target {
        Some(t) => replace_all(replace_all(c, "{target}"@, t), "{device_id}"@, t),
        None => c,
    };
    match artifact {
        Some(x) => replace_all(d, "{artifact}"@, x),
        None => d,
    }
}

/// The build artifact named by the configuration, if any.
pub open spec fn configured_artifact(c: DevflowConfig) -> Option<Seq<char>> {
    match c.build {
        Some(b) => opt_text(b.artifact),
        None => None,
    }
}

/// The platform a lower-cased platform name selects.
pub open spec fn platform_from_name(l: Seq<char>) -> Platform {
    if l == "android"@ {
        Platform::Android
    } else if l == "apple"@ || l == "ios"@ {
        Platform::Ios
    } else if l == "macos"@ {
        Platform::Macos
    } else if l == "desktop"@ {
        Platform::Desktop
    } else {
        Platform::Generic
    }
}

/// Whether the characters are those of the literal.
pub fn is_text(a: &[char], lit: &str) -> (r: bool)
    ensures
        r == (a@ == lit@),
{
    let l = chars_of(lit);
    chars_eq(a, l.as_slice())
}

/// Replaces every occurrence of the literal placeholder `pat` in `s`.
fn replace_placeholder(s: &Vec<char>, pat: &str, with: &str) -> (r: Vec<char>)
    requires
        pat@.len() > 0,
    ensures
        r@ == replace_all(s@, pat@, with@),
{
    let p = chars_of(pat);
    let w = chars_of(with);
    replace(s.as_slice(), p.as_slice(), w.as_slice())
}

/// The literal pieces of the generic scaffold.
pub(crate) fn generic_parts() -> (r: Vec<&'static str>)
    ensures
        r@.len() >= 2,
        r@.map_values(|p: &str| p@) == template_generic_pieces(),
{
    let pieces = vec!["[project]\nname = \"", "\"\nplatform = \"desktop\"\nframework = \"generic\"\n\n[build]\ncommand = \"cargo build\"\nartifact = \"target/debug/", "\"\n\n[launch]\ncommand = \"./target/debug/", "\"\n\n[watch]\npaths = [\"src\"]\nextensions = [\"rs\", \"toml\"]\naction = \"restart\"\ndebounce_ms = 300\n"];
    assert(pieces@.map_values(|p: &str| p@) =~= template_generic_pieces());
    pieces
}

/// The literal pieces of the android scaffold.
pub(crate) fn android_parts() -> (r: Vec<&'static str>)
    ensures
        r@.len() >= 2,
        r@.map_values(|p: &str| p@) == template_android_pieces(),
{
    let pieces = vec!["[project]\nname = \"", "\"\nplatform = \"android\"\nframework = \"kotlin\"\n\n[build]\ncommand = \"./gradlew assembleDebug\"\nartifact = \"app/build/outputs/apk/debug/app-debug.apk\"\n\n[install]\ncommand = \"adb install -r {artifact}\"\n\n[launch]\ncommand = \"adb shell am start -n com.example.", "/.MainActivity\"\n\n[logs]\ncommand = \"adb logcat\"\n\n[watch]\npaths = [\"app/src\"]\nextensions = [\"kt\", \"xml\", \"gradle\"]\naction = \"restart\"\ndebounce_ms = 500\n"];
    assert(pieces@.map_values(|p: &str| p@) =~= template_android_pieces());
    pieces
}

/// The literal pieces of the swift scaffold.
pub(crate) fn swift_parts() -> (r: Vec<&'static str>)
    ensures
        r@.len() >= 2,
        r@.map_values(|p: &str| p@) == template_swift_pieces(),
{
    let pieces = vec!["[project]\nname = \"", "\"\nplatform = \"macos\"\nframework = \"swift\"\n\n[build]\ncommand = \"swift build\"\nartifact = \".build/debug/", "\"\n\n[launch]\ncommand = \".build/debug/", "\"\n\n[watch]\npaths = [\"Sources\"]\nextensions = [\"swift\"]\naction = \"restart\"\ndebounce_ms = 300\n"];
    assert(pieces@.map_values(|p: &str| p@) =~= template_swift_pieces());
    pieces
}

/// The literal pieces of the react native scaffold.
pub(crate) fn react_native_parts() -> (r: Vec<&'static str>)
    ensures
        r@.len() >= 2,
        r@.map_values(|p: &str| p@) == template_react_native_pieces(),
{
    let pieces = vec!["[project]\nname = \"", "\"\nplatform = \"android\"\nframework = \"react-native\"\n\n[build]\ncommand = \"npx react-native bundle --platform android --dev false\"\n\n[launch]\ncommand = \"npx react-native run-android\"\n\n[watch]\npaths = [\"src\", \"App.tsx\", \"App.js\"]\nextensions = [\"ts\", \"tsx\", \"js\", \"jsx\", \"json\"]\naction = \"reload\"\ndebounce_ms = 200\n"];
    assert(pieces@.map_values(|p: &str| p@) =~= template_react_native_pieces());
    pieces
}

/// The literal pieces of the flutter scaffold.
pub(crate) fn flutter_parts() -> (r: Vec<&'static str>)
    ensures
        r@.len() >= 2,
        r@.map_values(|p: &str| p@) == template_flutter_pieces(),
{
    let pieces = vec!["[project]\nname = \"", "\"\nplatform = \"android\"\nframework = \"flutter\"\n\n[build]\ncommand = \"flutter build apk --debug\"\n\n[launch]\ncommand = \"flutter run\"\n\n[watch]\npaths = [\"lib\"]\nextensions = [\"dart\"]\naction = \"reload\"\ndebounce_ms = 200\n"];
    assert(pieces@.map_values(|p: &str| p@) =~= template_flutter_pieces());
    pieces
}

/// The literal pieces of the tauri scaffold.
pub(crate) fn tauri_parts() -> (r: Vec<&'static str>)
    ensures
        r@.len() >= 2,
        r@.map_values(|p: &str| p@) == template_tauri_pieces(),
{
    let pieces = vec!["[project]\nname = \"", "\"\nplatform = \"desktop\"\nframework = \"tauri\"\n\n[build]\ncommand = \"cargo build --manifest-path src-tauri/Cargo.toml\"\n\n[launch]\ncommand = \"cargo tauri dev\"\n\n[watch]\npaths = [\"src\", \"src-tauri/src\"]\nextensions = [\"rs\", \"html\", \"css\", \"js\", \"ts\", \"tsx\", \"vue\", \"svelte\"]\naction = \"reload\"\ndebounce_ms = 300\n"];
    assert(pieces@.map_values(|p: &str| p@) =~= template_tauri_pieces());
    pieces
}

impl DevflowConfig {

    /// The `devflow.toml` scaffold for a desktop project built with Cargo named `project_name`.
    pub fn template_generic(project_name: &str) -> (r: String)
        ensures
            r@ == interleave(template_generic_pieces(), project_name@),
    {
        let pieces = generic_parts();
        fill_template(pieces.as_slice(), project_name)
    }

    /// The `devflow.toml` scaffold for an Android project built with Gradle named `project_name`.
    pub fn template_android(project_name: &str) -> (r: String)
        ensures
            r@ == interleave(template_android_pieces(), project_name@),
    {
        let pieces = android_parts();
        fill_template(pieces.as_slice(), project_name)
    }

    /// The `devflow.toml` scaffold for a macOS Swift package named `project_name`.
    pub fn template_swift(project_name: &str) -> (r: String)
        ensures
            r@ == interleave(template_swift_pieces(), project_name@),
    {
        let pieces = swift_parts();
        fill_template(pieces.as_slice(), project_name)
    }

    /// The `devflow.toml` scaffold for a React Native app named `project_name`.
    pub fn template_react_native(project_name: &str) -> (r: String)
        ensures
            r@ == interleave(template_react_native_pieces(), project_name@),
    {
        let pieces = react_native_parts();
        fill_template(pieces.as_slice(), project_name)
    }

    /// The `devflow.toml` scaffold for a Flutter app named `project_name`.
    pub fn template_flutter(project_name: &str) -> (r: String)
        ensures
            r@ == interleave(template_flutter_pieces(), project_name@),
    {
        let pieces = flutter_parts();
        fill_template(pieces.as_slice(), project_name)
    }

    /// The `devflow.toml` scaffold for a Tauri desktop app named `project_name`.
    pub fn template_tauri(project_name: &str) -> (r: String)
        ensures
            r@ == interleave(template_tauri_pieces(), project_name@),
    {
        let pieces = tauri_parts();
        fill_template(pieces.as_slice(), project_name)
    }

    /// The template with the project's placeholders filled in (see
    /// `spec_expand`).
    pub fn expand_template(&self, template: &str, target_device_id: Option<&str>) -> (r: String)
        ensures
            r@ == spec_expand(
                template@,
                self.project.name@,
                self.project.platform@,
                self.project.framework@,
                match target_device_id {
                    Some(t) => Some(t@),
                    None => None,
                },
                configured_artifact(*self),
            ),
    {
        proof {
            reveal_strlit("{project_name}");
            reveal_strlit("{platform}");
            reveal_strlit("{framework}");
            reveal_strlit("{target}");
            reveal_strlit("{device_id}");
            reveal_strlit("{artifact}");
        }
        let t = chars_of(template);
        let a = replace_placeholder(&t, "{project_name}", self.project.name.as_str());
        let b = replace_placeholder(&a, "{platform}", self.project.platform.as_str());
        let mut result = replace_placeholder(&b, "{framework}", self.project.framework.as_str());
        if let Some(target) = target_device_id {
            let x = replace_placeholder(&result, "{target}", target);
            result = replace_placeholder(&x, "{device_id}", target);
        }
        if let Some(build) = &self.build {
            if let Some(art) = &build.artifact {
                result = replace_placeholder(&result, "{artifact}", art.as_str());
            }
        }
        string_of(result.as_slice())
    }

    /// The platform that the configured platform name selects, compared
    /// without regard to case: `android`; `apple` or `ios`; `macos`;
    /// `desktop`; anything else is generic.
    pub fn target_platform(&self) -> (r: Platform)
        ensures
            r == platform_from_name(unicode_lower(self.project.platform@)),
    {
        let lower = to_lowercase(self.project.platform.as_str());
        let l = chars_of(lower.as_str());
        if is_text(l.as_slice(), "android") {
            Platform::Android
        } else if is_text(l.as_slice(), "apple") || is_text(l.as_slice(), "ios") {
            Platform::Ios
        } else if is_text(l.as_slice(), "macos") {
            Platform::Macos
        } else if is_text(l.as_slice(), "desktop") {
            Platform::Desktop
        } else {
            Platform::Generic
        }
    }
}


/// The two `[project]` sections hold the same values.
pub open spec fn same_project(a: ProjectConfig, b: ProjectConfig) -> bool {
    a.name@ == b.name@ && a.platform@ == b.platform@ && a.framework@ == b.framework@ && opt_text(
        a.package_id,
    ) == opt_text(b.package_id)
}

/// The two optional `[build]` sections hold the same values.
pub open spec fn same_build(a: Option<BuildConfig>, b: Option<BuildConfig>) -> bool {
    match (a, b) {
        (Some(x), Some(y)) => x.command@ == y.command@ && opt_text(x.artifact) == opt_text(
            y.artifact,
        ) && opt_text(x.clean_command) == opt_text(y.clean_command) && opt_text(x.working_dir)
            == opt_text(y.working_dir),
        (None, None) => true,
        _ => false,
    }
}

/// The two optional `[install]` sections hold the same values.
pub open spec fn same_install(a: Option<InstallConfig>, b: Option<InstallConfig>) -> bool {
    match (a, b) {
        (Some(x), Some(y)) => x.command@ == y.command@ && opt_text(x.working_dir) == opt_text(
            y.working_dir,
        ),
        (None, None) => true,
        _ => false,
    }
}

/// The two optional `[launch]` sections hold the same values.
pub open spec fn same_launch(a: Option<LaunchConfig>, b: Option<LaunchConfig>) -> bool {
    match (a, b) {
        (Some(x), Some(y)) => x.command@ == y.command@ && opt_text(x.working_dir) == opt_text(
            y.working_dir,
        ) && opt_text(x.stop_command) == opt_text(y.stop_command),
        (None, None) => true,
        _ => false,
    }
}

/// The two optional `[logs]` sections hold the same values.
pub open spec fn same_logs(a: Option<LogsConfig>, b: Option<LogsConfig>) -> bool {
    match (a, b) {
        (Some(x), Some(y)) => opt_text(x.command) == opt_text(y.command) && opt_text(x.filter)
            == opt_text(y.filter) && strs(x.tags@) == strs(y.tags@),
        (None, None) => true,
        _ => false,
    }
}

/// The two optional `[watch]` sections hold the same values.
pub open spec fn same_watch(a: Option<WatchConfig>, b: Option<WatchConfig>) -> bool {
    match (a, b) {
        (Some(x), Some(y)) => strs(x.paths@) == strs(y.paths@) && strs(x.extensions@) == strs(
            y.extensions@,
        ) && x.action@ == y.action@ && x.debounce_ms == y.debounce_ms,
        (None, None) => true,
        _ => false,
    }
}

/// The two configurations hold the same values.
pub open spec fn same_config(a: DevflowConfig, b: DevflowConfig) -> bool {
    &&& same_project(a.project, b.project)
    &&& same_build(a.build, b.build)
    &&& same_install(a.install, b.install)
    &&& same_launch(a.launch, b.launch)
    &&& same_logs(a.logs, b.logs)
    &&& same_watch(a.watch, b.watch)
    &&& a.env@ == b.env@
}

fn copy_str(s: &String) -> (r: String)
    ensures
        r@ == s@,
{
    owned(s.as_str())
}

fn copy_opt(o: &Option<String>) -> (r: Option<String>)
    ensures
        opt_text(r) == opt_text(*o),
{
    match o {
        Some(s) => Some(copy_str(s)),
        None => None,
    }
}

/// A copy of a list of strings.
pub fn copy_strs(v: &Vec<String>) -> (r: Vec<String>)
    ensures
        strs(r@) == strs(v@),
{
    let mut r: Vec<String> = Vec::new();
    let mut i: usize = 0;
    while i < v.len()
        invariant
            i <= v@.len(),
            r@.len() == i,
            forall|k: int| 0 <= k < i ==> #[trigger] r@[k]@ == v@[k]@,
        decreases v@.len() - i,
    {
        r.push(copy_str(&v[i]));
        i = i + 1;
    }
    assert(strs(r@) =~= strs(v@));
    r
}

impl WatchConfig {
    /// A copy of the section.
    pub fn duplicate(&self) -> (r: WatchConfig)
        ensures
            same_watch(Some(r), Some(*self)),
    {
        WatchConfig {
            paths: copy_strs(&self.paths),
            extensions: copy_strs(&self.extensions),
            action: copy_str(&self.action),
            debounce_ms: self.debounce_ms,
        }
    }
}

impl DevflowConfig {
    /// A copy of the configuration.
    pub fn duplicate(&self) -> (r: DevflowConfig)
        ensures
            same_config(r, *self),
    {
        let project = ProjectConfig {
            name: copy_str(&self.project.name),
            platform: copy_str(&self.project.platform),
            framework: copy_str(&self.project.framework),
            package_id: copy_opt(&self.project.package_id),
        };
        let build = match &self.build {
            Some(b) => Some(
                BuildConfig {
                    command: copy_str(&b.command),
                    artifact: copy_opt(&b.artifact),
                    clean_command: copy_opt(&b.clean_command),
                    working_dir: copy_opt(&b.working_dir),
                },
            ),
            None => None,
        };
        let install = match &self.install {
            Some(b) => Some(
                InstallConfig { command: copy_str(&b.command), working_dir: copy_opt(&b.working_dir) },
            ),
            None => None,
        };
        let launch = match &self.launch {
            Some(b) => Some(
                LaunchConfig {
                    command: copy_str(&b.command),
                    working_dir: copy_opt(&b.working_dir),
                    stop_command: copy_opt(&b.stop_command),
                },
            ),
            None => None,
        };
        let logs = match &self.logs {
            Some(b) => Some(
                LogsConfig {
                    command: copy_opt(&b.command),
                    filter: copy_opt(&b.filter),
                    tags: copy_strs(&b.tags),
                },
            ),
            None => None,
        };
        let watch = match &self.watch {
            Some(w) => Some(w.duplicate()),
            None => None,
        };
        DevflowConfig { project, build, install, launch, logs, watch, env: self.env.clone() }
    }
}

} // verus!
