//! The project model: which framework and platform a directory holds, the
//! configuration in effect for it, and the runnable targets of a workspace.
//! Looking at the file system stays with the caller, who reports what it saw.
use vstd::prelude::*;
use crate::config::{
    DevflowConfig, ProjectConfig, WatchConfig, opt_text, platform_from_name, same_config, strs,
    same_watch,
};
use crate::platform::{Platform, platform_name};
use crate::text::{
    chars_of, chars_eq, concat_str, contains, contains_chars, is_prefix, owned, replace_all,
    replace_char, string_of, starts_with, to_lowercase, unicode_lower, ascii_lower,
};

verus! {

/// The framework a project is built with.
#[derive(Clone, Copy, Debug, PartialEq, Eq, Structural)]
pub enum DetectedFramework {
    KotlinAndroid,
    SwiftPM,
    XcodeProject,
    ReactNative,
    Flutter,
    Tauri,
    RustCargo,
    Generic,
}

/// The short name of a framework.
pub open spec fn framework_name(f: DetectedFramework) -> Seq<char> {
    match f {
        DetectedFramework::KotlinAndroid => "kotlin"@,
        DetectedFramework::SwiftPM => "swift"@,
        DetectedFramework::XcodeProject => "xcode"@,
        DetectedFramework::ReactNative => "react-native"@,
        DetectedFramework::Flutter => "flutter"@,
        DetectedFramework::Tauri => "tauri"@,
        DetectedFramework::RustCargo => "rust"@,
        DetectedFramework::Generic => "generic"@,
    }
}

/// The framework a lower-cased framework name in `devflow.toml` selects.
pub open spec fn framework_from_name(l: Seq<char>) -> DetectedFramework {
    if l == "kotlin"@ || l == "android"@ {
        DetectedFramework::KotlinAndroid
    } else if l == "swift"@ || l == "swiftpm"@ {
        DetectedFramework::SwiftPM
    } else if l == "xcode"@ || l == "ios"@ {
        DetectedFramework::XcodeProject
    } else if l == "react-native"@ || l == "rn"@ {
        DetectedFramework::ReactNative
    } else if l == "flutter"@ {
        DetectedFramework::Flutter
    } else if l == "tauri"@ {
        DetectedFramework::Tauri
    } else if l == "rust"@ || l == "cargo"@ {
        DetectedFramework::RustCargo
    } else {
        DetectedFramework::Generic
    }
}

impl DetectedFramework {
    /// The short name of the framework.
    pub fn as_str(&self) -> (r: &'static str)
        ensures
            r@ == framework_name(*self),
    {
        match self {
            DetectedFramework::KotlinAndroid => "kotlin",
            DetectedFramework::SwiftPM => "swift",
            DetectedFramework::XcodeProject => "xcode",
            DetectedFramework::ReactNative => "react-native",
            DetectedFramework::Flutter => "flutter",
            DetectedFramework::Tauri => "tauri",
            DetectedFramework::RustCargo => "rust",
            DetectedFramework::Generic => "generic",
        }
    }

    /// The framework a framework name from `devflow.toml` selects, compared
    /// without regard to case.
    pub fn from_config_name(name: &str) -> (r: DetectedFramework)
        ensures
            r == framework_from_name(unicode_lower(name@)),
    {
        let lower = to_lowercase(name);
        let l = chars_of(lower.as_str());
        let t = |lit: &str| -> (b: bool)
            ensures
                b == (l@ == lit@),
            { crate::config::is_text(l.as_slice(), lit) };
        if t("kotlin") || t("android") {
            DetectedFramework::KotlinAndroid
        } else if t("swift") || t("swiftpm") {
            DetectedFramework::SwiftPM
        } else if t("xcode") || t("ios") {
            DetectedFramework::XcodeProject
        } else if t("react-native") || t("rn") {
            DetectedFramework::ReactNative
        } else if t("flutter") {
            DetectedFramework::Flutter
        } else if t("tauri") {
            DetectedFramework::Tauri
        } else if t("rust") || t("cargo") {
            DetectedFramework::RustCargo
        } else {
            DetectedFramework::Generic
        }
    }
}

/// What the caller found in a project directory.
pub struct ProjectMarkers {
    /// Any of `build.gradle`, `build.gradle.kts`, `app/build.gradle`,
    /// `app/build.gradle.kts`, `settings.gradle`, `settings.gradle.kts`.
    pub has_gradle: bool,
    /// `Package.swift`.
    pub has_package_swift: bool,
    /// `pubspec.yaml`.
    pub has_pubspec: bool,
    /// The text of `package.json`, when it exists and could be read.
    pub package_json: Option<String>,
    /// `src-tauri` or `tauri.conf.json`.
    pub has_tauri: bool,
    /// `Cargo.toml`.
    pub has_cargo_toml: bool,
}

/// The framework and platform the markers of a directory without
/// `devflow.toml` reveal, tried in this order: Gradle (Android), SwiftPM
/// (macOS), Flutter (Android), React Native (a `package.json` mentioning it;
/// Android), Tauri (desktop), Cargo (desktop); else generic.
pub open spec fn infer_kind(m: ProjectMarkers) -> (DetectedFramework, Platform) {
    if m.has_gradle {
        (DetectedFramework::KotlinAndroid, Platform::Android)
    } else if m.has_package_swift {
        (DetectedFramework::SwiftPM, Platform::Macos)
    } else if m.has_pubspec {
        (DetectedFramework::Flutter, Platform::Android)
    } else if (match m.package_json {
        Some(t) => contains(t@, "react-native"@),
        None => false,
    }) {
        (DetectedFramework::ReactNative, Platform::Android)
    } else if m.has_tauri {
        (DetectedFramework::Tauri, Platform::Desktop)
    } else if m.has_cargo_toml {
        (DetectedFramework::RustCargo, Platform::Desktop)
    } else {
        (DetectedFramework::Generic, Platform::Generic)
    }
}

/// A project directory as DevFlow understands it.
pub struct Project {
    pub root_dir: String,
    pub name: String,
    pub detected_framework: DetectedFramework,
    pub detected_platform: Platform,
    pub config: Option<DevflowConfig>,
}

/// A runnable target of a workspace.
#[derive(Debug)]
pub struct ProjectTarget {
    pub id: String,
    pub name: String,
    pub path: String,
    pub platform: Platform,
    pub framework: String,
    pub is_default: bool,
}

impl Project {
    /// The framework, platform and default name of a directory without
    /// configuration (see `infer_kind`); the name is the directory's, or
    /// `app` when it has none.
    pub fn infer_from_filesystem(m: &ProjectMarkers, dir_name: Option<&str>) -> (r: (DetectedFramework, Platform, String))
        ensures
            (r.0, r.1) == infer_kind(*m),
            r.2@ == match dir_name {
                Some(n) => n@,
                None => "app"@,
            },
    {
        let name = match dir_name {
            Some(n) => owned(n),
            None => owned("app"),
        };
        if m.has_gradle {
            return (DetectedFramework::KotlinAndroid, Platform::Android, name);
        }
        if m.has_package_swift {
            return (DetectedFramework::SwiftPM, Platform::Macos, name);
        }
        if m.has_pubspec {
            return (DetectedFramework::Flutter, Platform::Android, name);
        }
        if let Some(t) = &m.package_json {
            let tc = chars_of(t.as_str());
            let p = chars_of("react-native");
            if contains_chars(tc.as_slice(), p.as_slice()) {
                return (DetectedFramework::ReactNative, Platform::Android, name);
            }
        }
        if m.has_tauri {
            return (DetectedFramework::Tauri, Platform::Desktop, name);
        }
        if m.has_cargo_toml {
            return (DetectedFramework::RustCargo, Platform::Desktop, name);
        }
        (DetectedFramework::Generic, Platform::Generic, name)
    }

    /// The project at `root` (already made canonical when possible). With a
    /// configuration, its framework name, platform and project name decide;
    /// without one, the markers and the directory name do.
    pub fn detect(root: String, config: Option<DevflowConfig>, m: &ProjectMarkers, dir_name: Option<&str>) -> (r: Project)
        ensures
            r.root_dir@ == root@,
            match config {
                Some(c) => {
                    &&& r.config matches Some(rc) && same_config(rc, c)
                    &&& r.detected_framework == framework_from_name(unicode_lower(c.project.framework@))
                    &&& r.detected_platform == platform_from_name(unicode_lower(c.project.platform@))
                    &&& r.name@ == c.project.name@
                },
                None => {
                    &&& r.config is None
                    &&& (r.detected_framework, r.detected_platform) == infer_kind(*m)
                    &&& r.name@ == match dir_name {
                        Some(n) => n@,
                        None => "app"@,
                    }
                },
            },
    {
        match config {
            Some(cfg) => {
                let fw = DetectedFramework::from_config_name(cfg.project.framework.as_str());
                let platform = cfg.target_platform();
                let name = owned(cfg.project.name.as_str());
                let kept = cfg.duplicate();
                Project {
                    root_dir: root,
                    name,
                    detected_framework: fw,
                    detected_platform: platform,
                    config: Some(kept),
                }
            },
            None => {
                let (fw, platform, name) = Self::infer_from_filesystem(m, dir_name);
                Project { root_dir: root, name, detected_framework: fw, detected_platform: platform, config: None }
            },
        }
    }

    /// The configuration in effect: the project's own, else one made from
    /// what was detected, with the default watch settings and no commands.
    pub fn effective_config(&self) -> (r: DevflowConfig)
        ensures
            match self.config {
                Some(c) => same_config(r, c),
                None => {
                    &&& r.project.name@ == self.name@
                    &&& r.project.platform@ == platform_name(self.detected_platform)
                    &&& r.project.framework@ == framework_name(self.detected_framework)
                    &&& r.project.package_id is None
                    &&& r.build is None && r.install is None && r.launch is None && r.logs is None
                    &&& r.watch matches Some(w) && strs(w.paths@) == seq!["src"@] && strs(
                        w.extensions@,
                    ) == seq!["rs"@, "kt"@, "swift"@, "ts"@, "js"@] && w.action@ == "reload"@
                        && w.debounce_ms == 300
                    &&& r.env@ == Map::<String, String>::empty()
                },
            },
    {
        match &self.config {
            Some(c) => c.duplicate(),
            None => DevflowConfig {
                project: ProjectConfig {
                    name: owned(self.name.as_str()),
                    platform: owned(self.detected_platform.as_str()),
                    framework: owned(self.detected_framework.as_str()),
                    package_id: None,
                },
                build: None,
                install: None,
                launch: None,
                logs: None,
                watch: Some(WatchConfig::default()),
                env: std::collections::HashMap::new(),
            },
        }
    }
}


/// What the caller found in one child directory of a workspace.
pub struct ChildProject {
    /// The directory's own name (empty when it has none that is text).
    pub dir_name: String,
    /// The directory's path.
    pub path: String,
    /// The project detected there, `None` when detection failed.
    pub project: Option<Project>,
    /// Whether the directory holds a `devflow.toml`.
    pub has_config_file: bool,
}

/// The contents of a target.
pub struct TargetView {
    pub id: Seq<char>,
    pub name: Seq<char>,
    pub path: Seq<char>,
    pub platform: Platform,
    pub framework: Seq<char>,
    pub is_default: bool,
}

/// The contents of a target.
pub open spec fn target_view(t: ProjectTarget) -> TargetView {
    TargetView {
        id: t.id@,
        name: t.name@,
        path: t.path@,
        platform: t.platform,
        framework: t.framework@,
        is_default: t.is_default,
    }
}

/// The contents of a list of targets.
pub open spec fn target_views(s: Seq<ProjectTarget>) -> Seq<TargetView> {
    s.map_values(|t: ProjectTarget| target_view(t))
}

/// Child directories never scanned: hidden ones and build or dependency
/// output.
pub open spec fn skipped_dir(n: Seq<char>) -> bool {
    is_prefix("."@, n) || n == "target"@ || n == "build"@ || n == ".build"@ || n == "node_modules"@
}

/// A project name as the first part of a target id: lower-cased, spaces as
/// dashes.
pub open spec fn target_slug(name: Seq<char>) -> Seq<char> {
    replace_all(unicode_lower(name), " "@, "-"@)
}

/// A detected project is runnable when its framework is known or it is
/// configured.
pub open spec fn runnable(p: Project, has_config: bool) -> bool {
    p.detected_framework != DetectedFramework::Generic || has_config
}

/// The target of a runnable child directory.
pub open spec fn child_target(c: ChildProject, p: Project, is_default: bool) -> TargetView {
    TargetView {
        id: target_slug(p.name@) + "-"@ + c.dir_name@,
        name: p.name@ + " ("@ + c.dir_name@ + ")"@,
        path: c.path@,
        platform: p.detected_platform,
        framework: framework_name(p.detected_framework),
        is_default,
    }
}

/// `acc` extended by the targets of the children, in order; each child
/// target is the default when no target came before it.
pub open spec fn add_children(acc: Seq<TargetView>, cs: Seq<ChildProject>) -> Seq<TargetView>
    decreases cs.len(),
{
    if cs.len() == 0 {
        acc
    } else {
        let m = add_children(acc, cs.drop_last());
        let c = cs.last();
        match c.project {
            Some(p) => if !skipped_dir(c.dir_name@) && runnable(p, c.has_config_file) {
                m.push(child_target(c, p, m.len() == 0))
            } else {
                m
            },
            None => m,
        }
    }
}

/// The runnable targets of a workspace: the root project first (the
/// default) when it is runnable, then each runnable child directory that is
/// not skipped.
pub open spec fn workspace_targets(
    root_path: Seq<char>,
    root: Option<Project>,
    root_has_config: bool,
    children: Seq<ChildProject>,
) -> Seq<TargetView> {
    let start = match root {
        Some(p) => if runnable(p, root_has_config) {
            seq![
                TargetView {
                    id: target_slug(p.name@) + "-root"@,
                    name: p.name@,
                    path: root_path,
                    platform: p.detected_platform,
                    framework: framework_name(p.detected_framework),
                    is_default: true,
                },
            ]
        } else {
            Seq::empty()
        },
        None => Seq::empty(),
    };
    add_children(start, children)
}

fn slug(name: &str) -> (r: String)
    ensures
        r@ == target_slug(name@),
{
    let lower = to_lowercase(name);
    let l = chars_of(lower.as_str());
    let dash = vec!['-'];
    let out = replace_char(l.as_slice(), ' ', dash.as_slice());
    proof {
        reveal_strlit(" ");
        reveal_strlit("-");
        assert(seq![' '] =~= " "@);
        assert(dash@ =~= "-"@);
    }
    string_of(out.as_slice())
}

/// Whether a child directory is never scanned (see `skipped_dir`).
pub fn is_skipped_dir(n: &str) -> (r: bool)
    ensures
        r == skipped_dir(n@),
{
    let c = chars_of(n);
    let dot = chars_of(".");
    starts_with(c.as_slice(), dot.as_slice()) || crate::config::is_text(c.as_slice(), "target")
        || crate::config::is_text(c.as_slice(), "build") || crate::config::is_text(
        c.as_slice(),
        ".build",
    ) || crate::config::is_text(c.as_slice(), "node_modules")
}

impl Project {
    /// The runnable targets of the workspace at `root_path` (see
    /// `workspace_targets`), from what detection found at the root and in
    /// each child directory.
    pub fn discover_workspace_targets(
        root_path: &str,
        root: Option<&Project>,
        root_has_config: bool,
        children: &Vec<ChildProject>,
    ) -> (r: Vec<ProjectTarget>)
        ensures
            target_views(r@) == workspace_targets(
                root_path@,
                match root {
                    Some(p) => Some(*p),
                    None => None,
                },
                root_has_config,
                children@,
            ),
    {
        let mut targets: Vec<ProjectTarget> = Vec::new();
        if let Some(p) = root {
            if p.detected_framework != DetectedFramework::Generic || root_has_config {
                let s = slug(p.name.as_str());
                targets.push(
                    ProjectTarget {
                        id: concat_str(s.as_str(), "-root"),
                        name: owned(p.name.as_str()),
                        path: owned(root_path),
                        platform: p.detected_platform,
                        framework: owned(p.detected_framework.as_str()),
                        is_default: true,
                    },
                );
            }
        }
        let ghost start = target_views(targets@);
        assert(start == workspace_targets(
            root_path@,
            match root {
                Some(p) => Some(*p),
                None => None,
            },
            root_has_config,
            Seq::empty(),
        )) by {
            assert(target_views(targets@) =~= (match root {
                Some(p) => if runnable(*p, root_has_config) {
                    seq![
                        TargetView {
                            id: target_slug(p.name@) + "-root"@,
                            name: p.name@,
                            path: root_path@,
                            platform: p.detected_platform,
                            framework: framework_name(p.detected_framework),
                            is_default: true,
                        },
                    ]
                } else {
                    Seq::empty()
                },
                None => Seq::empty(),
            }));
        }
        let mut i: usize = 0;
        assert(children@.take(0) =~= Seq::<ChildProject>::empty());
        while i < children.len()
            invariant
                i <= children@.len(),
                target_views(targets@) == add_children(start, children@.take(i as int)),
            decreases children@.len() - i,
        {
            let c = &children[i];
            assert(children@.take(i + 1).drop_last() =~= children@.take(i as int));
            assert(children@.take(i + 1).last() == *c);
            if let Some(p) = &c.project {
                if !is_skipped_dir(c.dir_name.as_str()) && (p.detected_framework
                    != DetectedFramework::Generic || c.has_config_file) {
                    let s = slug(p.name.as_str());
                    let id1 = concat_str(s.as_str(), "-");
                    let n1 = concat_str(p.name.as_str(), " (");
                    let n2 = concat_str(n1.as_str(), c.dir_name.as_str());
                    let is_default = targets.len() == 0;
                    targets.push(
                        ProjectTarget {
                            id: concat_str(id1.as_str(), c.dir_name.as_str()),
                            name: concat_str(n2.as_str(), ")"),
                            path: owned(c.path.as_str()),
                            platform: p.detected_platform,
                            framework: owned(p.detected_framework.as_str()),
                            is_default,
                        },
                    );
                    assert(target_views(targets@) =~= add_children(start, children@.take(i + 1)));
                }
            }
            i = i + 1;
        }
        assert(children@.take(children@.len() as int) =~= children@);
        targets
    }
}

/// Every framework's short name is lower-case and selects that framework
/// again.
pub proof fn law_framework_name_roundtrip(f: DetectedFramework)
    ensures
        ascii_lower(framework_name(f)) == framework_name(f),
        framework_from_name(framework_name(f)) == f,
{
    lemma_framework_names();
    let n = framework_name(f);
    assert(ascii_lower(n) =~= n);
}

proof fn lemma_framework_names()
    ensures
        "kotlin"@ =~= seq!['k', 'o', 't', 'l', 'i', 'n'],
        "android"@ =~= seq!['a', 'n', 'd', 'r', 'o', 'i', 'd'],
        "swift"@ =~= seq!['s', 'w', 'i', 'f', 't'],
        "swiftpm"@ =~= seq!['s', 'w', 'i', 'f', 't', 'p', 'm'],
        "xcode"@ =~= seq!['x', 'c', 'o', 'd', 'e'],
        "ios"@ =~= seq!['i', 'o', 's'],
        "react-native"@ =~= seq!['r', 'e', 'a', 'c', 't', '-', 'n', 'a', 't', 'i', 'v', 'e'],
        "rn"@ =~= seq!['r', 'n'],
        "flutter"@ =~= seq!['f', 'l', 'u', 't', 't', 'e', 'r'],
        "tauri"@ =~= seq!['t', 'a', 'u', 'r', 'i'],
        "rust"@ =~= seq!['r', 'u', 's', 't'],
        "cargo"@ =~= seq!['c', 'a', 'r', 'g', 'o'],
        "generic"@ =~= seq!['g', 'e', 'n', 'e', 'r', 'i', 'c'],
        "apple"@ =~= seq!['a', 'p', 'p', 'l', 'e'],
        "macos"@ =~= seq!['m', 'a', 'c', 'o', 's'],
        "desktop"@ =~= seq!['d', 'e', 's', 'k', 't', 'o', 'p'],
{
    reveal_strlit("kotlin");
    reveal_strlit("android");
    reveal_strlit("swift");
    reveal_strlit("swiftpm");
    reveal_strlit("xcode");
    reveal_strlit("ios");
    reveal_strlit("react-native");
    reveal_strlit("rn");
    reveal_strlit("flutter");
    reveal_strlit("tauri");
    reveal_strlit("rust");
    reveal_strlit("cargo");
    reveal_strlit("generic");
    reveal_strlit("apple");
    reveal_strlit("macos");
    reveal_strlit("desktop");
}

/// Every platform's name is lower-case and selects that platform again, but
/// for Apple, whose name selects iOS.
pub proof fn law_platform_name_roundtrip(p: Platform)
    ensures
        ascii_lower(platform_name(p)) == platform_name(p),
        p != Platform::Apple ==> platform_from_name(platform_name(p)) == p,
        platform_from_name(platform_name(Platform::Apple)) == Platform::Ios,
{
    lemma_framework_names();
    let n = platform_name(p);
    assert(ascii_lower(n) =~= n);
}

/// At most one target of a workspace is the default, and it is the first.
pub proof fn law_default_target_first(
    root_path: Seq<char>,
    root: Option<Project>,
    root_has_config: bool,
    children: Seq<ChildProject>,
)
    ensures
        forall|k: int|
            0 <= k < workspace_targets(root_path, root, root_has_config, children).len() ==> ((
            #[trigger] workspace_targets(root_path, root, root_has_config, children)[k]).is_default
                <==> k == 0),
{
    let start = match root {
        Some(p) => if runnable(p, root_has_config) {
            seq![
                TargetView {
                    id: target_slug(p.name@) + "-root"@,
                    name: p.name@,
                    path: root_path,
                    platform: p.detected_platform,
                    framework: framework_name(p.detected_framework),
                    is_default: true,
                },
            ]
        } else {
            Seq::empty()
        },
        None => Seq::empty(),
    };
    assert(start.len() <= 1 && (start.len() == 1 ==> start[0].is_default));
    assert forall|k: int| 0 <= k < start.len() implies ((#[trigger] start[k]).is_default <==> k == 0) by {
        assert(k == 0);
    }
    assert(workspace_targets(root_path, root, root_has_config, children) == add_children(start, children));
    lemma_default_first(start, children);
}

proof fn lemma_default_first(acc: Seq<TargetView>, cs: Seq<ChildProject>)
    requires
        forall|k: int| 0 <= k < acc.len() ==> ((#[trigger] acc[k]).is_default <==> k == 0),
    ensures
        forall|k: int|
            0 <= k < add_children(acc, cs).len() ==> ((#[trigger] add_children(acc, cs)[k]).is_default
                <==> k == 0),
    decreases cs.len(),
{
    if cs.len() > 0 {
        lemma_default_first(acc, cs.drop_last());
    }
}


/// The `package.json` of the markers mentions React Native.
pub open spec fn mentions_react_native(m: ProjectMarkers) -> bool {
    match m.package_json {
        Some(t) => contains(t@, "react-native"@),
        None => false,
    }
}

/// What each marker of a directory without `devflow.toml` makes of it, when
/// no marker before it (Gradle, `Package.swift`, `pubspec.yaml`, a React
/// Native `package.json`, Tauri, `Cargo.toml`, in that order) is there: an
/// Android Kotlin app, a macOS SwiftPM package, an Android Flutter app, an
/// Android React Native app, a Tauri desktop app, a Rust desktop program;
/// and a directory with none of them is generic.
pub proof fn law_markers_decide_kind(m: ProjectMarkers)
    ensures
        m.has_gradle ==> infer_kind(m) == (DetectedFramework::KotlinAndroid, Platform::Android),
        !m.has_gradle && m.has_package_swift ==> infer_kind(m) == (DetectedFramework::SwiftPM, Platform::Macos),
        !m.has_gradle && !m.has_package_swift && m.has_pubspec ==> infer_kind(m) == (
            DetectedFramework::Flutter,
            Platform::Android,
        ),
        !m.has_gradle && !m.has_package_swift && !m.has_pubspec && mentions_react_native(m) ==> infer_kind(m) == (
            DetectedFramework::ReactNative,
            Platform::Android,
        ),
        !m.has_gradle && !m.has_package_swift && !m.has_pubspec && !mentions_react_native(m) && m.has_tauri
            ==> infer_kind(m) == (DetectedFramework::Tauri, Platform::Desktop),
        !m.has_gradle && !m.has_package_swift && !m.has_pubspec && !mentions_react_native(m) && !m.has_tauri
            && m.has_cargo_toml ==> infer_kind(m) == (DetectedFramework::RustCargo, Platform::Desktop),
        !m.has_gradle && !m.has_package_swift && !m.has_pubspec && !mentions_react_native(m) && !m.has_tauri
            && !m.has_cargo_toml ==> infer_kind(m) == (DetectedFramework::Generic, Platform::Generic),
{
}

/// A directory is taken for a desktop program exactly when it is a Tauri or
/// a Rust one, and it stays generic exactly when none of its markers is
/// recognised; a directory holding `Cargo.toml` is never generic.
pub proof fn law_desktop_kinds(m: ProjectMarkers)
    ensures
        (infer_kind(m).1 == Platform::Desktop) <==> (infer_kind(m).0 == DetectedFramework::Tauri || infer_kind(m).0
            == DetectedFramework::RustCargo),
        (infer_kind(m).0 == DetectedFramework::Generic) <==> !(m.has_gradle || m.has_package_swift || m.has_pubspec
            || mentions_react_native(m) || m.has_tauri || m.has_cargo_toml),
        m.has_cargo_toml ==> infer_kind(m).0 != DetectedFramework::Generic && infer_kind(m).1 != Platform::Generic,
{
}

} // verus!
