//! Environment diagnostics: how the outcome of each probe of the toolchain
//! and of the project (a tool run, a file found, a configuration read)
//! becomes a check, and how the checks make a report. Running the probes
//! stays with the caller.
use vstd::prelude::*;
use crate::number::{decimal, to_decimal};
use crate::search::{first_index, lemma_first_from_skip};
use crate::paths::{join, path_join};
use crate::split::{lines, split_lines};
use crate::text::{
    chars_of, concat_str, contains, contains_chars, is_prefix, owned, starts_with, string_of,
    to_lowercase, trim, trim_ws, unicode_lower,
};

verus! {

/// The outcome of one check.
#[derive(Clone, Copy, Debug, PartialEq, Eq, Structural)]
pub enum CheckStatus {
    Passed,
    Warning,
    Failed,
    Skipped,
}

/// One diagnostic check.
#[derive(Debug)]
pub struct DoctorCheck {
    pub name: String,
    pub status: CheckStatus,
    pub message: String,
    pub category: String,
    pub fix_hint: Option<String>,
}

/// The contents of a check.
pub struct CheckView {
    pub name: Seq<char>,
    pub status: CheckStatus,
    pub message: Seq<char>,
    pub category: Seq<char>,
    pub fix_hint: Option<Seq<char>>,
}

/// The contents of a check.
pub open spec fn check_view(c: DoctorCheck) -> CheckView {
    CheckView {
        name: c.name@,
        status: c.status,
        message: c.message@,
        category: c.category@,
        fix_hint: match c.fix_hint {
            Some(h) => Some(h@),
            None => None,
        },
    }
}

/// The contents of a list of checks.
pub open spec fn check_views(s: Seq<DoctorCheck>) -> Seq<CheckView> {
    s.map_values(|c: DoctorCheck| check_view(c))
}

/// A check with the given contents.
pub open spec fn mk(
    name: Seq<char>,
    status: CheckStatus,
    message: Seq<char>,
    category: Seq<char>,
    fix_hint: Option<Seq<char>>,
) -> CheckView {
    CheckView { name, status, message, category, fix_hint }
}

impl DoctorCheck {
    /// A passed check.
    pub fn pass_with_category(name: &str, message: String, category: &str, hint: Option<String>) -> (r: DoctorCheck)
        ensures
            check_view(r) == mk(name@, CheckStatus::Passed, message@, category@, crate::config::opt_text(hint)),
    {
        DoctorCheck { name: owned(name), status: CheckStatus::Passed, message, category: owned(category), fix_hint: hint }
    }

    /// A check that passed with a warning.
    pub fn warn_with_category(name: &str, message: String, category: &str, hint: Option<String>) -> (r: DoctorCheck)
        ensures
            check_view(r) == mk(name@, CheckStatus::Warning, message@, category@, crate::config::opt_text(hint)),
    {
        DoctorCheck { name: owned(name), status: CheckStatus::Warning, message, category: owned(category), fix_hint: hint }
    }

    /// A failed check.
    pub fn fail_with_category(name: &str, message: String, category: &str, hint: Option<String>) -> (r: DoctorCheck)
        ensures
            check_view(r) == mk(name@, CheckStatus::Failed, message@, category@, crate::config::opt_text(hint)),
    {
        DoctorCheck { name: owned(name), status: CheckStatus::Failed, message, category: owned(category), fix_hint: hint }
    }
}

/// How running a tool went.
pub enum ToolRun {
    /// It ran and exited successfully.
    Succeeded { stdout: String, stderr: String },
    /// It ran and exited with a failure.
    Failed { stdout: String, stderr: String },
    /// It could not be started.
    NotFound,
}

/// Whether a tool ran successfully.
pub open spec fn succeeded(r: ToolRun) -> bool {
    r is Succeeded
}

/// The standard output of a successful run.
pub open spec fn out_of(r: ToolRun) -> Seq<char> {
    match r {
        ToolRun::Succeeded { stdout, .. } => stdout@,
        ToolRun::Failed { stdout, .. } => stdout@,
        ToolRun::NotFound => Seq::empty(),
    }
}

/// The first line of `t` trimmed, or `d` trimmed when `t` has no line.
pub open spec fn first_line_or(t: Seq<char>, d: Seq<char>) -> Seq<char> {
    trim(if lines(t).len() > 0 { lines(t)[0] } else { d })
}

/// Whether a line starts with `p`.
pub open spec fn prefixed_by(p: Seq<char>) -> spec_fn(Seq<char>) -> bool {
    |l: Seq<char>| is_prefix(p, l)
}

/// The first line of `t` that starts with `p`, trimmed, or `d` trimmed.
pub open spec fn first_line_with_prefix_or(t: Seq<char>, p: Seq<char>, d: Seq<char>) -> Seq<char> {
    let ls = lines(t);
    trim(
        match first_index(ls, prefixed_by(p)) {
            Some(k) => ls[k],
            None => d,
        },
    )
}

/// The number of lines that contain `a` or `b`.
pub open spec fn count_lines_with(ls: Seq<Seq<char>>, a: Seq<char>, b: Seq<char>) -> nat
    decreases ls.len(),
{
    if ls.len() == 0 {
        0
    } else {
        count_lines_with(ls.drop_last(), a, b) + if contains(ls.last(), a) || contains(ls.last(), b) {
            1nat
        } else {
            0nat
        }
    }
}

/// `s` trimmed.
pub fn trimmed(s: &str) -> (r: String)
    ensures
        r@ == trim(s@),
{
    let c = chars_of(s);
    let t = trim_ws(c.as_slice());
    string_of(t.as_slice())
}

/// The first line of `t` trimmed, or `d` trimmed when `t` has no line.
pub fn first_line_or_default(t: &str, d: &str) -> (r: String)
    ensures
        r@ == first_line_or(t@, d@),
{
    let c = chars_of(t);
    let ls = split_lines(c.as_slice());
    if ls.len() > 0 {
        let f = trim_ws(ls[0].as_slice());
        string_of(f.as_slice())
    } else {
        trimmed(d)
    }
}

/// The first line of `t` that starts with `p`, trimmed, or `d` trimmed.
pub fn first_line_with_prefix(t: &str, p: &str, d: &str) -> (r: String)
    ensures
        r@ == first_line_with_prefix_or(t@, p@, d@),
{
    let c = chars_of(t);
    let pc = chars_of(p);
    let ls = split_lines(c.as_slice());
    let ghost gl = lines(t@);
    let mut i: usize = 0;
    while i < ls.len()
        invariant
            ls@.len() == gl.len(),
            forall|k: int| 0 <= k < ls@.len() ==> #[trigger] ls@[k]@ == gl[k],
            pc@ == p@,
            gl == lines(t@),
            i <= ls@.len(),
            forall|j: int| 0 <= j < i ==> !prefixed_by(p@)(#[trigger] gl[j]),
        decreases ls@.len() - i,
    {
        if starts_with(ls[i].as_slice(), pc.as_slice()) {
            proof {
                assert(prefixed_by(p@)(gl[i as int]));
                lemma_first_from_skip(gl, prefixed_by(p@), i as int);
            }
            let f = trim_ws(ls[i].as_slice());
            return string_of(f.as_slice());
        }
        i = i + 1;
    }
    proof {
        lemma_first_from_skip(gl, prefixed_by(p@), i as int);
    }
    trimmed(d)
}

/// The number of lines of `t` that contain `a` or `b`.
pub fn count_lines_containing(t: &str, a: &str, b: &str) -> (r: usize)
    ensures
        r == count_lines_with(lines(t@), a@, b@),
{
    let c = chars_of(t);
    let ac = chars_of(a);
    let bc = chars_of(b);
    let ls = split_lines(c.as_slice());
    let ghost gl = lines(t@);
    let mut n: usize = 0;
    let mut i: usize = 0;
    while i < ls.len()
        invariant
            ls@.len() == gl.len(),
            forall|k: int| 0 <= k < ls@.len() ==> #[trigger] ls@[k]@ == gl[k],
            ac@ == a@,
            bc@ == b@,
            i <= ls@.len(),
            n <= i,
            n == count_lines_with(gl.take(i as int), a@, b@),
        decreases ls@.len() - i,
    {
        assert(gl.take(i + 1).drop_last() =~= gl.take(i as int));
        if contains_chars(ls[i].as_slice(), ac.as_slice()) || contains_chars(
            ls[i].as_slice(),
            bc.as_slice(),
        ) {
            n = n + 1;
        }
        i = i + 1;
    }
    assert(gl.take(gl.len() as int) =~= gl);
    n
}

/// The category of the Apple checks.
pub open spec fn apple_cat() -> Seq<char> {
    "Apple & Swift Toolchain"@
}

/// The category of the Android checks.
pub open spec fn android_cat() -> Seq<char> {
    "Android & Kotlin / Java"@
}

/// The category of the Rust checks.
pub open spec fn rust_cat() -> Seq<char> {
    "Rust & Tauri Toolchain"@
}

/// The category of the runtime checks.
pub open spec fn web_cat() -> Seq<char> {
    "Core Web & Scripting Runtimes"@
}

/// The category of the project checks.
pub open spec fn ws_cat() -> Seq<char> {
    "Workspace & Project Setup"@
}

/// The hint that points at the full Xcode.
pub open spec fn select_xcode_hint() -> Seq<char> {
    "sudo xcode-select -s /Applications/Xcode.app/Contents/Developer"@
}

/// The check of `xcode-select -p`.
pub open spec fn spec_xcode_dir(r: ToolRun) -> CheckView {
    let dev = trim(out_of(r));
    if !succeeded(r) {
        mk(
            "Xcode Command Line Tools"@,
            CheckStatus::Failed,
            "Command Line Tools / Developer Directory not configured."@,
            apple_cat(),
            Some("xcode-select --install"@),
        )
    } else if contains(dev, "CommandLineTools"@) {
        mk(
            "Xcode Developer Directory"@,
            CheckStatus::Warning,
            "Active path: "@ + dev + " (Command Line Tools)"@,
            apple_cat(),
            Some(
                "sudo xcode-select -s /Applications/Xcode.app/Contents/Developer (if targeting iOS Simulator)"@,
            ),
        )
    } else {
        mk("Xcode Developer Directory"@, CheckStatus::Passed, "Active path: "@ + dev, apple_cat(), Some(dev))
    }
}

/// Checks the developer directory `xcode-select -p` printed.
pub fn xcode_dir_check(r: &ToolRun) -> (c: DoctorCheck)
    ensures
        check_view(c) == spec_xcode_dir(*r),
{
    match r {
        ToolRun::Succeeded { stdout, .. } => {
            let dev = trimmed(stdout.as_str());
            let dc = chars_of(dev.as_str());
            let clt = chars_of("CommandLineTools");
            if contains_chars(dc.as_slice(), clt.as_slice()) {
                let m1 = concat_str("Active path: ", dev.as_str());
                DoctorCheck::warn_with_category(
                    "Xcode Developer Directory",
                    concat_str(m1.as_str(), " (Command Line Tools)"),
                    "Apple & Swift Toolchain",
                    Some(
                        owned(
                            "sudo xcode-select -s /Applications/Xcode.app/Contents/Developer (if targeting iOS Simulator)",
                        ),
                    ),
                )
            } else {
                DoctorCheck::pass_with_category(
                    "Xcode Developer Directory",
                    concat_str("Active path: ", dev.as_str()),
                    "Apple & Swift Toolchain",
                    Some(dev),
                )
            }
        },
        _ => DoctorCheck::fail_with_category(
            "Xcode Command Line Tools",
            owned("Command Line Tools / Developer Directory not configured."),
            "Apple & Swift Toolchain",
            Some(owned("xcode-select --install")),
        ),
    }
}

/// The check of `swift --version`.
pub open spec fn spec_swift(r: ToolRun) -> CheckView {
    let ver = first_line_or(out_of(r), "Swift installed"@);
    if succeeded(r) {
        mk("Swift Compiler & Toolchain"@, CheckStatus::Passed, ver, apple_cat(), Some(ver))
    } else {
        mk(
            "Swift Compiler"@,
            CheckStatus::Failed,
            "swift binary not found in system PATH."@,
            apple_cat(),
            Some("xcode-select --install"@),
        )
    }
}

/// Checks the Swift compiler.
pub fn swift_check(r: &ToolRun) -> (c: DoctorCheck)
    ensures
        check_view(c) == spec_swift(*r),
{
    match r {
        ToolRun::Succeeded { stdout, .. } => {
            let ver = first_line_or_default(stdout.as_str(), "Swift installed");
            let v2 = owned(ver.as_str());
            DoctorCheck::pass_with_category("Swift Compiler & Toolchain", ver, "Apple & Swift Toolchain", Some(v2))
        },
        _ => DoctorCheck::fail_with_category(
            "Swift Compiler",
            owned("swift binary not found in system PATH."),
            "Apple & Swift Toolchain",
            Some(owned("xcode-select --install")),
        ),
    }
}

/// The check of the macOS SDK path.
pub open spec fn spec_sdk(r: ToolRun) -> CheckView {
    let sdk = trim(out_of(r));
    if succeeded(r) {
        mk("macOS SDK"@, CheckStatus::Passed, "SDK Path: "@ + sdk, apple_cat(), Some(sdk))
    } else {
        mk(
            "macOS SDK"@,
            CheckStatus::Warning,
            "Unable to resolve macOS SDK path via xcrun."@,
            apple_cat(),
            Some("xcode-select --install"@),
        )
    }
}

/// Checks the macOS SDK path `xcrun` printed.
pub fn sdk_check(r: &ToolRun) -> (c: DoctorCheck)
    ensures
        check_view(c) == spec_sdk(*r),
{
    match r {
        ToolRun::Succeeded { stdout, .. } => {
            let sdk = trimmed(stdout.as_str());
            DoctorCheck::pass_with_category(
                "macOS SDK",
                concat_str("SDK Path: ", sdk.as_str()),
                "Apple & Swift Toolchain",
                Some(sdk),
            )
        },
        _ => DoctorCheck::warn_with_category(
            "macOS SDK",
            owned("Unable to resolve macOS SDK path via xcrun."),
            "Apple & Swift Toolchain",
            Some(owned("xcode-select --install")),
        ),
    }
}

/// The check of Xcode.app: `None` when it is not installed, else how
/// `xcodebuild -version` ran.
pub open spec fn spec_xcode_app(r: Option<ToolRun>) -> CheckView {
    match r {
        None => mk(
            "Xcode.app (iOS Simulator)"@,
            CheckStatus::Warning,
            "Xcode.app not found in /Applications (Optional for macOS CLI, required for iOS/iPadOS Simulator)."@,
            apple_cat(),
            Some("Install Xcode from the Mac App Store"@),
        ),
        Some(ToolRun::Succeeded { stdout, .. }) => {
            let ver = first_line_or(stdout@, "Xcode installed"@);
            mk("Xcode.app & License"@, CheckStatus::Passed, "Installed ("@ + ver + ")"@, apple_cat(), Some(ver))
        },
        Some(ToolRun::Failed { stderr, .. }) => if contains(unicode_lower(stderr@), "license"@) {
            mk(
                "Xcode.app License"@,
                CheckStatus::Failed,
                "Xcode license agreement has not been accepted."@,
                apple_cat(),
                Some("sudo xcodebuild -license accept"@),
            )
        } else {
            mk(
                "Xcode.app"@,
                CheckStatus::Warning,
                "xcodebuild returned error: "@ + trim(stderr@),
                apple_cat(),
                Some(select_xcode_hint()),
            )
        },
        Some(ToolRun::NotFound) => mk(
            "Xcode.app"@,
            CheckStatus::Warning,
            "Xcode.app found in /Applications but xcodebuild failed to run."@,
            apple_cat(),
            Some(select_xcode_hint()),
        ),
    }
}

/// Checks Xcode.app and its license.
pub fn xcode_app_check(r: &Option<ToolRun>) -> (c: DoctorCheck)
    ensures
        check_view(c) == spec_xcode_app(*r),
{
    match r {
        None => DoctorCheck::warn_with_category(
            "Xcode.app (iOS Simulator)",
            owned(
                "Xcode.app not found in /Applications (Optional for macOS CLI, required for iOS/iPadOS Simulator).",
            ),
            "Apple & Swift Toolchain",
            Some(owned("Install Xcode from the Mac App Store")),
        ),
        Some(ToolRun::Succeeded { stdout, .. }) => {
            let ver = first_line_or_default(stdout.as_str(), "Xcode installed");
            let m1 = concat_str("Installed (", ver.as_str());
            DoctorCheck::pass_with_category(
                "Xcode.app & License",
                concat_str(m1.as_str(), ")"),
                "Apple & Swift Toolchain",
                Some(ver),
            )
        },
        Some(ToolRun::Failed { stderr, .. }) => {
            let lower = to_lowercase(stderr.as_str());
            let lc = chars_of(lower.as_str());
            let lic = chars_of("license");
            if contains_chars(lc.as_slice(), lic.as_slice()) {
                DoctorCheck::fail_with_category(
                    "Xcode.app License",
                    owned("Xcode license agreement has not been accepted."),
                    "Apple & Swift Toolchain",
                    Some(owned("sudo xcodebuild -license accept")),
                )
            } else {
                let t = trimmed(stderr.as_str());
                DoctorCheck::warn_with_category(
                    "Xcode.app",
                    concat_str("xcodebuild returned error: ", t.as_str()),
                    "Apple & Swift Toolchain",
                    Some(owned("sudo xcode-select -s /Applications/Xcode.app/Contents/Developer")),
                )
            }
        },
        Some(ToolRun::NotFound) => DoctorCheck::warn_with_category(
            "Xcode.app",
            owned("Xcode.app found in /Applications but xcodebuild failed to run."),
            "Apple & Swift Toolchain",
            Some(owned("sudo xcode-select -s /Applications/Xcode.app/Contents/Developer")),
        ),
    }
}

/// The check of `xcrun simctl list devices available`.
pub open spec fn spec_simctl(r: ToolRun) -> CheckView {
    if succeeded(r) {
        mk(
            "Apple Simulator Control (simctl)"@,
            CheckStatus::Passed,
            "Available ("@ + decimal(count_lines_with(lines(out_of(r)), "Booted"@, "Shutdown"@))
                + " simulator devices discovered)"@,
            apple_cat(),
            None,
        )
    } else {
        mk(
            "Apple Simulator Control (simctl)"@,
            CheckStatus::Warning,
            "simctl not operational. Xcode.app is required for simulator control."@,
            apple_cat(),
            Some(select_xcode_hint()),
        )
    }
}

/// Checks simulator control, counting the simulators it listed.
pub fn simctl_check(r: &ToolRun) -> (c: DoctorCheck)
    ensures
        check_view(c) == spec_simctl(*r),
{
    match r {
        ToolRun::Succeeded { stdout, .. } => {
            let n = count_lines_containing(stdout.as_str(), "Booted", "Shutdown");
            let d = to_decimal(n as u64);
            let ds = string_of(d.as_slice());
            let m1 = concat_str("Available (", ds.as_str());
            DoctorCheck::pass_with_category(
                "Apple Simulator Control (simctl)",
                concat_str(m1.as_str(), " simulator devices discovered)"),
                "Apple & Swift Toolchain",
                None,
            )
        },
        _ => DoctorCheck::warn_with_category(
            "Apple Simulator Control (simctl)",
            owned("simctl not operational. Xcode.app is required for simulator control."),
            "Apple & Swift Toolchain",
            Some(owned("sudo xcode-select -s /Applications/Xcode.app/Contents/Developer")),
        ),
    }
}

/// The Apple section on a host that is not macOS.
pub open spec fn spec_apple_skipped() -> CheckView {
    mk(
        "Apple & Swift Toolchain"@,
        CheckStatus::Passed,
        "Skipped (non-macOS host platform)"@,
        apple_cat(),
        None,
    )
}

/// The Apple section on a host that is not macOS.
pub fn apple_skipped_check() -> (c: DoctorCheck)
    ensures
        check_view(c) == spec_apple_skipped(),
{
    DoctorCheck::pass_with_category(
        "Apple & Swift Toolchain",
        owned("Skipped (non-macOS host platform)"),
        "Apple & Swift Toolchain",
        None,
    )
}

/// The check of `javac -version`, with `JAVA_HOME` when it is set. javac
/// prints its version on standard error when standard output is blank.
pub open spec fn spec_java(r: ToolRun, java_home: Option<Seq<char>>) -> CheckView {
    match r {
        ToolRun::Succeeded { stdout, stderr } => {
            let src = if trim(stdout@).len() > 0 { stdout@ } else { stderr@ };
            let ver = first_line_or(src, "javac installed"@);
            let extra = match java_home {
                Some(jh) => " ("@ + ver + ", JAVA_HOME="@ + jh + ")"@,
                None => " ("@ + ver + ")"@,
            };
            mk("Java Development Kit (JDK)"@, CheckStatus::Passed, "Operational"@ + extra, android_cat(), Some(ver))
        },
        _ => match java_home {
            Some(jh) => mk(
                "Java Development Kit (JDK)"@,
                CheckStatus::Warning,
                "JAVA_HOME is set ("@ + jh + ") but javac is not accessible in PATH."@,
                android_cat(),
                Some("export PATH=$JAVA_HOME/bin:$PATH"@),
            ),
            None => mk(
                "Java Development Kit (JDK 17+)"@,
                CheckStatus::Warning,
                "JDK compiler (javac) not found. Required for Kotlin and Android Gradle builds."@,
                android_cat(),
                Some("brew install openjdk@17 && export JAVA_HOME=$(/usr/libexec/java_home -v 17)"@),
            ),
        },
    }
}

/// Checks the Java compiler and `JAVA_HOME`.
pub fn java_check(r: &ToolRun, java_home: &Option<String>) -> (c: DoctorCheck)
    ensures
        check_view(c) == spec_java(*r, crate::config::opt_text(*java_home)),
{
    match r {
        ToolRun::Succeeded { stdout, stderr } => {
            let t = trimmed(stdout.as_str());
            let src = if t.as_str().unicode_len() > 0 { stdout } else { stderr };
            let ver = first_line_or_default(src.as_str(), "javac installed");
            let open = concat_str(" (", ver.as_str());
            let extra = match java_home {
                Some(jh) => {
                    let a = concat_str(open.as_str(), ", JAVA_HOME=");
                    let b = concat_str(a.as_str(), jh.as_str());
                    concat_str(b.as_str(), ")")
                },
                None => concat_str(open.as_str(), ")"),
            };
            DoctorCheck::pass_with_category(
                "Java Development Kit (JDK)",
                concat_str("Operational", extra.as_str()),
                "Android & Kotlin / Java",
                Some(ver),
            )
        },
        _ => match java_home {
            Some(jh) => {
                let a = concat_str("JAVA_HOME is set (", jh.as_str());
                DoctorCheck::warn_with_category(
                    "Java Development Kit (JDK)",
                    concat_str(a.as_str(), ") but javac is not accessible in PATH."),
                    "Android & Kotlin / Java",
                    Some(owned("export PATH=$JAVA_HOME/bin:$PATH")),
                )
            },
            None => DoctorCheck::warn_with_category(
                "Java Development Kit (JDK 17+)",
                owned("JDK compiler (javac) not found. Required for Kotlin and Android Gradle builds."),
                "Android & Kotlin / Java",
                Some(owned("brew install openjdk@17 && export JAVA_HOME=$(/usr/libexec/java_home -v 17)")),
            ),
        },
    }
}

/// The places looked at for the Android SDK, in order: `ANDROID_HOME`,
/// `ANDROID_SDK_ROOT`, then under the home directory `Library/Android/sdk`
/// and `Android/Sdk`.
pub open spec fn spec_sdk_candidates(
    android_home: Option<Seq<char>>,
    sdk_root: Option<Seq<char>>,
    home: Option<Seq<char>>,
) -> Seq<Seq<char>> {
    let a = match android_home {
        Some(p) => seq![p],
        None => Seq::empty(),
    };
    let b = match sdk_root {
        Some(p) => seq![p],
        None => Seq::empty(),
    };
    let c = match home {
        Some(h) => seq![path_join(h, "Library/Android/sdk"@), path_join(h, "Android/Sdk"@)],
        None => Seq::empty(),
    };
    a + b + c
}

/// The places looked at for the Android SDK (see `spec_sdk_candidates`).
pub fn android_sdk_candidates(
    android_home: &Option<String>,
    sdk_root: &Option<String>,
    home: &Option<String>,
) -> (r: Vec<String>)
    ensures
        crate::config::strs(r@) == spec_sdk_candidates(
            crate::config::opt_text(*android_home),
            crate::config::opt_text(*sdk_root),
            crate::config::opt_text(*home),
        ),
{
    let mut r: Vec<String> = Vec::new();
    if let Some(p) = android_home {
        r.push(owned(p.as_str()));
    }
    if let Some(p) = sdk_root {
        r.push(owned(p.as_str()));
    }
    if let Some(h) = home {
        r.push(join(h.as_str(), "Library/Android/sdk"));
        r.push(join(h.as_str(), "Android/Sdk"));
    }
    assert(crate::config::strs(r@) =~= spec_sdk_candidates(
        crate::config::opt_text(*android_home),
        crate::config::opt_text(*sdk_root),
        crate::config::opt_text(*home),
    ));
    r
}

/// The check of the Android SDK directory found, if any.
pub open spec fn spec_android_sdk(found: Option<Seq<char>>) -> CheckView {
    match found {
        Some(p) => mk("Android SDK Directory"@, CheckStatus::Passed, "Location: "@ + p, android_cat(), Some(p)),
        None => mk(
            "Android SDK Directory"@,
            CheckStatus::Warning,
            "Android SDK directory not found in ANDROID_HOME or standard paths."@,
            android_cat(),
            Some("export ANDROID_HOME=$HOME/Library/Android/sdk"@),
        ),
    }
}

/// Checks the Android SDK directory found, if any.
pub fn android_sdk_check(found: &Option<String>) -> (c: DoctorCheck)
    ensures
        check_view(c) == spec_android_sdk(crate::config::opt_text(*found)),
{
    match found {
        Some(p) => DoctorCheck::pass_with_category(
            "Android SDK Directory",
            concat_str("Location: ", p.as_str()),
            "Android & Kotlin / Java",
            Some(owned(p.as_str())),
        ),
        None => DoctorCheck::warn_with_category(
            "Android SDK Directory",
            owned("Android SDK directory not found in ANDROID_HOME or standard paths."),
            "Android & Kotlin / Java",
            Some(owned("export ANDROID_HOME=$HOME/Library/Android/sdk")),
        ),
    }
}

/// A check built from a version: passed with it as message and hint when
/// the tool ran, else the given fallback.
pub open spec fn version_or(r: ToolRun, name: Seq<char>, ver: Seq<char>, cat: Seq<char>, fallback: CheckView) -> CheckView {
    if succeeded(r) {
        mk(name, CheckStatus::Passed, ver, cat, Some(ver))
    } else {
        fallback
    }
}

/// The check of `adb version`.
pub open spec fn spec_adb(r: ToolRun) -> CheckView {
    version_or(
        r,
        "Android Debug Bridge (adb)"@,
        first_line_or(out_of(r), "adb operational"@),
        android_cat(),
        mk(
            "Android Debug Bridge (adb)"@,
            CheckStatus::Warning,
            "adb command not found in PATH."@,
            android_cat(),
            Some("export PATH=$PATH:$ANDROID_HOME/platform-tools"@),
        ),
    )
}

/// Checks the Android Debug Bridge.
pub fn adb_check(r: &ToolRun) -> (c: DoctorCheck)
    ensures
        check_view(c) == spec_adb(*r),
{
    match r {
        ToolRun::Succeeded { stdout, .. } => {
            let ver = first_line_or_default(stdout.as_str(), "adb operational");
            let v2 = owned(ver.as_str());
            DoctorCheck::pass_with_category("Android Debug Bridge (adb)", ver, "Android & Kotlin / Java", Some(v2))
        },
        _ => DoctorCheck::warn_with_category(
            "Android Debug Bridge (adb)",
            owned("adb command not found in PATH."),
            "Android & Kotlin / Java",
            Some(owned("export PATH=$PATH:$ANDROID_HOME/platform-tools")),
        ),
    }
}

/// The check of `gradle --version`: its line that starts with `Gradle `.
pub open spec fn spec_gradle(r: ToolRun) -> CheckView {
    version_or(
        r,
        "Gradle (System)"@,
        first_line_with_prefix_or(out_of(r), "Gradle "@, "Gradle installed"@),
        android_cat(),
        mk(
            "Gradle (System / Wrapper)"@,
            CheckStatus::Passed,
            "System gradle not in PATH (Projects can use ./gradlew wrapper)"@,
            android_cat(),
            None,
        ),
    )
}

/// Checks the system Gradle.
pub fn gradle_check(r: &ToolRun) -> (c: DoctorCheck)
    ensures
        check_view(c) == spec_gradle(*r),
{
    match r {
        ToolRun::Succeeded { stdout, .. } => {
            let ver = first_line_with_prefix(stdout.as_str(), "Gradle ", "Gradle installed");
            let v2 = owned(ver.as_str());
            DoctorCheck::pass_with_category("Gradle (System)", ver, "Android & Kotlin / Java", Some(v2))
        },
        _ => DoctorCheck::pass_with_category(
            "Gradle (System / Wrapper)",
            owned("System gradle not in PATH (Projects can use ./gradlew wrapper)"),
            "Android & Kotlin / Java",
            None,
        ),
    }
}

/// The check of `cargo --version`.
pub open spec fn spec_cargo(r: ToolRun) -> CheckView {
    version_or(
        r,
        "Cargo (Rust Toolchain)"@,
        trim(out_of(r)),
        rust_cat(),
        mk(
            "Cargo (Rust Toolchain)"@,
            CheckStatus::Failed,
            "Cargo / rustc not found in PATH."@,
            rust_cat(),
            Some("curl --proto '=https' --tlsv1.2 -sSf https://sh.rustup.rs | sh"@),
        ),
    )
}

/// Checks Cargo.
pub fn cargo_check(r: &ToolRun) -> (c: DoctorCheck)
    ensures
        check_view(c) == spec_cargo(*r),
{
    match r {
        ToolRun::Succeeded { stdout, .. } => {
            let ver = trimmed(stdout.as_str());
            let v2 = owned(ver.as_str());
            DoctorCheck::pass_with_category("Cargo (Rust Toolchain)", ver, "Rust & Tauri Toolchain", Some(v2))
        },
        _ => DoctorCheck::fail_with_category(
            "Cargo (Rust Toolchain)",
            owned("Cargo / rustc not found in PATH."),
            "Rust & Tauri Toolchain",
            Some(owned("curl --proto '=https' --tlsv1.2 -sSf https://sh.rustup.rs | sh")),
        ),
    }
}

/// The check of `cc --version`.
pub open spec fn spec_cc(r: ToolRun) -> CheckView {
    version_or(
        r,
        "C/C++ Compiler & Linker (cc)"@,
        first_line_or(out_of(r), "C Linker installed"@),
        rust_cat(),
        mk(
            "C/C++ Compiler & Linker (cc)"@,
            CheckStatus::Failed,
            "Native C compiler / linker not found. Required by Rust native crates."@,
            rust_cat(),
            Some("xcode-select --install (macOS) or sudo apt install build-essential (Linux)"@),
        ),
    )
}

/// Checks the C compiler and linker.
pub fn cc_check(r: &ToolRun) -> (c: DoctorCheck)
    ensures
        check_view(c) == spec_cc(*r),
{
    match r {
        ToolRun::Succeeded { stdout, .. } => {
            let ver = first_line_or_default(stdout.as_str(), "C Linker installed");
            let v2 = owned(ver.as_str());
            DoctorCheck::pass_with_category("C/C++ Compiler & Linker (cc)", ver, "Rust & Tauri Toolchain", Some(v2))
        },
        _ => DoctorCheck::fail_with_category(
            "C/C++ Compiler & Linker (cc)",
            owned("Native C compiler / linker not found. Required by Rust native crates."),
            "Rust & Tauri Toolchain",
            Some(owned("xcode-select --install (macOS) or sudo apt install build-essential (Linux)")),
        ),
    }
}

/// The check of `pkg-config --version`.
pub open spec fn spec_pkg_config(r: ToolRun) -> CheckView {
    let ver = trim(out_of(r));
    if succeeded(r) {
        mk("pkg-config Tool"@, CheckStatus::Passed, "Installed (v"@ + ver + ")"@, rust_cat(), Some(ver))
    } else {
        mk(
            "pkg-config Tool"@,
            CheckStatus::Warning,
            "pkg-config not found. Some native Rust dependencies may fail to build."@,
            rust_cat(),
            Some("brew install pkg-config"@),
        )
    }
}

/// Checks pkg-config.
pub fn pkg_config_check(r: &ToolRun) -> (c: DoctorCheck)
    ensures
        check_view(c) == spec_pkg_config(*r),
{
    match r {
        ToolRun::Succeeded { stdout, .. } => {
            let ver = trimmed(stdout.as_str());
            let m1 = concat_str("Installed (v", ver.as_str());
            DoctorCheck::pass_with_category(
                "pkg-config Tool",
                concat_str(m1.as_str(), ")"),
                "Rust & Tauri Toolchain",
                Some(ver),
            )
        },
        _ => DoctorCheck::warn_with_category(
            "pkg-config Tool",
            owned("pkg-config not found. Some native Rust dependencies may fail to build."),
            "Rust & Tauri Toolchain",
            Some(owned("brew install pkg-config")),
        ),
    }
}

/// The check of `cargo tauri --version`.
pub open spec fn spec_tauri_cli(r: ToolRun) -> CheckView {
    version_or(
        r,
        "Tauri CLI (cargo-tauri)"@,
        trim(out_of(r)),
        rust_cat(),
        mk(
            "Tauri CLI"@,
            CheckStatus::Passed,
            "cargo-tauri not installed globally (Projects can run via npx @tauri-apps/cli)"@,
            rust_cat(),
            None,
        ),
    )
}

/// Checks the Tauri command-line tool.
pub fn tauri_cli_check(r: &ToolRun) -> (c: DoctorCheck)
    ensures
        check_view(c) == spec_tauri_cli(*r),
{
    match r {
        ToolRun::Succeeded { stdout, .. } => {
            let ver = trimmed(stdout.as_str());
            let v2 = owned(ver.as_str());
            DoctorCheck::pass_with_category("Tauri CLI (cargo-tauri)", ver, "Rust & Tauri Toolchain", Some(v2))
        },
        _ => DoctorCheck::pass_with_category(
            "Tauri CLI",
            owned("cargo-tauri not installed globally (Projects can run via npx @tauri-apps/cli)"),
            "Rust & Tauri Toolchain",
            None,
        ),
    }
}

/// The check of a tool run with `--version`: passed with its first line;
/// when it failed or is missing, failed if it is required, else a warning.
pub open spec fn spec_tool(bin: Seq<char>, display: Seq<char>, cat: Seq<char>, required: bool, r: ToolRun) -> CheckView {
    match r {
        ToolRun::Succeeded { stdout, .. } => {
            let first = first_line_or(stdout@, "Installed"@);
            mk(display, CheckStatus::Passed, first, cat, Some(first))
        },
        ToolRun::Failed { stderr, .. } => if required {
            mk(
                display,
                CheckStatus::Failed,
                "Tool '"@ + bin + "' failed: "@ + trim(stderr@),
                cat,
                Some("Ensure '"@ + bin + "' is properly installed and accessible in PATH."@),
            )
        } else {
            mk(
                display,
                CheckStatus::Warning,
                "Tool '"@ + bin + "' returned non-zero exit code."@,
                cat,
                Some("Optional for generic projects, required for native "@ + bin + " builds."@),
            )
        },
        ToolRun::NotFound => if required {
            mk(
                display,
                CheckStatus::Failed,
                "'"@ + bin + "' not found in PATH"@,
                cat,
                Some("Please install '"@ + bin + "' and add it to your system PATH."@),
            )
        } else {
            mk(
                display,
                CheckStatus::Warning,
                "'"@ + bin + "' not found (optional)"@,
                cat,
                Some("Install '"@ + bin + "' if building "@ + bin + " projects."@),
            )
        },
    }
}

/// `a`, `b` and `c` one after another.
fn cat3(a: &str, b: &str, c: &str) -> (r: String)
    ensures
        r@ == a@ + b@ + c@,
{
    let ab = concat_str(a, b);
    concat_str(ab.as_str(), c)
}

impl DoctorEngine {
    /// Checks a tool by how it ran.
    pub fn check_tool_with_category(bin: &str, display_name: &str, category: &str, required: bool, r: &ToolRun) -> (c: DoctorCheck)
        ensures
            check_view(c) == spec_tool(bin@, display_name@, category@, required, *r),
    {
        match r {
            ToolRun::Succeeded { stdout, .. } => {
                let first = first_line_or_default(stdout.as_str(), "Installed");
                let f2 = owned(first.as_str());
                DoctorCheck::pass_with_category(display_name, first, category, Some(f2))
            },
            ToolRun::Failed { stderr, .. } => {
                if required {
                    let t = trimmed(stderr.as_str());
                    let m1 = cat3("Tool '", bin, "' failed: ");
                    DoctorCheck::fail_with_category(
                        display_name,
                        concat_str(m1.as_str(), t.as_str()),
                        category,
                        Some(cat3("Ensure '", bin, "' is properly installed and accessible in PATH.")),
                    )
                } else {
                    let h1 = concat_str("Optional for generic projects, required for native ", bin);
                    DoctorCheck::warn_with_category(
                        display_name,
                        cat3("Tool '", bin, "' returned non-zero exit code."),
                        category,
                        Some(concat_str(h1.as_str(), " builds.")),
                    )
                }
            },
            ToolRun::NotFound => {
                if required {
                    DoctorCheck::fail_with_category(
                        display_name,
                        cat3("'", bin, "' not found in PATH"),
                        category,
                        Some(cat3("Please install '", bin, "' and add it to your system PATH.")),
                    )
                } else {
                    let h1 = cat3("Install '", bin, "' if building ");
                    DoctorCheck::warn_with_category(
                        display_name,
                        cat3("'", bin, "' not found (optional)"),
                        category,
                        Some(cat3(h1.as_str(), bin, " projects.")),
                    )
                }
            },
        }
    }
}

/// What reading the project's `devflow.toml` gave.
pub enum ConfigProbe {
    /// There is no `devflow.toml`.
    Missing,
    /// It was read; its platform and framework names.
    Valid { platform: String, framework: String },
    /// It could not be read or parsed; the error text.
    Invalid(String),
}

/// The check of the project configuration.
pub open spec fn spec_config(p: ConfigProbe) -> CheckView {
    match p {
        ConfigProbe::Missing => mk(
            "devflow.toml Configuration"@,
            CheckStatus::Warning,
            "No devflow.toml found in project root (DevFlow auto-detection active)."@,
            ws_cat(),
            Some("Run 'devflow init' to scaffold custom project settings."@),
        ),
        ConfigProbe::Valid { platform, framework } => mk(
            "devflow.toml Configuration"@,
            CheckStatus::Passed,
            "Valid configuration (platform: "@ + platform@ + ", framework: "@ + framework@ + ")"@,
            ws_cat(),
            None,
        ),
        ConfigProbe::Invalid(e) => mk(
            "devflow.toml Configuration"@,
            CheckStatus::Failed,
            "Invalid configuration: "@ + e@,
            ws_cat(),
            Some("Check devflow.toml syntax and schema."@),
        ),
    }
}

/// Checks the project configuration.
pub fn config_check(p: &ConfigProbe) -> (c: DoctorCheck)
    ensures
        check_view(c) == spec_config(*p),
{
    match p {
        ConfigProbe::Missing => DoctorCheck::warn_with_category(
            "devflow.toml Configuration",
            owned("No devflow.toml found in project root (DevFlow auto-detection active)."),
            "Workspace & Project Setup",
            Some(owned("Run 'devflow init' to scaffold custom project settings.")),
        ),
        ConfigProbe::Valid { platform, framework } => {
            let m1 = cat3("Valid configuration (platform: ", platform.as_str(), ", framework: ");
            DoctorCheck::pass_with_category(
                "devflow.toml Configuration",
                cat3(m1.as_str(), framework.as_str(), ")"),
                "Workspace & Project Setup",
                None,
            )
        },
        ConfigProbe::Invalid(e) => DoctorCheck::fail_with_category(
            "devflow.toml Configuration",
            concat_str("Invalid configuration: ", e.as_str()),
            "Workspace & Project Setup",
            Some(owned("Check devflow.toml syntax and schema.")),
        ),
    }
}

/// The Gradle wrapper found first (`gradlew`, then `android/gradlew`)
/// whose permissions could be read.
pub struct GradlewProbe {
    /// Its file name.
    pub file_name: String,
    /// Its path.
    pub display: String,
    /// Whether anyone may execute it.
    pub executable: bool,
}

/// The check of the Gradle wrapper's permissions.
pub open spec fn spec_gradlew(g: GradlewProbe) -> CheckView {
    if g.executable {
        mk(
            "Gradle Wrapper Permissions"@,
            CheckStatus::Passed,
            "Executable permissions verified for "@ + g.file_name@,
            ws_cat(),
            None,
        )
    } else {
        mk(
            "Gradle Wrapper Permissions"@,
            CheckStatus::Failed,
            g.display@ + " lacks execute (+x) permissions."@,
            ws_cat(),
            Some("chmod +x "@ + g.display@),
        )
    }
}

/// Checks the Gradle wrapper's permissions.
pub fn gradlew_check(g: &GradlewProbe) -> (c: DoctorCheck)
    ensures
        check_view(c) == spec_gradlew(*g),
{
    if g.executable {
        DoctorCheck::pass_with_category(
            "Gradle Wrapper Permissions",
            concat_str("Executable permissions verified for ", g.file_name.as_str()),
            "Workspace & Project Setup",
            None,
        )
    } else {
        DoctorCheck::fail_with_category(
            "Gradle Wrapper Permissions",
            concat_str(g.display.as_str(), " lacks execute (+x) permissions."),
            "Workspace & Project Setup",
            Some(concat_str("chmod +x ", g.display.as_str())),
        )
    }
}

/// The check of a Swift package manifest at the project root.
pub open spec fn spec_package_swift() -> CheckView {
    mk(
        "Swift Package Manifest"@,
        CheckStatus::Passed,
        "Package.swift detected in workspace root."@,
        ws_cat(),
        None,
    )
}

/// The check of a Swift package manifest at the project root.
pub fn package_swift_check() -> (c: DoctorCheck)
    ensures
        check_view(c) == spec_package_swift(),
{
    DoctorCheck::pass_with_category(
        "Swift Package Manifest",
        owned("Package.swift detected in workspace root."),
        "Workspace & Project Setup",
        None,
    )
}

/// What the Apple probes found on a macOS host.
pub struct AppleProbes {
    /// `xcode-select -p`.
    pub xcode_select: ToolRun,
    /// `swift --version`.
    pub swift: ToolRun,
    /// `xcrun --show-sdk-path --sdk macosx`.
    pub sdk: ToolRun,
    /// `xcrun xcodebuild -version`, when `/Applications/Xcode.app` exists.
    pub xcodebuild: Option<ToolRun>,
    /// `xcrun simctl list devices available`.
    pub simctl: ToolRun,
}

/// Everything the diagnostics look at, as the caller found it.
pub struct DoctorProbes {
    /// The Apple probes; `None` on a host that is not macOS.
    pub apple: Option<AppleProbes>,
    /// `javac -version`.
    pub javac: ToolRun,
    /// `JAVA_HOME`.
    pub java_home: Option<String>,
    /// The first of `android_sdk_candidates` that is a directory.
    pub android_sdk: Option<String>,
    /// `adb version`.
    pub adb: ToolRun,
    /// `gradle --version`.
    pub gradle: ToolRun,
    /// `cargo --version`.
    pub cargo: ToolRun,
    /// `cc --version`.
    pub cc: ToolRun,
    /// `pkg-config --version`.
    pub pkg_config: ToolRun,
    /// `cargo tauri --version`.
    pub tauri: ToolRun,
    /// `node --version`.
    pub node: ToolRun,
    /// `bun --version`.
    pub bun: ToolRun,
    /// `flutter --version`.
    pub flutter: ToolRun,
    /// The project's `devflow.toml`.
    pub config: ConfigProbe,
    /// The Gradle wrapper, when one was found and its permissions read.
    pub gradlew: Option<GradlewProbe>,
    /// Whether `Package.swift` exists at the project root.
    pub package_swift: bool,
}

/// The checks of the Apple section.
pub open spec fn spec_apple_checks(a: Option<AppleProbes>) -> Seq<CheckView> {
    match a {
        Some(p) => seq![
            spec_xcode_dir(p.xcode_select),
            spec_swift(p.swift),
            spec_sdk(p.sdk),
            spec_xcode_app(p.xcodebuild),
            spec_simctl(p.simctl),
        ],
        None => seq![spec_apple_skipped()],
    }
}

/// All checks, in the order they are made: the Apple section, Android,
/// Rust, the runtimes, then the project.
pub open spec fn spec_checks(p: DoctorProbes) -> Seq<CheckView> {
    spec_apple_checks(p.apple) + seq![
        spec_java(p.javac, crate::config::opt_text(p.java_home)),
        spec_android_sdk(crate::config::opt_text(p.android_sdk)),
        spec_adb(p.adb),
        spec_gradle(p.gradle),
        spec_cargo(p.cargo),
        spec_cc(p.cc),
        spec_pkg_config(p.pkg_config),
        spec_tauri_cli(p.tauri),
        spec_tool("node"@, "Node.js Runtime"@, web_cat(), false, p.node),
        spec_tool("bun"@, "Bun Runtime"@, web_cat(), false, p.bun),
        spec_tool("flutter"@, "Flutter SDK"@, web_cat(), false, p.flutter),
        spec_config(p.config),
    ] + match p.gradlew {
        Some(g) => seq![spec_gradlew(g)],
        None => Seq::empty(),
    } + if p.package_swift {
        seq![spec_package_swift()]
    } else {
        Seq::empty()
    }
}

/// The checks that the probes give (see `spec_checks`).
pub fn diagnostics_checks(p: &DoctorProbes) -> (r: Vec<DoctorCheck>)
    ensures
        check_views(r@) == spec_checks(*p),
{
    let mut v: Vec<DoctorCheck> = Vec::new();
    match &p.apple {
        Some(a) => {
            v.push(xcode_dir_check(&a.xcode_select));
            v.push(swift_check(&a.swift));
            v.push(sdk_check(&a.sdk));
            v.push(xcode_app_check(&a.xcodebuild));
            v.push(simctl_check(&a.simctl));
        },
        None => {
            v.push(apple_skipped_check());
        },
    }
    assert(check_views(v@) =~= spec_apple_checks(p.apple));
    let ghost k0 = v@.len();
    v.push(java_check(&p.javac, &p.java_home));
    v.push(android_sdk_check(&p.android_sdk));
    v.push(adb_check(&p.adb));
    v.push(gradle_check(&p.gradle));
    v.push(cargo_check(&p.cargo));
    v.push(cc_check(&p.cc));
    v.push(pkg_config_check(&p.pkg_config));
    v.push(tauri_cli_check(&p.tauri));
    v.push(DoctorEngine::check_tool_with_category("node", "Node.js Runtime", "Core Web & Scripting Runtimes", false, &p.node));
    v.push(DoctorEngine::check_tool_with_category("bun", "Bun Runtime", "Core Web & Scripting Runtimes", false, &p.bun));
    v.push(DoctorEngine::check_tool_with_category("flutter", "Flutter SDK", "Core Web & Scripting Runtimes", false, &p.flutter));
    v.push(config_check(&p.config));
    if let Some(g) = &p.gradlew {
        v.push(gradlew_check(g));
    }
    if p.package_swift {
        v.push(package_swift_check());
    }
    assert(check_views(v@) =~= spec_checks(*p));
    v
}

/// The number of checks with the given status.
pub open spec fn count_status(s: Seq<CheckView>, st: CheckStatus) -> nat
    decreases s.len(),
{
    if s.len() == 0 {
        0
    } else {
        count_status(s.drop_last(), st) + if s.last().status == st {
            1nat
        } else {
            0nat
        }
    }
}

/// The outcome of all checks of a project.
#[derive(Debug)]
pub struct DoctorReport {
    pub project_path: String,
    pub checks: Vec<DoctorCheck>,
    pub passed_count: usize,
    pub warning_count: usize,
    pub failure_count: usize,
}

impl DoctorReport {
    /// The report of the given checks, with the number of each outcome.
    pub fn new(project_path: String, checks: Vec<DoctorCheck>) -> (r: DoctorReport)
        ensures
            r.project_path@ == project_path@,
            check_views(r.checks@) == check_views(checks@),
            r.passed_count == count_status(check_views(checks@), CheckStatus::Passed),
            r.warning_count == count_status(check_views(checks@), CheckStatus::Warning),
            r.failure_count == count_status(check_views(checks@), CheckStatus::Failed),
    {
        let ghost all = check_views(checks@);
        let mut passed: usize = 0;
        let mut warned: usize = 0;
        let mut failed: usize = 0;
        let mut i: usize = 0;
        while i < checks.len()
            invariant
                all == check_views(checks@),
                i <= checks@.len(),
                passed <= i && warned <= i && failed <= i,
                passed == count_status(all.take(i as int), CheckStatus::Passed),
                warned == count_status(all.take(i as int), CheckStatus::Warning),
                failed == count_status(all.take(i as int), CheckStatus::Failed),
            decreases checks@.len() - i,
        {
            assert(all.take(i + 1).drop_last() =~= all.take(i as int));
            assert(all.take(i + 1).last() == check_view(checks@[i as int]));
            match checks[i].status {
                CheckStatus::Passed => passed = passed + 1,
                CheckStatus::Warning => warned = warned + 1,
                CheckStatus::Failed => failed = failed + 1,
                CheckStatus::Skipped => {},
            }
            i = i + 1;
        }
        assert(all.take(checks@.len() as int) =~= all);
        DoctorReport {
            project_path,
            checks,
            passed_count: passed,
            warning_count: warned,
            failure_count: failed,
        }
    }

    /// Whether no check failed.
    pub fn is_healthy(&self) -> (r: bool)
        ensures
            r == (self.failure_count == 0),
    {
        self.failure_count == 0
    }
}

/// The environment diagnostics.
pub struct DoctorEngine;

impl DoctorEngine {
    /// The report of the diagnostics of the project at `project_path`.
    pub fn run_diagnostics(project_path: String, p: &DoctorProbes) -> (r: DoctorReport)
        ensures
            r.project_path@ == project_path@,
            check_views(r.checks@) == spec_checks(*p),
            r.passed_count == count_status(spec_checks(*p), CheckStatus::Passed),
            r.warning_count == count_status(spec_checks(*p), CheckStatus::Warning),
            r.failure_count == count_status(spec_checks(*p), CheckStatus::Failed),
    {
        let checks = diagnostics_checks(p);
        DoctorReport::new(project_path, checks)
    }
}

/// The counts of a report never exceed the number of its checks, and
/// together they count each check that is not skipped once.
pub proof fn law_report_counts(s: Seq<CheckView>)
    ensures
        count_status(s, CheckStatus::Passed) + count_status(s, CheckStatus::Warning) + count_status(
            s,
            CheckStatus::Failed,
        ) + count_status(s, CheckStatus::Skipped) == s.len(),
    decreases s.len(),
{
    if s.len() > 0 {
        law_report_counts(s.drop_last());
    }
}

/// A report is healthy exactly when none of its checks failed.
pub proof fn law_healthy_iff_no_failure(s: Seq<CheckView>)
    ensures
        (count_status(s, CheckStatus::Failed) == 0) <==> (forall|k: int|
            0 <= k < s.len() ==> (#[trigger] s[k]).status != CheckStatus::Failed),
    decreases s.len(),
{
    if s.len() > 0 {
        law_healthy_iff_no_failure(s.drop_last());
        if count_status(s, CheckStatus::Failed) == 0 {
            assert forall|k: int| 0 <= k < s.len() implies (#[trigger] s[k]).status
                != CheckStatus::Failed by {
                if k < s.len() - 1 {
                    assert(s[k] == s.drop_last()[k]);
                }
            }
        } else if s.last().status != CheckStatus::Failed {
            let k = choose|k: int|
                0 <= k < s.drop_last().len() && (#[trigger] s.drop_last()[k]).status
                    == CheckStatus::Failed;
            assert(s[k] == s.drop_last()[k]);
        }
    }
}


/// Without a working `cargo` the Rust toolchain check fails; with one it
/// passes.
pub proof fn law_cargo_check(r: ToolRun)
    ensures
        spec_cargo(r).name == "Cargo (Rust Toolchain)"@,
        !(r is Succeeded) ==> spec_cargo(r).status == CheckStatus::Failed,
        r is Succeeded ==> spec_cargo(r).status == CheckStatus::Passed,
{
}

/// When `cargo` is missing or fails, the diagnostics hold a failed Rust
/// toolchain check, so the report counts a failure and is not healthy.
pub proof fn law_missing_cargo_fails_diagnostics(p: DoctorProbes)
    requires
        !(p.cargo is Succeeded),
    ensures
        exists|k: int|
            0 <= k < spec_checks(p).len() && (#[trigger] spec_checks(p)[k]).name == "Cargo (Rust Toolchain)"@
                && spec_checks(p)[k].status == CheckStatus::Failed,
        count_status(spec_checks(p), CheckStatus::Failed) > 0,
{
    let a = spec_apple_checks(p.apple);
    let k: int = a.len() as int + 4;
    assert(spec_checks(p)[k] == spec_cargo(p.cargo));
    law_cargo_check(p.cargo);
    law_healthy_iff_no_failure(spec_checks(p));
}


/// What each toolchain tool's check says of it: a tool that runs passes; a
/// missing or failing `cargo` or C compiler fails the diagnostics, a missing
/// `adb` or `pkg-config` is a warning, and a missing system Gradle or Tauri
/// CLI still passes (projects bring their own).
pub proof fn law_tool_check_statuses(r: ToolRun)
    ensures
        r is Succeeded ==> spec_adb(r).status == CheckStatus::Passed && spec_gradle(r).status == CheckStatus::Passed
            && spec_cargo(r).status == CheckStatus::Passed && spec_cc(r).status == CheckStatus::Passed
            && spec_pkg_config(r).status == CheckStatus::Passed && spec_tauri_cli(r).status == CheckStatus::Passed,
        !(r is Succeeded) ==> spec_adb(r).status == CheckStatus::Warning && spec_gradle(r).status
            == CheckStatus::Passed && spec_cargo(r).status == CheckStatus::Failed && spec_cc(r).status
            == CheckStatus::Failed && spec_pkg_config(r).status == CheckStatus::Warning && spec_tauri_cli(r).status
            == CheckStatus::Passed,
{
}

/// When the C compiler is missing or fails, the report counts a failure.
pub proof fn law_missing_cc_fails_diagnostics(p: DoctorProbes)
    requires
        !(p.cc is Succeeded),
    ensures
        count_status(spec_checks(p), CheckStatus::Failed) > 0,
{
    let a = spec_apple_checks(p.apple);
    let k: int = a.len() as int + 5;
    assert(spec_checks(p)[k] == spec_cc(p.cc));
    law_tool_check_statuses(p.cc);
    law_healthy_iff_no_failure(spec_checks(p));
}

} // verus!
