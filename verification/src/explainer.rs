//! Recognition of known toolchain failures in build output, with an
//! explanation and the commands that fix them.
use vstd::prelude::*;
use crate::config::strs;
use crate::number::{decimal, to_decimal};
use crate::text::{
    all_ascii, ascii_lower, ascii_lower_char, chars_of, concat_str, contains, contains_chars, occurs_at, owned, string_of,
    to_lowercase, unicode_lower,
};

verus! {

/// An explanation of a failed build for the user.
#[derive(Debug)]
pub struct ErrorExplanation {
    pub framework: String,
    pub title: String,
    pub issue: String,
    pub fix_hint: String,
    pub steps: Vec<String>,
    pub ansi_banner: String,
}

/// Explains toolchain failures found in build output.
pub struct ToolchainExplainer;

/// A known failure: what it is, how to fix it, and the texts that reveal it.
/// The rule matches output in which, for every group, some text of the group
/// occurs.
pub struct RuleSpec {
    pub framework: Seq<char>,
    pub title: Seq<char>,
    pub issue: Seq<char>,
    pub fix_hint: Seq<char>,
    pub steps: Seq<Seq<char>>,
    pub groups: Seq<Seq<Seq<char>>>,
}

/// A family of known failures, considered when the framework name contains
/// one of `fw_keys` or the output contains one of `text_keys`; its rules are
/// tried in order.
pub struct FamilySpec {
    pub fw_keys: Seq<Seq<char>>,
    pub text_keys: Seq<Seq<char>>,
    pub rules: Seq<RuleSpec>,
}

/// Some text of `keys` occurs in `text`.
pub open spec fn any_contained(text: Seq<char>, keys: Seq<Seq<char>>) -> bool {
    exists|k: int| 0 <= k < keys.len() && #[trigger] contains(text, keys[k])
}

/// The family is to be considered for this framework name and output.
pub open spec fn family_applies(f: FamilySpec, fw: Seq<char>, text: Seq<char>) -> bool {
    any_contained(fw, f.fw_keys) || any_contained(text, f.text_keys)
}

/// The rule matches the output.
pub open spec fn rule_matches(r: RuleSpec, text: Seq<char>) -> bool {
    forall|g: int| 0 <= g < r.groups.len() ==> #[trigger] any_contained(text, r.groups[g])
}

/// The index of the first rule from `i` on that matches the output.
pub open spec fn first_rule(rules: Seq<RuleSpec>, text: Seq<char>, i: int) -> Option<int>
    decreases rules.len() - i,
{
    if i < 0 || i >= rules.len() {
        None
    } else if rule_matches(rules[i], text) {
        Some(i)
    } else {
        first_rule(rules, text, i + 1)
    }
}

/// The first rule, over the families from `i` on that apply, that matches.
pub open spec fn first_explained(fams: Seq<FamilySpec>, fw: Seq<char>, text: Seq<char>, i: int) -> Option<RuleSpec>
    decreases fams.len() - i,
{
    if i < 0 || i >= fams.len() {
        None
    } else if family_applies(fams[i], fw, text) && first_rule(fams[i].rules, text, 0) is Some {
        Some(fams[i].rules[first_rule(fams[i].rules, text, 0)->0])
    } else {
        first_explained(fams, fw, text, i + 1)
    }
}

/// All known failures, in the order they are tried: Apple and Swift, Android
/// and Kotlin, Rust and Cargo, Tauri.
pub open spec fn toolchain_families() -> Seq<FamilySpec> {
    seq![apple_family(), android_family(), rust_family(), tauri_family()]
}

/// The known failure that explains a build of `framework` that wrote
/// `stderr` and `stdout`, compared without regard to case.
pub open spec fn spec_explain(framework: Seq<char>, stderr: Seq<char>, stdout: Seq<char>) -> Option<RuleSpec> {
    explain_lowered(unicode_lower(framework), unicode_lower(stderr + "\n"@ + stdout))
}

/// The known failure that explains output `text` of a build of `framework`,
/// both already lower-cased.
pub open spec fn explain_lowered(framework: Seq<char>, text: Seq<char>) -> Option<RuleSpec> {
    first_explained(toolchain_families(), framework, text, 0)
}

/// `r` is the explanation of `rule` for target `target_name` (nothing when
/// there is no rule).
pub open spec fn explains(r: Option<ErrorExplanation>, rule: Option<RuleSpec>, target_name: Seq<char>) -> bool {
    match rule {
        None => r is None,
        Some(rule) => r matches Some(e) && e.framework@ == rule.framework && e.title@ == rule.title
            && e.issue@ == rule.issue && e.fix_hint@ == rule.fix_hint && strs(e.steps@) == rule.steps
            && e.ansi_banner@ == banner(target_name, rule.framework, rule.title, rule.issue, rule.fix_hint, rule.steps),
    }
}

/// The horizontal rule that opens and closes the banner.
pub open spec fn banner_rule() -> Seq<char> {
    "\x1b[31;1m━━━━━━━━━━━━━━━━━━━━━━━━━━━━━━━━━━━━━━━━━━━━━━━━━━━━━━━━━━━━━━━━━━━━━━━━━━━━\x1b[0m\r\n"@
}

/// The numbered line of fix step `n`.
pub open spec fn step_line(n: nat, step: Seq<char>) -> Seq<char> {
    "    \x1b[36m"@ + decimal(n) + ".\x1b[0m \x1b[97m"@ + step + "\x1b[0m\r\n"@
}

/// The numbered lines of all fix steps, from 1.
pub open spec fn step_lines(steps: Seq<Seq<char>>) -> Seq<char>
    decreases steps.len(),
{
    if steps.len() == 0 {
        Seq::empty()
    } else {
        step_lines(steps.drop_last()) + step_line(steps.len(), steps.last())
    }
}

/// The colored banner shown in the terminal for an explained failure.
pub open spec fn banner(
    target: Seq<char>,
    framework: Seq<char>,
    title: Seq<char>,
    issue: Seq<char>,
    fix_hint: Seq<char>,
    steps: Seq<Seq<char>>,
) -> Seq<char> {
    "\r\n"@ + banner_rule() + "\x1b[31;1m ✗ BUILD FAILED:\x1b[0m \x1b[1;37m"@ + target + " ["@
        + framework + "]\x1b[0m\r\n"@ + "\x1b[33;1m 💡 Issue Detected:\x1b[0m \x1b[38;5;222m"@
        + title + "\x1b[0m\r\n"@ + "    \x1b[90m"@ + issue + "\x1b[0m\r\n"@
        + "\x1b[36;1m 🔧 How to Fix:\x1b[0m\r\n"@ + step_lines(steps)
        + "\x1b[32;1m 📋 Quick Command:\x1b[0m \x1b[40;1;32m "@ + fix_hint + " \x1b[0m\r\n"@
        + banner_rule()
}

/// Known failure: Xcode Command Line Tools Active (Full Xcode.app Required).
pub open spec fn apple_rule_1() -> RuleSpec {
    RuleSpec {
        framework: "swift"@,
        title: "Xcode Command Line Tools Active (Full Xcode.app Required)"@,
        issue: "Active developer directory is set to Command Line Tools, but Xcode.app is required for simulator/iOS builds."@,
        fix_hint: "sudo xcode-select -s /Applications/Xcode.app/Contents/Developer"@,
        steps: seq!["Check if Xcode is installed in /Applications: ls /Applications/Xcode.app"@, "Point xcode-select to full Xcode: sudo xcode-select -s /Applications/Xcode.app/Contents/Developer"@, "Accept the Xcode license agreement: sudo xcodebuild -license accept"@],
        groups: seq![seq!["tool 'xcodebuild' requires xcode"@, "active developer directory '/library/developer/commandlinetools'"@]],
    }
}

/// Known failure: Xcode License Agreement Not Accepted.
pub open spec fn apple_rule_2() -> RuleSpec {
    RuleSpec {
        framework: "swift"@,
        title: "Xcode License Agreement Not Accepted"@,
        issue: "Xcode license agreement must be accepted before compiler tools can run."@,
        fix_hint: "sudo xcodebuild -license accept"@,
        steps: seq!["Run: sudo xcodebuild -license accept"@],
        groups: seq![seq!["license agreement"@, "agree to the xcode"@]],
    }
}

/// Known failure: Apple Command Line Tools or SDK Missing.
pub open spec fn apple_rule_3() -> RuleSpec {
    RuleSpec {
        framework: "swift"@,
        title: "Apple Command Line Tools or SDK Missing"@,
        issue: "macOS SDK / Command Line Tools are missing or pointing to an invalid directory."@,
        fix_hint: "xcode-select --install"@,
        steps: seq!["Install Command Line Tools: xcode-select --install"@, "Or reset developer directory to default: sudo xcode-select -r"@],
        groups: seq![seq!["unable to find sdk 'macosx'"@, "active developer path"@, "xcode-select: error"@]],
    }
}

/// Known failure: Missing Swift Package Dependencies.
pub open spec fn apple_rule_4() -> RuleSpec {
    RuleSpec {
        framework: "swift"@,
        title: "Missing Swift Package Dependencies"@,
        issue: "Swift Package Manager (SPM) dependencies are unresolved or missing."@,
        fix_hint: "swift package resolve"@,
        steps: seq!["Fetch dependencies: swift package resolve"@, "Update package dependencies: swift package update"@, "Clean build cache: rm -rf .build/"@],
        groups: seq![seq!["cannot find module"@, "no such module"@, "missing package dependency"@]],
    }
}

/// Known failure: SwiftPM Build Cache Locked/Corrupt.
pub open spec fn apple_rule_5() -> RuleSpec {
    RuleSpec {
        framework: "swift"@,
        title: "SwiftPM Build Cache Locked/Corrupt"@,
        issue: "Swift package build cache is locked or in an inconsistent state."@,
        fix_hint: "rm -rf .build/"@,
        steps: seq!["Remove build cache: rm -rf .build/"@, "Re-run build: swift build"@],
        groups: seq![seq!["database is locked"@, "invalid build database"@, "corrupt build database"@]],
    }
}

/// The apple family of known toolchain failures.
pub open spec fn apple_family() -> FamilySpec {
    FamilySpec {
        fw_keys: seq!["swift"@, "xcode"@, "apple"@],
        text_keys: seq!["swift"@, "xcode"@],
        rules: seq![apple_rule_1(), apple_rule_2(), apple_rule_3(), apple_rule_4(), apple_rule_5()],
    }
}

/// Known failure: JDK Not Found / JAVA_HOME Unset.
pub open spec fn android_rule_1() -> RuleSpec {
    RuleSpec {
        framework: "kotlin"@,
        title: "JDK Not Found / JAVA_HOME Unset"@,
        issue: "Java Development Kit (JDK 17+ recommended) is not installed or JAVA_HOME is not set."@,
        fix_hint: "brew install openjdk@17 && export JAVA_HOME=$(/usr/libexec/java_home -v 17)"@,
        steps: seq!["Install OpenJDK: brew install openjdk@17"@, "Set JAVA_HOME in ~/.zshrc: export JAVA_HOME=$(/usr/libexec/java_home -v 17)"@, "Add to PATH: export PATH=$JAVA_HOME/bin:$PATH"@],
        groups: seq![seq!["java_home is not set"@, "java: command not found"@, "could not find or load main class"@]],
    }
}

/// Known failure: Java / Gradle Version Incompatibility.
pub open spec fn android_rule_2() -> RuleSpec {
    RuleSpec {
        framework: "kotlin"@,
        title: "Java / Gradle Version Incompatibility"@,
        issue: "The current Java version is incompatible with this project's Gradle version (JDK 17 recommended)."@,
        fix_hint: "export JAVA_HOME=$(/usr/libexec/java_home -v 17)"@,
        steps: seq!["Switch to JDK 17: export JAVA_HOME=$(/usr/libexec/java_home -v 17)"@, "Or upgrade Gradle wrapper: ./gradlew wrapper --gradle-version 8.7"@],
        groups: seq![seq!["unsupported class file major version"@, "incompatible with this version of java"@]],
    }
}

/// Known failure: Android SDK Not Found.
pub open spec fn android_rule_3() -> RuleSpec {
    RuleSpec {
        framework: "kotlin"@,
        title: "Android SDK Not Found"@,
        issue: "Android SDK directory location is missing or ANDROID_HOME is unset."@,
        fix_hint: "export ANDROID_HOME=$HOME/Library/Android/sdk"@,
        steps: seq!["Export ANDROID_HOME: export ANDROID_HOME=$HOME/Library/Android/sdk"@, "Add platform-tools to PATH: export PATH=$PATH:$ANDROID_HOME/platform-tools:$ANDROID_HOME/cmdline-tools/latest/bin"@, "Or set in project local.properties: echo \"sdk.dir=$HOME/Library/Android/sdk\" > local.properties"@],
        groups: seq![seq!["sdk location not found"@, "android_home"@, "sdk.dir"@]],
    }
}

/// Known failure: Missing Android Platform SDK.
pub open spec fn android_rule_4() -> RuleSpec {
    RuleSpec {
        framework: "kotlin"@,
        title: "Missing Android Platform SDK"@,
        issue: "The requested Android target platform API version is not installed in the SDK."@,
        fix_hint: "sdkmanager --install \"platforms;android-34\""@,
        steps: seq!["Install platform: sdkmanager --install \"platforms;android-34\""@, "Install build-tools: sdkmanager --install \"build-tools;34.0.0\""@],
        groups: seq![seq!["failed to find target with hash string 'android-"@, "platforms;android-"@]],
    }
}

/// Known failure: Gradle Wrapper Not Executable.
pub open spec fn android_rule_5() -> RuleSpec {
    RuleSpec {
        framework: "kotlin"@,
        title: "Gradle Wrapper Not Executable"@,
        issue: "The gradlew shell script lacks execute (+x) permissions."@,
        fix_hint: "chmod +x gradlew"@,
        steps: seq!["Grant execute permission: chmod +x gradlew"@],
        groups: seq![seq!["permission denied"@], seq!["gradlew"@]],
    }
}

/// Known failure: Gradle Dependency Resolution Failed.
pub open spec fn android_rule_6() -> RuleSpec {
    RuleSpec {
        framework: "kotlin"@,
        title: "Gradle Dependency Resolution Failed"@,
        issue: "Network error or missing remote repository while downloading dependencies."@,
        fix_hint: "./gradlew assembleDebug --refresh-dependencies"@,
        steps: seq!["Refresh dependencies: ./gradlew assembleDebug --refresh-dependencies"@, "Verify network connection to maven.google.com and repo.maven.apache.org"@],
        groups: seq![seq!["could not resolve all dependencies"@, "connection refused"@, "timed out"@]],
    }
}

/// The android family of known toolchain failures.
pub open spec fn android_family() -> FamilySpec {
    FamilySpec {
        fw_keys: seq!["kotlin"@, "android"@, "gradle"@],
        text_keys: seq!["gradle"@, "android"@],
        rules: seq![android_rule_1(), android_rule_2(), android_rule_3(), android_rule_4(), android_rule_5(), android_rule_6()],
    }
}

/// Known failure: C/C++ Linker Not Found.
pub open spec fn rust_rule_1() -> RuleSpec {
    RuleSpec {
        framework: "cargo"@,
        title: "C/C++ Linker Not Found"@,
        issue: "The Rust compiler cannot locate a C compiler/linker (cc/clang)."@,
        fix_hint: "xcode-select --install"@,
        steps: seq!["Install Command Line Tools (macOS): xcode-select --install"@, "Or install GCC (Linux): sudo apt install build-essential"@],
        groups: seq![seq!["linker `cc` not found"@, "error: linker"@, "clang: error"@]],
    }
}

/// Known failure: OpenSSL Development Headers Missing.
pub open spec fn rust_rule_2() -> RuleSpec {
    RuleSpec {
        framework: "cargo"@,
        title: "OpenSSL Development Headers Missing"@,
        issue: "Crates requiring OpenSSL cannot locate the development headers/libraries."@,
        fix_hint: "brew install openssl@3 && export OPENSSL_DIR=$(brew --prefix openssl@3)"@,
        steps: seq!["Install OpenSSL: brew install openssl@3"@, "Export OPENSSL_DIR: export OPENSSL_DIR=$(brew --prefix openssl@3)"@, "Export PKG_CONFIG_PATH: export PKG_CONFIG_PATH=\"$(brew --prefix openssl@3)/lib/pkgconfig:$PKG_CONFIG_PATH\""@],
        groups: seq![seq!["openssl"@], seq!["could not find directory"@, "openssl-sys"@]],
    }
}

/// Known failure: pkg-config Tool Missing.
pub open spec fn rust_rule_3() -> RuleSpec {
    RuleSpec {
        framework: "cargo"@,
        title: "pkg-config Tool Missing"@,
        issue: "Native system dependency discovery via pkg-config failed."@,
        fix_hint: "brew install pkg-config"@,
        steps: seq!["Install pkg-config: brew install pkg-config"@],
        groups: seq![seq!["pkg-config"@, "pkg_config"@]],
    }
}

/// The rust family of known toolchain failures.
pub open spec fn rust_family() -> FamilySpec {
    FamilySpec {
        fw_keys: seq!["cargo"@, "rust"@],
        text_keys: seq!["cargo"@, "rustc"@],
        rules: seq![rust_rule_1(), rust_rule_2(), rust_rule_3()],
    }
}

/// Known failure: Tauri CLI Missing.
pub open spec fn tauri_rule_1() -> RuleSpec {
    RuleSpec {
        framework: "tauri"@,
        title: "Tauri CLI Missing"@,
        issue: "Tauri CLI package is not installed in the project dependencies."@,
        fix_hint: "npm install -D @tauri-apps/cli"@,
        steps: seq!["Install Tauri CLI: npm install -D @tauri-apps/cli"@],
        groups: seq![seq!["tauri: command not found"@, "cannot find module '@tauri-apps/cli'"@]],
    }
}

/// Known failure: Tauri Frontend Build Failed.
pub open spec fn tauri_rule_2() -> RuleSpec {
    RuleSpec {
        framework: "tauri"@,
        title: "Tauri Frontend Build Failed"@,
        issue: "The frontend build command failed. Dependencies may need installation."@,
        fix_hint: "npm install && npm run build"@,
        steps: seq!["Install node modules: npm install"@, "Run frontend build: npm run build"@],
        groups: seq![seq!["failed to build frontend"@, "vite: not found"@]],
    }
}

/// The tauri family of known toolchain failures.
pub open spec fn tauri_family() -> FamilySpec {
    FamilySpec {
        fw_keys: seq!["tauri"@],
        text_keys: seq!["tauri"@],
        rules: seq![tauri_rule_1(), tauri_rule_2()],
    }
}

fn apple_rule_1_data() -> (r: Rule)
    ensures
        rule_view(&r) == apple_rule_1(),
{
    let r = Rule {
        framework: "swift",
        title: "Xcode Command Line Tools Active (Full Xcode.app Required)",
        issue: "Active developer directory is set to Command Line Tools, but Xcode.app is required for simulator/iOS builds.",
        fix_hint: "sudo xcode-select -s /Applications/Xcode.app/Contents/Developer",
        steps: vec!["Check if Xcode is installed in /Applications: ls /Applications/Xcode.app", "Point xcode-select to full Xcode: sudo xcode-select -s /Applications/Xcode.app/Contents/Developer", "Accept the Xcode license agreement: sudo xcodebuild -license accept"],
        groups: vec![vec!["tool 'xcodebuild' requires xcode", "active developer directory '/library/developer/commandlinetools'"]],
    };
    assert(strs_view(r.steps@) =~= seq!["Check if Xcode is installed in /Applications: ls /Applications/Xcode.app"@, "Point xcode-select to full Xcode: sudo xcode-select -s /Applications/Xcode.app/Contents/Developer"@, "Accept the Xcode license agreement: sudo xcodebuild -license accept"@]);
    assert(strs_view(r.groups@[0]@) =~= seq!["tool 'xcodebuild' requires xcode"@, "active developer directory '/library/developer/commandlinetools'"@]);
    assert(r.groups@.map_values(|g: Vec<&'static str>| strs_view(g@)) =~= seq![seq!["tool 'xcodebuild' requires xcode"@, "active developer directory '/library/developer/commandlinetools'"@]]);
    r
}

fn apple_rule_2_data() -> (r: Rule)
    ensures
        rule_view(&r) == apple_rule_2(),
{
    let r = Rule {
        framework: "swift",
        title: "Xcode License Agreement Not Accepted",
        issue: "Xcode license agreement must be accepted before compiler tools can run.",
        fix_hint: "sudo xcodebuild -license accept",
        steps: vec!["Run: sudo xcodebuild -license accept"],
        groups: vec![vec!["license agreement", "agree to the xcode"]],
    };
    assert(strs_view(r.steps@) =~= seq!["Run: sudo xcodebuild -license accept"@]);
    assert(strs_view(r.groups@[0]@) =~= seq!["license agreement"@, "agree to the xcode"@]);
    assert(r.groups@.map_values(|g: Vec<&'static str>| strs_view(g@)) =~= seq![seq!["license agreement"@, "agree to the xcode"@]]);
    r
}

fn apple_rule_3_data() -> (r: Rule)
    ensures
        rule_view(&r) == apple_rule_3(),
{
    let r = Rule {
        framework: "swift",
        title: "Apple Command Line Tools or SDK Missing",
        issue: "macOS SDK / Command Line Tools are missing or pointing to an invalid directory.",
        fix_hint: "xcode-select --install",
        steps: vec!["Install Command Line Tools: xcode-select --install", "Or reset developer directory to default: sudo xcode-select -r"],
        groups: vec![vec!["unable to find sdk 'macosx'", "active developer path", "xcode-select: error"]],
    };
    assert(strs_view(r.steps@) =~= seq!["Install Command Line Tools: xcode-select --install"@, "Or reset developer directory to default: sudo xcode-select -r"@]);
    assert(strs_view(r.groups@[0]@) =~= seq!["unable to find sdk 'macosx'"@, "active developer path"@, "xcode-select: error"@]);
    assert(r.groups@.map_values(|g: Vec<&'static str>| strs_view(g@)) =~= seq![seq!["unable to find sdk 'macosx'"@, "active developer path"@, "xcode-select: error"@]]);
    r
}

fn apple_rule_4_data() -> (r: Rule)
    ensures
        rule_view(&r) == apple_rule_4(),
{
    let r = Rule {
        framework: "swift",
        title: "Missing Swift Package Dependencies",
        issue: "Swift Package Manager (SPM) dependencies are unresolved or missing.",
        fix_hint: "swift package resolve",
        steps: vec!["Fetch dependencies: swift package resolve", "Update package dependencies: swift package update", "Clean build cache: rm -rf .build/"],
        groups: vec![vec!["cannot find module", "no such module", "missing package dependency"]],
    };
    assert(strs_view(r.steps@) =~= seq!["Fetch dependencies: swift package resolve"@, "Update package dependencies: swift package update"@, "Clean build cache: rm -rf .build/"@]);
    assert(strs_view(r.groups@[0]@) =~= seq!["cannot find module"@, "no such module"@, "missing package dependency"@]);
    assert(r.groups@.map_values(|g: Vec<&'static str>| strs_view(g@)) =~= seq![seq!["cannot find module"@, "no such module"@, "missing package dependency"@]]);
    r
}

fn apple_rule_5_data() -> (r: Rule)
    ensures
        rule_view(&r) == apple_rule_5(),
{
    let r = Rule {
        framework: "swift",
        title: "SwiftPM Build Cache Locked/Corrupt",
        issue: "Swift package build cache is locked or in an inconsistent state.",
        fix_hint: "rm -rf .build/",
        steps: vec!["Remove build cache: rm -rf .build/", "Re-run build: swift build"],
        groups: vec![vec!["database is locked", "invalid build database", "corrupt build database"]],
    };
    assert(strs_view(r.steps@) =~= seq!["Remove build cache: rm -rf .build/"@, "Re-run build: swift build"@]);
    assert(strs_view(r.groups@[0]@) =~= seq!["database is locked"@, "invalid build database"@, "corrupt build database"@]);
    assert(r.groups@.map_values(|g: Vec<&'static str>| strs_view(g@)) =~= seq![seq!["database is locked"@, "invalid build database"@, "corrupt build database"@]]);
    r
}

fn apple_family_table() -> (f: Family)
    ensures
        family_view(&f) == apple_family(),
{
    let f = Family {
        fw_keys: vec!["swift", "xcode", "apple"],
        text_keys: vec!["swift", "xcode"],
        rules: vec![apple_rule_1_data(), apple_rule_2_data(), apple_rule_3_data(), apple_rule_4_data(), apple_rule_5_data()],
    };
    assert(strs_view(f.fw_keys@) =~= seq!["swift"@, "xcode"@, "apple"@]);
    assert(strs_view(f.text_keys@) =~= seq!["swift"@, "xcode"@]);
    assert(rules_view(f.rules@) =~= seq![apple_rule_1(), apple_rule_2(), apple_rule_3(), apple_rule_4(), apple_rule_5()]);
    f
}

fn android_rule_1_data() -> (r: Rule)
    ensures
        rule_view(&r) == android_rule_1(),
{
    let r = Rule {
        framework: "kotlin",
        title: "JDK Not Found / JAVA_HOME Unset",
        issue: "Java Development Kit (JDK 17+ recommended) is not installed or JAVA_HOME is not set.",
        fix_hint: "brew install openjdk@17 && export JAVA_HOME=$(/usr/libexec/java_home -v 17)",
        steps: vec!["Install OpenJDK: brew install openjdk@17", "Set JAVA_HOME in ~/.zshrc: export JAVA_HOME=$(/usr/libexec/java_home -v 17)", "Add to PATH: export PATH=$JAVA_HOME/bin:$PATH"],
        groups: vec![vec!["java_home is not set", "java: command not found", "could not find or load main class"]],
    };
    assert(strs_view(r.steps@) =~= seq!["Install OpenJDK: brew install openjdk@17"@, "Set JAVA_HOME in ~/.zshrc: export JAVA_HOME=$(/usr/libexec/java_home -v 17)"@, "Add to PATH: export PATH=$JAVA_HOME/bin:$PATH"@]);
    assert(strs_view(r.groups@[0]@) =~= seq!["java_home is not set"@, "java: command not found"@, "could not find or load main class"@]);
    assert(r.groups@.map_values(|g: Vec<&'static str>| strs_view(g@)) =~= seq![seq!["java_home is not set"@, "java: command not found"@, "could not find or load main class"@]]);
    r
}

fn android_rule_2_data() -> (r: Rule)
    ensures
        rule_view(&r) == android_rule_2(),
{
    let r = Rule {
        framework: "kotlin",
        title: "Java / Gradle Version Incompatibility",
        issue: "The current Java version is incompatible with this project's Gradle version (JDK 17 recommended).",
        fix_hint: "export JAVA_HOME=$(/usr/libexec/java_home -v 17)",
        steps: vec!["Switch to JDK 17: export JAVA_HOME=$(/usr/libexec/java_home -v 17)", "Or upgrade Gradle wrapper: ./gradlew wrapper --gradle-version 8.7"],
        groups: vec![vec!["unsupported class file major version", "incompatible with this version of java"]],
    };
    assert(strs_view(r.steps@) =~= seq!["Switch to JDK 17: export JAVA_HOME=$(/usr/libexec/java_home -v 17)"@, "Or upgrade Gradle wrapper: ./gradlew wrapper --gradle-version 8.7"@]);
    assert(strs_view(r.groups@[0]@) =~= seq!["unsupported class file major version"@, "incompatible with this version of java"@]);
    assert(r.groups@.map_values(|g: Vec<&'static str>| strs_view(g@)) =~= seq![seq!["unsupported class file major version"@, "incompatible with this version of java"@]]);
    r
}

fn android_rule_3_data() -> (r: Rule)
    ensures
        rule_view(&r) == android_rule_3(),
{
    let r = Rule {
        framework: "kotlin",
        title: "Android SDK Not Found",
        issue: "Android SDK directory location is missing or ANDROID_HOME is unset.",
        fix_hint: "export ANDROID_HOME=$HOME/Library/Android/sdk",
        steps: vec!["Export ANDROID_HOME: export ANDROID_HOME=$HOME/Library/Android/sdk", "Add platform-tools to PATH: export PATH=$PATH:$ANDROID_HOME/platform-tools:$ANDROID_HOME/cmdline-tools/latest/bin", "Or set in project local.properties: echo \"sdk.dir=$HOME/Library/Android/sdk\" > local.properties"],
        groups: vec![vec!["sdk location not found", "android_home", "sdk.dir"]],
    };
    assert(strs_view(r.steps@) =~= seq!["Export ANDROID_HOME: export ANDROID_HOME=$HOME/Library/Android/sdk"@, "Add platform-tools to PATH: export PATH=$PATH:$ANDROID_HOME/platform-tools:$ANDROID_HOME/cmdline-tools/latest/bin"@, "Or set in project local.properties: echo \"sdk.dir=$HOME/Library/Android/sdk\" > local.properties"@]);
    assert(strs_view(r.groups@[0]@) =~= seq!["sdk location not found"@, "android_home"@, "sdk.dir"@]);
    assert(r.groups@.map_values(|g: Vec<&'static str>| strs_view(g@)) =~= seq![seq!["sdk location not found"@, "android_home"@, "sdk.dir"@]]);
    r
}

fn android_rule_4_data() -> (r: Rule)
    ensures
        rule_view(&r) == android_rule_4(),
{
    let r = Rule {
        framework: "kotlin",
        title: "Missing Android Platform SDK",
        issue: "The requested Android target platform API version is not installed in the SDK.",
        fix_hint: "sdkmanager --install \"platforms;android-34\"",
        steps: vec!["Install platform: sdkmanager --install \"platforms;android-34\"", "Install build-tools: sdkmanager --install \"build-tools;34.0.0\""],
        groups: vec![vec!["failed to find target with hash string 'android-", "platforms;android-"]],
    };
    assert(strs_view(r.steps@) =~= seq!["Install platform: sdkmanager --install \"platforms;android-34\""@, "Install build-tools: sdkmanager --install \"build-tools;34.0.0\""@]);
    assert(strs_view(r.groups@[0]@) =~= seq!["failed to find target with hash string 'android-"@, "platforms;android-"@]);
    assert(r.groups@.map_values(|g: Vec<&'static str>| strs_view(g@)) =~= seq![seq!["failed to find target with hash string 'android-"@, "platforms;android-"@]]);
    r
}

fn android_rule_5_data() -> (r: Rule)
    ensures
        rule_view(&r) == android_rule_5(),
{
    let r = Rule {
        framework: "kotlin",
        title: "Gradle Wrapper Not Executable",
        issue: "The gradlew shell script lacks execute (+x) permissions.",
        fix_hint: "chmod +x gradlew",
        steps: vec!["Grant execute permission: chmod +x gradlew"],
        groups: vec![vec!["permission denied"], vec!["gradlew"]],
    };
    assert(strs_view(r.steps@) =~= seq!["Grant execute permission: chmod +x gradlew"@]);
    assert(strs_view(r.groups@[0]@) =~= seq!["permission denied"@]);
    assert(strs_view(r.groups@[1]@) =~= seq!["gradlew"@]);
    assert(r.groups@.map_values(|g: Vec<&'static str>| strs_view(g@)) =~= seq![seq!["permission denied"@], seq!["gradlew"@]]);
    r
}

fn android_rule_6_data() -> (r: Rule)
    ensures
        rule_view(&r) == android_rule_6(),
{
    let r = Rule {
        framework: "kotlin",
        title: "Gradle Dependency Resolution Failed",
        issue: "Network error or missing remote repository while downloading dependencies.",
        fix_hint: "./gradlew assembleDebug --refresh-dependencies",
        steps: vec!["Refresh dependencies: ./gradlew assembleDebug --refresh-dependencies", "Verify network connection to maven.google.com and repo.maven.apache.org"],
        groups: vec![vec!["could not resolve all dependencies", "connection refused", "timed out"]],
    };
    assert(strs_view(r.steps@) =~= seq!["Refresh dependencies: ./gradlew assembleDebug --refresh-dependencies"@, "Verify network connection to maven.google.com and repo.maven.apache.org"@]);
    assert(strs_view(r.groups@[0]@) =~= seq!["could not resolve all dependencies"@, "connection refused"@, "timed out"@]);
    assert(r.groups@.map_values(|g: Vec<&'static str>| strs_view(g@)) =~= seq![seq!["could not resolve all dependencies"@, "connection refused"@, "timed out"@]]);
    r
}

fn android_family_table() -> (f: Family)
    ensures
        family_view(&f) == android_family(),
{
    let f = Family {
        fw_keys: vec!["kotlin", "android", "gradle"],
        text_keys: vec!["gradle", "android"],
        rules: vec![android_rule_1_data(), android_rule_2_data(), android_rule_3_data(), android_rule_4_data(), android_rule_5_data(), android_rule_6_data()],
    };
    assert(strs_view(f.fw_keys@) =~= seq!["kotlin"@, "android"@, "gradle"@]);
    assert(strs_view(f.text_keys@) =~= seq!["gradle"@, "android"@]);
    assert(rules_view(f.rules@) =~= seq![android_rule_1(), android_rule_2(), android_rule_3(), android_rule_4(), android_rule_5(), android_rule_6()]);
    f
}

fn rust_rule_1_data() -> (r: Rule)
    ensures
        rule_view(&r) == rust_rule_1(),
{
    let r = Rule {
        framework: "cargo",
        title: "C/C++ Linker Not Found",
        issue: "The Rust compiler cannot locate a C compiler/linker (cc/clang).",
        fix_hint: "xcode-select --install",
        steps: vec!["Install Command Line Tools (macOS): xcode-select --install", "Or install GCC (Linux): sudo apt install build-essential"],
        groups: vec![vec!["linker `cc` not found", "error: linker", "clang: error"]],
    };
    assert(strs_view(r.steps@) =~= seq!["Install Command Line Tools (macOS): xcode-select --install"@, "Or install GCC (Linux): sudo apt install build-essential"@]);
    assert(strs_view(r.groups@[0]@) =~= seq!["linker `cc` not found"@, "error: linker"@, "clang: error"@]);
    assert(r.groups@.map_values(|g: Vec<&'static str>| strs_view(g@)) =~= seq![seq!["linker `cc` not found"@, "error: linker"@, "clang: error"@]]);
    r
}

fn rust_rule_2_data() -> (r: Rule)
    ensures
        rule_view(&r) == rust_rule_2(),
{
    let r = Rule {
        framework: "cargo",
        title: "OpenSSL Development Headers Missing",
        issue: "Crates requiring OpenSSL cannot locate the development headers/libraries.",
        fix_hint: "brew install openssl@3 && export OPENSSL_DIR=$(brew --prefix openssl@3)",
        steps: vec!["Install OpenSSL: brew install openssl@3", "Export OPENSSL_DIR: export OPENSSL_DIR=$(brew --prefix openssl@3)", "Export PKG_CONFIG_PATH: export PKG_CONFIG_PATH=\"$(brew --prefix openssl@3)/lib/pkgconfig:$PKG_CONFIG_PATH\""],
        groups: vec![vec!["openssl"], vec!["could not find directory", "openssl-sys"]],
    };
    assert(strs_view(r.steps@) =~= seq!["Install OpenSSL: brew install openssl@3"@, "Export OPENSSL_DIR: export OPENSSL_DIR=$(brew --prefix openssl@3)"@, "Export PKG_CONFIG_PATH: export PKG_CONFIG_PATH=\"$(brew --prefix openssl@3)/lib/pkgconfig:$PKG_CONFIG_PATH\""@]);
    assert(strs_view(r.groups@[0]@) =~= seq!["openssl"@]);
    assert(strs_view(r.groups@[1]@) =~= seq!["could not find directory"@, "openssl-sys"@]);
    assert(r.groups@.map_values(|g: Vec<&'static str>| strs_view(g@)) =~= seq![seq!["openssl"@], seq!["could not find directory"@, "openssl-sys"@]]);
    r
}

fn rust_rule_3_data() -> (r: Rule)
    ensures
        rule_view(&r) == rust_rule_3(),
{
    let r = Rule {
        framework: "cargo",
        title: "pkg-config Tool Missing",
        issue: "Native system dependency discovery via pkg-config failed.",
        fix_hint: "brew install pkg-config",
        steps: vec!["Install pkg-config: brew install pkg-config"],
        groups: vec![vec!["pkg-config", "pkg_config"]],
    };
    assert(strs_view(r.steps@) =~= seq!["Install pkg-config: brew install pkg-config"@]);
    assert(strs_view(r.groups@[0]@) =~= seq!["pkg-config"@, "pkg_config"@]);
    assert(r.groups@.map_values(|g: Vec<&'static str>| strs_view(g@)) =~= seq![seq!["pkg-config"@, "pkg_config"@]]);
    r
}

fn rust_family_table() -> (f: Family)
    ensures
        family_view(&f) == rust_family(),
{
    let f = Family {
        fw_keys: vec!["cargo", "rust"],
        text_keys: vec!["cargo", "rustc"],
        rules: vec![rust_rule_1_data(), rust_rule_2_data(), rust_rule_3_data()],
    };
    assert(strs_view(f.fw_keys@) =~= seq!["cargo"@, "rust"@]);
    assert(strs_view(f.text_keys@) =~= seq!["cargo"@, "rustc"@]);
    assert(rules_view(f.rules@) =~= seq![rust_rule_1(), rust_rule_2(), rust_rule_3()]);
    f
}

fn tauri_rule_1_data() -> (r: Rule)
    ensures
        rule_view(&r) == tauri_rule_1(),
{
    let r = Rule {
        framework: "tauri",
        title: "Tauri CLI Missing",
        issue: "Tauri CLI package is not installed in the project dependencies.",
        fix_hint: "npm install -D @tauri-apps/cli",
        steps: vec!["Install Tauri CLI: npm install -D @tauri-apps/cli"],
        groups: vec![vec!["tauri: command not found", "cannot find module '@tauri-apps/cli'"]],
    };
    assert(strs_view(r.steps@) =~= seq!["Install Tauri CLI: npm install -D @tauri-apps/cli"@]);
    assert(strs_view(r.groups@[0]@) =~= seq!["tauri: command not found"@, "cannot find module '@tauri-apps/cli'"@]);
    assert(r.groups@.map_values(|g: Vec<&'static str>| strs_view(g@)) =~= seq![seq!["tauri: command not found"@, "cannot find module '@tauri-apps/cli'"@]]);
    r
}

fn tauri_rule_2_data() -> (r: Rule)
    ensures
        rule_view(&r) == tauri_rule_2(),
{
    let r = Rule {
        framework: "tauri",
        title: "Tauri Frontend Build Failed",
        issue: "The frontend build command failed. Dependencies may need installation.",
        fix_hint: "npm install && npm run build",
        steps: vec!["Install node modules: npm install", "Run frontend build: npm run build"],
        groups: vec![vec!["failed to build frontend", "vite: not found"]],
    };
    assert(strs_view(r.steps@) =~= seq!["Install node modules: npm install"@, "Run frontend build: npm run build"@]);
    assert(strs_view(r.groups@[0]@) =~= seq!["failed to build frontend"@, "vite: not found"@]);
    assert(r.groups@.map_values(|g: Vec<&'static str>| strs_view(g@)) =~= seq![seq!["failed to build frontend"@, "vite: not found"@]]);
    r
}

fn tauri_family_table() -> (f: Family)
    ensures
        family_view(&f) == tauri_family(),
{
    let f = Family {
        fw_keys: vec!["tauri"],
        text_keys: vec!["tauri"],
        rules: vec![tauri_rule_1_data(), tauri_rule_2_data()],
    };
    assert(strs_view(f.fw_keys@) =~= seq!["tauri"@]);
    assert(strs_view(f.text_keys@) =~= seq!["tauri"@]);
    assert(rules_view(f.rules@) =~= seq![tauri_rule_1(), tauri_rule_2()]);
    f
}

struct Rule {
    framework: &'static str,
    title: &'static str,
    issue: &'static str,
    fix_hint: &'static str,
    steps: Vec<&'static str>,
    groups: Vec<Vec<&'static str>>,
}

struct Family {
    fw_keys: Vec<&'static str>,
    text_keys: Vec<&'static str>,
    rules: Vec<Rule>,
}

spec fn strs_view(v: Seq<&'static str>) -> Seq<Seq<char>> {
    v.map_values(|s: &'static str| s@)
}

spec fn rule_view(r: &Rule) -> RuleSpec {
    RuleSpec {
        framework: r.framework@,
        title: r.title@,
        issue: r.issue@,
        fix_hint: r.fix_hint@,
        steps: strs_view(r.steps@),
        groups: r.groups@.map_values(|g: Vec<&'static str>| strs_view(g@)),
    }
}

spec fn rules_view(v: Seq<Rule>) -> Seq<RuleSpec> {
    v.map_values(|r: Rule| rule_view(&r))
}

spec fn family_view(f: &Family) -> FamilySpec {
    FamilySpec {
        fw_keys: strs_view(f.fw_keys@),
        text_keys: strs_view(f.text_keys@),
        rules: rules_view(f.rules@),
    }
}

/// Whether some key occurs in `text`.
fn any_contained_exec(text: &[char], keys: &Vec<&'static str>) -> (b: bool)
    ensures
        b == any_contained(text@, strs_view(keys@)),
{
    let mut i: usize = 0;
    while i < keys.len()
        invariant
            i <= keys@.len(),
            forall|k: int| 0 <= k < i ==> !contains(text@, #[trigger] strs_view(keys@)[k]),
        decreases keys@.len() - i,
    {
        let key = chars_of(keys[i]);
        if contains_chars(text, key.as_slice()) {
            assert(contains(text@, strs_view(keys@)[i as int]));
            return true;
        }
        i = i + 1;
    }
    false
}

fn rule_matches_exec(r: &Rule, text: &[char]) -> (b: bool)
    ensures
        b == rule_matches(rule_view(r), text@),
{
    let ghost rv = rule_view(r);
    let mut g: usize = 0;
    while g < r.groups.len()
        invariant
            g <= r.groups@.len(),
            rv == rule_view(r),
            forall|j: int| 0 <= j < g ==> #[trigger] any_contained(text@, rv.groups[j]),
        decreases r.groups@.len() - g,
    {
        if !any_contained_exec(text, &r.groups[g]) {
            assert(!any_contained(text@, rv.groups[g as int]));
            return false;
        }
        g = g + 1;
    }
    true
}

proof fn lemma_first_rule_skip(rules: Seq<RuleSpec>, text: Seq<char>, i: int)
    requires
        0 <= i <= rules.len(),
        forall|j: int| 0 <= j < i ==> !rule_matches(#[trigger] rules[j], text),
    ensures
        first_rule(rules, text, 0) == first_rule(rules, text, i),
    decreases i,
{
    if i > 0 {
        lemma_first_rule_skip(rules, text, i - 1);
    }
}

fn first_rule_exec(rules: &Vec<Rule>, text: &[char]) -> (r: Option<usize>)
    ensures
        r matches Some(j) ==> j < rules@.len() && first_rule(rules_view(rules@), text@, 0) == Some(
            j as int,
        ),
        r is None ==> first_rule(rules_view(rules@), text@, 0) is None,
{
    let ghost rv = rules_view(rules@);
    let mut i: usize = 0;
    while i < rules.len()
        invariant
            i <= rules@.len(),
            rv == rules_view(rules@),
            forall|j: int| 0 <= j < i ==> !rule_matches(#[trigger] rv[j], text@),
        decreases rules@.len() - i,
    {
        if rule_matches_exec(&rules[i], text) {
            proof {
                lemma_first_rule_skip(rv, text@, i as int);
            }
            return Some(i);
        }
        i = i + 1;
    }
    proof {
        lemma_first_rule_skip(rv, text@, i as int);
    }
    None
}

proof fn lemma_first_explained_skip(fams: Seq<FamilySpec>, fw: Seq<char>, text: Seq<char>, i: int)
    requires
        0 <= i <= fams.len(),
        forall|j: int|
            0 <= j < i ==> !(family_applies(#[trigger] fams[j], fw, text) && first_rule(
                fams[j].rules,
                text,
                0,
            ) is Some),
    ensures
        first_explained(fams, fw, text, 0) == first_explained(fams, fw, text, i),
    decreases i,
{
    if i > 0 {
        lemma_first_explained_skip(fams, fw, text, i - 1);
    }
}

fn to_strings(v: &Vec<&'static str>) -> (r: Vec<String>)
    ensures
        strs(r@) == strs_view(v@),
{
    let mut r: Vec<String> = Vec::new();
    let mut i: usize = 0;
    while i < v.len()
        invariant
            i <= v@.len(),
            r@.len() == i,
            forall|k: int| 0 <= k < i ==> #[trigger] r@[k]@ == v@[k]@,
        decreases v@.len() - i,
    {
        r.push(owned(v[i]));
        i = i + 1;
    }
    assert(strs(r@) =~= strs_view(v@));
    r
}

impl ToolchainExplainer {
    /// Recognizes a known toolchain failure in the output of a failed build
    /// of `framework` and explains it for target `target_name`; `None` when
    /// no known failure is recognized (see `spec_explain`; on ASCII input the
    /// lower-casing is ASCII's, see `explain_lowered`).
    pub fn explain_error(framework: &str, stderr: &str, stdout: &str, target_name: &str) -> (r: Option<ErrorExplanation>)
        ensures
            explains(r, spec_explain(framework@, stderr@, stdout@), target_name@),
            all_ascii(stderr@) && all_ascii(stdout@) ==> explains(
                r,
                explain_lowered(unicode_lower(framework@), ascii_lower(stderr@ + "\n"@ + stdout@)),
                target_name@,
            ),
            all_ascii(framework@) && all_ascii(stderr@) && all_ascii(stdout@) ==> explains(
                r,
                explain_lowered(ascii_lower(framework@), ascii_lower(stderr@ + "\n"@ + stdout@)),
                target_name@,
            ),
    {
        let first = concat_str(stderr, "\n");
        let raw = concat_str(first.as_str(), stdout);
        let lowered = to_lowercase(raw.as_str());
        let fw_lowered = to_lowercase(framework);
        let text = chars_of(lowered.as_str());
        let fw = chars_of(fw_lowered.as_str());
        proof {
            lemma_ascii_around_break(stderr@, stdout@);
        }
        let fams = vec![apple_family_table(), android_family_table(), rust_family_table(), tauri_family_table()];
        let ghost fv = fams@.map_values(|f: Family| family_view(&f));
        assert(fv =~= toolchain_families());
        let mut i: usize = 0;
        while i < fams.len()
            invariant
                i <= fams@.len(),
                fv == fams@.map_values(|f: Family| family_view(&f)),
                fv == toolchain_families(),
                text@ == unicode_lower(stderr@ + "\n"@ + stdout@),
                fw@ == unicode_lower(framework@),
                all_ascii(framework@) ==> fw@ == ascii_lower(framework@),
                all_ascii(stderr@) && all_ascii(stdout@) ==> text@ == ascii_lower(stderr@ + "\n"@ + stdout@),
                forall|j: int|
                    0 <= j < i ==> !(family_applies(#[trigger] fv[j], fw@, text@) && first_rule(
                        fv[j].rules,
                        text@,
                        0,
                    ) is Some),
            decreases fams@.len() - i,
        {
            let fam = &fams[i];
            assert(family_view(fam) == fv[i as int]);
            let applies = any_contained_exec(fw.as_slice(), &fam.fw_keys) || any_contained_exec(
                text.as_slice(),
                &fam.text_keys,
            );
            if applies {
                let found = first_rule_exec(&fam.rules, text.as_slice());
                if let Some(j) = found {
                    proof {
                        lemma_first_explained_skip(fv, fw@, text@, i as int);
                    }
                    let rule = &fam.rules[j];
                    assert(family_view(fam).rules[j as int] == rule_view(&fam.rules@[j as int]));
                    assert(rule_view(rule) == fv[i as int].rules[j as int]);
                    assert(family_applies(fv[i as int], fw@, text@));
                    assert(first_rule(fv[i as int].rules, text@, 0) == Some(j as int));
                    assert(first_explained(fv, fw@, text@, i as int) == Some(rule_view(rule)));
                    assert(spec_explain(framework@, stderr@, stdout@) == Some(rule_view(rule)));
                    let steps = to_strings(&rule.steps);
                    return Some(
                        Self::build_explanation(
                            rule.framework,
                            target_name,
                            rule.title,
                            rule.issue,
                            rule.fix_hint,
                            steps,
                        ),
                    );
                }
            }
            i = i + 1;
        }
        proof {
            lemma_first_explained_skip(fv, fw@, text@, i as int);
        }
        None
    }

    /// The explanation of a failure with the given facts, and its banner.
    fn build_explanation(
        framework: &str,
        target_name: &str,
        title: &str,
        issue: &str,
        fix_hint: &str,
        steps: Vec<String>,
    ) -> (e: ErrorExplanation)
        ensures
            e.framework@ == framework@,
            e.title@ == title@,
            e.issue@ == issue@,
            e.fix_hint@ == fix_hint@,
            strs(e.steps@) == strs(steps@),
            e.ansi_banner@ == banner(target_name@, framework@, title@, issue@, fix_hint@, strs(steps@)),
    {
        let mut banner_text = owned("\r\n");
        banner_text.append("\x1b[31;1m━━━━━━━━━━━━━━━━━━━━━━━━━━━━━━━━━━━━━━━━━━━━━━━━━━━━━━━━━━━━━━━━━━━━━━━━━━━━\x1b[0m\r\n");
        banner_text.append("\x1b[31;1m ✗ BUILD FAILED:\x1b[0m \x1b[1;37m");
        banner_text.append(target_name);
        banner_text.append(" [");
        banner_text.append(framework);
        banner_text.append("]\x1b[0m\r\n");
        banner_text.append("\x1b[33;1m 💡 Issue Detected:\x1b[0m \x1b[38;5;222m");
        banner_text.append(title);
        banner_text.append("\x1b[0m\r\n");
        banner_text.append("    \x1b[90m");
        banner_text.append(issue);
        banner_text.append("\x1b[0m\r\n");
        banner_text.append("\x1b[36;1m 🔧 How to Fix:\x1b[0m\r\n");
        let ghost head = banner_text@;
        let ghost sv = strs(steps@);
        let mut i: usize = 0;
        while i < steps.len()
            invariant
                i <= steps@.len(),
                sv == strs(steps@),
                banner_text@ == head + step_lines(sv.take(i as int)),
            decreases steps@.len() - i,
        {
            let number = to_decimal((i + 1) as u64);
            let number_text = string_of(number.as_slice());
            banner_text.append("    \x1b[36m");
            banner_text.append(number_text.as_str());
            banner_text.append(".\x1b[0m \x1b[97m");
            banner_text.append(steps[i].as_str());
            banner_text.append("\x1b[0m\r\n");
            assert(sv.take(i + 1).drop_last() =~= sv.take(i as int));
            i = i + 1;
        }
        assert(sv.take(steps@.len() as int) =~= sv);
        banner_text.append("\x1b[32;1m 📋 Quick Command:\x1b[0m \x1b[40;1;32m ");
        banner_text.append(fix_hint);
        banner_text.append(" \x1b[0m\r\n");
        banner_text.append("\x1b[31;1m━━━━━━━━━━━━━━━━━━━━━━━━━━━━━━━━━━━━━━━━━━━━━━━━━━━━━━━━━━━━━━━━━━━━━━━━━━━━\x1b[0m\r\n");
        ErrorExplanation {
            framework: owned(framework),
            title: owned(title),
            issue: owned(issue),
            fix_hint: owned(fix_hint),
            steps,
            ansi_banner: banner_text,
        }
    }
}


/// No character of `k` is a line break.
pub open spec fn line_free(k: Seq<char>) -> bool
    decreases k.len(),
{
    k.len() == 0 || (k[0] != '\n' && line_free(k.drop_first()))
}

/// No text of `keys` holds a line break.
pub open spec fn keys_line_free(keys: Seq<Seq<char>>) -> bool {
    forall|j: int| 0 <= j < keys.len() ==> line_free(#[trigger] keys[j])
}

/// No text the rule looks for holds a line break.
pub open spec fn rule_line_free(r: RuleSpec) -> bool {
    forall|g: int| 0 <= g < r.groups.len() ==> keys_line_free(#[trigger] r.groups[g])
}

/// No text the family looks for in the output holds a line break.
pub open spec fn family_line_free(f: FamilySpec) -> bool {
    keys_line_free(f.text_keys) && forall|j: int| 0 <= j < f.rules.len() ==> rule_line_free(#[trigger] f.rules[j])
}

/// `t1` and `t2` hold the same texts that have no line break.
pub open spec fn same_lines_texts(t1: Seq<char>, t2: Seq<char>) -> bool {
    forall|k: Seq<char>|
        #![trigger contains(t1, k)]
        #![trigger contains(t2, k)]
        line_free(k) ==> (contains(t1, k) <==> contains(t2, k))
}

proof fn lemma_line_free_at(k: Seq<char>, j: int)
    requires
        line_free(k),
        0 <= j < k.len(),
    ensures
        k[j] != '\n',
    decreases k.len(),
{
    if j > 0 {
        lemma_line_free_at(k.drop_first(), j - 1);
    }
}

proof fn lemma_line_free_concat(a: Seq<char>, b: Seq<char>)
    requires
        line_free(a),
        line_free(b),
    ensures
        line_free(a + b),
    decreases a.len(),
{
    if a.len() > 0 {
        lemma_line_free_concat(a.drop_first(), b);
        assert((a + b).drop_first() =~= a.drop_first() + b);
    } else {
        assert(a + b =~= b);
    }
}

/// A text without line breaks occurs in two pieces joined by a line break
/// exactly when it occurs in one of them.
proof fn lemma_contains_around_break(x: Seq<char>, y: Seq<char>, k: Seq<char>)
    requires
        line_free(k),
    ensures
        contains(x + "\n"@ + y, k) <==> (contains(x, k) || contains(y, k)),
{
    reveal_strlit("\n");
    let t = x + "\n"@ + y;
    let n = x.len() as int;
    assert(t.len() == n + 1 + y.len());
    assert(t[n] == '\n');
    if contains(t, k) {
        let i = choose|i: int| #[trigger] occurs_at(t, k, i);
        if i + k.len() <= n {
            assert(x.subrange(i, i + k.len()) =~= t.subrange(i, i + k.len()));
            assert(occurs_at(x, k, i));
        } else if i >= n + 1 {
            assert(y.subrange(i - n - 1, i - n - 1 + k.len()) =~= t.subrange(i, i + k.len()));
            assert(occurs_at(y, k, i - n - 1));
        } else {
            assert(t.subrange(i, i + k.len())[n - i] == t[n]);
            lemma_line_free_at(k, n - i);
        }
    }
    if contains(x, k) {
        let i = choose|i: int| #[trigger] occurs_at(x, k, i);
        assert(x.subrange(i, i + k.len()) =~= t.subrange(i, i + k.len()));
        assert(occurs_at(t, k, i));
    }
    if contains(y, k) {
        let i = choose|i: int| #[trigger] occurs_at(y, k, i);
        assert(y.subrange(i, i + k.len()) =~= t.subrange(i + n + 1, i + n + 1 + k.len()));
        assert(occurs_at(t, k, i + n + 1));
    }
}

proof fn lemma_swap_same_texts(x: Seq<char>, y: Seq<char>)
    ensures
        same_lines_texts(x + "\n"@ + y, y + "\n"@ + x),
{
    assert forall|k: Seq<char>| line_free(k) implies (contains(x + "\n"@ + y, k) <==> contains(y + "\n"@ + x, k)) by {
        lemma_contains_around_break(x, y, k);
        lemma_contains_around_break(y, x, k);
    }
}

proof fn lemma_any_contained_same(t1: Seq<char>, t2: Seq<char>, keys: Seq<Seq<char>>)
    requires
        keys_line_free(keys),
        same_lines_texts(t1, t2),
    ensures
        any_contained(t1, keys) == any_contained(t2, keys),
{
    if any_contained(t1, keys) {
        let k = choose|k: int| 0 <= k < keys.len() && #[trigger] contains(t1, keys[k]);
        assert(line_free(keys[k]));
        assert(contains(t2, keys[k]));
    }
    if any_contained(t2, keys) {
        let k = choose|k: int| 0 <= k < keys.len() && #[trigger] contains(t2, keys[k]);
        assert(line_free(keys[k]));
        assert(contains(t1, keys[k]));
    }
}

proof fn lemma_rule_matches_same(t1: Seq<char>, t2: Seq<char>, r: RuleSpec)
    requires
        rule_line_free(r),
        same_lines_texts(t1, t2),
    ensures
        rule_matches(r, t1) == rule_matches(r, t2),
{
    assert forall|g: int| 0 <= g < r.groups.len() implies
        any_contained(t1, #[trigger] r.groups[g]) == any_contained(t2, r.groups[g]) by {
        lemma_any_contained_same(t1, t2, r.groups[g]);
    }
}

proof fn lemma_first_rule_same(rules: Seq<RuleSpec>, t1: Seq<char>, t2: Seq<char>, i: int)
    requires
        forall|j: int| 0 <= j < rules.len() ==> rule_line_free(#[trigger] rules[j]),
        same_lines_texts(t1, t2),
    ensures
        first_rule(rules, t1, i) == first_rule(rules, t2, i),
    decreases rules.len() - i,
{
    if 0 <= i < rules.len() {
        lemma_rule_matches_same(t1, t2, rules[i]);
        lemma_first_rule_same(rules, t1, t2, i + 1);
    }
}

proof fn lemma_first_explained_same(fams: Seq<FamilySpec>, fw: Seq<char>, t1: Seq<char>, t2: Seq<char>, i: int)
    requires
        forall|j: int| 0 <= j < fams.len() ==> family_line_free(#[trigger] fams[j]),
        same_lines_texts(t1, t2),
    ensures
        first_explained(fams, fw, t1, i) == first_explained(fams, fw, t2, i),
    decreases fams.len() - i,
{
    if 0 <= i < fams.len() {
        assert(family_line_free(fams[i]));
        lemma_any_contained_same(t1, t2, fams[i].text_keys);
        lemma_first_rule_same(fams[i].rules, t1, t2, 0);
        lemma_first_explained_same(fams, fw, t1, t2, i + 1);
    }
}

proof fn lemma_ascii_around_break(a: Seq<char>, b: Seq<char>)
    ensures
        ascii_lower(a + "\n"@ + b) == ascii_lower(a) + "\n"@ + ascii_lower(b),
        all_ascii(a) && all_ascii(b) ==> all_ascii(a + "\n"@ + b),
{
    reveal_strlit("\n");
    assert(ascii_lower(a + "\n"@ + b) =~= ascii_lower(a) + "\n"@ + ascii_lower(b));
    if all_ascii(a) && all_ascii(b) {
        let t = a + "\n"@ + b;
        assert forall|i: int| 0 <= i < t.len() implies (#[trigger] t[i] as u32) < 128 by {
            if i < a.len() {
                assert(t[i] == a[i]);
            } else if i > a.len() {
                assert(t[i] == b[i - a.len() - 1]);
            }
        }
    }
}

proof fn lemma_apple_rule_1_line_free()
    ensures
        rule_line_free(apple_rule_1()),
{
    reveal_with_fuel(line_free, 34);
    reveal_strlit("tool 'xcodebuild' requires xcode");
    assert(line_free("tool 'xcodebuild' requires xcode"@));
    reveal_strlit("active developer directory '/library/developer/commandlinetools'");
    reveal_strlit("active developer directory '/lib");
    reveal_strlit("rary/developer/commandlinetools'");
    assert(line_free("active developer directory '/lib"@));
    assert(line_free("rary/developer/commandlinetools'"@));
    assert("active developer directory '/library/developer/commandlinetools'"@ =~= "active developer directory '/lib"@ + "rary/developer/commandlinetools'"@);
    lemma_line_free_concat("active developer directory '/lib"@, "rary/developer/commandlinetools'"@);
    let r = apple_rule_1();
    assert forall|g: int| 0 <= g < r.groups.len() implies keys_line_free(#[trigger] r.groups[g]) by {
        assert forall|j: int| 0 <= j < r.groups[g].len() implies line_free(#[trigger] r.groups[g][j]) by {}
    }
}

proof fn lemma_apple_rule_2_line_free()
    ensures
        rule_line_free(apple_rule_2()),
{
    reveal_with_fuel(line_free, 34);
    reveal_strlit("license agreement");
    assert(line_free("license agreement"@));
    reveal_strlit("agree to the xcode");
    assert(line_free("agree to the xcode"@));
    let r = apple_rule_2();
    assert forall|g: int| 0 <= g < r.groups.len() implies keys_line_free(#[trigger] r.groups[g]) by {
        assert forall|j: int| 0 <= j < r.groups[g].len() implies line_free(#[trigger] r.groups[g][j]) by {}
    }
}

proof fn lemma_apple_rule_3_line_free()
    ensures
        rule_line_free(apple_rule_3()),
{
    reveal_with_fuel(line_free, 34);
    reveal_strlit("unable to find sdk 'macosx'");
    assert(line_free("unable to find sdk 'macosx'"@));
    reveal_strlit("active developer path");
    assert(line_free("active developer path"@));
    reveal_strlit("xcode-select: error");
    assert(line_free("xcode-select: error"@));
    let r = apple_rule_3();
    assert forall|g: int| 0 <= g < r.groups.len() implies keys_line_free(#[trigger] r.groups[g]) by {
        assert forall|j: int| 0 <= j < r.groups[g].len() implies line_free(#[trigger] r.groups[g][j]) by {}
    }
}

proof fn lemma_apple_rule_4_line_free()
    ensures
        rule_line_free(apple_rule_4()),
{
    reveal_with_fuel(line_free, 34);
    reveal_strlit("cannot find module");
    assert(line_free("cannot find module"@));
    reveal_strlit("no such module");
    assert(line_free("no such module"@));
    reveal_strlit("missing package dependency");
    assert(line_free("missing package dependency"@));
    let r = apple_rule_4();
    assert forall|g: int| 0 <= g < r.groups.len() implies keys_line_free(#[trigger] r.groups[g]) by {
        assert forall|j: int| 0 <= j < r.groups[g].len() implies line_free(#[trigger] r.groups[g][j]) by {}
    }
}

proof fn lemma_apple_rule_5_line_free()
    ensures
        rule_line_free(apple_rule_5()),
{
    reveal_with_fuel(line_free, 34);
    reveal_strlit("database is locked");
    assert(line_free("database is locked"@));
    reveal_strlit("invalid build database");
    assert(line_free("invalid build database"@));
    reveal_strlit("corrupt build database");
    assert(line_free("corrupt build database"@));
    let r = apple_rule_5();
    assert forall|g: int| 0 <= g < r.groups.len() implies keys_line_free(#[trigger] r.groups[g]) by {
        assert forall|j: int| 0 <= j < r.groups[g].len() implies line_free(#[trigger] r.groups[g][j]) by {}
    }
}

proof fn lemma_android_rule_1_line_free()
    ensures
        rule_line_free(android_rule_1()),
{
    reveal_with_fuel(line_free, 34);
    reveal_strlit("java_home is not set");
    assert(line_free("java_home is not set"@));
    reveal_strlit("java: command not found");
    assert(line_free("java: command not found"@));
    reveal_strlit("could not find or load main class");
    assert(line_free("could not find or load main class"@));
    let r = android_rule_1();
    assert forall|g: int| 0 <= g < r.groups.len() implies keys_line_free(#[trigger] r.groups[g]) by {
        assert forall|j: int| 0 <= j < r.groups[g].len() implies line_free(#[trigger] r.groups[g][j]) by {}
    }
}

proof fn lemma_android_rule_2_line_free()
    ensures
        rule_line_free(android_rule_2()),
{
    reveal_with_fuel(line_free, 34);
    reveal_strlit("unsupported class file major version");
    reveal_strlit("unsupported class ");
    reveal_strlit("file major version");
    assert(line_free("unsupported class "@));
    assert(line_free("file major version"@));
    assert("unsupported class file major version"@ =~= "unsupported class "@ + "file major version"@);
    lemma_line_free_concat("unsupported class "@, "file major version"@);
    reveal_strlit("incompatible with this version of java");
    reveal_strlit("incompatible with t");
    reveal_strlit("his version of java");
    assert(line_free("incompatible with t"@));
    assert(line_free("his version of java"@));
    assert("incompatible with this version of java"@ =~= "incompatible with t"@ + "his version of java"@);
    lemma_line_free_concat("incompatible with t"@, "his version of java"@);
    let r = android_rule_2();
    assert forall|g: int| 0 <= g < r.groups.len() implies keys_line_free(#[trigger] r.groups[g]) by {
        assert forall|j: int| 0 <= j < r.groups[g].len() implies line_free(#[trigger] r.groups[g][j]) by {}
    }
}

proof fn lemma_android_rule_3_line_free()
    ensures
        rule_line_free(android_rule_3()),
{
    reveal_with_fuel(line_free, 34);
    reveal_strlit("sdk location not found");
    assert(line_free("sdk location not found"@));
    reveal_strlit("android_home");
    assert(line_free("android_home"@));
    reveal_strlit("sdk.dir");
    assert(line_free("sdk.dir"@));
    let r = android_rule_3();
    assert forall|g: int| 0 <= g < r.groups.len() implies keys_line_free(#[trigger] r.groups[g]) by {
        assert forall|j: int| 0 <= j < r.groups[g].len() implies line_free(#[trigger] r.groups[g][j]) by {}
    }
}

proof fn lemma_android_rule_4_line_free()
    ensures
        rule_line_free(android_rule_4()),
{
    reveal_with_fuel(line_free, 34);
    reveal_strlit("failed to find target with hash string 'android-");
    reveal_strlit("failed to find target wi");
    reveal_strlit("th hash string 'android-");
    assert(line_free("failed to find target wi"@));
    assert(line_free("th hash string 'android-"@));
    assert("failed to find target with hash string 'android-"@ =~= "failed to find target wi"@ + "th hash string 'android-"@);
    lemma_line_free_concat("failed to find target wi"@, "th hash string 'android-"@);
    reveal_strlit("platforms;android-");
    assert(line_free("platforms;android-"@));
    let r = android_rule_4();
    assert forall|g: int| 0 <= g < r.groups.len() implies keys_line_free(#[trigger] r.groups[g]) by {
        assert forall|j: int| 0 <= j < r.groups[g].len() implies line_free(#[trigger] r.groups[g][j]) by {}
    }
}

proof fn lemma_android_rule_5_line_free()
    ensures
        rule_line_free(android_rule_5()),
{
    reveal_with_fuel(line_free, 34);
    reveal_strlit("permission denied");
    assert(line_free("permission denied"@));
    reveal_strlit("gradlew");
    assert(line_free("gradlew"@));
    let r = android_rule_5();
    assert forall|g: int| 0 <= g < r.groups.len() implies keys_line_free(#[trigger] r.groups[g]) by {
        assert forall|j: int| 0 <= j < r.groups[g].len() implies line_free(#[trigger] r.groups[g][j]) by {}
    }
}

proof fn lemma_android_rule_6_line_free()
    ensures
        rule_line_free(android_rule_6()),
{
    reveal_with_fuel(line_free, 34);
    reveal_strlit("could not resolve all dependencies");
    reveal_strlit("could not resolve");
    reveal_strlit(" all dependencies");
    assert(line_free("could not resolve"@));
    assert(line_free(" all dependencies"@));
    assert("could not resolve all dependencies"@ =~= "could not resolve"@ + " all dependencies"@);
    lemma_line_free_concat("could not resolve"@, " all dependencies"@);
    reveal_strlit("connection refused");
    assert(line_free("connection refused"@));
    reveal_strlit("timed out");
    assert(line_free("timed out"@));
    let r = android_rule_6();
    assert forall|g: int| 0 <= g < r.groups.len() implies keys_line_free(#[trigger] r.groups[g]) by {
        assert forall|j: int| 0 <= j < r.groups[g].len() implies line_free(#[trigger] r.groups[g][j]) by {}
    }
}

proof fn lemma_rust_rule_1_line_free()
    ensures
        rule_line_free(rust_rule_1()),
{
    reveal_with_fuel(line_free, 34);
    reveal_strlit("linker `cc` not found");
    assert(line_free("linker `cc` not found"@));
    reveal_strlit("error: linker");
    assert(line_free("error: linker"@));
    reveal_strlit("clang: error");
    assert(line_free("clang: error"@));
    let r = rust_rule_1();
    assert forall|g: int| 0 <= g < r.groups.len() implies keys_line_free(#[trigger] r.groups[g]) by {
        assert forall|j: int| 0 <= j < r.groups[g].len() implies line_free(#[trigger] r.groups[g][j]) by {}
    }
}

proof fn lemma_rust_rule_2_line_free()
    ensures
        rule_line_free(rust_rule_2()),
{
    reveal_with_fuel(line_free, 34);
    reveal_strlit("openssl");
    assert(line_free("openssl"@));
    reveal_strlit("could not find directory");
    assert(line_free("could not find directory"@));
    reveal_strlit("openssl-sys");
    assert(line_free("openssl-sys"@));
    let r = rust_rule_2();
    assert forall|g: int| 0 <= g < r.groups.len() implies keys_line_free(#[trigger] r.groups[g]) by {
        assert forall|j: int| 0 <= j < r.groups[g].len() implies line_free(#[trigger] r.groups[g][j]) by {}
    }
}

proof fn lemma_rust_rule_3_line_free()
    ensures
        rule_line_free(rust_rule_3()),
{
    reveal_with_fuel(line_free, 34);
    reveal_strlit("pkg-config");
    assert(line_free("pkg-config"@));
    reveal_strlit("pkg_config");
    assert(line_free("pkg_config"@));
    let r = rust_rule_3();
    assert forall|g: int| 0 <= g < r.groups.len() implies keys_line_free(#[trigger] r.groups[g]) by {
        assert forall|j: int| 0 <= j < r.groups[g].len() implies line_free(#[trigger] r.groups[g][j]) by {}
    }
}

proof fn lemma_tauri_rule_1_line_free()
    ensures
        rule_line_free(tauri_rule_1()),
{
    reveal_with_fuel(line_free, 34);
    reveal_strlit("tauri: command not found");
    assert(line_free("tauri: command not found"@));
    reveal_strlit("cannot find module '@tauri-apps/cli'");
    reveal_strlit("cannot find module");
    reveal_strlit(" '@tauri-apps/cli'");
    assert(line_free("cannot find module"@));
    assert(line_free(" '@tauri-apps/cli'"@));
    assert("cannot find module '@tauri-apps/cli'"@ =~= "cannot find module"@ + " '@tauri-apps/cli'"@);
    lemma_line_free_concat("cannot find module"@, " '@tauri-apps/cli'"@);
    let r = tauri_rule_1();
    assert forall|g: int| 0 <= g < r.groups.len() implies keys_line_free(#[trigger] r.groups[g]) by {
        assert forall|j: int| 0 <= j < r.groups[g].len() implies line_free(#[trigger] r.groups[g][j]) by {}
    }
}

proof fn lemma_tauri_rule_2_line_free()
    ensures
        rule_line_free(tauri_rule_2()),
{
    reveal_with_fuel(line_free, 34);
    reveal_strlit("failed to build frontend");
    assert(line_free("failed to build frontend"@));
    reveal_strlit("vite: not found");
    assert(line_free("vite: not found"@));
    let r = tauri_rule_2();
    assert forall|g: int| 0 <= g < r.groups.len() implies keys_line_free(#[trigger] r.groups[g]) by {
        assert forall|j: int| 0 <= j < r.groups[g].len() implies line_free(#[trigger] r.groups[g][j]) by {}
    }
}

proof fn lemma_apple_family_line_free()
    ensures
        family_line_free(apple_family()),
{
    reveal_with_fuel(line_free, 8);
    reveal_strlit("swift");
    assert(line_free("swift"@));
    reveal_strlit("xcode");
    assert(line_free("xcode"@));
    lemma_apple_rule_1_line_free();
    lemma_apple_rule_2_line_free();
    lemma_apple_rule_3_line_free();
    lemma_apple_rule_4_line_free();
    lemma_apple_rule_5_line_free();
    let f = apple_family();
    assert forall|j: int| 0 <= j < f.text_keys.len() implies line_free(#[trigger] f.text_keys[j]) by {}
    assert forall|j: int| 0 <= j < f.rules.len() implies rule_line_free(#[trigger] f.rules[j]) by {}
}

proof fn lemma_android_family_line_free()
    ensures
        family_line_free(android_family()),
{
    reveal_with_fuel(line_free, 8);
    reveal_strlit("gradle");
    assert(line_free("gradle"@));
    reveal_strlit("android");
    assert(line_free("android"@));
    lemma_android_rule_1_line_free();
    lemma_android_rule_2_line_free();
    lemma_android_rule_3_line_free();
    lemma_android_rule_4_line_free();
    lemma_android_rule_5_line_free();
    lemma_android_rule_6_line_free();
    let f = android_family();
    assert forall|j: int| 0 <= j < f.text_keys.len() implies line_free(#[trigger] f.text_keys[j]) by {}
    assert forall|j: int| 0 <= j < f.rules.len() implies rule_line_free(#[trigger] f.rules[j]) by {}
}

proof fn lemma_rust_family_line_free()
    ensures
        family_line_free(rust_family()),
{
    reveal_with_fuel(line_free, 8);
    reveal_strlit("cargo");
    assert(line_free("cargo"@));
    reveal_strlit("rustc");
    assert(line_free("rustc"@));
    lemma_rust_rule_1_line_free();
    lemma_rust_rule_2_line_free();
    lemma_rust_rule_3_line_free();
    let f = rust_family();
    assert forall|j: int| 0 <= j < f.text_keys.len() implies line_free(#[trigger] f.text_keys[j]) by {}
    assert forall|j: int| 0 <= j < f.rules.len() implies rule_line_free(#[trigger] f.rules[j]) by {}
}

proof fn lemma_tauri_family_line_free()
    ensures
        family_line_free(tauri_family()),
{
    reveal_with_fuel(line_free, 8);
    reveal_strlit("tauri");
    assert(line_free("tauri"@));
    lemma_tauri_rule_1_line_free();
    lemma_tauri_rule_2_line_free();
    let f = tauri_family();
    assert forall|j: int| 0 <= j < f.text_keys.len() implies line_free(#[trigger] f.text_keys[j]) by {}
    assert forall|j: int| 0 <= j < f.rules.len() implies rule_line_free(#[trigger] f.rules[j]) by {}
}

proof fn lemma_toolchain_line_free()
    ensures
        forall|j: int| 0 <= j < toolchain_families().len() ==> family_line_free(#[trigger] toolchain_families()[j]),
{
    lemma_apple_family_line_free();
    lemma_android_family_line_free();
    lemma_rust_family_line_free();
    lemma_tauri_family_line_free();
    let fams = toolchain_families();
    assert forall|j: int| 0 <= j < fams.len() implies family_line_free(#[trigger] fams[j]) by {}
}

/// Whatever the framework, output searched as two parts joined by a line
/// break gets the same explanation with the parts swapped: no text looked
/// for holds a line break.
pub proof fn law_explain_swap_lowered(framework: Seq<char>, first: Seq<char>, second: Seq<char>)
    ensures
        explain_lowered(framework, first + "\n"@ + second) == explain_lowered(framework, second + "\n"@ + first),
{
    lemma_swap_same_texts(first, second);
    lemma_toolchain_line_free();
    lemma_first_explained_same(toolchain_families(), framework, first + "\n"@ + second, second + "\n"@ + first, 0);
}

/// Swapping a build's standard error and standard output, when both are
/// ASCII, changes nothing of the explanation, whatever the framework (given
/// lower-cased, as `explain_error` states it).
pub proof fn law_explain_swap_outputs(framework: Seq<char>, stderr: Seq<char>, stdout: Seq<char>)
    ensures
        explain_lowered(framework, ascii_lower(stderr + "\n"@ + stdout))
            == explain_lowered(framework, ascii_lower(stdout + "\n"@ + stderr)),
{
    lemma_ascii_around_break(stderr, stdout);
    lemma_ascii_around_break(stdout, stderr);
    law_explain_swap_lowered(framework, ascii_lower(stderr), ascii_lower(stdout));
}

/// Inputs that differ only in the case of their ASCII letters get the same
/// explanation.
pub proof fn law_explain_ignores_case(
    framework: Seq<char>,
    stderr: Seq<char>,
    stdout: Seq<char>,
    framework2: Seq<char>,
    stderr2: Seq<char>,
    stdout2: Seq<char>,
)
    requires
        ascii_lower(framework) == ascii_lower(framework2),
        ascii_lower(stderr) == ascii_lower(stderr2),
        ascii_lower(stdout) == ascii_lower(stdout2),
    ensures
        explain_lowered(ascii_lower(framework), ascii_lower(stderr + "\n"@ + stdout))
            == explain_lowered(ascii_lower(framework2), ascii_lower(stderr2 + "\n"@ + stdout2)),
{
    lemma_ascii_around_break(stderr, stdout);
    lemma_ascii_around_break(stderr2, stdout2);
}

/// The target's name shows only in the banner: two explanations of the same
/// failure for different targets agree in everything else.
pub proof fn law_explanation_target_only_in_banner(
    r1: Option<ErrorExplanation>,
    r2: Option<ErrorExplanation>,
    rule: Option<RuleSpec>,
    target1: Seq<char>,
    target2: Seq<char>,
)
    requires
        explains(r1, rule, target1),
        explains(r2, rule, target2),
    ensures
        r1 is Some <==> r2 is Some,
        r1 is Some ==> r1->0.framework@ == r2->0.framework@ && r1->0.title@ == r2->0.title@
            && r1->0.issue@ == r2->0.issue@ && r1->0.fix_hint@ == r2->0.fix_hint@
            && strs(r1->0.steps@) == strs(r2->0.steps@),
{
}

} // verus!
