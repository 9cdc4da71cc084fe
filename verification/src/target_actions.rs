//! The quick actions on a workspace target (launch the app, force-stop it,
//! clear its data, reinstall it, clean the build, open the IDE, free a
//! port, reveal the folder), as a state machine: from the request, the
//! state and what the last step found, the next state and what to do next.
//! Doing it (inspecting the project, looking at files, running tools)
//! stays with the caller, which reports back what it found.
use vstd::prelude::*;
use crate::config::{opt_text, strs};
use crate::paths::{join, path_join};
use crate::text::{chars_of, concat_str, contains, contains_chars, has_char, owned, to_lowercase, trim, unicode_lower};

verus! {

/// A request to act on a target.
pub struct CustomTargetActionRequest {
    pub target_id: String,
    pub target_path: String,
    pub framework: String,
    pub action: String,
    pub device_id: Option<String>,
    pub port: Option<u16>,
}

/// A request to start a target.
pub struct StartTargetRequest {
    pub target_id: String,
    pub target_path: String,
    pub framework: String,
    pub device_id: Option<String>,
}

/// A request naming a running target.
pub struct TargetActionRequest {
    pub target_id: String,
}

/// How running a tool went.
pub enum RunOutcome {
    /// It exited successfully.
    Success { stdout: String, stderr: String },
    /// It exited with a failure.
    Failure { stdout: String, stderr: String },
    /// It could not be started; the error text.
    SpawnError(String),
}

/// A program run with its arguments, in the target's directory or not.
pub struct RunCommand {
    pub program: String,
    pub args: Vec<String>,
    pub in_dir: bool,
}

/// The answer to a request: success with a message, or failure with an
/// error.
pub struct ActionReply {
    pub success: bool,
    pub text: String,
}

/// What the caller does next.
pub enum ActionEffect {
    /// Inspect the Android project at the target's path; report
    /// `ActionEvent::Inspected`.
    InspectAndroid,
    /// Look whether this path exists; report `ActionEvent::Exists`.
    CheckExists(String),
    /// Look for a built APK, debug then release; report
    /// `ActionEvent::ApkFound`.
    FindApk,
    /// Run this command; report `ActionEvent::Ran`.
    Run(RunCommand),
    /// Answer the request; nothing more follows.
    Reply(ActionReply),
}

/// What the caller found.
pub enum ActionEvent {
    /// The request arrived.
    Start,
    /// The package name and launcher activity of the Android project.
    Inspected { package: Option<String>, activity: Option<String> },
    /// Whether the path looked at exists.
    Exists(bool),
    /// The APK found, if any.
    ApkFound(Option<String>),
    /// How the command went.
    Ran(RunOutcome),
}

/// Where an action stands.
pub enum ActionState {
    /// Nothing was done yet.
    Begin,
    /// The Android project is being inspected.
    AwaitInspect,
    /// `adb` was asked to start the app of this package.
    AwaitAdbLaunch(String),
    /// The existence of this built Swift binary is looked at.
    AwaitBinary(String),
    /// A built APK is looked for.
    AwaitApk,
    /// `adb` was asked to install this APK.
    AwaitDirectInstall(String),
    /// The existence of the Gradle wrapper is looked at, to install (or,
    /// when `true`, to clean).
    AwaitGradlew(bool),
    /// Gradle, run as this program, installs the app.
    AwaitGradleInstall(String),
    /// The IDE was asked to open the project; the message of success.
    AwaitIde(String),
    /// A command runs; whatever it gives, this is the answer.
    ThenReply(bool, String),
    /// The request was answered.
    Done,
}

/// The contents of a command.
pub struct RunView {
    pub program: Seq<char>,
    pub args: Seq<Seq<char>>,
    pub in_dir: bool,
}

/// The contents of an effect.
pub enum EffectView {
    InspectAndroid,
    CheckExists(Seq<char>),
    FindApk,
    Run(RunView),
    Reply(bool, Seq<char>),
}

/// The contents of a state.
pub enum StateView {
    Begin,
    AwaitInspect,
    AwaitAdbLaunch(Seq<char>),
    AwaitBinary(Seq<char>),
    AwaitApk,
    AwaitDirectInstall(Seq<char>),
    AwaitGradlew(bool),
    AwaitGradleInstall(Seq<char>),
    AwaitIde(Seq<char>),
    ThenReply(bool, Seq<char>),
    Done,
}

/// The contents of a run's outcome.
pub enum OutcomeView {
    Success(Seq<char>, Seq<char>),
    Failure(Seq<char>, Seq<char>),
    SpawnError(Seq<char>),
}

/// The contents of an event.
pub enum EventView {
    Start,
    Inspected(Option<Seq<char>>, Option<Seq<char>>),
    Exists(bool),
    ApkFound(Option<Seq<char>>),
    Ran(OutcomeView),
}

/// The contents of a request, with the framework lower-cased.
pub struct RequestView {
    pub target_id: Seq<char>,
    pub target_path: Seq<char>,
    pub fw: Seq<char>,
    pub action: Seq<char>,
    pub device_id: Option<Seq<char>>,
    pub port: Option<u16>,
}

/// The contents of a request, with the framework lower-cased.
pub open spec fn request_view(r: CustomTargetActionRequest) -> RequestView {
    RequestView {
        target_id: r.target_id@,
        target_path: r.target_path@,
        fw: unicode_lower(r.framework@),
        action: r.action@,
        device_id: opt_text(r.device_id),
        port: r.port,
    }
}

/// The contents of a command.
pub open spec fn run_view(c: RunCommand) -> RunView {
    RunView { program: c.program@, args: strs(c.args@), in_dir: c.in_dir }
}

/// The contents of an effect.
pub open spec fn effect_view(e: ActionEffect) -> EffectView {
    match e {
        ActionEffect::InspectAndroid => EffectView::InspectAndroid,
        ActionEffect::CheckExists(p) => EffectView::CheckExists(p@),
        ActionEffect::FindApk => EffectView::FindApk,
        ActionEffect::Run(c) => EffectView::Run(run_view(c)),
        ActionEffect::Reply(r) => EffectView::Reply(r.success, r.text@),
    }
}

/// The contents of a state.
pub open spec fn state_view(s: ActionState) -> StateView {
    match s {
        ActionState::Begin => StateView::Begin,
        ActionState::AwaitInspect => StateView::AwaitInspect,
        ActionState::AwaitAdbLaunch(p) => StateView::AwaitAdbLaunch(p@),
        ActionState::AwaitBinary(p) => StateView::AwaitBinary(p@),
        ActionState::AwaitApk => StateView::AwaitApk,
        ActionState::AwaitDirectInstall(p) => StateView::AwaitDirectInstall(p@),
        ActionState::AwaitGradlew(c) => StateView::AwaitGradlew(c),
        ActionState::AwaitGradleInstall(p) => StateView::AwaitGradleInstall(p@),
        ActionState::AwaitIde(m) => StateView::AwaitIde(m@),
        ActionState::ThenReply(ok, m) => StateView::ThenReply(ok, m@),
        ActionState::Done => StateView::Done,
    }
}

/// The contents of an event.
pub open spec fn event_view(e: ActionEvent) -> EventView {
    match e {
        ActionEvent::Start => EventView::Start,
        ActionEvent::Inspected { package, activity } => EventView::Inspected(opt_text(package), opt_text(activity)),
        ActionEvent::Exists(b) => EventView::Exists(b),
        ActionEvent::ApkFound(a) => EventView::ApkFound(opt_text(a)),
        ActionEvent::Ran(o) => EventView::Ran(
            match o {
                RunOutcome::Success { stdout, stderr } => OutcomeView::Success(stdout@, stderr@),
                RunOutcome::Failure { stdout, stderr } => OutcomeView::Failure(stdout@, stderr@),
                RunOutcome::SpawnError(e) => OutcomeView::SpawnError(e@),
            },
        ),
    }
}

/// Whether the event is what the state waits for.
pub open spec fn expects(s: StateView, e: EventView) -> bool {
    match s {
        StateView::Begin => e is Start,
        StateView::AwaitInspect => e is Inspected,
        StateView::AwaitBinary(_) | StateView::AwaitGradlew(_) => e is Exists,
        StateView::AwaitApk => e is ApkFound,
        StateView::AwaitAdbLaunch(_) | StateView::AwaitDirectInstall(_) | StateView::AwaitGradleInstall(_)
        | StateView::AwaitIde(_) | StateView::ThenReply(_, _) => e is Ran,
        StateView::Done => false,
    }
}

/// The target is an Android one.
pub open spec fn is_android(fw: Seq<char>) -> bool {
    contains(fw, "kotlin"@) || contains(fw, "android"@)
}

/// The target is a Swift one.
pub open spec fn is_swift(fw: Seq<char>) -> bool {
    contains(fw, "swift"@)
}

/// The target is served by a web dev server.
pub open spec fn is_web(fw: Seq<char>) -> bool {
    contains(fw, "web"@) || contains(fw, "generic"@) || contains(fw, "node"@) || contains(fw, "react"@)
}

/// The target is a Rust one.
pub open spec fn is_rust(fw: Seq<char>) -> bool {
    contains(fw, "rust"@)
}

/// The arguments of `adb`, aimed at the device when one is given.
pub open spec fn adb_args(device: Option<Seq<char>>, rest: Seq<Seq<char>>) -> Seq<Seq<char>> {
    match device {
        Some(d) => seq!["-s"@, d] + rest,
        None => rest,
    }
}

/// The component `am start` is given: an activity starting with `.` is
/// relative to the package, one with a `/` is complete, any other is put
/// after the package and a `/`.
pub open spec fn start_component(pkg: Seq<char>, act: Seq<char>) -> Seq<char> {
    if act.len() > 0 && act[0] == '.' {
        pkg + act
    } else if act.contains('/') {
        act
    } else {
        pkg + "/"@ + act
    }
}

/// The port of a web target: the one asked for, else 3000.
pub open spec fn port_of(r: RequestView) -> u16 {
    match r.port {
        Some(p) => p,
        None => 3000,
    }
}

/// A command run in the target's directory or not.
pub open spec fn cmd(program: Seq<char>, args: Seq<Seq<char>>, in_dir: bool) -> EffectView {
    EffectView::Run(RunView { program, args, in_dir })
}

/// The Swift binary a launch opens.
pub open spec fn swift_bin(r: RequestView) -> Seq<char> {
    path_join(path_join(r.target_path, ".build/debug"@), r.target_id)
}

/// The Gradle wrapper of the target.
pub open spec fn gradlew_path(r: RequestView) -> Seq<char> {
    path_join(r.target_path, "gradlew"@)
}

/// The first step of an action.
pub open spec fn spec_begin(r: RequestView) -> (StateView, EffectView) {
    let a = r.action;
    let fw = r.fw;
    if a == "launch_app"@ {
        if is_android(fw) {
            (StateView::AwaitInspect, EffectView::InspectAndroid)
        } else if is_swift(fw) {
            (StateView::AwaitBinary(swift_bin(r)), EffectView::CheckExists(swift_bin(r)))
        } else if is_web(fw) {
            let url = "http://localhost:"@ + crate::number::decimal(port_of(r) as nat);
            (StateView::ThenReply(true, "Opened "@ + url), cmd("open"@, seq![url], false))
        } else {
            (StateView::Done, EffectView::Reply(true, "Launch requested"@))
        }
    } else if a == "force_stop"@ {
        if is_android(fw) {
            (StateView::AwaitInspect, EffectView::InspectAndroid)
        } else {
            (
                StateView::ThenReply(true, "Force stopped target "@ + r.target_id),
                cmd("pkill"@, seq!["-9"@, "-f"@, r.target_id], false),
            )
        }
    } else if a == "clear_data"@ {
        if is_android(fw) {
            (StateView::AwaitInspect, EffectView::InspectAndroid)
        } else {
            (StateView::Done, EffectView::Reply(false, "Clear data only supported for Android targets"@))
        }
    } else if a == "reinstall_apk"@ {
        if is_android(fw) {
            (StateView::AwaitApk, EffectView::FindApk)
        } else {
            (StateView::Done, EffectView::Reply(false, "Install APK only supported for Android targets"@))
        }
    } else if a == "clean_cache"@ || a == "clean_build"@ {
        if is_android(fw) {
            (StateView::AwaitGradlew(true), EffectView::CheckExists(gradlew_path(r)))
        } else if is_swift(fw) {
            (
                StateView::ThenReply(true, "Swift package clean finished"@),
                cmd("swift"@, seq!["package"@, "clean"@], true),
            )
        } else if is_rust(fw) {
            (StateView::ThenReply(true, "Cargo clean finished"@), cmd("cargo"@, seq!["clean"@], true))
        } else {
            (
                StateView::ThenReply(true, "Cleaned build caches"@),
                cmd("rm"@, seq!["-rf"@, "node_modules/.vite"@, ".next"@, "dist"@], true),
            )
        }
    } else if a == "open_ide"@ {
        let (app, msg) = if is_android(fw) {
            ("Android Studio"@, "Opened in Android Studio"@)
        } else if is_swift(fw) {
            ("Xcode"@, "Opened in Xcode"@)
        } else {
            ("Visual Studio Code"@, "Opened project in IDE"@)
        };
        (StateView::AwaitIde(msg), cmd("open"@, seq!["-a"@, app, r.target_path], false))
    } else if a == "free_port"@ {
        let p = crate::number::decimal(port_of(r) as nat);
        (
            StateView::ThenReply(true, "Freed port "@ + p),
            cmd("sh"@, seq!["-c"@, "lsof -ti :"@ + p + " | xargs kill -9"@], false),
        )
    } else if a == "reveal_finder"@ {
        (StateView::ThenReply(true, "Revealed in macOS Finder"@), cmd("open"@, seq!["-R"@, r.target_path], false))
    } else {
        (StateView::Done, EffectView::Reply(false, "Unknown action '"@ + a + "'"@))
    }
}

/// The step after the Android project was inspected.
pub open spec fn spec_inspected(r: RequestView, pkg: Option<Seq<char>>, act: Option<Seq<char>>) -> (StateView, EffectView) {
    let a = r.action;
    match pkg {
        Some(p) => if a == "launch_app"@ {
            let rest = match act {
                Some(x) => seq!["shell"@, "am"@, "start"@, "-n"@, start_component(p, x)],
                None => seq!["shell"@, "monkey"@, "-p"@, p, "-c"@, "android.intent.category.LAUNCHER"@, "1"@],
            };
            (StateView::AwaitAdbLaunch(p), cmd("adb"@, adb_args(r.device_id, rest), false))
        } else if a == "force_stop"@ {
            (
                StateView::ThenReply(true, "Force stopped package "@ + p),
                cmd("adb"@, adb_args(r.device_id, seq!["shell"@, "am"@, "force-stop"@, p]), false),
            )
        } else {
            (
                StateView::ThenReply(true, "Cleared data for "@ + p),
                cmd("adb"@, adb_args(r.device_id, seq!["shell"@, "pm"@, "clear"@, p]), false),
            )
        },
        None => if a == "launch_app"@ {
            (StateView::Done, EffectView::Reply(true, "Launch requested"@))
        } else if a == "force_stop"@ {
            (
                StateView::ThenReply(true, "Force stopped target "@ + r.target_id),
                cmd("pkill"@, seq!["-9"@, "-f"@, r.target_id], false),
            )
        } else {
            (StateView::Done, EffectView::Reply(false, "Clear data only supported for Android targets"@))
        },
    }
}

/// The answer once `adb` was asked to start the app: a failure when it
/// failed or its output tells of an error, with what it wrote; else the
/// package and what `adb` said.
pub open spec fn spec_adb_launched(p: Seq<char>, o: OutcomeView) -> EffectView {
    match o {
        OutcomeView::Success(out, err) => if contains(out, "Error:"@) || contains(out, "does not exist"@)
            || contains(err, "no devices"@) {
            EffectView::Reply(
                false,
                if err.len() > 0 {
                    trim(err)
                } else {
                    trim(out)
                },
            )
        } else {
            EffectView::Reply(true, "Launched "@ + p + ": "@ + trim(out))
        },
        OutcomeView::Failure(_, err) => EffectView::Reply(
            false,
            if err.len() > 0 {
                trim(err)
            } else {
                "ADB am start failed"@
            },
        ),
        OutcomeView::SpawnError(e) => EffectView::Reply(false, "Failed to run adb: "@ + e),
    }
}

/// The name of a path's last component (std's `Path::file_name`), if any.
pub uninterp spec fn path_file_name_of(p: Seq<char>) -> Option<Seq<char>>;

/// Calls std's `Path::file_name`. The result is named `path_file_name_of`
/// of the path; what std takes for the last component is not stated.
#[verifier::external_body]
fn path_file_name(p: &str) -> (r: Option<String>)
    ensures
        opt_text(r) == path_file_name_of(p@),
{
    match std::path::Path::new(p).file_name() {
        Some(n) => Some(n.to_string_lossy().to_string()),
        None => None,
    }
}

/// The next state and effect (see the `spec_*` steps): from the request,
/// the state and what the last effect found.
pub open spec fn spec_step(r: RequestView, s: StateView, e: EventView) -> (StateView, EffectView) {
    match (s, e) {
        (StateView::Begin, _) => spec_begin(r),
        (StateView::AwaitInspect, EventView::Inspected(p, a)) => spec_inspected(r, p, a),
        (StateView::AwaitAdbLaunch(p), EventView::Ran(o)) => (StateView::Done, spec_adb_launched(p, o)),
        (StateView::AwaitBinary(b), EventView::Exists(x)) => if x {
            (StateView::ThenReply(true, "Launched binary "@ + b), cmd("open"@, seq![b], false))
        } else {
            (StateView::Done, EffectView::Reply(false, "Binary not found at "@ + b + ". Build with Run first."@))
        },
        (StateView::AwaitApk, EventView::ApkFound(f)) => match f {
            Some(apk) => (StateView::AwaitDirectInstall(apk), cmd("adb"@, adb_args(r.device_id, seq!["install"@, "-r"@, apk]), false)),
            None => (StateView::AwaitGradlew(false), EffectView::CheckExists(gradlew_path(r))),
        },
        (StateView::AwaitDirectInstall(apk), EventView::Ran(o)) => if o is Success {
            (
                StateView::Done,
                EffectView::Reply(
                    true,
                    "Directly installed "@ + match path_file_name_of(apk) {
                        Some(n) => n,
                        None => "app.apk"@,
                    } + " to device via ADB."@,
                ),
            )
        } else {
            (StateView::AwaitGradlew(false), EffectView::CheckExists(gradlew_path(r)))
        },
        (StateView::AwaitGradlew(clean), EventView::Exists(x)) => {
            let g = if x {
                "./gradlew"@
            } else {
                "gradle"@
            };
            if clean {
                (StateView::ThenReply(true, "Gradle clean finished"@), cmd(g, seq!["clean"@], true))
            } else {
                (StateView::AwaitGradleInstall(g), cmd(g, seq!["installDebug"@], true))
            }
        },
        (StateView::AwaitGradleInstall(g), EventView::Ran(o)) => (
            StateView::Done,
            match o {
                OutcomeView::Success(_, _) => EffectView::Reply(
                    true,
                    "Successfully compiled & installed APK on device via Gradle."@,
                ),
                OutcomeView::Failure(_, err) => EffectView::Reply(false, "Gradle installDebug failed: "@ + err),
                OutcomeView::SpawnError(x) => EffectView::Reply(false, "Failed to execute "@ + g + ": "@ + x),
            },
        ),
        (StateView::AwaitIde(m), EventView::Ran(o)) => if o is Success {
            (StateView::Done, EffectView::Reply(true, m))
        } else {
            (StateView::ThenReply(true, m), cmd("open"@, seq![r.target_path], false))
        },
        (StateView::ThenReply(ok, m), EventView::Ran(_)) => (StateView::Done, EffectView::Reply(ok, m)),
        _ => (StateView::Done, EffectView::Reply(false, Seq::empty())),
    }
}

/// How many steps at most are left before the answer.
pub open spec fn rank(s: StateView) -> nat {
    match s {
        StateView::Begin => 6,
        StateView::AwaitApk => 5,
        StateView::AwaitDirectInstall(_) => 4,
        StateView::AwaitInspect | StateView::AwaitBinary(_) | StateView::AwaitGradlew(_) => 3,
        StateView::AwaitAdbLaunch(_) | StateView::AwaitGradleInstall(_) | StateView::AwaitIde(_) => 2,
        StateView::ThenReply(_, _) => 1,
        StateView::Done => 0,
    }
}

fn text_is(s: &str, lit: &str) -> (r: bool)
    ensures
        r == (s@ == lit@),
{
    let a = chars_of(s);
    crate::config::is_text(a.as_slice(), lit)
}

fn has_text(s: &str, lit: &str) -> (r: bool)
    ensures
        r == contains(s@, lit@),
{
    let a = chars_of(s);
    let b = chars_of(lit);
    contains_chars(a.as_slice(), b.as_slice())
}

fn list1(a: &str) -> (r: Vec<String>)
    ensures
        strs(r@) == seq![a@],
{
    let r = vec![owned(a)];
    assert(strs(r@) =~= seq![a@]);
    r
}

fn list2(a: &str, b: &str) -> (r: Vec<String>)
    ensures
        strs(r@) == seq![a@, b@],
{
    let r = vec![owned(a), owned(b)];
    assert(strs(r@) =~= seq![a@, b@]);
    r
}

fn list3(a: &str, b: &str, c: &str) -> (r: Vec<String>)
    ensures
        strs(r@) == seq![a@, b@, c@],
{
    let r = vec![owned(a), owned(b), owned(c)];
    assert(strs(r@) =~= seq![a@, b@, c@]);
    r
}

fn list4(a: &str, b: &str, c: &str, d: &str) -> (r: Vec<String>)
    ensures
        strs(r@) == seq![a@, b@, c@, d@],
{
    let r = vec![owned(a), owned(b), owned(c), owned(d)];
    assert(strs(r@) =~= seq![a@, b@, c@, d@]);
    r
}

fn list5(a: &str, b: &str, c: &str, d: &str, e: &str) -> (r: Vec<String>)
    ensures
        strs(r@) == seq![a@, b@, c@, d@, e@],
{
    let r = vec![owned(a), owned(b), owned(c), owned(d), owned(e)];
    assert(strs(r@) =~= seq![a@, b@, c@, d@, e@]);
    r
}

fn list7(a: &str, b: &str, c: &str, d: &str, e: &str, f: &str, g: &str) -> (r: Vec<String>)
    ensures
        strs(r@) == seq![a@, b@, c@, d@, e@, f@, g@],
{
    let r = vec![owned(a), owned(b), owned(c), owned(d), owned(e), owned(f), owned(g)];
    assert(strs(r@) =~= seq![a@, b@, c@, d@, e@, f@, g@]);
    r
}

fn run(program: &str, args: Vec<String>, in_dir: bool) -> (e: ActionEffect)
    ensures
        effect_view(e) == cmd(program@, strs(args@), in_dir),
{
    ActionEffect::Run(RunCommand { program: owned(program), args, in_dir })
}

fn reply(success: bool, text: String) -> (e: ActionEffect)
    ensures
        effect_view(e) == EffectView::Reply(success, text@),
{
    ActionEffect::Reply(ActionReply { success, text })
}

fn with_device(device: &Option<String>, rest: Vec<String>) -> (r: Vec<String>)
    ensures
        strs(r@) == adb_args(opt_text(*device), strs(rest@)),
{
    match device {
        Some(d) => {
            let mut a = vec![owned("-s"), owned(d.as_str())];
            let mut b = rest;
            let ghost a0 = strs(a@);
            let ghost b0 = strs(b@);
            a.append(&mut b);
            assert(strs(a@) =~= a0 + b0);
            assert(a0 =~= seq!["-s"@, d@]);
            a
        },
        None => rest,
    }
}

fn port_text(port: Option<u16>) -> (r: String)
    ensures
        r@ == crate::number::decimal(
            match port {
                Some(p) => p,
                None => 3000u16,
            } as nat,
        ),
{
    let p: u16 = match port {
        Some(p) => p,
        None => 3000,
    };
    let d = crate::number::to_decimal(p as u64);
    crate::text::string_of(d.as_slice())
}

fn first_step(req: &CustomTargetActionRequest, fw: &str) -> (r: (ActionState, ActionEffect))
    requires
        fw@ == unicode_lower(req.framework@),
    ensures
        (state_view(r.0), effect_view(r.1)) == spec_begin(request_view(*req)),
{
    let a = req.action.as_str();
    let android = has_text(fw, "kotlin") || has_text(fw, "android");
    let swift = has_text(fw, "swift");
    if text_is(a, "launch_app") {
        if android {
            (ActionState::AwaitInspect, ActionEffect::InspectAndroid)
        } else if swift {
            let d = join(req.target_path.as_str(), ".build/debug");
            let bin = join(d.as_str(), req.target_id.as_str());
            let b2 = owned(bin.as_str());
            (ActionState::AwaitBinary(bin), ActionEffect::CheckExists(b2))
        } else if has_text(fw, "web") || has_text(fw, "generic") || has_text(fw, "node") || has_text(fw, "react") {
            let p = port_text(req.port);
            let url = concat_str("http://localhost:", p.as_str());
            let msg = concat_str("Opened ", url.as_str());
            let args = vec![url];
            proof {
                assert(strs(args@) =~= seq![args@[0]@]);
            }
            (ActionState::ThenReply(true, msg), run("open", args, false))
        } else {
            (ActionState::Done, reply(true, owned("Launch requested")))
        }
    } else if text_is(a, "force_stop") {
        if android {
            (ActionState::AwaitInspect, ActionEffect::InspectAndroid)
        } else {
            let msg = concat_str("Force stopped target ", req.target_id.as_str());
            let args = list3("-9", "-f", req.target_id.as_str());
            (ActionState::ThenReply(true, msg), run("pkill", args, false))
        }
    } else if text_is(a, "clear_data") {
        if android {
            (ActionState::AwaitInspect, ActionEffect::InspectAndroid)
        } else {
            (ActionState::Done, reply(false, owned("Clear data only supported for Android targets")))
        }
    } else if text_is(a, "reinstall_apk") {
        if android {
            (ActionState::AwaitApk, ActionEffect::FindApk)
        } else {
            (ActionState::Done, reply(false, owned("Install APK only supported for Android targets")))
        }
    } else if text_is(a, "clean_cache") || text_is(a, "clean_build") {
        if android {
            (ActionState::AwaitGradlew(true), ActionEffect::CheckExists(join(req.target_path.as_str(), "gradlew")))
        } else if swift {
            let args = list2("package", "clean");
            (ActionState::ThenReply(true, owned("Swift package clean finished")), run("swift", args, true))
        } else if has_text(fw, "rust") {
            let args = list1("clean");
            (ActionState::ThenReply(true, owned("Cargo clean finished")), run("cargo", args, true))
        } else {
            let args = list4("-rf", "node_modules/.vite", ".next", "dist");
            (ActionState::ThenReply(true, owned("Cleaned build caches")), run("rm", args, true))
        }
    } else if text_is(a, "open_ide") {
        let (app, msg) = if android {
            ("Android Studio", "Opened in Android Studio")
        } else if swift {
            ("Xcode", "Opened in Xcode")
        } else {
            ("Visual Studio Code", "Opened project in IDE")
        };
        let args = list3("-a", app, req.target_path.as_str());
        (ActionState::AwaitIde(owned(msg)), run("open", args, false))
    } else if text_is(a, "free_port") {
        let p = port_text(req.port);
        let m = concat_str("Freed port ", p.as_str());
        let c1 = concat_str("lsof -ti :", p.as_str());
        let c2 = concat_str(c1.as_str(), " | xargs kill -9");
        let args = vec![owned("-c"), c2];
        proof {
            assert(strs(args@) =~= seq!["-c"@, args@[1]@]);
        }
        (ActionState::ThenReply(true, m), run("sh", args, false))
    } else if text_is(a, "reveal_finder") {
        let args = list2("-R", req.target_path.as_str());
        (ActionState::ThenReply(true, owned("Revealed in macOS Finder")), run("open", args, false))
    } else {
        let m1 = concat_str("Unknown action '", a);
        (ActionState::Done, reply(false, concat_str(m1.as_str(), "'")))
    }
}

fn trimmed_str(s: &str) -> (r: String)
    ensures
        r@ == trim(s@),
{
    crate::doctor::trimmed(s)
}

fn after_inspect(req: &CustomTargetActionRequest, pkg: &Option<String>, act: &Option<String>) -> (r: (ActionState, ActionEffect))
    ensures
        (state_view(r.0), effect_view(r.1)) == spec_inspected(request_view(*req), opt_text(*pkg), opt_text(*act)),
{
    let a = req.action.as_str();
    match pkg {
        Some(p) => {
            if text_is(a, "launch_app") {
                let rest = match act {
                    Some(x) => {
                        let xc = chars_of(x.as_str());
                        let comp = if xc.len() > 0 && xc[0] == '.' {
                            concat_str(p.as_str(), x.as_str())
                        } else if has_char(xc.as_slice(), '/') {
                            owned(x.as_str())
                        } else {
                            let p1 = concat_str(p.as_str(), "/");
                            concat_str(p1.as_str(), x.as_str())
                        };
                        list5("shell", "am", "start", "-n", comp.as_str())
                    },
                    None => list7("shell", "monkey", "-p", p.as_str(), "-c", "android.intent.category.LAUNCHER", "1"),
                };
                let args = with_device(&req.device_id, rest);
                (ActionState::AwaitAdbLaunch(owned(p.as_str())), run("adb", args, false))
            } else if text_is(a, "force_stop") {
                let args = with_device(&req.device_id, list4("shell", "am", "force-stop", p.as_str()));
                (ActionState::ThenReply(true, concat_str("Force stopped package ", p.as_str())), run("adb", args, false))
            } else {
                let args = with_device(&req.device_id, list4("shell", "pm", "clear", p.as_str()));
                (ActionState::ThenReply(true, concat_str("Cleared data for ", p.as_str())), run("adb", args, false))
            }
        },
        None => {
            if text_is(a, "launch_app") {
                (ActionState::Done, reply(true, owned("Launch requested")))
            } else if text_is(a, "force_stop") {
                let msg = concat_str("Force stopped target ", req.target_id.as_str());
                let args = list3("-9", "-f", req.target_id.as_str());
                (ActionState::ThenReply(true, msg), run("pkill", args, false))
            } else {
                (ActionState::Done, reply(false, owned("Clear data only supported for Android targets")))
            }
        },
    }
}

fn adb_launched(p: &str, o: &RunOutcome) -> (e: ActionEffect)
    ensures
        effect_view(e) == spec_adb_launched(
            p@,
            match *o {
                RunOutcome::Success { stdout, stderr } => OutcomeView::Success(stdout@, stderr@),
                RunOutcome::Failure { stdout, stderr } => OutcomeView::Failure(stdout@, stderr@),
                RunOutcome::SpawnError(e) => OutcomeView::SpawnError(e@),
            },
        ),
{
    match o {
        RunOutcome::Success { stdout, stderr } => {
            if has_text(stdout.as_str(), "Error:") || has_text(stdout.as_str(), "does not exist") || has_text(
                stderr.as_str(),
                "no devices",
            ) {
                let t = if stderr.as_str().unicode_len() > 0 {
                    trimmed_str(stderr.as_str())
                } else {
                    trimmed_str(stdout.as_str())
                };
                reply(false, t)
            } else {
                let a = concat_str("Launched ", p);
                let b = concat_str(a.as_str(), ": ");
                let t = trimmed_str(stdout.as_str());
                reply(true, concat_str(b.as_str(), t.as_str()))
            }
        },
        RunOutcome::Failure { stderr, .. } => {
            let t = if stderr.as_str().unicode_len() > 0 {
                trimmed_str(stderr.as_str())
            } else {
                owned("ADB am start failed")
            };
            reply(false, t)
        },
        RunOutcome::SpawnError(e) => reply(false, concat_str("Failed to run adb: ", e.as_str())),
    }
}

/// The next state and what to do next (see `spec_step`), given the
/// request, the state and what the last effect found, which must be what
/// the state waits for.
pub fn step(req: &CustomTargetActionRequest, state: ActionState, event: ActionEvent) -> (r: (ActionState, ActionEffect))
    requires
        expects(state_view(state), event_view(event)),
    ensures
        (state_view(r.0), effect_view(r.1)) == spec_step(request_view(*req), state_view(state), event_view(event)),
{
    match state {
        ActionState::Begin => {
            let fw = to_lowercase(req.framework.as_str());
            first_step(req, fw.as_str())
        },
        ActionState::AwaitInspect => match event {
            ActionEvent::Inspected { package, activity } => after_inspect(req, &package, &activity),
            _ => (ActionState::Done, reply(false, String::new())),
        },
        ActionState::AwaitAdbLaunch(p) => match event {
            ActionEvent::Ran(o) => (ActionState::Done, adb_launched(p.as_str(), &o)),
            _ => (ActionState::Done, reply(false, String::new())),
        },
        ActionState::AwaitBinary(b) => match event {
            ActionEvent::Exists(x) => if x {
                let msg = concat_str("Launched binary ", b.as_str());
                let args = vec![b];
                proof {
                    assert(strs(args@) =~= seq![args@[0]@]);
                }
                (ActionState::ThenReply(true, msg), run("open", args, false))
            } else {
                let m1 = concat_str("Binary not found at ", b.as_str());
                (ActionState::Done, reply(false, concat_str(m1.as_str(), ". Build with Run first.")))
            },
            _ => (ActionState::Done, reply(false, String::new())),
        },
        ActionState::AwaitApk => match event {
            ActionEvent::ApkFound(f) => match f {
                Some(apk) => {
                    let args = with_device(&req.device_id, list3("install", "-r", apk.as_str()));
                    (ActionState::AwaitDirectInstall(apk), run("adb", args, false))
                },
                None => (ActionState::AwaitGradlew(false), ActionEffect::CheckExists(join(req.target_path.as_str(), "gradlew"))),
            },
            _ => (ActionState::Done, reply(false, String::new())),
        },
        ActionState::AwaitDirectInstall(apk) => match event {
            ActionEvent::Ran(o) => match o {
                RunOutcome::Success { .. } => {
                    let name = match path_file_name(apk.as_str()) {
                        Some(n) => n,
                        None => owned("app.apk"),
                    };
                    let m1 = concat_str("Directly installed ", name.as_str());
                    (ActionState::Done, reply(true, concat_str(m1.as_str(), " to device via ADB.")))
                },
                _ => (ActionState::AwaitGradlew(false), ActionEffect::CheckExists(join(req.target_path.as_str(), "gradlew"))),
            },
            _ => (ActionState::Done, reply(false, String::new())),
        },
        ActionState::AwaitGradlew(clean) => match event {
            ActionEvent::Exists(x) => {
                let g = crate::adapters::KotlinFrameworkAdapter::find_gradlew(x);
                if clean {
                    let args = list1("clean");
                    (ActionState::ThenReply(true, owned("Gradle clean finished")), run(g.as_str(), args, true))
                } else {
                    let args = list1("installDebug");
                    let e = run(g.as_str(), args, true);
                    (ActionState::AwaitGradleInstall(g), e)
                }
            },
            _ => (ActionState::Done, reply(false, String::new())),
        },
        ActionState::AwaitGradleInstall(g) => match event {
            ActionEvent::Ran(o) => match o {
                RunOutcome::Success { .. } => (
                    ActionState::Done,
                    reply(true, owned("Successfully compiled & installed APK on device via Gradle.")),
                ),
                RunOutcome::Failure { stderr, .. } => (
                    ActionState::Done,
                    reply(false, concat_str("Gradle installDebug failed: ", stderr.as_str())),
                ),
                RunOutcome::SpawnError(x) => {
                    let m1 = concat_str("Failed to execute ", g.as_str());
                    let m2 = concat_str(m1.as_str(), ": ");
                    (ActionState::Done, reply(false, concat_str(m2.as_str(), x.as_str())))
                },
            },
            _ => (ActionState::Done, reply(false, String::new())),
        },
        ActionState::AwaitIde(m) => match event {
            ActionEvent::Ran(o) => match o {
                RunOutcome::Success { .. } => (ActionState::Done, reply(true, m)),
                _ => {
                    let args = vec![owned(req.target_path.as_str())];
                    proof {
                        assert(strs(args@) =~= seq![req.target_path@]);
                    }
                    (ActionState::ThenReply(true, m), run("open", args, false))
                },
            },
            _ => (ActionState::Done, reply(false, String::new())),
        },
        ActionState::ThenReply(ok, m) => (ActionState::Done, reply(ok, m)),
        ActionState::Done => (ActionState::Done, reply(false, String::new())),
    }
}

/// Every action is answered, and soon: each step that the state waits for
/// brings the answer closer (it is given exactly when the action is done),
/// so no action takes more than six steps.
pub proof fn law_action_answered(r: RequestView, s: StateView, e: EventView)
    requires
        expects(s, e),
    ensures
        rank(spec_step(r, s, e).0) < rank(s),
        (spec_step(r, s, e).0 is Done) <==> (spec_step(r, s, e).1 is Reply),
        rank(s) <= 6,
{
}

/// Every next state waits for what its effect reports.
pub proof fn law_effect_matches_wait(r: RequestView, s: StateView, e: EventView)
    requires
        expects(s, e),
    ensures
        match spec_step(r, s, e).1 {
            EffectView::InspectAndroid => spec_step(r, s, e).0 is AwaitInspect,
            EffectView::CheckExists(_) => spec_step(r, s, e).0 is AwaitBinary || spec_step(r, s, e).0 is AwaitGradlew,
            EffectView::FindApk => spec_step(r, s, e).0 is AwaitApk,
            EffectView::Run(_) => spec_step(r, s, e).0 is AwaitAdbLaunch || spec_step(r, s, e).0 is AwaitDirectInstall
                || spec_step(r, s, e).0 is AwaitGradleInstall || spec_step(r, s, e).0 is AwaitIde
                || spec_step(r, s, e).0 is ThenReply,
            EffectView::Reply(_, _) => spec_step(r, s, e).0 is Done,
        },
{
}

} // verus!
