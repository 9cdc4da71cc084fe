//! The lifecycle of a live development session: its states and the
//! transitions that building, installing, launching, reloading, restarting
//! and stopping make.
use vstd::prelude::*;
use crate::adapters::{AdapterKind, BuildResult, adapter_name};
use crate::error::{DevflowError, error_text};
use crate::ipc::{IpcRequest, IpcResponse};
use crate::logs::{LogEntry, LogLevel, entry_view, entry_views, LogView};
use crate::platform::{Device, DeviceView, device_view, platform_name};
use crate::project::Project;
use crate::text::{chars_of, concat_str, owned, string_of, trim, trim_ws};

verus! {

/// Where a session is in its lifecycle.
#[derive(Clone, Copy, Debug, PartialEq, Eq, Structural)]
pub enum SessionStatus {
    Idle,
    Building,
    Installing,
    Launching,
    Running,
    Reloading,
    Restarting,
    Failed,
    Stopped,
}

/// The observable state of a session. Timestamps are UTC nanoseconds.
#[derive(Debug)]
pub struct SessionState {
    pub session_id: String,
    pub project_name: String,
    pub project_path: String,
    pub framework: String,
    pub platform: String,
    pub target_device: Option<Device>,
    pub status: SessionStatus,
    pub started_at: i64,
    pub updated_at: i64,
    pub last_error: Option<String>,
    pub build_duration_ms: Option<u64>,
    pub reload_count: u32,
    pub restart_count: u32,
}

/// The contents of a session state.
pub struct SessionView {
    pub session_id: Seq<char>,
    pub project_name: Seq<char>,
    pub project_path: Seq<char>,
    pub framework: Seq<char>,
    pub platform: Seq<char>,
    pub target_device: Option<DeviceView>,
    pub status: SessionStatus,
    pub started_at: i64,
    pub updated_at: i64,
    pub last_error: Option<Seq<char>>,
    pub build_duration_ms: Option<u64>,
    pub reload_count: u32,
    pub restart_count: u32,
}

/// The contents of a session state.
pub open spec fn session_view(s: SessionState) -> SessionView {
    SessionView {
        session_id: s.session_id@,
        project_name: s.project_name@,
        project_path: s.project_path@,
        framework: s.framework@,
        platform: s.platform@,
        target_device: match s.target_device {
            Some(d) => Some(device_view(d)),
            None => None,
        },
        status: s.status,
        started_at: s.started_at,
        updated_at: s.updated_at,
        last_error: crate::config::opt_text(s.last_error),
        build_duration_ms: s.build_duration_ms,
        reload_count: s.reload_count,
        restart_count: s.restart_count,
    }
}

/// What happens to a session: a step of its work starts or ends, with the
/// error text of a step that failed.
pub enum SessionEvent {
    BuildStarted,
    BuildFinished { success: bool, duration_ms: u64, error: Option<Seq<char>> },
    InstallFinished { error: Option<Seq<char>> },
    LaunchFinished { error: Option<Seq<char>> },
    ReloadStarted,
    ReloadFinished { error: Option<Seq<char>> },
    RestartStarted,
    RestartFinished { error: Option<Seq<char>> },
    Stopped,
}

/// `v` with the status set at time `now`.
pub open spec fn with_status(v: SessionView, st: SessionStatus, now: i64) -> SessionView {
    SessionView { status: st, updated_at: now, ..v }
}

/// `v` with the last error set at time `now`.
pub open spec fn with_error(v: SessionView, e: Option<Seq<char>>, now: i64) -> SessionView {
    SessionView { last_error: e, updated_at: now, ..v }
}

/// The state after an event at time `now`. A build starts the session
/// building; a failed build fails it with the build's error, a successful
/// one records its duration and goes on to installing; a failed install or
/// launch fails it with the error, else it goes on to launching and
/// running. A reload or restart runs it again whether it worked or not;
/// one that worked is counted, one that failed leaves its error.
pub open spec fn next_state(v: SessionView, e: SessionEvent, now: i64) -> SessionView {
    match e {
        SessionEvent::BuildStarted => with_status(v, SessionStatus::Building, now),
        SessionEvent::BuildFinished { success, duration_ms, error } => if success {
            with_status(SessionView { build_duration_ms: Some(duration_ms), ..v }, SessionStatus::Installing, now)
        } else {
            with_error(with_status(v, SessionStatus::Failed, now), error, now)
        },
        SessionEvent::InstallFinished { error } => match error {
            Some(m) => with_error(with_status(v, SessionStatus::Failed, now), Some(m), now),
            None => with_status(v, SessionStatus::Launching, now),
        },
        SessionEvent::LaunchFinished { error } => match error {
            Some(m) => with_error(with_status(v, SessionStatus::Failed, now), Some(m), now),
            None => with_status(v, SessionStatus::Running, now),
        },
        SessionEvent::ReloadStarted => with_status(v, SessionStatus::Reloading, now),
        SessionEvent::ReloadFinished { error } => match error {
            Some(m) => with_error(with_status(v, SessionStatus::Running, now), Some(m), now),
            None => with_status(
                SessionView { reload_count: (v.reload_count + 1) as u32, ..v },
                SessionStatus::Running,
                now,
            ),
        },
        SessionEvent::RestartStarted => with_status(v, SessionStatus::Restarting, now),
        SessionEvent::RestartFinished { error } => match error {
            Some(m) => with_error(with_status(v, SessionStatus::Running, now), Some(m), now),
            None => with_status(
                SessionView { restart_count: (v.restart_count + 1) as u32, ..v },
                SessionStatus::Running,
                now,
            ),
        },
        SessionEvent::Stopped => with_status(v, SessionStatus::Stopped, now),
    }
}

/// The error text of a step's outcome.
pub open spec fn outcome_error(r: Result<(), DevflowError>) -> Option<Seq<char>> {
    match r {
        Ok(()) => None,
        Err(e) => Some(error_text(e)),
    }
}

/// The project with its framework set to `fw` in the configuration in
/// effect (the project's own, or the one made from what was detected).
pub fn apply_framework_override(project: &mut Project, fw: &str)
    ensures
        final(project).root_dir@ == old(project).root_dir@,
        final(project).name@ == old(project).name@,
        final(project).detected_framework == old(project).detected_framework,
        final(project).detected_platform == old(project).detected_platform,
        final(project).config matches Some(c) && c.project.framework@ == fw@,
{
    let mut cfg = project.effective_config();
    cfg.project.framework = owned(fw);
    project.config = Some(cfg);
}

impl SessionState {
    /// The state of a new session of `project` run by `adapter` on
    /// `device`, created at time `now`: idle, nothing counted yet.
    pub fn new(session_id: String, project: &Project, adapter: AdapterKind, device: Device, now: i64) -> (r: SessionState)
        ensures
            session_view(r) == (SessionView {
                session_id: session_id@,
                project_name: project.name@,
                project_path: project.root_dir@,
                framework: adapter_name(adapter),
                platform: platform_name(device.platform),
                target_device: Some(device_view(device)),
                status: SessionStatus::Idle,
                started_at: now,
                updated_at: now,
                last_error: None,
                build_duration_ms: None,
                reload_count: 0,
                restart_count: 0,
            }),
    {
        let platform = owned(device.platform.as_str());
        SessionState {
            session_id,
            project_name: owned(project.name.as_str()),
            project_path: owned(project.root_dir.as_str()),
            framework: owned(adapter.name()),
            platform,
            target_device: Some(device),
            status: SessionStatus::Idle,
            started_at: now,
            updated_at: now,
            last_error: None,
            build_duration_ms: None,
            reload_count: 0,
            restart_count: 0,
        }
    }

    /// Sets the status at time `now`.
    pub fn set_status(&mut self, status: SessionStatus, now: i64)
        ensures
            session_view(*final(self)) == with_status(session_view(*old(self)), status, now),
    {
        self.status = status;
        self.updated_at = now;
    }

    /// Sets the last error at time `now`.
    pub fn set_last_error(&mut self, err: Option<String>, now: i64)
        ensures
            session_view(*final(self)) == with_error(
                session_view(*old(self)),
                crate::config::opt_text(err),
                now,
            ),
    {
        self.last_error = err;
        self.updated_at = now;
    }

    /// A build starts.
    pub fn begin_build(&mut self, now: i64)
        ensures
            session_view(*final(self)) == next_state(session_view(*old(self)), SessionEvent::BuildStarted, now),
    {
        self.set_status(SessionStatus::Building, now);
    }

    /// A build ended with `b`; a failed one ends the start with an error.
    pub fn finish_build(&mut self, b: &BuildResult, now: i64) -> (r: Result<(), DevflowError>)
        ensures
            session_view(*final(self)) == next_state(
                session_view(*old(self)),
                SessionEvent::BuildFinished {
                    success: b.success,
                    duration_ms: b.duration_ms,
                    error: crate::config::opt_text(b.error_message),
                },
                now,
            ),
            b.success <==> r is Ok,
            r matches Err(e) ==> (e matches DevflowError::Build(m) && m@ == "Build failed"@),
    {
        if !b.success {
            self.set_status(SessionStatus::Failed, now);
            let e = crate::platform::clone_opt_string(&b.error_message);
            self.set_last_error(e, now);
            return Err(DevflowError::Build(owned("Build failed")));
        }
        self.build_duration_ms = Some(b.duration_ms);
        self.set_status(SessionStatus::Installing, now);
        Ok(())
    }

    fn fail_with(&mut self, status: SessionStatus, e: &DevflowError, now: i64)
        ensures
            session_view(*final(self)) == with_error(
                with_status(session_view(*old(self)), status, now),
                Some(error_text(*e)),
                now,
            ),
    {
        self.set_status(status, now);
        self.set_last_error(Some(e.message()), now);
    }

    /// The install step ended with `outcome`.
    pub fn finish_install(&mut self, outcome: Result<(), DevflowError>, now: i64) -> (r: Result<(), DevflowError>)
        ensures
            session_view(*final(self)) == next_state(
                session_view(*old(self)),
                SessionEvent::InstallFinished { error: outcome_error(outcome) },
                now,
            ),
            r == outcome,
    {
        match &outcome {
            Err(e) => self.fail_with(SessionStatus::Failed, e, now),
            Ok(()) => self.set_status(SessionStatus::Launching, now),
        }
        outcome
    }

    /// The launch step ended with `outcome`; on success the session runs.
    pub fn finish_launch(&mut self, outcome: Result<(), DevflowError>, now: i64) -> (r: Result<(), DevflowError>)
        ensures
            session_view(*final(self)) == next_state(
                session_view(*old(self)),
                SessionEvent::LaunchFinished { error: outcome_error(outcome) },
                now,
            ),
            r == outcome,
    {
        match &outcome {
            Err(e) => self.fail_with(SessionStatus::Failed, e, now),
            Ok(()) => self.set_status(SessionStatus::Running, now),
        }
        outcome
    }

    /// A reload starts.
    pub fn begin_reload(&mut self, now: i64)
        ensures
            session_view(*final(self)) == next_state(session_view(*old(self)), SessionEvent::ReloadStarted, now),
    {
        self.set_status(SessionStatus::Reloading, now);
    }

    /// A reload ended with `outcome`.
    pub fn finish_reload(&mut self, outcome: Result<(), DevflowError>, now: i64) -> (r: Result<(), DevflowError>)
        requires
            old(self).reload_count < u32::MAX,
        ensures
            session_view(*final(self)) == next_state(
                session_view(*old(self)),
                SessionEvent::ReloadFinished { error: outcome_error(outcome) },
                now,
            ),
            r == outcome,
    {
        match &outcome {
            Err(e) => self.fail_with(SessionStatus::Running, e, now),
            Ok(()) => {
                self.reload_count = self.reload_count + 1;
                self.set_status(SessionStatus::Running, now);
            },
        }
        outcome
    }

    /// A restart starts.
    pub fn begin_restart(&mut self, now: i64)
        ensures
            session_view(*final(self)) == next_state(session_view(*old(self)), SessionEvent::RestartStarted, now),
    {
        self.set_status(SessionStatus::Restarting, now);
    }

    /// A restart ended with `outcome`.
    pub fn finish_restart(&mut self, outcome: Result<(), DevflowError>, now: i64) -> (r: Result<(), DevflowError>)
        requires
            old(self).restart_count < u32::MAX,
        ensures
            session_view(*final(self)) == next_state(
                session_view(*old(self)),
                SessionEvent::RestartFinished { error: outcome_error(outcome) },
                now,
            ),
            r == outcome,
    {
        match &outcome {
            Err(e) => self.fail_with(SessionStatus::Running, e, now),
            Ok(()) => {
                self.restart_count = self.restart_count + 1;
                self.set_status(SessionStatus::Running, now);
            },
        }
        outcome
    }

    /// The session stops.
    pub fn stop(&mut self, now: i64)
        ensures
            session_view(*final(self)) == next_state(session_view(*old(self)), SessionEvent::Stopped, now),
    {
        self.set_status(SessionStatus::Stopped, now);
    }
}

/// Whether an event can be applied without a count running over.
pub open spec fn fits(v: SessionView, e: SessionEvent) -> bool {
    match e {
        SessionEvent::ReloadFinished { error: None } => v.reload_count < u32::MAX,
        SessionEvent::RestartFinished { error: None } => v.restart_count < u32::MAX,
        _ => true,
    }
}

/// No event changes what the session is (its id, project, framework,
/// platform, device and start time); every event stamps the time it
/// happened; the reload and restart counts never go down, and each grows
/// by one exactly when a reload or restart worked.
pub proof fn law_session_identity_and_counts(v: SessionView, e: SessionEvent, now: i64)
    requires
        fits(v, e),
    ensures
        next_state(v, e, now).session_id == v.session_id,
        next_state(v, e, now).project_name == v.project_name,
        next_state(v, e, now).project_path == v.project_path,
        next_state(v, e, now).framework == v.framework,
        next_state(v, e, now).platform == v.platform,
        next_state(v, e, now).target_device == v.target_device,
        next_state(v, e, now).started_at == v.started_at,
        next_state(v, e, now).updated_at == now,
        next_state(v, e, now).reload_count == v.reload_count + if e matches SessionEvent::ReloadFinished { error: None } {
            1int
        } else {
            0int
        },
        next_state(v, e, now).restart_count == v.restart_count + if e matches SessionEvent::RestartFinished { error: None } {
            1int
        } else {
            0int
        },
{
}

/// Whatever its outcome, a finished reload or restart leaves the session
/// running; a failed one keeps its error as the last error.
pub proof fn law_reload_restart_resume(v: SessionView, error: Option<Seq<char>>, now: i64)
    ensures
        next_state(v, SessionEvent::ReloadFinished { error }, now).status == SessionStatus::Running,
        next_state(v, SessionEvent::RestartFinished { error }, now).status == SessionStatus::Running,
        error is Some ==> next_state(v, SessionEvent::ReloadFinished { error }, now).last_error == error,
        error is Some ==> next_state(v, SessionEvent::RestartFinished { error }, now).last_error == error,
{
}

/// A start that goes all the way (build, install and launch all worked)
/// leaves the session running, with the build's duration recorded.
pub proof fn law_start_runs(v: SessionView, duration_ms: u64, t1: i64, t2: i64, t3: i64, t4: i64)
    ensures
        ({
            let a = next_state(v, SessionEvent::BuildStarted, t1);
            let b = next_state(a, SessionEvent::BuildFinished { success: true, duration_ms, error: None }, t2);
            let c = next_state(b, SessionEvent::InstallFinished { error: None }, t3);
            let d = next_state(c, SessionEvent::LaunchFinished { error: None }, t4);
            d.status == SessionStatus::Running && d.build_duration_ms == Some(duration_ms)
                && d.last_error == v.last_error
        }),
{
}

/// Where the start of a session stands.
#[derive(Debug)]
pub enum StartStage {
    /// Nothing was done yet.
    NotStarted,
    /// The build runs.
    Building,
    /// The app is installed, from the build's artifact (if it named one).
    Installing(Option<String>),
    /// The app is launched.
    Launching,
    /// The start is over.
    Done,
}

/// What the caller does next to start a session.
#[derive(Debug)]
pub enum StartAction {
    /// Build the project with the session's adapter.
    Build { is_release: bool },
    /// Install the app, from the build's artifact (if it named one).
    Install { artifact: Option<String> },
    /// Launch the app, from the build's artifact (if it named one).
    Launch { artifact: Option<String> },
    /// Follow the app's logs (and watch its files): the session runs.
    StreamLogs,
    /// The start failed with this error.
    Fail(DevflowError),
}

/// What the caller reports of the step it took.
#[derive(Debug)]
pub enum StartEvent {
    /// The start is asked for.
    Begin,
    /// The adapter's build gave this result, or could not be run.
    Built(Result<BuildResult, DevflowError>),
    /// The install went so.
    Installed(Result<(), DevflowError>),
    /// The launch went so.
    Launched(Result<(), DevflowError>),
}

/// The contents of a stage.
pub enum StageView {
    NotStarted,
    Building,
    Installing(Option<Seq<char>>),
    Launching,
    Done,
}

/// The contents of an action; a failure by its error's text.
pub enum StartActionView {
    Build { is_release: bool },
    Install { artifact: Option<Seq<char>> },
    Launch { artifact: Option<Seq<char>> },
    StreamLogs,
    Fail(Seq<char>),
}

/// The contents of a stage.
pub open spec fn stage_view(s: StartStage) -> StageView {
    match s {
        StartStage::NotStarted => StageView::NotStarted,
        StartStage::Building => StageView::Building,
        StartStage::Installing(a) => StageView::Installing(crate::config::opt_text(a)),
        StartStage::Launching => StageView::Launching,
        StartStage::Done => StageView::Done,
    }
}

/// The contents of an action.
pub open spec fn start_action_view(a: StartAction) -> StartActionView {
    match a {
        StartAction::Build { is_release } => StartActionView::Build { is_release },
        StartAction::Install { artifact } => StartActionView::Install { artifact: crate::config::opt_text(artifact) },
        StartAction::Launch { artifact } => StartActionView::Launch { artifact: crate::config::opt_text(artifact) },
        StartAction::StreamLogs => StartActionView::StreamLogs,
        StartAction::Fail(e) => StartActionView::Fail(error_text(e)),
    }
}

/// The event is the one the stage waits for.
pub open spec fn start_expects(s: StartStage, e: StartEvent) -> bool {
    match (s, e) {
        (StartStage::NotStarted, StartEvent::Begin) => true,
        (StartStage::Building, StartEvent::Built(_)) => true,
        (StartStage::Installing(_), StartEvent::Installed(_)) => true,
        (StartStage::Launching, StartEvent::Launched(_)) => true,
        _ => false,
    }
}

/// The next stage and action of a start: it builds for debugging; a build
/// that worked installs its artifact, which the launch then gets too; a
/// launch that worked ends in following the logs; whatever fails ends the
/// start with its error (a failed build with `Build failed`).
pub open spec fn spec_start_step(s: StartStage, e: StartEvent) -> (StageView, StartActionView) {
    match (s, e) {
        (StartStage::NotStarted, StartEvent::Begin) => (StageView::Building, StartActionView::Build { is_release: false }),
        (StartStage::Building, StartEvent::Built(Err(err))) => (StageView::Done, StartActionView::Fail(error_text(err))),
        (StartStage::Building, StartEvent::Built(Ok(b))) => if b.success {
            let a = crate::config::opt_text(b.artifact_path);
            (StageView::Installing(a), StartActionView::Install { artifact: a })
        } else {
            (StageView::Done, StartActionView::Fail("Build error: "@ + "Build failed"@))
        },
        (StartStage::Installing(a), StartEvent::Installed(o)) => match o {
            Ok(()) => (StageView::Launching, StartActionView::Launch { artifact: crate::config::opt_text(a) }),
            Err(err) => (StageView::Done, StartActionView::Fail(error_text(err))),
        },
        (StartStage::Launching, StartEvent::Launched(o)) => match o {
            Ok(()) => (StageView::Done, StartActionView::StreamLogs),
            Err(err) => (StageView::Done, StartActionView::Fail(error_text(err))),
        },
        _ => (StageView::Done, StartActionView::StreamLogs),
    }
}

/// What a step of the start does to the session's state: the build makes
/// it building, the outcomes of the build (when it could run), the install
/// and the launch are the events of `next_state`.
pub open spec fn start_effect(v: SessionView, e: StartEvent, now: i64) -> SessionView {
    match e {
        StartEvent::Begin => next_state(v, SessionEvent::BuildStarted, now),
        StartEvent::Built(Err(_)) => v,
        StartEvent::Built(Ok(b)) => next_state(
            v,
            SessionEvent::BuildFinished {
                success: b.success,
                duration_ms: b.duration_ms,
                error: crate::config::opt_text(b.error_message),
            },
            now,
        ),
        StartEvent::Installed(o) => next_state(v, SessionEvent::InstallFinished { error: outcome_error(o) }, now),
        StartEvent::Launched(o) => next_state(v, SessionEvent::LaunchFinished { error: outcome_error(o) }, now),
    }
}

impl SessionState {
    /// One step of starting the session (see `spec_start_step` and
    /// `start_effect`): from where the start stands and what the last step
    /// gave, the session's new state, where the start stands next and what
    /// the caller does next.
    pub fn start_step(&mut self, stage: StartStage, event: StartEvent, now: i64) -> (r: (StartStage, StartAction))
        requires
            start_expects(stage, event),
        ensures
            (stage_view(r.0), start_action_view(r.1)) == spec_start_step(stage, event),
            session_view(*final(self)) == start_effect(session_view(*old(self)), event, now),
    {
        match event {
            StartEvent::Begin => {
                self.begin_build(now);
                (StartStage::Building, StartAction::Build { is_release: false })
            },
            StartEvent::Built(Err(e)) => (StartStage::Done, StartAction::Fail(e)),
            StartEvent::Built(Ok(b)) => match self.finish_build(&b, now) {
                Ok(()) => {
                    let a1 = crate::platform::clone_opt_string(&b.artifact_path);
                    let a2 = crate::platform::clone_opt_string(&b.artifact_path);
                    (StartStage::Installing(a1), StartAction::Install { artifact: a2 })
                },
                Err(e) => {
                    (StartStage::Done, StartAction::Fail(e))
                },
            },
            StartEvent::Installed(o) => {
                let a = match stage {
                    StartStage::Installing(a) => a,
                    _ => None,
                };
                match self.finish_install(o, now) {
                    Ok(()) => (StartStage::Launching, StartAction::Launch { artifact: a }),
                    Err(e) => (StartStage::Done, StartAction::Fail(e)),
                }
            },
            StartEvent::Launched(o) => match self.finish_launch(o, now) {
                Ok(()) => (StartStage::Done, StartAction::StreamLogs),
                Err(e) => (StartStage::Done, StartAction::Fail(e)),
            },
        }
    }
}

/// A start in which every step works asks for the build (not a release
/// one), then to install the build's artifact, then to launch that same
/// artifact, then to follow the logs, each once and in that order; the
/// session goes through building, installing and launching to running, with
/// the build's duration recorded.
pub proof fn law_start_sequence(
    artifact: Option<String>,
    b: BuildResult,
    v: SessionView,
    t1: i64,
    t2: i64,
    t3: i64,
    t4: i64,
)
    requires
        b.success,
        b.artifact_path == artifact,
    ensures
        ({
            let s1 = start_effect(v, StartEvent::Begin, t1);
            let s2 = start_effect(s1, StartEvent::Built(Ok(b)), t2);
            let s3 = start_effect(s2, StartEvent::Installed(Ok(())), t3);
            let s4 = start_effect(s3, StartEvent::Launched(Ok(())), t4);
            &&& s1.status == SessionStatus::Building
            &&& s2.status == SessionStatus::Installing
            &&& s3.status == SessionStatus::Launching
            &&& s4.status == SessionStatus::Running
            &&& s4.build_duration_ms == Some(b.duration_ms)
            &&& s4.last_error == v.last_error
        }),
        spec_start_step(StartStage::NotStarted, StartEvent::Begin) == (
            StageView::Building,
            StartActionView::Build { is_release: false },
        ),
        spec_start_step(StartStage::Building, StartEvent::Built(Ok(b))) == (
            StageView::Installing(crate::config::opt_text(artifact)),
            StartActionView::Install { artifact: crate::config::opt_text(artifact) },
        ),
        spec_start_step(StartStage::Installing(artifact), StartEvent::Installed(Ok(()))) == (
            StageView::Launching,
            StartActionView::Launch { artifact: crate::config::opt_text(artifact) },
        ),
        spec_start_step(StartStage::Launching, StartEvent::Launched(Ok(()))) == (
            StageView::Done,
            StartActionView::StreamLogs,
        ),
{
}

/// The reply of a session to a command, given how the reload or restart it
/// asked for went and, for a status request, the state as text.
pub open spec fn spec_reply(req: IpcRequest, outcome: Result<(), DevflowError>, status_text: Seq<char>) -> (bool, Seq<char>) {
    match req {
        IpcRequest::Reload { .. } => match outcome {
            Ok(()) => (true, "Reload succeeded"@),
            Err(e) => (false, "Reload failed: "@ + error_text(e)),
        },
        IpcRequest::Restart => match outcome {
            Ok(()) => (true, "Restart succeeded"@),
            Err(e) => (false, "Restart failed: "@ + error_text(e)),
        },
        IpcRequest::Status => (true, status_text),
        IpcRequest::Stop => (true, "Session stopped"@),
    }
}

/// The reply of a session to a command (see `spec_reply`).
pub fn session_reply(req: &IpcRequest, outcome: &Result<(), DevflowError>, status_text: &str) -> (r: IpcResponse)
    ensures
        (r.success, r.message@) == spec_reply(*req, *outcome, status_text@),
{
    match req {
        IpcRequest::Reload { .. } => match outcome {
            Ok(()) => IpcResponse::ok("Reload succeeded"),
            Err(e) => {
                let m = e.message();
                IpcResponse { success: false, message: concat_str("Reload failed: ", m.as_str()) }
            },
        },
        IpcRequest::Restart => match outcome {
            Ok(()) => IpcResponse::ok("Restart succeeded"),
            Err(e) => {
                let m = e.message();
                IpcResponse { success: false, message: concat_str("Restart failed: ", m.as_str()) }
            },
        },
        IpcRequest::Status => IpcResponse::ok(status_text),
        IpcRequest::Stop => IpcResponse::ok("Session stopped"),
    }
}

/// The log line that announces a build.
pub fn build_start_line(project_name: &str, adapter: &str, device_name: &str) -> (r: LogEntry)
    ensures
        entry_view(r) == (LogView {
            level: LogLevel::I,
            message: "\u{26a1} Starting build for '"@ + project_name@ + "' ["@ + adapter@ + "] on device '"@
                + device_name@ + "'..."@,
            tag: Some("build"@),
            time: None,
        }),
{
    let a = concat_str("\u{26a1} Starting build for '", project_name);
    let b = concat_str(a.as_str(), "' [");
    let c = concat_str(b.as_str(), adapter);
    let d = concat_str(c.as_str(), "] on device '");
    let e = concat_str(d.as_str(), device_name);
    LogEntry { level: LogLevel::I, message: concat_str(e.as_str(), "'..."), tag: Some(owned("build")), time: None }
}

/// The compiler's log lines of a build: each line it wrote that is not
/// blank, standard output first, tagged `compiler`; standard output at
/// info level, standard error as warnings after a successful build and as
/// errors after a failed one.
pub open spec fn spec_compiler_lines(b: BuildResult) -> Seq<LogView> {
    let outs = crate::split::lines(b.stdout@).filter(|l: Seq<char>| trim(l).len() > 0);
    let errs = crate::split::lines(b.stderr@).filter(|l: Seq<char>| trim(l).len() > 0);
    outs.map_values(|l: Seq<char>| LogView { level: LogLevel::I, message: l, tag: Some("compiler"@), time: None }) + errs.map_values(
        |l: Seq<char>|
            LogView {
                level: if b.success {
                    LogLevel::W
                } else {
                    LogLevel::E
                },
                message: l,
                tag: Some("compiler"@),
                time: None,
            },
    )
}

fn push_nonblank_lines(out: &mut Vec<LogEntry>, text: &str, level: LogLevel)
    ensures
        entry_views(final(out)@) == entry_views(old(out)@) + crate::split::lines(text@).filter(
            |l: Seq<char>| trim(l).len() > 0,
        ).map_values(|l: Seq<char>| LogView { level: level, message: l, tag: Some("compiler"@), time: None }),
{
    let c = chars_of(text);
    let ls = crate::split::split_lines(c.as_slice());
    let ghost gl = crate::split::lines(text@);
    let ghost start = entry_views(out@);
    let ghost keep = |l: Seq<char>| trim(l).len() > 0;
    let ghost mk = |l: Seq<char>| LogView { level: level, message: l, tag: Some("compiler"@), time: None };
    let mut i: usize = 0;
    proof {
        reveal(Seq::filter);
    }
    assert(gl.take(0).filter(keep) =~= Seq::<Seq<char>>::empty());
    while i < ls.len()
        invariant
            keep == (|l: Seq<char>| trim(l).len() > 0),
            mk == (|l: Seq<char>| LogView { level: level, message: l, tag: Some("compiler"@), time: None }),
            ls@.len() == gl.len(),
            forall|k: int| 0 <= k < ls@.len() ==> #[trigger] ls@[k]@ == gl[k],
            i <= ls@.len(),
            entry_views(out@) == start + gl.take(i as int).filter(keep).map_values(mk),
        decreases ls@.len() - i,
    {
        let ghost before = entry_views(out@);
        let t = trim_ws(ls[i].as_slice());
        assert(gl.take(i + 1).drop_last() =~= gl.take(i as int));
        assert(gl.take(i + 1).last() == gl[i as int]);
        proof {
            reveal(Seq::filter);
        }
        if t.len() > 0 {
            out.push(LogEntry { level, message: string_of(ls[i].as_slice()), tag: Some(owned("compiler")), time: None });
            assert(gl.take(i + 1).filter(keep) =~= gl.take(i as int).filter(keep).push(gl[i as int]));
            assert(entry_views(out@) =~= before.push(mk(gl[i as int])));
        } else {
            assert(gl.take(i + 1).filter(keep) =~= gl.take(i as int).filter(keep));
        }
        i = i + 1;
    }
    assert(gl.take(gl.len() as int) =~= gl);
}

/// The compiler's log lines of a build (see `spec_compiler_lines`).
pub fn compiler_lines(b: &BuildResult) -> (r: Vec<LogEntry>)
    ensures
        entry_views(r@) == spec_compiler_lines(*b),
{
    let mut out: Vec<LogEntry> = Vec::new();
    push_nonblank_lines(&mut out, b.stdout.as_str(), LogLevel::I);
    let lvl = if b.success {
        LogLevel::W
    } else {
        LogLevel::E
    };
    push_nonblank_lines(&mut out, b.stderr.as_str(), lvl);
    assert(entry_views(out@) =~= spec_compiler_lines(*b));
    out
}

/// The log line that ends a build: its duration, and for a failed build its
/// error (or that the compiler's error is unknown).
pub fn build_end_line(b: &BuildResult) -> (r: LogEntry)
    ensures
        entry_view(r) == if b.success {
            LogView {
                level: LogLevel::I,
                message: "\u{2713} Build succeeded in "@ + crate::number::decimal(b.duration_ms as nat) + "ms"@,
                tag: Some("build"@),
                time: None,
            }
        } else {
            LogView {
                level: LogLevel::E,
                message: "\u{2717} Build failed in "@ + crate::number::decimal(b.duration_ms as nat) + "ms: "@
                    + match b.error_message {
                    Some(m) => m@,
                    None => "Unknown compiler error"@,
                },
                tag: Some("build"@),
                time: None,
            }
        },
{
    let d = crate::number::to_decimal(b.duration_ms);
    let ds = string_of(d.as_slice());
    if b.success {
        let a = concat_str("\u{2713} Build succeeded in ", ds.as_str());
        LogEntry { level: LogLevel::I, message: concat_str(a.as_str(), "ms"), tag: Some(owned("build")), time: None }
    } else {
        let a = concat_str("\u{2717} Build failed in ", ds.as_str());
        let b1 = concat_str(a.as_str(), "ms: ");
        let m = match &b.error_message {
            Some(m) => concat_str(b1.as_str(), m.as_str()),
            None => concat_str(b1.as_str(), "Unknown compiler error"),
        };
        LogEntry { level: LogLevel::E, message: m, tag: Some(owned("build")), time: None }
    }
}

} // verus!
