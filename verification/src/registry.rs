//! The machine-wide registry under `~/.devflow`: the projects opened
//! recently and the sessions running in any terminal. File access stays with
//! the caller; this module decides what the files hold and which session a
//! command addresses.
use vstd::prelude::*;
use crate::order::{Stamped, sort_by_stamp_desc, sort_desc, sorted_desc, stamp_key, lemma_sort_desc_map, lemma_sort_desc_permutation, lemma_sort_desc_sorted};
use crate::paths::{join, path_join};
use crate::platform::{Device, Platform, clone_opt_device, same_opt_device};
use crate::search::{first_index, first_from, lemma_first_from_skip, lemma_first_from_facts};
use crate::session::{SessionState, SessionStatus};
use crate::text::{chars_of, chars_eq, concat_str, contains, contains_chars, is_prefix, owned, starts_with, to_lowercase, unicode_lower};

verus! {

/// A project opened on this machine. `last_opened` is a UTC timestamp in
/// nanoseconds.
#[derive(Debug)]
pub struct KnownProject {
    pub name: String,
    pub path: String,
    pub platform: Platform,
    pub framework: String,
    pub last_opened: i64,
}

/// A session running in some terminal, as registered on disk. Timestamps
/// are UTC nanoseconds.
#[derive(Debug)]
pub struct ActiveSessionInfo {
    pub session_id: String,
    pub pid: u32,
    pub project_name: String,
    pub project_path: String,
    pub framework: String,
    pub platform: String,
    pub target_device: Option<Device>,
    pub status: SessionStatus,
    pub socket_path: String,
    pub build_duration_ms: Option<u64>,
    pub reload_count: u32,
    pub restart_count: u32,
    pub started_at: i64,
    pub updated_at: i64,
}

/// The machine-wide registry.
pub struct GlobalRegistry;

impl Stamped for KnownProject {
    open spec fn stamp_of(&self) -> int {
        self.last_opened as int
    }

    fn stamp(&self) -> (r: i64) {
        self.last_opened
    }
}

impl Stamped for ActiveSessionInfo {
    open spec fn stamp_of(&self) -> int {
        self.updated_at as int
    }

    fn stamp(&self) -> (r: i64) {
        self.updated_at
    }
}

/// The contents of a known-project record.
pub struct ProjectEntry {
    pub name: Seq<char>,
    pub path: Seq<char>,
    pub platform: Platform,
    pub framework: Seq<char>,
    pub last_opened: int,
}

/// The contents of a known project.
pub open spec fn project_entry(p: KnownProject) -> ProjectEntry {
    ProjectEntry {
        name: p.name@,
        path: p.path@,
        platform: p.platform,
        framework: p.framework@,
        last_opened: p.last_opened as int,
    }
}

/// The contents of a list of known projects.
pub open spec fn project_entries(s: Seq<KnownProject>) -> Seq<ProjectEntry> {
    s.map_values(|p: KnownProject| project_entry(p))
}

/// The order key of project records: most recently opened first.
pub open spec fn entry_key() -> spec_fn(ProjectEntry) -> int {
    |e: ProjectEntry| e.last_opened
}

/// The record is for `path`.
pub open spec fn has_path(path: Seq<char>) -> spec_fn(ProjectEntry) -> bool {
    |e: ProjectEntry| e.path == path
}

/// The most projects the registry keeps.
pub open spec fn max_known_projects() -> int {
    50
}

/// The records after opening `path` at time `now`: the first record for that
/// path takes the new name, platform, framework and time; without one, a new
/// record is added at the end.
pub open spec fn after_open(
    s: Seq<ProjectEntry>,
    path: Seq<char>,
    name: Seq<char>,
    platform: Platform,
    framework: Seq<char>,
    now: int,
) -> Seq<ProjectEntry> {
    let e = ProjectEntry { name, path, platform, framework, last_opened: now };
    match first_index(s, has_path(path)) {
        Some(i) => s.update(i, e),
        None => s.push(e),
    }
}

/// The registry's list after opening `path` at time `now`: updated as
/// `after_open`, sorted from the most recently opened (stably), and cut to the
/// first fifty.
pub open spec fn recorded_projects(
    s: Seq<ProjectEntry>,
    path: Seq<char>,
    name: Seq<char>,
    platform: Platform,
    framework: Seq<char>,
    now: int,
) -> Seq<ProjectEntry> {
    let t = sort_desc(after_open(s, path, name, platform, framework, now), entry_key());
    if t.len() > max_known_projects() {
        t.take(max_known_projects())
    } else {
        t
    }
}

/// The session's id starts with `t`.
pub open spec fn id_starts_with(t: Seq<char>) -> spec_fn(ActiveSessionInfo) -> bool {
    |s: ActiveSessionInfo| is_prefix(t, s.session_id@)
}

/// The session's project name, lower-cased, contains `t`.
pub open spec fn name_contains(t: Seq<char>) -> spec_fn(ActiveSessionInfo) -> bool {
    |s: ActiveSessionInfo| contains(unicode_lower(s.project_name@), t)
}

/// The session's project path, lower-cased, contains `t`.
pub open spec fn path_contains(t: Seq<char>) -> spec_fn(ActiveSessionInfo) -> bool {
    |s: ActiveSessionInfo| contains(unicode_lower(s.project_path@), t)
}

/// The session's project path is `d`.
pub open spec fn path_is(d: Seq<char>) -> spec_fn(ActiveSessionInfo) -> bool {
    |s: ActiveSessionInfo| s.project_path@ == d
}

/// The first of several searches that finds something.
pub open spec fn or_else(a: Option<int>, b: Option<int>) -> Option<int> {
    match a {
        Some(i) => Some(i),
        None => b,
    }
}

/// Which running session a command addresses. With a target, lower-cased:
/// the first session whose id starts with it, else whose lower-cased project
/// name contains it, else whose lower-cased project path contains it. Without
/// one: the first session whose project path is the current directory, else
/// the only session when exactly one runs. `None` when nothing qualifies.
pub open spec fn spec_select_session(
    sessions: Seq<ActiveSessionInfo>,
    target: Option<Seq<char>>,
    current_dir: Option<Seq<char>>,
) -> Option<int> {
    if sessions.len() == 0 {
        None
    } else {
        match target {
            Some(t) => {
                let tl = unicode_lower(t);
                or_else(
                    first_index(sessions, id_starts_with(tl)),
                    or_else(
                        first_index(sessions, name_contains(tl)),
                        first_index(sessions, path_contains(tl)),
                    ),
                )
            },
            None => or_else(
                match current_dir {
                    Some(d) => first_index(sessions, path_is(d)),
                    None => None,
                },
                if sessions.len() == 1 {
                    Some(0)
                } else {
                    None
                },
            ),
        }
    }
}

fn clone_str(s: &String) -> (r: String)
    ensures
        r@ == s@,
{
    owned(s.as_str())
}

fn first_id_prefix(sessions: &Vec<ActiveSessionInfo>, t: &[char]) -> (r: Option<usize>)
    ensures
        match r {
            Some(i) => first_index(sessions@, id_starts_with(t@)) == Some(i as int),
            None => first_index(sessions@, id_starts_with(t@)) is None,
        },
{
    let ghost p = id_starts_with(t@);
    let mut i: usize = 0;
    while i < sessions.len()
        invariant
            i <= sessions@.len(),
            p == id_starts_with(t@),
            forall|j: int| 0 <= j < i ==> !p(#[trigger] sessions@[j]),
        decreases sessions@.len() - i,
    {
        let id = chars_of(sessions[i].session_id.as_str());
        if starts_with(id.as_slice(), t) {
            proof {
                lemma_first_from_skip(sessions@, p, i as int);
            }
            return Some(i);
        }
        i = i + 1;
    }
    proof {
        lemma_first_from_skip(sessions@, p, i as int);
    }
    None
}

fn first_lower_contains(sessions: &Vec<ActiveSessionInfo>, t: &[char], by_name: bool) -> (r: Option<usize>)
    ensures
        ({
            let p = if by_name {
                name_contains(t@)
            } else {
                path_contains(t@)
            };
            match r {
                Some(i) => first_index(sessions@, p) == Some(i as int),
                None => first_index(sessions@, p) is None,
            }
        }),
{
    let ghost p = if by_name {
        name_contains(t@)
    } else {
        path_contains(t@)
    };
    let mut i: usize = 0;
    while i < sessions.len()
        invariant
            i <= sessions@.len(),
            p == (if by_name {
                name_contains(t@)
            } else {
                path_contains(t@)
            }),
            forall|j: int| 0 <= j < i ==> !p(#[trigger] sessions@[j]),
        decreases sessions@.len() - i,
    {
        let field = if by_name {
            to_lowercase(sessions[i].project_name.as_str())
        } else {
            to_lowercase(sessions[i].project_path.as_str())
        };
        let f = chars_of(field.as_str());
        if contains_chars(f.as_slice(), t) {
            proof {
                lemma_first_from_skip(sessions@, p, i as int);
            }
            return Some(i);
        }
        i = i + 1;
    }
    proof {
        lemma_first_from_skip(sessions@, p, i as int);
    }
    None
}

fn first_path_is(sessions: &Vec<ActiveSessionInfo>, d: &[char]) -> (r: Option<usize>)
    ensures
        match r {
            Some(i) => first_index(sessions@, path_is(d@)) == Some(i as int),
            None => first_index(sessions@, path_is(d@)) is None,
        },
{
    let ghost p = path_is(d@);
    let mut i: usize = 0;
    while i < sessions.len()
        invariant
            i <= sessions@.len(),
            p == path_is(d@),
            forall|j: int| 0 <= j < i ==> !p(#[trigger] sessions@[j]),
        decreases sessions@.len() - i,
    {
        let path = chars_of(sessions[i].project_path.as_str());
        if chars_eq(path.as_slice(), d) {
            proof {
                lemma_first_from_skip(sessions@, p, i as int);
            }
            return Some(i);
        }
        i = i + 1;
    }
    proof {
        lemma_first_from_skip(sessions@, p, i as int);
    }
    None
}

/// What becomes of a session file that was read and understood.
#[derive(Debug, Clone, Copy, PartialEq, Eq, Structural)]
pub enum SessionFileFate {
    /// Its process runs: the session is listed.
    Keep,
    /// Its process is gone: the file is removed, and its socket too when
    /// `socket` (the socket exists).
    Remove { socket: bool },
}

impl GlobalRegistry {
    /// Whether a file of the sessions directory is a session's record: its
    /// extension is `json`.
    pub fn is_session_file(path: &str) -> (r: bool)
        ensures
            r == (crate::adapters::path_extension_of(path@) == Some("json"@)),
    {
        crate::adapters::has_extension(path, "json")
    }

    /// What becomes of a session file, given whether the process it names
    /// still runs and whether its socket exists: a live session stays, the
    /// record of a dead one goes, with its socket when there is one.
    pub fn session_file_fate(pid_alive: bool, socket_exists: bool) -> (r: SessionFileFate)
        ensures
            r == (if pid_alive {
                SessionFileFate::Keep
            } else {
                SessionFileFate::Remove { socket: socket_exists }
            }),
    {
        if pid_alive {
            SessionFileFate::Keep
        } else {
            SessionFileFate::Remove { socket: socket_exists }
        }
    }

    /// The registry's root directory: `$DEVFLOW_HOME` when set, else
    /// `$HOME/.devflow`, else `.devflow` in the temporary directory.
    pub fn root_dir(devflow_home: Option<&str>, home: Option<&str>, temp_dir: &str) -> (r: String)
        ensures
            r@ == match (devflow_home, home) {
                (Some(d), _) => d@,
                (None, Some(h)) => path_join(h@, ".devflow"@),
                (None, None) => path_join(temp_dir@, ".devflow"@),
            },
    {
        match devflow_home {
            Some(d) => owned(d),
            None => match home {
                Some(h) => join(h, ".devflow"),
                None => join(temp_dir, ".devflow"),
            },
        }
    }

    /// The directory that holds the session records, under the root.
    pub fn sessions_dir(root: &str) -> (r: String)
        ensures
            r@ == path_join(root@, "sessions"@),
    {
        join(root, "sessions")
    }

    /// The file that lists the known projects, under the root.
    pub fn projects_file(root: &str) -> (r: String)
        ensures
            r@ == path_join(root@, "projects.json"@),
    {
        join(root, "projects.json")
    }

    /// The record file of session `id`: `<sessions>/<id>.json`.
    pub fn session_file(root: &str, id: &str) -> (r: String)
        ensures
            r@ == path_join(path_join(root@, "sessions"@), id@ + ".json"@),
    {
        let dir = Self::sessions_dir(root);
        let file = concat_str(id, ".json");
        join(dir.as_str(), file.as_str())
    }

    /// The control socket of session `id`: `<sessions>/<id>.sock`.
    pub fn socket_file(root: &str, id: &str) -> (r: String)
        ensures
            r@ == path_join(path_join(root@, "sessions"@), id@ + ".sock"@),
    {
        let dir = Self::sessions_dir(root);
        let file = concat_str(id, ".sock");
        join(dir.as_str(), file.as_str())
    }

    /// The known projects after opening the project at `path` (already made
    /// canonical by the caller) at time `now` (see `recorded_projects`).
    pub fn record_project(
        projects: Vec<KnownProject>,
        path: &str,
        name: &str,
        platform: Platform,
        framework: &str,
        now: i64,
    ) -> (r: Vec<KnownProject>)
        ensures
            project_entries(r@) == recorded_projects(
                project_entries(projects@),
                path@,
                name@,
                platform,
                framework@,
                now as int,
            ),
    {
        let mut v = projects;
        let ghost entries = project_entries(v@);
        let ghost p = has_path(path@);
        let target = chars_of(path);
        let mut i: usize = 0;
        let mut found: Option<usize> = None;
        while i < v.len() && found.is_none()
            invariant
                i <= v@.len(),
                entries == project_entries(v@),
                p == has_path(path@),
                target@ == path@,
                match found {
                    Some(k) => k < v@.len() && p(entries[k as int]) && forall|j: int|
                        0 <= j < k ==> !p(#[trigger] entries[j]),
                    None => forall|j: int| 0 <= j < i ==> !p(#[trigger] entries[j]),
                },
            decreases v@.len() - i,
        {
            let pc = chars_of(v[i].path.as_str());
            if chars_eq(pc.as_slice(), target.as_slice()) {
                assert(p(entries[i as int]));
                found = Some(i);
            }
            i = i + 1;
        }
        proof {
            match found {
                Some(k) => {
                    lemma_first_from_skip(entries, p, k as int);
                },
                None => {
                    lemma_first_from_skip(entries, p, i as int);
                },
            }
        }
        let ghost e = ProjectEntry {
            name: name@,
            path: path@,
            platform,
            framework: framework@,
            last_opened: now as int,
        };
        match found {
            Some(k) => {
                assert(first_index(entries, p) == Some(k as int));
                let rec = KnownProject {
                    name: owned(name),
                    path: owned(path),
                    platform,
                    framework: owned(framework),
                    last_opened: now,
                };
                v.set(k, rec);
                assert(project_entries(v@) =~= entries.update(k as int, e));
            },
            None => {
                assert(first_index(entries, p) is None);
                v.push(
                    KnownProject {
                        name: owned(name),
                        path: owned(path),
                        platform,
                        framework: owned(framework),
                        last_opened: now,
                    },
                );
                assert(project_entries(v@) =~= entries.push(e));
            },
        }
        let ghost updated = v@;
        let mut sorted = sort_by_stamp_desc(v);
        proof {
            let f = |q: KnownProject| project_entry(q);
            assert forall|y: KnownProject| #[trigger] stamp_key::<KnownProject>()(y) == entry_key()(
                f(y),
            ) by {}
            lemma_sort_desc_map(updated, f, stamp_key::<KnownProject>(), entry_key());
            assert(project_entries(updated) == updated.map_values(f));
        }
        let ghost t = sort_desc(
            after_open(entries, path@, name@, platform, framework@, now as int),
            entry_key(),
        );
        assert(project_entries(sorted@) == t);
        if sorted.len() > 50 {
            sorted.truncate(50);
            assert(project_entries(sorted@) =~= t.take(50));
        }
        sorted
    }

    /// The sessions ordered from the most recently updated (stably), as
    /// listings show them.
    pub fn sort_active_sessions(sessions: Vec<ActiveSessionInfo>) -> (r: Vec<ActiveSessionInfo>)
        ensures
            r@ == sort_desc(sessions@, stamp_key::<ActiveSessionInfo>()),
    {
        sort_by_stamp_desc(sessions)
    }

    /// The index of the session a command addresses (see
    /// `spec_select_session`); `current_dir` is the caller's working
    /// directory when it could be read.
    pub fn find_active_session(
        sessions: &Vec<ActiveSessionInfo>,
        target: Option<&str>,
        current_dir: Option<&str>,
    ) -> (r: Option<usize>)
        ensures
            match spec_select_session(
                sessions@,
                match target {
                    Some(t) => Some(t@),
                    None => None,
                },
                match current_dir {
                    Some(d) => Some(d@),
                    None => None,
                },
            ) {
                Some(i) => r == Some(i as usize),
                None => r is None,
            },
    {
        if sessions.len() == 0 {
            return None;
        }
        match target {
            Some(t) => {
                let tl = to_lowercase(t);
                let tc = chars_of(tl.as_str());
                let by_id = first_id_prefix(sessions, tc.as_slice());
                if by_id.is_some() {
                    return by_id;
                }
                let by_name = first_lower_contains(sessions, tc.as_slice(), true);
                if by_name.is_some() {
                    return by_name;
                }
                first_lower_contains(sessions, tc.as_slice(), false)
            },
            None => {
                if let Some(d) = current_dir {
                    let dc = chars_of(d);
                    let by_dir = first_path_is(sessions, dc.as_slice());
                    if by_dir.is_some() {
                        return by_dir;
                    }
                }
                if sessions.len() == 1 {
                    Some(0)
                } else {
                    None
                }
            },
        }
    }

    /// The record of a session being registered: its state, the registering
    /// process and the control socket.
    pub fn session_info(state: &SessionState, pid: u32, socket_path: &str) -> (r: ActiveSessionInfo)
        ensures
            r.session_id@ == state.session_id@,
            r.pid == pid,
            r.project_name@ == state.project_name@,
            r.project_path@ == state.project_path@,
            r.framework@ == state.framework@,
            r.platform@ == state.platform@,
            same_opt_device(r.target_device, state.target_device),
            r.status == state.status,
            r.socket_path@ == socket_path@,
            r.build_duration_ms == state.build_duration_ms,
            r.reload_count == state.reload_count,
            r.restart_count == state.restart_count,
            r.started_at == state.started_at,
            r.updated_at == state.updated_at,
    {
        ActiveSessionInfo {
            session_id: clone_str(&state.session_id),
            pid,
            project_name: clone_str(&state.project_name),
            project_path: clone_str(&state.project_path),
            framework: clone_str(&state.framework),
            platform: clone_str(&state.platform),
            target_device: clone_opt_device(&state.target_device),
            status: state.status,
            socket_path: owned(socket_path),
            build_duration_ms: state.build_duration_ms,
            reload_count: state.reload_count,
            restart_count: state.restart_count,
            started_at: state.started_at,
            updated_at: state.updated_at,
        }
    }

    /// A registered record brought up to date with the session's state: its
    /// status, build time, counters, target device and update time change;
    /// its identity, process, socket and start time stay.
    pub fn refresh_session_info(info: &mut ActiveSessionInfo, state: &SessionState)
        ensures
            final(info).status == state.status,
            final(info).build_duration_ms == state.build_duration_ms,
            final(info).reload_count == state.reload_count,
            final(info).restart_count == state.restart_count,
            same_opt_device(final(info).target_device, state.target_device),
            final(info).updated_at == state.updated_at,
            final(info).session_id == old(info).session_id,
            final(info).pid == old(info).pid,
            final(info).project_name == old(info).project_name,
            final(info).project_path == old(info).project_path,
            final(info).framework == old(info).framework,
            final(info).platform == old(info).platform,
            final(info).socket_path == old(info).socket_path,
            final(info).started_at == old(info).started_at,
    {
        info.status = state.status;
        info.build_duration_ms = state.build_duration_ms;
        info.reload_count = state.reload_count;
        info.restart_count = state.restart_count;
        info.target_device = clone_opt_device(&state.target_device);
        info.updated_at = state.updated_at;
    }
}


/// Opening a project never leaves more than fifty known projects.
pub proof fn law_recorded_projects_bounded(
    s: Seq<ProjectEntry>,
    path: Seq<char>,
    name: Seq<char>,
    platform: Platform,
    framework: Seq<char>,
    now: int,
)
    ensures
        recorded_projects(s, path, name, platform, framework, now).len() <= max_known_projects(),
{
}

/// The known projects are listed from the most recently opened to the
/// oldest.
pub proof fn law_recorded_projects_sorted(
    s: Seq<ProjectEntry>,
    path: Seq<char>,
    name: Seq<char>,
    platform: Platform,
    framework: Seq<char>,
    now: int,
)
    ensures
        sorted_desc(recorded_projects(s, path, name, platform, framework, now), entry_key()),
{
    lemma_sort_desc_sorted(after_open(s, path, name, platform, framework, now), entry_key());
}

/// A project opened later than every known project is listed first, with
/// the name, platform and framework it was opened with.
pub proof fn law_recorded_projects_latest_first(
    s: Seq<ProjectEntry>,
    path: Seq<char>,
    name: Seq<char>,
    platform: Platform,
    framework: Seq<char>,
    now: int,
)
    requires
        forall|j: int| 0 <= j < s.len() ==> (#[trigger] s[j]).last_opened < now,
    ensures
        recorded_projects(s, path, name, platform, framework, now).len() >= 1,
        recorded_projects(s, path, name, platform, framework, now)[0] == (ProjectEntry {
            name,
            path,
            platform,
            framework,
            last_opened: now,
        }),
{
    broadcast use vstd::seq_lib::group_to_multiset_ensures;

    let e = ProjectEntry { name, path, platform, framework, last_opened: now };
    let a = after_open(s, path, name, platform, framework, now);
    let k = entry_key();
    let t = sort_desc(a, k);
    lemma_sort_desc_sorted(a, k);
    lemma_sort_desc_permutation(a, k);
    lemma_first_from_facts(s, has_path(path), 0);
    let ie: int = match first_index(s, has_path(path)) {
        Some(i) => i,
        None => s.len() as int,
    };
    assert(a[ie] == e);
    assert(forall|m: int| 0 <= m < a.len() && m != ie ==> (#[trigger] a[m]).last_opened < now);
    assert(a.contains(e));
    assert(a.to_multiset().count(e) > 0);
    assert(t.to_multiset().count(e) > 0);
    assert(t.contains(e));
    let pe = choose|q: int| 0 <= q < t.len() && t[q] == e;
    assert(t.len() >= 1);
    assert(k(t[0]) >= k(t[pe])) by {
        if pe > 0 {
            assert(k(t[0]) >= k(t[pe]));
        }
    }
    assert(t.contains(t[0]));
    assert(t.to_multiset().count(t[0]) > 0);
    assert(a.to_multiset().count(t[0]) > 0);
    assert(a.contains(t[0]));
    let m = choose|m: int| 0 <= m < a.len() && a[m] == t[0];
    assert(m == ie);
    assert(t[0] == e);
}

/// With `$DEVFLOW_HOME` unset and a home directory `home`, the projects
/// file is `.devflow/projects.json` under the home directory.
pub proof fn law_projects_file_under_home(home: Seq<char>)
    ensures
        path_join(path_join(home, ".devflow"@), "projects.json"@) == (if home.len() == 0 || home.last() == '/' {
            home
        } else {
            home + "/"@
        }) + ".devflow/projects.json"@,
{
    reveal_strlit(".devflow");
    reveal_strlit("projects.json");
    reveal_strlit("/");
    reveal_strlit(".devflow/projects.json");
    let base = if home.len() == 0 || home.last() == '/' {
        home
    } else {
        home + "/"@
    };
    let root = path_join(home, ".devflow"@);
    assert(root == base + ".devflow"@);
    assert(root.len() > 0 && root.last() == 'w');
    assert(path_join(root, "projects.json"@) == root + "/"@ + "projects.json"@);
    assert(root + "/"@ + "projects.json"@ =~= base + ".devflow/projects.json"@);
}

/// Opening a project that the registry holds at most once, later than every
/// known project, leaves exactly one record for its path: the first.
pub proof fn law_recorded_projects_path_once(
    s: Seq<ProjectEntry>,
    path: Seq<char>,
    name: Seq<char>,
    platform: Platform,
    framework: Seq<char>,
    now: int,
)
    requires
        forall|j: int| 0 <= j < s.len() ==> (#[trigger] s[j]).last_opened < now,
        forall|i: int, j: int| 0 <= i < j < s.len() ==> !(#[trigger] s[i].path == path && #[trigger] s[j].path == path),
    ensures
        recorded_projects(s, path, name, platform, framework, now)[0].path == path,
        forall|j: int|
            0 < j < recorded_projects(s, path, name, platform, framework, now).len()
                ==> (#[trigger] recorded_projects(s, path, name, platform, framework, now)[j]).path != path,
{
    broadcast use vstd::seq_lib::group_to_multiset_ensures;
    broadcast use vstd::multiset::group_multiset_axioms;

    law_recorded_projects_latest_first(s, path, name, platform, framework, now);
    let e = ProjectEntry { name, path, platform, framework, last_opened: now };
    let a = after_open(s, path, name, platform, framework, now);
    let k = entry_key();
    let t = sort_desc(a, k);
    let r = recorded_projects(s, path, name, platform, framework, now);
    lemma_sort_desc_sorted(a, k);
    lemma_sort_desc_permutation(a, k);
    lemma_first_from_facts(s, has_path(path), 0);
    let ie: int = match first_index(s, has_path(path)) {
        Some(i) => i,
        None => s.len() as int,
    };
    assert(a[ie] == e);
    assert forall|m: int| 0 <= m < a.len() && (#[trigger] a[m]).path == path implies m == ie by {
        if m != ie {
            assert(a[m] == s[m]);
            if m < ie {
                assert(!has_path(path)(s[m]));
            } else {
                assert(s[ie].path == path);
            }
        }
    }
    assert(t[0] == e);
    let rest = a.remove(ie);
    assert(!rest.contains(e)) by {
        if rest.contains(e) {
            let q = choose|q: int| 0 <= q < rest.len() && rest[q] == e;
            if q < ie {
                assert(rest[q] == a[q]);
            } else {
                assert(rest[q] == a[q + 1]);
            }
        }
    }
    assert(rest.to_multiset().count(e) == 0);
    assert(a.to_multiset().count(e) == 1);
    assert(t.to_multiset().count(e) == 1);
    assert(t.remove(0).to_multiset().count(e) == 0);
    assert forall|j: int| 0 < j < r.len() implies (#[trigger] r[j]).path != path by {
        assert(r[j] == t[j]);
        if t[j].path == path {
            assert(t.to_multiset().count(t[j]) > 0);
            assert(a.to_multiset().count(t[j]) > 0);
            assert(a.contains(t[j]));
            let m = choose|m: int| 0 <= m < a.len() && a[m] == t[j];
            assert(m == ie);
            assert(t.remove(0)[j - 1] == e);
            assert(t.remove(0).contains(e));
        }
    }
}

/// Opening a project keeps the paths of the records distinct when they
/// were.
pub proof fn law_recorded_projects_paths_distinct(
    s: Seq<ProjectEntry>,
    path: Seq<char>,
    name: Seq<char>,
    platform: Platform,
    framework: Seq<char>,
    now: int,
)
    requires
        forall|i: int, j: int| 0 <= i < j < s.len() ==> (#[trigger] s[i]).path != (#[trigger] s[j]).path,
    ensures
        forall|i: int, j: int|
            0 <= i < j < recorded_projects(s, path, name, platform, framework, now).len() ==> (
            #[trigger] recorded_projects(s, path, name, platform, framework, now)[i]).path != (
            #[trigger] recorded_projects(s, path, name, platform, framework, now)[j]).path,
{
    broadcast use vstd::seq_lib::group_to_multiset_ensures;
    broadcast use vstd::multiset::group_multiset_axioms;

    let a = after_open(s, path, name, platform, framework, now);
    let k = entry_key();
    let t = sort_desc(a, k);
    let r = recorded_projects(s, path, name, platform, framework, now);
    lemma_sort_desc_sorted(a, k);
    lemma_sort_desc_permutation(a, k);
    lemma_first_from_facts(s, has_path(path), 0);
    let ie: int = match first_index(s, has_path(path)) {
        Some(i) => i,
        None => s.len() as int,
    };
    assert forall|i: int, j: int| 0 <= i < a.len() && 0 <= j < a.len() && i != j implies (#[trigger] a[i]).path
        != (#[trigger] a[j]).path by {
        if i != ie && j != ie {
            assert(a[i] == s[i] && a[j] == s[j]);
            if i < j {
                assert(s[i].path != s[j].path);
            } else {
                assert(s[j].path != s[i].path);
            }
        } else if i == ie {
            assert(a[j] == s[j]);
            if ie < s.len() {
                assert(s[ie].path == path);
                if j < ie {
                    assert(s[j].path != s[ie].path);
                } else {
                    assert(s[ie].path != s[j].path);
                }
            } else {
                assert(!has_path(path)(s[j]));
            }
        } else {
            assert(a[i] == s[i]);
            if ie < s.len() {
                assert(s[ie].path == path);
                if i < ie {
                    assert(s[i].path != s[ie].path);
                } else {
                    assert(s[ie].path != s[i].path);
                }
            } else {
                assert(!has_path(path)(s[i]));
            }
        }
    }
    assert(a.no_duplicates());
    a.lemma_multiset_has_no_duplicates();
    assert forall|x: ProjectEntry| t.to_multiset().contains(x) implies t.to_multiset().count(x) == 1 by {
        assert(a.to_multiset().contains(x));
    }
    t.lemma_multiset_has_no_duplicates_conv();
    assert forall|i: int, j: int| 0 <= i < j < r.len() implies (#[trigger] r[i]).path != (#[trigger] r[j]).path by {
        assert(r[i] == t[i] && r[j] == t[j]);
        assert(t.to_multiset().count(t[i]) > 0);
        assert(a.to_multiset().count(t[i]) > 0);
        assert(a.contains(t[i]));
        let m1 = choose|m: int| 0 <= m < a.len() && a[m] == t[i];
        assert(t.to_multiset().count(t[j]) > 0);
        assert(a.to_multiset().count(t[j]) > 0);
        assert(a.contains(t[j]));
        let m2 = choose|m: int| 0 <= m < a.len() && a[m] == t[j];
        if t[i].path == t[j].path {
            assert(m1 == m2);
            assert(t[i] == t[j]);
        }
    }
}

proof fn lemma_repeat_counts_twice(t: Seq<ProjectEntry>, i: int, j: int)
    requires
        0 <= i < j < t.len(),
        t[i] == t[j],
    ensures
        t.to_multiset().count(t[i]) >= 2,
{
    broadcast use vstd::seq_lib::group_to_multiset_ensures;
    broadcast use vstd::multiset::group_multiset_axioms;

    let rest = t.remove(i);
    assert(rest[j - 1] == t[j]);
    assert(rest.contains(t[i]));
    assert(rest.to_multiset().count(t[i]) > 0);
}

proof fn lemma_twice_at_two_places(a: Seq<ProjectEntry>, x: ProjectEntry) -> (r: (int, int))
    requires
        a.to_multiset().count(x) >= 2,
    ensures
        0 <= r.0 < a.len(),
        0 <= r.1 < a.len(),
        r.0 != r.1,
        a[r.0] == x,
        a[r.1] == x,
{
    broadcast use vstd::seq_lib::group_to_multiset_ensures;
    broadcast use vstd::multiset::group_multiset_axioms;

    assert(a.contains(x));
    let m1 = choose|m: int| 0 <= m < a.len() && a[m] == x;
    let rest = a.remove(m1);
    assert(rest.to_multiset().count(x) > 0);
    assert(rest.contains(x));
    let q = choose|q: int| 0 <= q < rest.len() && rest[q] == x;
    if q < m1 {
        assert(a[q] == rest[q]);
        (m1, q)
    } else {
        assert(a[q + 1] == rest[q]);
        (m1, q + 1)
    }
}

/// After opening a project, a path held by two records was already held by
/// two records of the list before.
pub proof fn law_recorded_projects_repeats_were_there(
    s: Seq<ProjectEntry>,
    path: Seq<char>,
    name: Seq<char>,
    platform: Platform,
    framework: Seq<char>,
    now: int,
)
    ensures
        forall|i: int, j: int|
            0 <= i < j < recorded_projects(s, path, name, platform, framework, now).len() && (
            #[trigger] recorded_projects(s, path, name, platform, framework, now)[i]).path == (
            #[trigger] recorded_projects(s, path, name, platform, framework, now)[j]).path ==> exists|
                i2: int,
                j2: int,
            |
                0 <= i2 < j2 < s.len() && (#[trigger] s[i2]).path == recorded_projects(
                    s,
                    path,
                    name,
                    platform,
                    framework,
                    now,
                )[i].path && (#[trigger] s[j2]).path == recorded_projects(
                    s,
                    path,
                    name,
                    platform,
                    framework,
                    now,
                )[i].path,
{
    broadcast use vstd::seq_lib::group_to_multiset_ensures;
    broadcast use vstd::multiset::group_multiset_axioms;

    let a = after_open(s, path, name, platform, framework, now);
    let k = entry_key();
    let t = sort_desc(a, k);
    let r = recorded_projects(s, path, name, platform, framework, now);
    lemma_sort_desc_sorted(a, k);
    lemma_sort_desc_permutation(a, k);
    lemma_first_from_facts(s, has_path(path), 0);
    let ie: int = match first_index(s, has_path(path)) {
        Some(i) => i,
        None => s.len() as int,
    };
    assert forall|i: int, j: int|
        0 <= i < j < r.len() && (#[trigger] r[i]).path == (#[trigger] r[j]).path implies exists|i2: int, j2: int|
        0 <= i2 < j2 < s.len() && (#[trigger] s[i2]).path == r[i].path && (#[trigger] s[j2]).path == r[i].path by {
        let q = r[i].path;
        assert(r[i] == t[i] && r[j] == t[j]);
        let (m1, m2): (int, int) = if t[i] == t[j] {
            lemma_repeat_counts_twice(t, i, j);
            lemma_twice_at_two_places(a, t[i])
        } else {
            assert(t.to_multiset().count(t[i]) > 0);
            assert(a.to_multiset().count(t[i]) > 0);
            assert(a.contains(t[i]));
            let m1 = choose|m: int| 0 <= m < a.len() && a[m] == t[i];
            assert(t.to_multiset().count(t[j]) > 0);
            assert(a.to_multiset().count(t[j]) > 0);
            assert(a.contains(t[j]));
            let m2 = choose|m: int| 0 <= m < a.len() && a[m] == t[j];
            (m1, m2)
        };
        assert(a[m1].path == q && a[m2].path == q && m1 != m2);
        let lo = if m1 < m2 { m1 } else { m2 };
        let hi = if m1 < m2 { m2 } else { m1 };
        assert(a[lo].path == q && a[hi].path == q);
        if hi != ie {
            assert(a[hi] == s[hi]);
            if lo != ie {
                assert(a[lo] == s[lo]);
                assert(s[lo].path == q && s[hi].path == q);
            } else {
                assert(ie < s.len());
                assert(s[ie].path == path);
                assert(q == path);
                assert(s[ie].path == q && s[hi].path == q);
            }
        } else {
            assert(a[lo] == s[lo]);
            if ie < s.len() {
                assert(s[ie].path == path);
                assert(q == path);
                assert(s[lo].path == q && s[ie].path == q);
            } else {
                assert(!has_path(path)(s[lo]));
                assert(false);
            }
        }
    }
}

/// What opening a project (later than every known one) does to the list:
/// at most fifty records, from the most recently opened; the project first
/// with what it was opened with; its path nowhere else when the list held it
/// at most once; a path in two records only when two records of the list
/// held it; and every other known project kept, unless the list is full and
/// it was opened no later than every kept one.
pub proof fn law_record_project(
    s: Seq<ProjectEntry>,
    path: Seq<char>,
    name: Seq<char>,
    platform: Platform,
    framework: Seq<char>,
    now: int,
)
    requires
        forall|j: int| 0 <= j < s.len() ==> (#[trigger] s[j]).last_opened < now,
    ensures
        ({
            let r = recorded_projects(s, path, name, platform, framework, now);
            &&& r.len() <= max_known_projects()
            &&& sorted_desc(r, entry_key())
            &&& r.len() >= 1
            &&& r[0] == (ProjectEntry { name, path, platform, framework, last_opened: now })
            &&& (forall|i: int, j: int| 0 <= i < j < s.len() ==> !(#[trigger] s[i].path == path && #[trigger] s[j].path == path))
                ==> (forall|j: int| 0 < j < r.len() ==> (#[trigger] r[j]).path != path)
            &&& forall|i: int, j: int|
                0 <= i < j < r.len() && (#[trigger] r[i]).path == (#[trigger] r[j]).path ==> exists|i2: int, j2: int|
                    0 <= i2 < j2 < s.len() && (#[trigger] s[i2]).path == r[i].path && (#[trigger] s[j2]).path == r[i].path
            &&& forall|m: int|
                0 <= m < s.len() && (#[trigger] s[m]).path != path ==> r.contains(s[m]) || forall|y: ProjectEntry|
                    #[trigger] r.contains(y) ==> y.last_opened >= s[m].last_opened
        }),
{
    law_recorded_projects_bounded(s, path, name, platform, framework, now);
    law_recorded_projects_sorted(s, path, name, platform, framework, now);
    law_recorded_projects_latest_first(s, path, name, platform, framework, now);
    law_recorded_projects_repeats_were_there(s, path, name, platform, framework, now);
    law_recorded_projects_keeps_others(s, path, name, platform, framework, now);
    if forall|i: int, j: int| 0 <= i < j < s.len() ==> !(#[trigger] s[i].path == path && #[trigger] s[j].path == path) {
        law_recorded_projects_path_once(s, path, name, platform, framework, now);
    }
}

/// Opening a project keeps every other known project, unless the list is
/// full: then the ones dropped are opened no later than any kept.
pub proof fn law_recorded_projects_keeps_others(
    s: Seq<ProjectEntry>,
    path: Seq<char>,
    name: Seq<char>,
    platform: Platform,
    framework: Seq<char>,
    now: int,
)
    ensures
        forall|m: int|
            0 <= m < s.len() && (#[trigger] s[m]).path != path ==> recorded_projects(
                s,
                path,
                name,
                platform,
                framework,
                now,
            ).contains(s[m]) || forall|y: ProjectEntry|
                #[trigger] recorded_projects(s, path, name, platform, framework, now).contains(y)
                    ==> y.last_opened >= s[m].last_opened,
        after_open(s, path, name, platform, framework, now).len() <= max_known_projects() ==> recorded_projects(
            s,
            path,
            name,
            platform,
            framework,
            now,
        ).len() == after_open(s, path, name, platform, framework, now).len(),
{
    broadcast use vstd::seq_lib::group_to_multiset_ensures;

    let a = after_open(s, path, name, platform, framework, now);
    let k = entry_key();
    let t = sort_desc(a, k);
    let r = recorded_projects(s, path, name, platform, framework, now);
    lemma_sort_desc_sorted(a, k);
    lemma_sort_desc_permutation(a, k);
    lemma_first_from_facts(s, has_path(path), 0);
    assert forall|m: int| 0 <= m < s.len() && (#[trigger] s[m]).path != path implies r.contains(s[m]) || forall|
        y: ProjectEntry,
    | #[trigger] r.contains(y) ==> y.last_opened >= s[m].last_opened by {
        assert(a[m] == s[m]);
        assert(a.contains(s[m]));
        assert(a.to_multiset().count(s[m]) > 0);
        assert(t.to_multiset().count(s[m]) > 0);
        assert(t.contains(s[m]));
        let q = choose|q: int| 0 <= q < t.len() && t[q] == s[m];
        if q < r.len() {
            assert(r[q] == t[q]);
        } else {
            assert forall|y: ProjectEntry| #[trigger] r.contains(y) implies y.last_opened >= s[m].last_opened by {
                let p = choose|p: int| 0 <= p < r.len() && r[p] == y;
                assert(r[p] == t[p]);
                assert(k(t[p]) >= k(t[q]));
            }
        }
    }
}

/// The session a command addresses is one of the running sessions.
pub proof fn law_selected_session_exists(
    sessions: Seq<ActiveSessionInfo>,
    target: Option<Seq<char>>,
    current_dir: Option<Seq<char>>,
)
    ensures
        spec_select_session(sessions, target, current_dir) matches Some(i) ==> 0 <= i
            < sessions.len(),
        sessions.len() == 0 ==> spec_select_session(sessions, target, current_dir) is None,
{
    match target {
        Some(t) => {
            let tl = unicode_lower(t);
            lemma_first_from_facts(sessions, id_starts_with(tl), 0);
            lemma_first_from_facts(sessions, name_contains(tl), 0);
            lemma_first_from_facts(sessions, path_contains(tl), 0);
        },
        None => {
            if let Some(d) = current_dir {
                lemma_first_from_facts(sessions, path_is(d), 0);
            }
        },
    }
}

/// A command run from a project's directory without naming a session
/// addresses a session of that directory whenever one runs there; when none
/// does, it addresses the only running session, if exactly one runs.
pub proof fn law_current_directory_session(sessions: Seq<ActiveSessionInfo>, current_dir: Seq<char>)
    ensures
        (exists|j: int| 0 <= j < sessions.len() && sessions[j].project_path@ == current_dir) ==> (
        spec_select_session(sessions, None, Some(current_dir)) matches Some(i) && sessions[i].project_path@
            == current_dir),
        (forall|j: int| 0 <= j < sessions.len() ==> sessions[j].project_path@ != current_dir) ==> (
        spec_select_session(sessions, None, Some(current_dir)) == (if sessions.len() == 1 {
            Some(0int)
        } else {
            None
        })),
{
    lemma_first_from_facts(sessions, path_is(current_dir), 0);
    if exists|j: int| 0 <= j < sessions.len() && sessions[j].project_path@ == current_dir {
        let j = choose|j: int| 0 <= j < sessions.len() && sessions[j].project_path@ == current_dir;
        assert(path_is(current_dir)(sessions[j]));
    }
}

} // verus!
