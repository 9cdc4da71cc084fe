//! The companion server's requests and the decisions its handlers make:
//! how a workspace path typed or dropped by the user is cleaned up and
//! where it is looked for, what a workspace is called, which of its
//! targets speaks for it, how a static asset request is answered, and how
//! the MCP log queries are read.
use vstd::prelude::*;
use crate::config::{opt_text, strs};
use crate::paths::{join, path_join};
use crate::platform::Platform;
use crate::project::ProjectTarget;
use crate::registry::KnownProject;
use crate::text::{
    chars_of, concat_str, eq_ignore_ascii_case, is_prefix, owned, string_of, strip_prefix_or_keep,
    trim, trim_char, trim_end_char,
};

verus! {

/// A request to boot an emulator or simulator by name.
pub struct BootEmulatorRequest {
    pub name: String,
}

/// The workspace asked for, if any.
pub struct WorkspaceQuery {
    pub dir: Option<String>,
}

/// A workspace path sent by the user.
pub struct WorkspacePathRequest {
    pub path: String,
}

/// A request to turn the MCP server on or off.
pub struct McpToggleRequest {
    pub enabled: bool,
}

/// A query of the MCP access logs.
pub struct McpLogsQuery {
    pub limit: Option<usize>,
    pub offset: Option<usize>,
    pub session_id: Option<String>,
    pub client: Option<String>,
    pub agent: Option<String>,
    pub tool_name: Option<String>,
    pub status: Option<String>,
    pub search: Option<String>,
}

/// A request to delete MCP access logs.
pub struct DeleteMcpLogsQuery {
    pub id: Option<String>,
    pub session_id: Option<String>,
}

/// The static assets compiled into the companion.
pub struct FrontendAssets;

/// A path as typed: trimmed, without surrounding double then single
/// quotes, without a `file://` prefix.
pub open spec fn spec_unquoted(input: Seq<char>) -> Seq<char> {
    strip_prefix_or_keep(trim_char(trim_char(trim(input), '"'), '\''), "file://"@)
}

fn unquoted(input: &str) -> (r: Vec<char>)
    ensures
        r@ == spec_unquoted(input@),
{
    let c = chars_of(input);
    let a = crate::text::trim_ws(c.as_slice());
    let b = crate::text::trim_matches(a.as_slice(), '"');
    let d = crate::text::trim_matches(b.as_slice(), '\'');
    let p = chars_of("file://");
    crate::text::strip_prefix(d.as_slice(), p.as_slice())
}

/// A workspace path as typed, cleaned up: unquoted (see `spec_unquoted`)
/// and without trailing slashes; `None` when nothing is left.
pub open spec fn spec_clean_workspace(input: Seq<char>) -> Option<Seq<char>> {
    let raw = trim_end_char(spec_unquoted(input), '/');
    if raw.len() == 0 {
        None
    } else {
        Some(raw)
    }
}

/// A workspace path as typed, cleaned up (see `spec_clean_workspace`).
pub fn clean_workspace_input(input: &str) -> (r: Option<String>)
    ensures
        opt_text(r) == spec_clean_workspace(input@),
{
    let u = unquoted(input);
    let raw = crate::text::trim_end_matches(u.as_slice(), '/');
    if raw.len() == 0 {
        None
    } else {
        Some(string_of(raw.as_slice()))
    }
}

/// A workspace path to forget, as typed: unquoted (see `spec_unquoted`).
pub fn clean_removal_input(input: &str) -> (r: String)
    ensures
        r@ == spec_unquoted(input@),
{
    let u = unquoted(input);
    string_of(u.as_slice())
}

/// The folder a folder-picking helper printed: its output trimmed of
/// whitespace and then of trailing `/`; `None` when nothing is left (the
/// user cancelled).
pub fn picked_folder(output: &str) -> (r: Option<String>)
    ensures
        opt_text(r) == (if trim_end_char(trim(output@), '/').len() == 0 {
            None
        } else {
            Some(trim_end_char(trim(output@), '/'))
        }),
{
    let c = chars_of(output);
    let t = crate::text::trim_ws(c.as_slice());
    let p = crate::text::trim_end_matches(t.as_slice(), '/');
    if p.len() == 0 {
        None
    } else {
        Some(string_of(p.as_slice()))
    }
}

/// A path with `~` standing for the home directory, when it is known.
pub open spec fn spec_expand_tilde(raw: Seq<char>, home: Option<Seq<char>>) -> Seq<char> {
    if is_prefix("~/"@, raw) || raw == "~"@ {
        match home {
            Some(h) => if raw == "~"@ {
                h
            } else {
                path_join(h, raw.skip(2))
            },
            None => raw,
        }
    } else {
        raw
    }
}

/// A path with `~` standing for the home directory (see
/// `spec_expand_tilde`).
pub fn expand_tilde(raw: &str, home: Option<&str>) -> (r: String)
    ensures
        r@ == spec_expand_tilde(
            raw@,
            match home {
                Some(h) => Some(h@),
                None => None,
            },
        ),
{
    let c = chars_of(raw);
    let pre = chars_of("~/");
    let tilde = crate::config::is_text(c.as_slice(), "~");
    if crate::text::starts_with(c.as_slice(), pre.as_slice()) || tilde {
        match home {
            Some(h) => if tilde {
                owned(h)
            } else {
                proof {
                    reveal_strlit("~/");
                }
                let rest = crate::text::slice_of(c.as_slice(), 2, c.len());
                assert(rest@ =~= raw@.skip(2));
                let rs = string_of(rest.as_slice());
                join(h, rs.as_str())
            },
            None => owned(raw),
        }
    } else {
        owned(raw)
    }
}

/// The text `a` equals `b` without regard to ASCII case.
pub open spec fn same_ignoring_case(a: Seq<char>, b: Seq<char>) -> bool {
    crate::text::ascii_lower(a) == crate::text::ascii_lower(b)
}

/// The known projects a cleaned-up path names, by name or by path (without
/// trailing slashes), without regard to ASCII case: their paths, in order.
pub open spec fn spec_known_matches(known: Seq<KnownProject>, raw: Seq<char>) -> Seq<Seq<char>>
    decreases known.len(),
{
    if known.len() == 0 {
        Seq::empty()
    } else {
        let rest = spec_known_matches(known.drop_last(), raw);
        let p = known.last();
        if same_ignoring_case(p.name@, raw) || same_ignoring_case(trim_end_char(p.path@, '/'), raw) {
            rest.push(p.path@)
        } else {
            rest
        }
    }
}

/// Where a typed workspace path is looked for, in order: the cleaned-up
/// path with `~` expanded, the path under the current directory (when
/// known), then the known projects it names. The first that is a
/// directory is the workspace.
pub open spec fn spec_workspace_candidates(
    raw: Seq<char>,
    home: Option<Seq<char>>,
    cwd: Option<Seq<char>>,
    known: Seq<KnownProject>,
) -> Seq<Seq<char>> {
    seq![spec_expand_tilde(raw, home)] + match cwd {
        Some(c) => seq![path_join(c, raw)],
        None => Seq::empty(),
    } + spec_known_matches(known, raw)
}

/// Where a typed workspace path is looked for (see
/// `spec_workspace_candidates`), given the cleaned-up path.
pub fn workspace_candidates(
    raw: &str,
    home: Option<&str>,
    cwd: Option<&str>,
    known: &Vec<KnownProject>,
) -> (r: Vec<String>)
    ensures
        strs(r@) == spec_workspace_candidates(
            raw@,
            match home {
                Some(h) => Some(h@),
                None => None,
            },
            match cwd {
                Some(c) => Some(c@),
                None => None,
            },
            known@,
        ),
{
    let mut r: Vec<String> = Vec::new();
    r.push(expand_tilde(raw, home));
    if let Some(c) = cwd {
        r.push(join(c, raw));
    }
    let ghost head = strs(r@);
    let rc = chars_of(raw);
    let mut i: usize = 0;
    assert(spec_known_matches(known@.take(0), raw@) =~= Seq::<Seq<char>>::empty());
    assert(strs(r@) =~= head + Seq::<Seq<char>>::empty());
    while i < known.len()
        invariant
            rc@ == raw@,
            i <= known@.len(),
            strs(r@) == head + spec_known_matches(known@.take(i as int), raw@),
        decreases known@.len() - i,
    {
        let ghost before = strs(r@);
        assert(known@.take(i + 1).drop_last() =~= known@.take(i as int));
        assert(known@.take(i + 1).last() == known@[i as int]);
        let p = &known[i];
        let nc = chars_of(p.name.as_str());
        let pc = chars_of(p.path.as_str());
        let clean = crate::text::trim_end_matches(pc.as_slice(), '/');
        if eq_ignore_ascii_case(nc.as_slice(), rc.as_slice()) || eq_ignore_ascii_case(clean.as_slice(), rc.as_slice()) {
            r.push(owned(p.path.as_str()));
            assert(strs(r@) =~= before.push(known@[i as int].path@));
        }
        i = i + 1;
    }
    assert(known@.take(known@.len() as int) =~= known@);
    r
}

/// What a workspace is called: its directory's name, else `Workspace`.
pub fn workspace_name(dir_name: Option<&str>) -> (r: String)
    ensures
        r@ == match dir_name {
            Some(n) => n@,
            None => "Workspace"@,
        },
{
    match dir_name {
        Some(n) => owned(n),
        None => owned("Workspace"),
    }
}

/// The platform and framework a workspace is recorded with: those of its
/// first target, else generic.
pub fn primary_of(targets: &Vec<ProjectTarget>) -> (r: (Platform, String))
    ensures
        targets@.len() > 0 ==> r.0 == targets@[0].platform && r.1@ == targets@[0].framework@,
        targets@.len() == 0 ==> r.0 == Platform::Generic && r.1@ == "generic"@,
{
    if targets.len() > 0 {
        (targets[0].platform, owned(targets[0].framework.as_str()))
    } else {
        (Platform::Generic, owned("generic"))
    }
}

/// The error of a workspace path that could not be resolved.
pub fn unresolved_workspace_error(path: &str) -> (r: String)
    ensures
        r@ == "Directory does not exist or cannot be resolved: "@ + path@,
{
    concat_str("Directory does not exist or cannot be resolved: ", path)
}

/// How a request the routes did not match is answered.
#[derive(Debug)]
pub enum AssetRoute {
    /// An API route that does not exist: not found, with this error.
    ApiNotFound(String),
    /// Only reading is allowed for static assets.
    MethodNotAllowed,
    /// Serve this asset.
    Serve(String),
}

/// The asset a path names: the path, or `index.html` for the root.
pub open spec fn spec_asset_path(path: Seq<char>) -> Seq<char> {
    if path.len() == 0 {
        "index.html"@
    } else {
        path
    }
}

/// The asset a path names (see `spec_asset_path`).
pub fn asset_path(path: &str) -> (r: String)
    ensures
        r@ == spec_asset_path(path@),
{
    if path.unicode_len() == 0 {
        owned("index.html")
    } else {
        owned(path)
    }
}

/// How a request the routes did not match is answered: an API or RPC path
/// is not found; a static asset is served to `GET` and `HEAD` only, by its
/// path without leading slashes.
pub fn fallback_route(method: &str, path: &str, is_read: bool) -> (r: AssetRoute)
    ensures
        (is_prefix("/api/"@, path@) || path@ == "/rpc"@) ==> (r matches AssetRoute::ApiNotFound(m) && m@
            == "API route not found: "@ + method@ + " "@ + path@),
        !(is_prefix("/api/"@, path@) || path@ == "/rpc"@) && !is_read ==> r is MethodNotAllowed,
        !(is_prefix("/api/"@, path@) || path@ == "/rpc"@) && is_read ==> (r matches AssetRoute::Serve(a)
            && a@ == spec_asset_path(crate::text::trim_start_char(path@, '/'))),
{
    let c = chars_of(path);
    let api = chars_of("/api/");
    if crate::text::starts_with(c.as_slice(), api.as_slice()) || crate::config::is_text(c.as_slice(), "/rpc") {
        let a = concat_str("API route not found: ", method);
        let b = concat_str(a.as_str(), " ");
        return AssetRoute::ApiNotFound(concat_str(b.as_str(), path));
    }
    if !is_read {
        return AssetRoute::MethodNotAllowed;
    }
    let clean = crate::text::trim_start_matches(c.as_slice(), '/');
    let cs = string_of(clean.as_slice());
    AssetRoute::Serve(asset_path(cs.as_str()))
}

/// The filter of an MCP log query: at most 100 entries unless asked
/// otherwise, the client being the one asked for or else the agent.
pub fn logs_query_filter(q: &McpLogsQuery) -> (r: (usize, Option<String>))
    ensures
        r.0 == match q.limit {
            Some(l) => l,
            None => 100usize,
        },
        opt_text(r.1) == match q.client {
            Some(c) => Some(c@),
            None => opt_text(q.agent),
        },
{
    let limit = match q.limit {
        Some(l) => l,
        None => 100,
    };
    let client = match &q.client {
        Some(c) => Some(owned(c.as_str())),
        None => crate::platform::clone_opt_string(&q.agent),
    };
    (limit, client)
}

/// What a request to delete MCP logs deletes.
#[derive(Debug)]
pub enum LogDeletion {
    /// The entry with this id.
    Entry(String),
    /// The entries of this session.
    Session(String),
    /// Every entry.
    All,
}

/// What a request to delete MCP logs deletes: the entry named, else the
/// session's entries, else all.
pub fn log_deletion(q: &DeleteMcpLogsQuery) -> (r: LogDeletion)
    ensures
        match q.id {
            Some(i) => r matches LogDeletion::Entry(x) && x@ == i@,
            None => match q.session_id {
                Some(s) => r matches LogDeletion::Session(x) && x@ == s@,
                None => r is All,
            },
        },
{
    match &q.id {
        Some(i) => LogDeletion::Entry(owned(i.as_str())),
        None => match &q.session_id {
            Some(s) => LogDeletion::Session(owned(s.as_str())),
            None => LogDeletion::All,
        },
    }
}

/// The address the MCP server answers on.
pub fn mcp_endpoint(port: u16) -> (r: String)
    ensures
        r@ == "http://localhost:"@ + crate::number::decimal(port as nat) + "/rpc"@,
{
    let d = crate::number::to_decimal(port as u64);
    let ds = string_of(d.as_slice());
    let a = concat_str("http://localhost:", ds.as_str());
    concat_str(a.as_str(), "/rpc")
}

} // verus!
