//! Registering DevFlow's MCP server in an AI host's JSON configuration: the
//! server list of the host is made an object when it is not one, and the
//! `devflow` entry, which starts `devflow mcp serve`, is put into it unless
//! it is already there and overwriting was not asked for. Reading and
//! writing the file stays with the caller.
use vstd::prelude::*;
use crate::json::{json_kind, json_kind_of, json_object_insert, json_object_insert_of, pointer_escape, pointer_token};
use crate::text::{concat_str, owned};

verus! {

/// The entry that starts DevFlow's MCP server, as JSON.
pub open spec fn entry_json() -> Seq<char> {
    "{\"command\":\"devflow\",\"args\":[\"mcp\",\"serve\"]}"@
}

/// Where the host's server list stands in its configuration.
pub open spec fn servers_pointer(key: Seq<char>) -> Seq<char> {
    "/"@ + pointer_token(key)
}

/// The configuration the entry is added to: the existing one when it is a
/// JSON object, else an empty object.
pub open spec fn base_document(existing: Option<Seq<char>>) -> Seq<char> {
    match existing {
        Some(c) => if json_kind_of(c, Seq::empty()) == Some(Some(true)) {
            c
        } else {
            "{}"@
        },
        None => "{}"@,
    }
}

/// What becomes of a host's configuration.
pub enum HostUpdate {
    /// The entry is there already and overwriting was not asked for; the
    /// file stays as it is.
    AlreadyConfigured,
    /// The file's new text.
    Write(String),
    /// The configuration could not be rewritten.
    Unwritable,
}

/// The contents of an update.
pub enum HostUpdateView {
    AlreadyConfigured,
    Write(Seq<char>),
    Unwritable,
}

/// The contents of an update.
pub open spec fn update_view(u: HostUpdate) -> HostUpdateView {
    match u {
        HostUpdate::AlreadyConfigured => HostUpdateView::AlreadyConfigured,
        HostUpdate::Write(t) => HostUpdateView::Write(t@),
        HostUpdate::Unwritable => HostUpdateView::Unwritable,
    }
}

/// What becomes of a host's configuration `existing` (`None` when there is
/// no file) under server key `key`: on the configuration in effect (see
/// `base_document`), a server list that is not an object is first replaced
/// by an empty one; then, unless the list has a `devflow` member and `force`
/// is off, that member is set to `entry_json()`.
pub open spec fn spec_host_update(existing: Option<Seq<char>>, key: Seq<char>, force: bool) -> HostUpdateView {
    let base = base_document(existing);
    let ptr = servers_pointer(key);
    let servers_ok = json_kind_of(base, ptr) == Some(Some(true));
    let doc = if servers_ok {
        Some(base)
    } else {
        json_object_insert_of(base, Seq::empty(), key, "{}"@)
    };
    match doc {
        None => HostUpdateView::Unwritable,
        Some(d) => if servers_ok && (json_kind_of(d, ptr + "/devflow"@) matches Some(Some(_))) && !force {
            HostUpdateView::AlreadyConfigured
        } else {
            match json_object_insert_of(d, ptr, "devflow"@, entry_json()) {
                Some(t) => HostUpdateView::Write(t),
                None => HostUpdateView::Unwritable,
            }
        },
    }
}

/// What becomes of a host's configuration (see `spec_host_update`).
pub fn host_update(existing: Option<&str>, key: &str, force: bool) -> (r: HostUpdate)
    ensures
        update_view(r) == spec_host_update(
            match existing {
                Some(c) => Some(c@),
                None => None,
            },
            key@,
            force,
        ),
{
    proof {
        reveal_strlit("");
        assert(""@ =~= Seq::<char>::empty());
    }
    let base = match existing {
        Some(c) => {
            let k = json_kind(c, "");
            if matches!(k, Some(Some(true))) {
                owned(c)
            } else {
                owned("{}")
            }
        },
        None => owned("{}"),
    };
    let ghost ex = match existing {
        Some(c) => Some(c@),
        None => None::<Seq<char>>,
    };
    assert(base@ == base_document(ex));
    let token = pointer_escape(key);
    let ptr = concat_str("/", token.as_str());
    let servers_ok = matches!(json_kind(base.as_str(), ptr.as_str()), Some(Some(true)));
    let doc = if servers_ok {
        base
    } else {
        match json_object_insert(base.as_str(), "", key, "{}") {
            Some(d) => d,
            None => return HostUpdate::Unwritable,
        }
    };
    if servers_ok && !force {
        let member = concat_str(ptr.as_str(), "/devflow");
        if let Some(Some(_)) = json_kind(doc.as_str(), member.as_str()) {
            return HostUpdate::AlreadyConfigured;
        }
    }
    match json_object_insert(doc.as_str(), ptr.as_str(), "devflow", "{\"command\":\"devflow\",\"args\":[\"mcp\",\"serve\"]}") {
        Some(t) => HostUpdate::Write(t),
        None => HostUpdate::Unwritable,
    }
}

} // verus!
