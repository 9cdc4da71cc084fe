//! The targets the companion app runs: each session under its target id,
//! and the answers to starting, stopping, reloading and restarting them.
//! Creating, stopping, reloading and restarting the sessions themselves
//! stays with the caller.
use vstd::prelude::*;
use crate::error::{DevflowError, error_text};
use crate::number::{decimal, to_decimal};
use crate::session::{SessionState, SessionView, session_view};
use crate::target_actions::{ActionReply, StartTargetRequest, TargetActionRequest};
use crate::text::{chars_eq, chars_of, concat_str, owned, string_of};

verus! {

/// The ids of the entries, in order.
pub open spec fn entry_ids(s: Seq<(String, SessionState)>) -> Seq<Seq<char>> {
    s.map_values(|e: (String, SessionState)| e.0@)
}

/// The sessions of the entries under their ids.
pub open spec fn entries_map(s: Seq<(String, SessionState)>) -> Map<Seq<char>, SessionView>
    decreases s.len(),
{
    if s.len() == 0 {
        Map::empty()
    } else {
        entries_map(s.drop_last()).insert(s.last().0@, session_view(s.last().1))
    }
}

/// An id is in the map exactly when an entry has it.
proof fn lemma_map_dom(s: Seq<(String, SessionState)>, k: Seq<char>)
    ensures
        entries_map(s).dom().contains(k) <==> entry_ids(s).contains(k),
    decreases s.len(),
{
    if s.len() > 0 {
        lemma_map_dom(s.drop_last(), k);
        assert(entry_ids(s.drop_last()) =~= entry_ids(s).drop_last());
        if entry_ids(s).contains(k) {
            let i = choose|i: int| 0 <= i < entry_ids(s).len() && entry_ids(s)[i] == k;
            if i < s.len() - 1 {
                assert(entry_ids(s.drop_last())[i] == k);
            }
        }
        if entry_ids(s.drop_last()).contains(k) {
            let i = choose|i: int| 0 <= i < entry_ids(s.drop_last()).len() && entry_ids(s.drop_last())[i] == k;
            assert(entry_ids(s)[i] == k);
        }
        assert(entry_ids(s)[s.len() - 1] == s.last().0@);
    }
}

/// With ids all different, the map has one key per entry.
proof fn lemma_map_len(s: Seq<(String, SessionState)>)
    requires
        entry_ids(s).no_duplicates(),
    ensures
        entries_map(s).dom().finite(),
        entries_map(s).dom().len() == s.len(),
    decreases s.len(),
{
    if s.len() > 0 {
        let t = s.drop_last();
        assert(entry_ids(t) =~= entry_ids(s).drop_last());
        lemma_map_len(t);
        lemma_map_dom(t, s.last().0@);
        if entry_ids(t).contains(s.last().0@) {
            let i = choose|i: int| 0 <= i < entry_ids(t).len() && entry_ids(t)[i] == s.last().0@;
            assert(entry_ids(s)[i] == entry_ids(s)[s.len() - 1]);
        }
    }
}

/// Taking out the entry at `i`, whose id is `k`, takes `k` out of the map,
/// when ids are all different.
proof fn lemma_map_remove(s: Seq<(String, SessionState)>, i: int)
    requires
        entry_ids(s).no_duplicates(),
        0 <= i < s.len(),
    ensures
        entries_map(s.remove(i)) == entries_map(s).remove(s[i].0@),
    decreases s.len(),
{
    let k = s[i].0@;
    let t = s.drop_last();
    assert(entry_ids(t) =~= entry_ids(s).drop_last());
    if i == s.len() - 1 {
        assert(s.remove(i) =~= t);
        lemma_map_dom(t, k);
        if entry_ids(t).contains(k) {
            let j = choose|j: int| 0 <= j < entry_ids(t).len() && entry_ids(t)[j] == k;
            assert(entry_ids(s)[j] == entry_ids(s)[i]);
        }
        assert(entries_map(s.remove(i)) =~= entries_map(s).remove(k));
    } else {
        lemma_map_remove(t, i);
        assert(t[i] == s[i]);
        let r = s.remove(i);
        assert(r.drop_last() =~= t.remove(i));
        assert(r.last() == s.last());
        assert(entry_ids(s)[i] != entry_ids(s)[s.len() - 1]);
        assert(entries_map(r) == entries_map(t.remove(i)).insert(s.last().0@, session_view(s.last().1)));
        assert(entries_map(s) == entries_map(t).insert(s.last().0@, session_view(s.last().1)));
        assert(entries_map(r) =~= entries_map(s).remove(k));
    }
}

/// The targets the companion app runs: each session under its target id,
/// no id twice.
pub struct RunningTargets {
    entries: Vec<(String, SessionState)>,
}

impl RunningTargets {
    /// No id is there twice.
    #[verifier::type_invariant]
    spec fn ids_unique(self) -> bool {
        entry_ids(self.entries@).no_duplicates()
    }

    /// The running sessions under their target ids.
    pub closed spec fn sessions(self) -> Map<Seq<char>, SessionView> {
        entries_map(self.entries@)
    }

    /// No target runs.
    pub fn new() -> (r: RunningTargets)
        ensures
            r.sessions() == Map::<Seq<char>, SessionView>::empty(),
    {
        let r = RunningTargets { entries: Vec::new() };
        assert(entry_ids(r.entries@) =~= Seq::<Seq<char>>::empty());
        r
    }

    fn index_of(&self, id: &str) -> (r: Option<usize>)
        ensures
            match r {
                Some(i) => i < self.entries@.len() && self.entries@[i as int].0@ == id@,
                None => !entry_ids(self.entries@).contains(id@),
            },
    {
        let want = chars_of(id);
        let mut i: usize = 0;
        while i < self.entries.len()
            invariant
                i <= self.entries@.len(),
                want@ == id@,
                forall|j: int| 0 <= j < i ==> #[trigger] entry_ids(self.entries@)[j] != id@,
            decreases self.entries@.len() - i,
        {
            let have = chars_of(self.entries[i].0.as_str());
            if chars_eq(have.as_slice(), want.as_slice()) {
                return Some(i);
            }
            assert(entry_ids(self.entries@)[i as int] == self.entries@[i as int].0@);
            i = i + 1;
        }
        None
    }

    /// How many targets run.
    pub fn count(&self) -> (r: usize)
        ensures
            self.sessions().dom().finite(),
            r == self.sessions().dom().len(),
    {
        proof {
            use_type_invariant(self);
            lemma_map_len(self.entries@);
        }
        self.entries.len()
    }

    /// Whether a target runs under `id`.
    pub fn contains(&self, id: &str) -> (r: bool)
        ensures
            r == self.sessions().dom().contains(id@),
    {
        proof {
            lemma_map_dom(self.entries@, id@);
        }
        match self.index_of(id) {
            Some(i) => {
                assert(entry_ids(self.entries@)[i as int] == id@);
                true
            },
            None => false,
        }
    }

    /// Runs `session` under `id`, in place of any session there was.
    pub fn insert(&mut self, id: String, session: SessionState)
        ensures
            final(self).sessions() == old(self).sessions().insert(id@, session_view(session)),
    {
        proof {
            use_type_invariant(&*self);
        }
        let found = self.index_of(id.as_str());
        let ghost k = id@;
        match found {
            Some(i) => {
                let ghost before = self.entries@;
                proof {
                    lemma_map_remove(before, i as int);
                    assert(entry_ids(before.remove(i as int)) =~= entry_ids(before).remove(i as int));
                }
                let mut entries: Vec<(String, SessionState)> = Vec::new();
                assert(entry_ids(entries@) =~= Seq::<Seq<char>>::empty());
                std::mem::swap(&mut entries, &mut self.entries);
                assert(entries@ == before);
                entries.remove(i);
                proof {
                    lemma_map_dom(entries@, k);
                    assert forall|a: int, b: int|
                        0 <= a < b < entry_ids(entries@).len() implies entry_ids(entries@)[a] != entry_ids(
                        entries@,
                    )[b] by {
                        let ia = if a < i { a } else { a + 1 };
                        let ib = if b < i { b } else { b + 1 };
                        assert(entry_ids(entries@)[a] == entry_ids(before)[ia]);
                        assert(entry_ids(entries@)[b] == entry_ids(before)[ib]);
                    }
                    if entry_ids(entries@).contains(k) {
                        let j = choose|j: int| 0 <= j < entry_ids(entries@).len() && entry_ids(entries@)[j] == k;
                        let jj = if j < i { j } else { j + 1 };
                        assert(entry_ids(before)[jj] == k);
                        assert(entry_ids(before)[i as int] == k);
                    }
                }
                entries.push((id, session));
                proof {
                    assert(entry_ids(entries@) =~= entry_ids(entries@.drop_last()).push(k));
                    assert(entries@.drop_last() =~= before.remove(i as int));
                }
                self.entries = entries;
                assert(self.sessions() =~= entries_map(before).remove(k).insert(k, session_view(session)));
            },
            None => {
                let ghost before = self.entries@;
                let mut entries: Vec<(String, SessionState)> = Vec::new();
                assert(entry_ids(entries@) =~= Seq::<Seq<char>>::empty());
                std::mem::swap(&mut entries, &mut self.entries);
                assert(entries@ == before);
                entries.push((id, session));
                proof {
                    assert(entry_ids(entries@) =~= entry_ids(before).push(k));
                    assert(entries@.drop_last() =~= before);
                }
                self.entries = entries;
            },
        }
    }

    /// Takes the session of `id` out, if one runs under it.
    pub fn remove(&mut self, id: &str) -> (r: Option<SessionState>)
        ensures
            final(self).sessions() == old(self).sessions().remove(id@),
            (r is Some) == old(self).sessions().dom().contains(id@),
            r matches Some(s) ==> session_view(s) == old(self).sessions()[id@],
    {
        proof {
            use_type_invariant(&*self);
            lemma_map_dom(self.entries@, id@);
        }
        match self.index_of(id) {
            Some(i) => {
                let ghost before = self.entries@;
                proof {
                    lemma_map_remove(before, i as int);
                    assert(entry_ids(before)[i as int] == id@);
                }
                let mut entries: Vec<(String, SessionState)> = Vec::new();
                assert(entry_ids(entries@) =~= Seq::<Seq<char>>::empty());
                std::mem::swap(&mut entries, &mut self.entries);
                assert(entries@ == before);
                let (_, s) = entries.remove(i);
                proof {
                    assert forall|a: int, b: int|
                        0 <= a < b < entry_ids(entries@).len() implies entry_ids(entries@)[a] != entry_ids(
                        entries@,
                    )[b] by {
                        let ia = if a < i { a } else { a + 1 };
                        let ib = if b < i { b } else { b + 1 };
                        assert(entry_ids(entries@)[a] == entry_ids(before)[ia]);
                        assert(entry_ids(entries@)[b] == entry_ids(before)[ib]);
                    }
                    lemma_map_value(before, i as int);
                }
                self.entries = entries;
                Some(s)
            },
            None => {
                assert(self.sessions() =~= self.sessions().remove(id@));
                None
            },
        }
    }
}

/// The entry at `i` gives the map's session for its id, when ids are all
/// different.
proof fn lemma_map_value(s: Seq<(String, SessionState)>, i: int)
    requires
        entry_ids(s).no_duplicates(),
        0 <= i < s.len(),
    ensures
        entries_map(s).dom().contains(s[i].0@),
        entries_map(s)[s[i].0@] == session_view(s[i].1),
    decreases s.len(),
{
    let t = s.drop_last();
    assert(entry_ids(t) =~= entry_ids(s).drop_last());
    if i < s.len() - 1 {
        lemma_map_value(t, i);
        assert(entry_ids(s)[i] != entry_ids(s)[s.len() - 1]);
    }
}

/// The answer to starting a target: when its session could be created, it
/// runs under the target id and the answer carries that id; otherwise the
/// answer is the error.
pub open spec fn spec_start_reply(id: Seq<char>, created: Result<(), DevflowError>) -> (bool, Seq<char>) {
    match created {
        Ok(()) => (true, id),
        Err(e) => (false, error_text(e)),
    }
}

/// The answer to stopping a target: the target was stopped when it ran,
/// else the processes named after it are cleaned up; both are successes.
pub open spec fn spec_stop_reply(running: Map<Seq<char>, SessionView>, id: Seq<char>) -> (bool, Seq<char>) {
    if running.dom().contains(id) {
        (true, "Stopped target "@ + id)
    } else {
        (true, "Cleaned up target "@ + id)
    }
}

/// The answer to reloading (`reload`) or restarting a target: done when it
/// runs, else refused because it does not.
pub open spec fn spec_signal_reply(running: Map<Seq<char>, SessionView>, id: Seq<char>, reload: bool) -> (bool, Seq<char>) {
    if running.dom().contains(id) {
        (true, (if reload {
            "Reloaded "@
        } else {
            "Restarted "@
        }) + id)
    } else {
        (false, "Target not running"@)
    }
}

/// The answer to reloading (`reload`) or restarting every target.
pub open spec fn spec_all_reply(n: nat, reload: bool) -> (bool, Seq<char>) {
    (true, (if reload {
        "Reloaded "@
    } else {
        "Restarted "@
    }) + decimal(n) + " active targets"@)
}

/// The contents of an answer.
pub open spec fn reply_view(r: ActionReply) -> (bool, Seq<char>) {
    (r.success, r.text@)
}

impl RunningTargets {
    /// Starts a target with the session the caller created for it (or the
    /// error that creating it gave): on success the session runs under the
    /// target id, in place of any it had (see `spec_start_reply`).
    pub fn start_target(&mut self, req: &StartTargetRequest, created: Result<SessionState, DevflowError>) -> (r: ActionReply)
        ensures
            reply_view(r) == spec_start_reply(
                req.target_id@,
                match created {
                    Ok(_) => Ok(()),
                    Err(e) => Err(e),
                },
            ),
            final(self).sessions() == match created {
                Ok(s) => old(self).sessions().insert(req.target_id@, session_view(s)),
                Err(_) => old(self).sessions(),
            },
    {
        match created {
            Ok(s) => {
                self.insert(owned(req.target_id.as_str()), s);
                ActionReply { success: true, text: owned(req.target_id.as_str()) }
            },
            Err(e) => ActionReply { success: false, text: e.message() },
        }
    }

    /// Stops a target: its session leaves the running ones and is handed
    /// back for the caller to stop; when none ran, the caller cleans up the
    /// processes named after the id (see `spec_stop_reply`).
    pub fn stop_target(&mut self, req: &TargetActionRequest) -> (r: (Option<SessionState>, ActionReply))
        ensures
            reply_view(r.1) == spec_stop_reply(old(self).sessions(), req.target_id@),
            final(self).sessions() == old(self).sessions().remove(req.target_id@),
            (r.0 is Some) == old(self).sessions().dom().contains(req.target_id@),
            r.0 matches Some(s) ==> session_view(s) == old(self).sessions()[req.target_id@],
    {
        let id = req.target_id.as_str();
        match self.remove(id) {
            Some(s) => (Some(s), ActionReply { success: true, text: concat_str("Stopped target ", id) }),
            None => (None, ActionReply { success: true, text: concat_str("Cleaned up target ", id) }),
        }
    }

    /// The answer to reloading (`reload`) or restarting a target; the caller
    /// signals the session when the answer is a success (see
    /// `spec_signal_reply`).
    pub fn signal_target(&self, req: &TargetActionRequest, reload: bool) -> (r: ActionReply)
        ensures
            reply_view(r) == spec_signal_reply(self.sessions(), req.target_id@, reload),
    {
        let id = req.target_id.as_str();
        if self.contains(id) {
            let verb = if reload {
                "Reloaded "
            } else {
                "Restarted "
            };
            ActionReply { success: true, text: concat_str(verb, id) }
        } else {
            ActionReply { success: false, text: owned("Target not running") }
        }
    }

    /// The answer to reloading (`reload`) or restarting every running target
    /// (see `spec_all_reply`).
    pub fn signal_all_reply(&self, reload: bool) -> (r: ActionReply)
        ensures
            reply_view(r) == spec_all_reply(self.sessions().dom().len(), reload),
    {
        let n = self.count();
        let digits = to_decimal(n as u64);
        let count = string_of(digits.as_slice());
        let verb = if reload {
            "Reloaded "
        } else {
            "Restarted "
        };
        let head = concat_str(verb, count.as_str());
        ActionReply { success: true, text: concat_str(head.as_str(), " active targets") }
    }
}

/// A target that was started runs: reloading it right after succeeds.
pub proof fn law_started_target_answers(running: Map<Seq<char>, SessionView>, id: Seq<char>, s: SessionView)
    ensures
        spec_signal_reply(running.insert(id, s), id, true).0,
        spec_signal_reply(running.insert(id, s), id, false).0,
{
}

/// A target that was stopped no longer runs: reloading or restarting it is
/// refused, and stopping it again only cleans up.
pub proof fn law_stopped_target_refused(running: Map<Seq<char>, SessionView>, id: Seq<char>)
    ensures
        spec_signal_reply(running.remove(id), id, true) == (false, "Target not running"@),
        spec_signal_reply(running.remove(id), id, false) == (false, "Target not running"@),
        spec_stop_reply(running.remove(id), id) == (true, "Cleaned up target "@ + id),
{
}

/// Starting or stopping one target leaves the others as they were.
pub proof fn law_other_targets_unchanged(
    running: Map<Seq<char>, SessionView>,
    id: Seq<char>,
    other: Seq<char>,
    s: SessionView,
    reload: bool,
)
    requires
        id != other,
    ensures
        spec_signal_reply(running.insert(id, s), other, reload) == spec_signal_reply(running, other, reload),
        spec_signal_reply(running.remove(id), other, reload) == spec_signal_reply(running, other, reload),
{
    assert(running.insert(id, s).dom().contains(other) == running.dom().contains(other));
    assert(running.remove(id).dom().contains(other) == running.dom().contains(other));
}

} // verus!
