//! Log entries and how they are chosen and shown: the level a flag names,
//! which entries a filter keeps, how many lines are read back from a
//! device, and which of them are shown.
use vstd::prelude::*;
use crate::text::{
    chars_of, concat_str, contains, contains_chars, find_index, index_of, owned, slice_of, string_of, to_lowercase, trim,
    trim_ws, unicode_lower,
};

verus! {

/// The severity of a log entry.
#[derive(Clone, Copy, Debug, PartialEq, Eq, Structural)]
pub enum LogLevel {
    D,
    I,
    W,
    E,
}

/// One log entry; `time` is the time of day the log gave it, as written
/// there (`HH:MM:SS.mmm`), when it gave one.
#[derive(Debug)]
pub struct LogEntry {
    pub level: LogLevel,
    pub message: String,
    pub tag: Option<String>,
    pub time: Option<String>,
}

/// The contents of a log entry.
pub struct LogView {
    pub level: LogLevel,
    pub message: Seq<char>,
    pub tag: Option<Seq<char>>,
    pub time: Option<Seq<char>>,
}

/// The contents of a log entry.
pub open spec fn entry_view(e: LogEntry) -> LogView {
    LogView {
        level: e.level,
        message: e.message@,
        tag: crate::config::opt_text(e.tag),
        time: crate::config::opt_text(e.time),
    }
}

/// The contents of a list of log entries.
pub open spec fn entry_views(s: Seq<LogEntry>) -> Seq<LogView> {
    s.map_values(|e: LogEntry| entry_view(e))
}

impl LogEntry {
    /// A copy of the entry.
    pub fn duplicate(&self) -> (r: LogEntry)
        ensures
            entry_view(r) == entry_view(*self),
    {
        LogEntry {
            level: self.level,
            message: owned(self.message.as_str()),
            tag: crate::platform::clone_opt_string(&self.tag),
            time: crate::platform::clone_opt_string(&self.time),
        }
    }
}

/// The level a command-line flag names, without regard to ASCII case: `E`,
/// `W` and `D` their own, any other letter info.
pub open spec fn spec_level_from_flag(c: char) -> LogLevel {
    if c == 'E' || c == 'e' {
        LogLevel::E
    } else if c == 'W' || c == 'w' {
        LogLevel::W
    } else if c == 'D' || c == 'd' {
        LogLevel::D
    } else {
        LogLevel::I
    }
}

/// The level a command-line flag names (see `spec_level_from_flag`).
pub fn level_from_flag(c: char) -> (r: LogLevel)
    ensures
        r == spec_level_from_flag(c),
{
    if c == 'E' || c == 'e' {
        LogLevel::E
    } else if c == 'W' || c == 'w' {
        LogLevel::W
    } else if c == 'D' || c == 'd' {
        LogLevel::D
    } else {
        LogLevel::I
    }
}

/// The badge a level is shown with.
pub fn level_badge(l: LogLevel) -> (r: &'static str)
    ensures
        r@ == match l {
            LogLevel::E => "[ERR]"@,
            LogLevel::W => "[WRN]"@,
            LogLevel::I => "[INF]"@,
            LogLevel::D => "[DBG]"@,
        },
{
    match l {
        LogLevel::E => "[ERR]",
        LogLevel::W => "[WRN]",
        LogLevel::I => "[INF]",
        LogLevel::D => "[DBG]",
    }
}

/// What follows a message for its tag: the tag in brackets, or nothing.
pub fn tag_suffix(tag: &Option<String>) -> (r: String)
    ensures
        r@ == match tag {
            Some(t) => " ["@ + t@ + "]"@,
            None => Seq::empty(),
        },
{
    match tag {
        Some(t) => {
            let a = concat_str(" [", t.as_str());
            concat_str(a.as_str(), "]")
        },
        None => {
            let e = String::new();
            proof {
                assert(e@ == Seq::<char>::empty());
            }
            e
        },
    }
}

/// The rank of a level in the order of severity: debug, info, warning,
/// error.
pub open spec fn level_rank(l: LogLevel) -> nat {
    match l {
        LogLevel::D => 0,
        LogLevel::I => 1,
        LogLevel::W => 2,
        LogLevel::E => 3,
    }
}

/// The rank of a level (see `level_rank`).
pub fn level_order(l: LogLevel) -> (r: u8)
    ensures
        r == level_rank(l),
{
    match l {
        LogLevel::D => 0,
        LogLevel::I => 1,
        LogLevel::W => 2,
        LogLevel::E => 3,
    }
}

/// Whether an entry passes a filter: at least as severe as the level asked
/// for (debug < info < warning < error), with a tag
/// that contains the tag asked for, and with a message that contains the
/// text asked for, the last two without regard to case. What is not asked
/// for does not filter.
pub open spec fn spec_matches(e: LogView, level: Option<LogLevel>, tag: Option<Seq<char>>, query: Option<Seq<char>>) -> bool {
    &&& match level {
        Some(l) => level_rank(e.level) >= level_rank(l),
        None => true,
    }
    &&& match tag {
        Some(t) => match e.tag {
            Some(et) => contains(unicode_lower(et), unicode_lower(t)),
            None => false,
        },
        None => true,
    }
    &&& match query {
        Some(q) => contains(unicode_lower(e.message), unicode_lower(q)),
        None => true,
    }
}

fn contains_lower(hay: &str, needle: &str) -> (r: bool)
    ensures
        r == contains(unicode_lower(hay@), unicode_lower(needle@)),
{
    let h = to_lowercase(hay);
    let n = to_lowercase(needle);
    let hc = chars_of(h.as_str());
    let nc = chars_of(n.as_str());
    contains_chars(hc.as_slice(), nc.as_slice())
}

/// Whether an entry passes a filter (see `spec_matches`).
pub fn matches_filter(e: &LogEntry, level: Option<LogLevel>, tag: Option<&str>, query: Option<&str>) -> (r: bool)
    ensures
        r == spec_matches(
            entry_view(*e),
            level,
            match tag {
                Some(t) => Some(t@),
                None => None,
            },
            match query {
                Some(q) => Some(q@),
                None => None,
            },
        ),
{
    if let Some(l) = level {
        if level_order(e.level) < level_order(l) {
            return false;
        }
    }
    if let Some(t) = tag {
        match &e.tag {
            Some(et) => {
                if !contains_lower(et.as_str(), t) {
                    return false;
                }
            },
            None => return false,
        }
    }
    if let Some(q) = query {
        if !contains_lower(e.message.as_str(), q) {
            return false;
        }
    }
    true
}

/// `x` kept within `lo..=hi`.
pub open spec fn clamp_to(x: int, lo: int, hi: int) -> int {
    if x < lo {
        lo
    } else if x > hi {
        hi
    } else {
        x
    }
}

/// How many lines are read back from a device's log: the limit itself
/// without a filter; with one, twenty times the limit kept within 200 to
/// 2000, so that enough pass it.
pub fn fetch_count(limit: usize, filtered: bool) -> (r: usize)
    requires
        filtered ==> limit * 20 <= usize::MAX,
    ensures
        r == if filtered {
            clamp_to(limit * 20, 200, 2000)
        } else {
            limit as int
        },
{
    if filtered {
        let x = limit * 20;
        if x < 200 {
            200
        } else if x > 2000 {
            2000
        } else {
            x
        }
    } else {
        limit
    }
}

/// The entries that pass a filter, in order.
pub open spec fn passing(s: Seq<LogView>, level: Option<LogLevel>, tag: Option<Seq<char>>, query: Option<Seq<char>>) -> Seq<LogView> {
    s.filter(|e: LogView| spec_matches(e, level, tag, query))
}

/// The entries shown of a device's log: the last ones that pass the filter,
/// at most as many as the limit (none for a limit of 0), in their order.
pub open spec fn spec_recent(s: Seq<LogView>, limit: nat, level: Option<LogLevel>, tag: Option<Seq<char>>, query: Option<Seq<char>>) -> Seq<LogView> {
    let m = passing(s, level, tag, query);
    if m.len() <= limit {
        m
    } else {
        m.skip(m.len() - limit)
    }
}

/// The entries shown of a device's log (see `spec_recent`).
pub fn recent_matches(
    entries: &Vec<LogEntry>,
    limit: usize,
    level: Option<LogLevel>,
    tag: Option<&str>,
    query: Option<&str>,
) -> (r: Vec<LogEntry>)
    ensures
        entry_views(r@) == spec_recent(
            entry_views(entries@),
            limit as nat,
            level,
            match tag {
                Some(t) => Some(t@),
                None => None,
            },
            match query {
                Some(q) => Some(q@),
                None => None,
            },
        ),
{
    let ghost gt = match tag {
        Some(t) => Some(t@),
        None => None,
    };
    let ghost gq = match query {
        Some(q) => Some(q@),
        None => None,
    };
    let ghost all = entry_views(entries@);
    let ghost keep = |e: LogView| spec_matches(e, level, gt, gq);
    let mut kept: Vec<LogEntry> = Vec::new();
    let mut i: usize = 0;
    assert(all.take(0).filter(keep) =~= Seq::<LogView>::empty());
    while i < entries.len()
        invariant
            all == entry_views(entries@),
            i <= entries@.len(),
            keep == (|e: LogView| spec_matches(e, level, gt, gq)),
            gt == match tag {
                Some(t) => Some(t@),
                None => None,
            },
            gq == match query {
                Some(q) => Some(q@),
                None => None,
            },
            entry_views(kept@) == all.take(i as int).filter(keep),
            kept@.len() <= i,
        decreases entries@.len() - i,
    {
        let ghost before = entry_views(kept@);
        assert(all.take(i + 1).drop_last() =~= all.take(i as int));
        assert(all.take(i + 1).last() == entry_view(entries@[i as int]));
        proof {
            reveal(Seq::filter);
        }
        assert(all[i as int] == entry_view(entries@[i as int]));
        let ok = matches_filter(&entries[i], level, tag, query);
        assert(ok == keep(all[i as int]));
        if ok {
            kept.push(entries[i].duplicate());
            assert(entry_views(kept@) =~= before.push(entry_view(entries@[i as int])));
            assert(all.take(i + 1).filter(keep) == all.take(i as int).filter(keep).push(all[i as int]));
        } else {
            assert(all.take(i + 1).filter(keep) == all.take(i as int).filter(keep));
        }
        i = i + 1;
    }
    assert(all.take(all.len() as int) =~= all);
    let n: usize = limit;
    let start: usize = if kept.len() <= n {
        0
    } else {
        kept.len() - n
    };
    let mut out: Vec<LogEntry> = Vec::new();
    let mut j: usize = start;
    let ghost m = entry_views(kept@);
    while j < kept.len()
        invariant
            m == entry_views(kept@),
            start <= j <= kept@.len(),
            entry_views(out@) == m.subrange(start as int, j as int),
        decreases kept@.len() - j,
    {
        let ghost before = entry_views(out@);
        let d = kept[j].duplicate();
        assert(entry_view(d) == m[j as int]);
        out.push(d);
        assert(entry_views(out@) =~= before.push(m[j as int]));
        assert(entry_views(out@) =~= m.subrange(start as int, j + 1));
        j = j + 1;
    }
    assert(m.subrange(start as int, m.len() as int) =~= if m.len() <= n {
        m
    } else {
        m.skip(m.len() - n)
    });
    out
}

/// The entries shown never exceed the limit (none for a limit of 0), all
/// pass the filter, they are the last that do, and fewer than the limit are
/// shown only when fewer pass.
pub proof fn law_recent_is_suffix(s: Seq<LogView>, limit: nat, level: Option<LogLevel>, tag: Option<Seq<char>>, query: Option<Seq<char>>)
    ensures
        spec_recent(s, limit, level, tag, query).len() <= limit,
        spec_recent(s, limit, level, tag, query).len() < limit ==> spec_recent(s, limit, level, tag, query)
            == passing(s, level, tag, query),
        forall|k: int|
            0 <= k < spec_recent(s, limit, level, tag, query).len() ==> spec_matches(
                #[trigger] spec_recent(s, limit, level, tag, query)[k],
                level,
                tag,
                query,
            ),
        spec_recent(s, limit, level, tag, query) == passing(s, level, tag, query).subrange(
            passing(s, level, tag, query).len() - spec_recent(s, limit, level, tag, query).len(),
            passing(s, level, tag, query).len() as int,
        ),
{
    let keep = |e: LogView| spec_matches(e, level, tag, query);
    let m = passing(s, level, tag, query);
    let r = spec_recent(s, limit, level, tag, query);
    assert forall|k: int| 0 <= k < m.len() implies spec_matches(#[trigger] m[k], level, tag, query) by {
        s.lemma_filter_pred(keep, k);
    }
    assert forall|k: int| 0 <= k < r.len() implies spec_matches(#[trigger] r[k], level, tag, query) by {
        assert(r[k] == m[m.len() - r.len() + k]);
    }
    assert(r =~= m.subrange(m.len() - r.len(), m.len() as int));
}


/// The level of a logcat priority letter: verbose and debug are debug,
/// fatal and assert are errors; any other letter is none.
pub open spec fn logcat_level(c: char) -> Option<LogLevel> {
    if c == 'V' || c == 'D' {
        Some(LogLevel::D)
    } else if c == 'I' {
        Some(LogLevel::I)
    } else if c == 'W' {
        Some(LogLevel::W)
    } else if c == 'E' || c == 'F' || c == 'A' {
        Some(LogLevel::E)
    } else {
        None
    }
}

fn logcat_level_of(c: char) -> (r: Option<LogLevel>)
    ensures
        r == logcat_level(c),
{
    if c == 'V' || c == 'D' {
        Some(LogLevel::D)
    } else if c == 'I' {
        Some(LogLevel::I)
    } else if c == 'W' {
        Some(LogLevel::W)
    } else if c == 'E' || c == 'F' || c == 'A' {
        Some(LogLevel::E)
    } else {
        None
    }
}

/// A line of `adb logcat -v time` (`MM-DD HH:MM:SS.mmm P/TAG( PID): TEXT`)
/// as an entry: the priority letter after the time stamp gives the level,
/// the text before the first `(` the tag (trimmed), and what follows the
/// first `): ` after it the message; the entry's time is the time of day of
/// the stamp (`HH:MM:SS.mmm`, after the date). A line not in that form is an
/// info entry tagged `logcat`, without a time, whose message is the whole
/// line.
pub open spec fn spec_parse_logcat(line: Seq<char>) -> LogView {
    let whole = LogView { level: LogLevel::I, message: line, tag: Some("logcat"@), time: None };
    if line.len() >= 21 && line[18] == ' ' && line[20] == '/' && logcat_level(line[19]) is Some {
        let body = line.subrange(21, line.len() as int);
        match index_of(body, "("@) {
            Some(p) => {
                let rest = body.subrange(p, body.len() as int);
                match index_of(rest, "): "@) {
                    Some(q) => LogView {
                        level: logcat_level(line[19])->0,
                        message: rest.subrange(q + 3, rest.len() as int),
                        tag: Some(trim(body.subrange(0, p))),
                        time: Some(line.subrange(6, 18)),
                    },
                    None => whole,
                }
            },
            None => whole,
        }
    } else {
        whole
    }
}

/// A line of the device's log as an entry (see `spec_parse_logcat`).
pub fn parse_logcat_line(line: &str) -> (r: LogEntry)
    ensures
        entry_view(r) == spec_parse_logcat(line@),
{
    let c = chars_of(line);
    if c.len() >= 21 && c[18] == ' ' && c[20] == '/' {
        if let Some(level) = logcat_level_of(c[19]) {
            let body = slice_of(c.as_slice(), 21, c.len());
            let open = chars_of("(");
            if let Some(p) = find_index(body.as_slice(), open.as_slice()) {
                proof {
                    reveal_strlit("(");
                }
                let rest = slice_of(body.as_slice(), p, body.len());
                let close = chars_of("): ");
                if let Some(q) = find_index(rest.as_slice(), close.as_slice()) {
                    proof {
                        reveal_strlit("): ");
                    }
                    let message = slice_of(rest.as_slice(), q + 3, rest.len());
                    let head = slice_of(body.as_slice(), 0, p);
                    let tag = trim_ws(head.as_slice());
                    let time = slice_of(c.as_slice(), 6, 18);
                    return LogEntry {
                        level,
                        message: string_of(message.as_slice()),
                        tag: Some(string_of(tag.as_slice())),
                        time: Some(string_of(time.as_slice())),
                    };
                }
            }
        }
    }
    LogEntry { level: LogLevel::I, message: owned(line), tag: Some(owned("logcat")), time: None }
}


/// The tag filter keeps an entry exactly when the entry has a tag in which
/// the requested tag occurs, both lower-cased (so `ActivityManager` passes
/// `activity`); it never rejects such an entry, and it rejects every entry
/// without a tag.
pub proof fn law_tag_filter_is_substring(
    e: LogView,
    level: Option<LogLevel>,
    t: Seq<char>,
    query: Option<Seq<char>>,
)
    ensures
        (e.tag matches Some(et) && contains(unicode_lower(et), unicode_lower(t))) ==> spec_matches(
            e,
            level,
            Some(t),
            query,
        ) == spec_matches(e, level, None, query),
        e.tag is None ==> !spec_matches(e, level, Some(t), query),
        (e.tag matches Some(et) && !contains(unicode_lower(et), unicode_lower(t))) ==> !spec_matches(
            e,
            level,
            Some(t),
            query,
        ),
{
}

/// A tag filter that is a part of another keeps every entry the other
/// keeps: an entry whose tag holds `long` also holds any `short` that occurs
/// in `long` (all lower-cased).
pub proof fn law_tag_filter_shorter_keeps_more(
    e: LogView,
    level: Option<LogLevel>,
    long: Seq<char>,
    short: Seq<char>,
    query: Option<Seq<char>>,
)
    requires
        contains(unicode_lower(long), unicode_lower(short)),
        spec_matches(e, level, Some(long), query),
    ensures
        spec_matches(e, level, Some(short), query),
{
    let et = unicode_lower(e.tag->0);
    let l = unicode_lower(long);
    let sh = unicode_lower(short);
    let i = choose|i: int| #[trigger] crate::text::occurs_at(et, l, i);
    let j = choose|j: int| #[trigger] crate::text::occurs_at(l, sh, j);
    assert(et.subrange(i + j, i + j + sh.len()) =~= sh) by {
        assert forall|k: int| 0 <= k < sh.len() implies et.subrange(i + j, i + j + sh.len())[k] == sh[k] by {
            assert(l.subrange(j, j + sh.len())[k] == sh[k]);
            assert(l[j + k] == sh[k]);
            assert(et.subrange(i, i + l.len())[j + k] == l[j + k]);
        }
    }
    assert(crate::text::occurs_at(et, sh, i + j));
}


/// The level filter asks for a minimum severity (D < I < W < E): an entry of
/// the level asked for, or an error, is never rejected by it; a debug
/// filter rejects nothing; a debug entry passes no other; and an entry that
/// passes a filter passes every lower one.
pub proof fn law_level_filter_is_minimum(
    e: LogView,
    l: LogLevel,
    tag: Option<Seq<char>>,
    query: Option<Seq<char>>,
)
    ensures
        (e.level == l || e.level == LogLevel::E || l == LogLevel::D) ==> spec_matches(e, Some(l), tag, query)
            == spec_matches(e, None, tag, query),
        e.level == LogLevel::D && l != LogLevel::D ==> !spec_matches(e, Some(l), tag, query),
        e.level == LogLevel::I && (l == LogLevel::W || l == LogLevel::E) ==> !spec_matches(e, Some(l), tag, query),
        e.level == LogLevel::W && l == LogLevel::E ==> !spec_matches(e, Some(l), tag, query),
        spec_matches(e, Some(LogLevel::E), tag, query) ==> spec_matches(e, Some(LogLevel::W), tag, query),
        spec_matches(e, Some(LogLevel::W), tag, query) ==> spec_matches(e, Some(LogLevel::I), tag, query),
        spec_matches(e, Some(LogLevel::I), tag, query) ==> spec_matches(e, Some(LogLevel::D), tag, query),
{
}

/// The text filter keeps an entry exactly when the requested text occurs
/// in its message, both lower-cased.
pub proof fn law_query_filter_is_substring(
    e: LogView,
    level: Option<LogLevel>,
    tag: Option<Seq<char>>,
    q: Seq<char>,
)
    ensures
        contains(unicode_lower(e.message), unicode_lower(q)) ==> spec_matches(e, level, tag, Some(q)) == spec_matches(
            e,
            level,
            tag,
            None,
        ),
        !contains(unicode_lower(e.message), unicode_lower(q)) ==> !spec_matches(e, level, tag, Some(q)),
{
}

} // verus!
