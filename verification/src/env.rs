//! Preparing the environment for the build tools: which Android SDK and
//! Java installation to use when none is set, which tool directories to
//! put on `PATH`, and how they are put in front of it. Looking at the file
//! system and the process environment stays with the caller.
use vstd::prelude::*;
use crate::devices::AdbDiscoverer;
use crate::config::{opt_text, strs};
use crate::paths::{first_marked, join, path_join};
use crate::text::{chars_of, owned, string_of, trim, trim_ws};

verus! {

/// The places looked at for the Android SDK under the home directory, in
/// order.
pub open spec fn spec_android_home_candidates(home: Seq<char>) -> Seq<Seq<char>> {
    seq![
        path_join(home, "Library/Android/sdk"@),
        path_join(home, "Android/Sdk"@),
        path_join(home, ".android-sdk"@),
    ]
}

/// The places looked at for the Android SDK under the home directory, in
/// order.
pub fn android_home_candidates(home: &str) -> (r: Vec<String>)
    ensures
        strs(r@) == spec_android_home_candidates(home@),
{
    let r = vec![join(home, "Library/Android/sdk"), join(home, "Android/Sdk"), join(home, ".android-sdk")];
    assert(strs(r@) =~= spec_android_home_candidates(home@));
    r
}

/// The Java installations looked at, in order of preference.
pub open spec fn spec_java_candidates() -> Seq<Seq<char>> {
    seq![
        "/Library/Java/JavaVirtualMachines/jdk-21.jdk/Contents/Home"@,
        "/Library/Java/JavaVirtualMachines/jdk-27.jdk/Contents/Home"@,
        "/Library/Java/JavaVirtualMachines/temurin-21.jdk/Contents/Home"@,
        "/Library/Java/JavaVirtualMachines/zulu-21.jdk/Contents/Home"@,
        "/Library/Java/JavaVirtualMachines/openjdk-21.jdk/Contents/Home"@,
    ]
}

/// The Java installations looked at, in order of preference.
pub fn java_home_candidates() -> (r: Vec<String>)
    ensures
        strs(r@) == spec_java_candidates(),
{
    let r = vec![
        owned("/Library/Java/JavaVirtualMachines/jdk-21.jdk/Contents/Home"),
        owned("/Library/Java/JavaVirtualMachines/jdk-27.jdk/Contents/Home"),
        owned("/Library/Java/JavaVirtualMachines/temurin-21.jdk/Contents/Home"),
        owned("/Library/Java/JavaVirtualMachines/zulu-21.jdk/Contents/Home"),
        owned("/Library/Java/JavaVirtualMachines/openjdk-21.jdk/Contents/Home"),
    ];
    assert(strs(r@) =~= spec_java_candidates());
    r
}

/// The Android SDK to set: none when `ANDROID_HOME` is set or there is no
/// home directory; else the first candidate under the home directory that
/// exists (`exists[k]` tells whether the k-th does), if any.
pub fn choose_android_home(current: &Option<String>, home: &Option<String>, exists: &Vec<bool>) -> (r: Option<String>)
    ensures
        opt_text(r) == match (current, home) {
            (None, Some(h)) => first_marked(spec_android_home_candidates(h@), exists@),
            _ => None,
        },
{
    match (current, home) {
        (None, Some(h)) => {
            let c = android_home_candidates(h.as_str());
            let r = crate::paths::first_existing(&c, exists);
            proof {
                assert(c@.map_values(|s: String| s@) =~= strs(c@));
            }
            r
        },
        _ => None,
    }
}

/// The Java installation the `java_home` tool printed: its output trimmed,
/// when that is not empty.
pub fn java_home_from_tool(stdout: &str) -> (r: Option<String>)
    ensures
        opt_text(r) == if trim(stdout@).len() > 0 {
            Some(trim(stdout@))
        } else {
            None
        },
{
    let c = chars_of(stdout);
    let t = trim_ws(c.as_slice());
    if t.len() > 0 {
        Some(string_of(t.as_slice()))
    } else {
        None
    }
}

/// Whether to ask the `java_home` tool: only when `JAVA_HOME` is not set
/// and none of the known installations exists (`exists[k]` tells whether
/// the k-th candidate does).
pub fn asks_java_home_tool(current: &Option<String>, exists: &Vec<bool>) -> (r: bool)
    ensures
        r == (current is None && first_marked(spec_java_candidates(), exists@) is None),
{
    match current {
        Some(_) => false,
        None => {
            let c = java_home_candidates();
            proof {
                assert(c@.map_values(|s: String| s@) =~= strs(c@));
            }
            crate::paths::first_existing(&c, exists).is_none()
        },
    }
}

/// The Java installation to set: none when `JAVA_HOME` is set; else the
/// first candidate that exists; else what the `java_home` tool printed,
/// when the caller found that path to exist (`tool_answer_exists`).
pub fn choose_java_home(
    current: &Option<String>,
    exists: &Vec<bool>,
    from_tool: Option<String>,
    tool_answer_exists: bool,
) -> (r: Option<String>)
    ensures
        opt_text(r) == match current {
            Some(_) => None,
            None => match first_marked(spec_java_candidates(), exists@) {
                Some(j) => Some(j),
                None => if tool_answer_exists {
                    opt_text(from_tool)
                } else {
                    None
                },
            },
        },
{
    match current {
        Some(_) => None,
        None => {
            let c = java_home_candidates();
            proof {
                assert(c@.map_values(|s: String| s@) =~= strs(c@));
            }
            match crate::paths::first_existing(&c, exists) {
                Some(j) => Some(j),
                None => if tool_answer_exists {
                    from_tool
                } else {
                    None
                },
            }
        },
    }
}

/// `a` comes before `b` in the order of their characters.
pub open spec fn text_lt(a: Seq<char>, b: Seq<char>) -> bool
    decreases a.len(),
{
    if a.len() == 0 {
        b.len() > 0
    } else if b.len() == 0 {
        false
    } else if a[0] != b[0] {
        (a[0] as u32) < (b[0] as u32)
    } else {
        text_lt(a.drop_first(), b.drop_first())
    }
}

fn less_text(a: &[char], b: &[char]) -> (r: bool)
    ensures
        r == text_lt(a@, b@),
{
    let mut i: usize = 0;
    assert(a@.skip(0) =~= a@);
    assert(b@.skip(0) =~= b@);
    while i < a.len() && i < b.len() && a[i] == b[i]
        invariant
            i <= a@.len(),
            i <= b@.len(),
            text_lt(a@, b@) == text_lt(a@.skip(i as int), b@.skip(i as int)),
        decreases a@.len() - i,
    {
        assert(a@.skip(i as int).drop_first() =~= a@.skip(i + 1));
        assert(b@.skip(i as int).drop_first() =~= b@.skip(i + 1));
        i = i + 1;
    }
    if i == a.len() {
        i < b.len()
    } else if i == b.len() {
        false
    } else {
        (a[i] as u32) < (b[i] as u32)
    }
}

/// Whether `v` is greatest, in the order of characters, among the marked
/// versions.
pub open spec fn greatest_marked(v: Seq<char>, versions: Seq<Seq<char>>, marks: Seq<bool>) -> bool {
    forall|k: int| 0 <= k < versions.len() && k < marks.len() && marks[k] ==> !text_lt(v, #[trigger] versions[k])
}

/// The `bin` directory of the newest Node version installed with nvm: the
/// versions are tried from the greatest name down, and the first with a
/// `bin` directory (`has_bin[k]` tells whether the k-th has one) is taken.
pub fn latest_nvm_bin(versions: &Vec<String>, has_bin: &Vec<bool>) -> (r: Option<String>)
    requires
        versions@.len() == has_bin@.len(),
    ensures
        match r {
            Some(b) => exists|k: int|
                0 <= k < versions@.len() && has_bin@[k] && b@ == path_join(#[trigger] versions@[k]@, "bin"@)
                    && greatest_marked(versions@[k]@, strs(versions@), has_bin@),
            None => forall|k: int| 0 <= k < has_bin@.len() ==> !#[trigger] has_bin@[k],
        },
{
    let mut best: Option<usize> = None;
    let mut i: usize = 0;
    while i < versions.len()
        invariant
            versions@.len() == has_bin@.len(),
            i <= versions@.len(),
            match best {
                Some(b) => b < i && has_bin@[b as int] && greatest_marked(
                    versions@[b as int]@,
                    strs(versions@).take(i as int),
                    has_bin@.take(i as int),
                ),
                None => forall|k: int| 0 <= k < i ==> !#[trigger] has_bin@[k],
            },
        decreases versions@.len() - i,
    {
        if has_bin[i] {
            match best {
                Some(b) => {
                    let vb = chars_of(versions[b].as_str());
                    let vi = chars_of(versions[i].as_str());
                    if less_text(vb.as_slice(), vi.as_slice()) {
                        proof {
                            lemma_text_lt_total(versions@[b as int]@, versions@[i as int]@);
                            assert forall|k: int|
                                0 <= k < i + 1 && k < has_bin@.take(i + 1).len() && has_bin@.take(i + 1)[k]
                                    implies !text_lt(versions@[i as int]@, #[trigger] strs(versions@).take(i + 1)[k]) by {
                                if k < i {
                                    assert(strs(versions@).take(i as int)[k] == versions@[k]@);
                                    assert(has_bin@.take(i as int)[k]);
                                    lemma_text_lt_trans_not(versions@[b as int]@, versions@[i as int]@, versions@[k]@);
                                } else {
                                    lemma_text_lt_irreflexive(versions@[i as int]@);
                                }
                            }
                        }
                        best = Some(i);
                    } else {
                        proof {
                            assert forall|k: int|
                                0 <= k < i + 1 && k < has_bin@.take(i + 1).len() && has_bin@.take(i + 1)[k]
                                    implies !text_lt(versions@[b as int]@, #[trigger] strs(versions@).take(i + 1)[k]) by {
                                if k < i {
                                    assert(strs(versions@).take(i as int)[k] == versions@[k]@);
                                    assert(has_bin@.take(i as int)[k]);
                                }
                            }
                        }
                    }
                },
                None => {
                    proof {
                        assert forall|k: int|
                            0 <= k < i + 1 && k < has_bin@.take(i + 1).len() && has_bin@.take(i + 1)[k]
                                implies !text_lt(versions@[i as int]@, #[trigger] strs(versions@).take(i + 1)[k]) by {
                            if k < i {
                                assert(has_bin@[k]);
                            } else {
                                lemma_text_lt_irreflexive(versions@[i as int]@);
                            }
                        }
                    }
                    best = Some(i);
                },
            }
        } else {
            proof {
                match best {
                    Some(b) => {
                        let v = versions@[b as int]@;
                        assert forall|k: int|
                            0 <= k < i + 1 && k < has_bin@.take(i + 1).len() && has_bin@.take(i + 1)[k]
                                implies !text_lt(v, #[trigger] strs(versions@).take(i + 1)[k]) by {
                            assert(k < i);
                            assert(strs(versions@).take(i as int)[k] == versions@[k]@);
                            assert(has_bin@.take(i as int)[k]);
                        }
                    },
                    None => {},
                }
            }
        }
        i = i + 1;
    }
    match best {
        Some(b) => {
            proof {
                assert(strs(versions@).take(i as int) =~= strs(versions@));
                assert(has_bin@.take(i as int) =~= has_bin@);
            }
            Some(join(versions[b].as_str(), "bin"))
        },
        None => None,
    }
}

proof fn lemma_text_lt_irreflexive(a: Seq<char>)
    ensures
        !text_lt(a, a),
    decreases a.len(),
{
    if a.len() > 0 {
        lemma_text_lt_irreflexive(a.drop_first());
    }
}

proof fn lemma_text_lt_total(a: Seq<char>, b: Seq<char>)
    ensures
        text_lt(a, b) ==> !text_lt(b, a),
    decreases a.len(),
{
    if a.len() > 0 && b.len() > 0 && a[0] == b[0] {
        lemma_text_lt_total(a.drop_first(), b.drop_first());
    }
}

proof fn lemma_text_lt_trans_not(a: Seq<char>, b: Seq<char>, c: Seq<char>)
    requires
        text_lt(a, b),
        !text_lt(a, c),
    ensures
        !text_lt(b, c),
    decreases a.len(),
{
    if a.len() > 0 && b.len() > 0 && c.len() > 0 && a[0] == b[0] && a[0] == c[0] {
        lemma_text_lt_trans_not(a.drop_first(), b.drop_first(), c.drop_first());
    }
}

/// The directories that may be put on `PATH`, in order: under the home
/// directory `.local/bin`, `.cargo/bin` and `.bun/bin`, then the newest nvm
/// Node `bin`; under the Android SDK `platform-tools`, `emulator` and
/// `cmdline-tools/latest/bin`; then the Java installation's `bin`.
pub open spec fn spec_path_candidates(
    home: Option<Seq<char>>,
    nvm_bin: Option<Seq<char>>,
    android_home: Option<Seq<char>>,
    java_home: Option<Seq<char>>,
) -> Seq<Seq<char>> {
    let h = match home {
        Some(h) => seq![path_join(h, ".local/bin"@), path_join(h, ".cargo/bin"@), path_join(h, ".bun/bin"@)]
            + match nvm_bin {
            Some(n) => seq![n],
            None => Seq::empty(),
        },
        None => Seq::empty(),
    };
    let a = match android_home {
        Some(a) => seq![
            path_join(a, "platform-tools"@),
            path_join(a, "emulator"@),
            path_join(a, "cmdline-tools/latest/bin"@),
        ],
        None => Seq::empty(),
    };
    let j = match java_home {
        Some(j) => seq![path_join(j, "bin"@)],
        None => Seq::empty(),
    };
    h + a + j
}

/// The directories that may be put on `PATH` (see `spec_path_candidates`).
pub fn path_candidates(
    home: &Option<String>,
    nvm_bin: &Option<String>,
    android_home: &Option<String>,
    java_home: &Option<String>,
) -> (r: Vec<String>)
    ensures
        strs(r@) == spec_path_candidates(opt_text(*home), opt_text(*nvm_bin), opt_text(*android_home), opt_text(*java_home)),
{
    let mut r: Vec<String> = Vec::new();
    if let Some(h) = home {
        r.push(join(h.as_str(), ".local/bin"));
        r.push(join(h.as_str(), ".cargo/bin"));
        r.push(join(h.as_str(), ".bun/bin"));
        if let Some(n) = nvm_bin {
            r.push(owned(n.as_str()));
        }
    }
    if let Some(a) = android_home {
        r.push(join(a.as_str(), "platform-tools"));
        r.push(join(a.as_str(), "emulator"));
        r.push(join(a.as_str(), "cmdline-tools/latest/bin"));
    }
    if let Some(j) = java_home {
        r.push(join(j.as_str(), "bin"));
    }
    assert(strs(r@) =~= spec_path_candidates(opt_text(*home), opt_text(*nvm_bin), opt_text(*android_home), opt_text(*java_home)));
    r
}

/// The marked candidates, in order.
pub open spec fn marked(cands: Seq<Seq<char>>, marks: Seq<bool>) -> Seq<Seq<char>>
    decreases cands.len(),
{
    if cands.len() == 0 || marks.len() == 0 {
        Seq::empty()
    } else {
        let rest = marked(cands.drop_last(), marks.drop_last());
        if cands.len() == marks.len() && marks.last() {
            rest.push(cands.last())
        } else {
            rest
        }
    }
}

/// The candidates that exist (`exists[k]` tells whether the k-th does), in
/// order.
pub fn existing(cands: &Vec<String>, exists: &Vec<bool>) -> (r: Vec<String>)
    requires
        cands@.len() == exists@.len(),
    ensures
        strs(r@) == marked(strs(cands@), exists@),
{
    let mut r: Vec<String> = Vec::new();
    let mut i: usize = 0;
    assert(marked(strs(cands@).take(0), exists@.take(0)) =~= Seq::<Seq<char>>::empty());
    while i < cands.len()
        invariant
            cands@.len() == exists@.len(),
            i <= cands@.len(),
            strs(r@) == marked(strs(cands@).take(i as int), exists@.take(i as int)),
        decreases cands@.len() - i,
    {
        let ghost before = strs(r@);
        assert(strs(cands@).take(i + 1).drop_last() =~= strs(cands@).take(i as int));
        assert(exists@.take(i + 1).drop_last() =~= exists@.take(i as int));
        if exists[i] {
            r.push(owned(cands[i].as_str()));
            assert(strs(r@) =~= before.push(cands@[i as int]@));
        }
        i = i + 1;
    }
    assert(strs(cands@).take(i as int) =~= strs(cands@));
    assert(exists@.take(i as int) =~= exists@);
    r
}

/// The new `PATH` entries: the directories not already on it, in order,
/// put in front of the current entries; `None` when all are already there,
/// and `PATH` stays as it is.
pub open spec fn spec_merge_path(extra: Seq<Seq<char>>, current: Seq<Seq<char>>) -> Option<Seq<Seq<char>>> {
    let fresh = extra.filter(|p: Seq<char>| !current.contains(p));
    if fresh.len() == 0 {
        None
    } else {
        Some(fresh + current)
    }
}

fn contains_text(v: &Vec<String>, s: &str) -> (r: bool)
    ensures
        r == strs(v@).contains(s@),
{
    let mut i: usize = 0;
    while i < v.len()
        invariant
            i <= v@.len(),
            forall|k: int| 0 <= k < i ==> strs(v@)[k] != s@,
        decreases v@.len() - i,
    {
        let a = chars_of(v[i].as_str());
        let b = chars_of(s);
        if crate::text::chars_eq(a.as_slice(), b.as_slice()) {
            assert(strs(v@)[i as int] == s@);
            return true;
        }
        i = i + 1;
    }
    false
}

/// The new `PATH` entries (see `spec_merge_path`).
pub fn merge_path(extra: &Vec<String>, current: &Vec<String>) -> (r: Option<Vec<String>>)
    ensures
        match r {
            Some(v) => spec_merge_path(strs(extra@), strs(current@)) == Some(strs(v@)),
            None => spec_merge_path(strs(extra@), strs(current@)) is None,
        },
{
    let ghost cur = strs(current@);
    let ghost ex = strs(extra@);
    let ghost keep = |p: Seq<char>| !cur.contains(p);
    let mut fresh: Vec<String> = Vec::new();
    let mut i: usize = 0;
    proof {
        reveal(Seq::filter);
    }
    assert(ex.take(0).filter(keep) =~= Seq::<Seq<char>>::empty());
    while i < extra.len()
        invariant
            cur == strs(current@),
            ex == strs(extra@),
            keep == (|p: Seq<char>| !cur.contains(p)),
            i <= extra@.len(),
            strs(fresh@) == ex.take(i as int).filter(keep),
        decreases extra@.len() - i,
    {
        proof {
            reveal(Seq::filter);
        }
        let ghost before = strs(fresh@);
        assert(ex.take(i + 1).drop_last() =~= ex.take(i as int));
        assert(ex.take(i + 1).last() == ex[i as int]);
        if !contains_text(current, extra[i].as_str()) {
            fresh.push(owned(extra[i].as_str()));
            assert(strs(fresh@) =~= before.push(ex[i as int]));
        }
        i = i + 1;
    }
    assert(ex.take(i as int) =~= ex);
    if fresh.len() == 0 {
        return None;
    }
    let mut out = fresh;
    let mut j: usize = 0;
    let ghost f = strs(out@);
    while j < current.len()
        invariant
            cur == strs(current@),
            j <= current@.len(),
            strs(out@) == f + cur.take(j as int),
        decreases current@.len() - j,
    {
        let ghost before = strs(out@);
        out.push(owned(current[j].as_str()));
        assert(strs(out@) =~= before.push(cur[j as int]));
        assert(cur.take(j + 1) =~= cur.take(j as int).push(cur[j as int]));
        j = j + 1;
    }
    assert(cur.take(j as int) =~= cur);
    Some(out)
}

/// Putting the same directories in front of `PATH` a second time changes
/// nothing: each is there after the first time.
pub proof fn law_merge_path_idempotent(extra: Seq<Seq<char>>, current: Seq<Seq<char>>)
    ensures
        match spec_merge_path(extra, current) {
            Some(merged) => spec_merge_path(extra, merged) is None,
            None => true,
        },
{
    let keep = |p: Seq<char>| !current.contains(p);
    let fresh = extra.filter(keep);
    if fresh.len() > 0 {
        let merged = fresh + current;
        let keep2 = |p: Seq<char>| !merged.contains(p);
        assert forall|k: int| 0 <= k < extra.len() implies !keep2(#[trigger] extra[k]) by {
            if current.contains(extra[k]) {
                let j = choose|j: int| 0 <= j < current.len() && current[j] == extra[k];
                assert(merged[fresh.len() + j] == extra[k]);
            } else {
                extra.lemma_filter_contains(keep, k);
                let j = choose|j: int| 0 <= j < fresh.len() && fresh[j] == extra[k];
                assert(merged[j] == extra[k]);
            }
        }
        lemma_filter_none(extra, keep2);
    }
}

proof fn lemma_filter_none(s: Seq<Seq<char>>, p: spec_fn(Seq<char>) -> bool)
    requires
        forall|k: int| 0 <= k < s.len() ==> !p(#[trigger] s[k]),
    ensures
        s.filter(p).len() == 0,
    decreases s.len(),
{
    reveal(Seq::filter);
    if s.len() > 0 {
        assert forall|k: int| 0 <= k < s.drop_last().len() implies !p(#[trigger] s.drop_last()[k]) by {
            assert(s.drop_last()[k] == s[k]);
        }
        lemma_filter_none(s.drop_last(), p);
        assert(!p(s[s.len() - 1]));
    }
}

/// What was on `PATH` stays on it, in the same order, after the new
/// directories.
pub proof fn law_merge_path_keeps_current(extra: Seq<Seq<char>>, current: Seq<Seq<char>>)
    ensures
        match spec_merge_path(extra, current) {
            Some(merged) => merged.len() >= current.len() && merged.subrange(
                merged.len() - current.len(),
                merged.len() as int,
            ) == current,
            None => true,
        },
{
    let keep = |p: Seq<char>| !current.contains(p);
    let fresh = extra.filter(keep);
    if fresh.len() > 0 {
        let merged = fresh + current;
        assert(merged.subrange(merged.len() - current.len(), merged.len() as int) =~= current);
    }
}

/// Where `adb` is looked for when it is not on `PATH`, in order: under
/// `ANDROID_HOME`, under `ANDROID_SDK_ROOT`, then in the default SDK under
/// the home directory.
pub open spec fn spec_adb_candidates(
    android_home: Option<Seq<char>>,
    sdk_root: Option<Seq<char>>,
    home: Option<Seq<char>>,
) -> Seq<Seq<char>> {
    let a = match android_home {
        Some(a) => seq![path_join(path_join(a, "platform-tools"@), "adb"@)],
        None => Seq::empty(),
    };
    let b = match sdk_root {
        Some(a) => seq![path_join(path_join(a, "platform-tools"@), "adb"@)],
        None => Seq::empty(),
    };
    let c = match home {
        Some(h) => seq![path_join(h, "Library/Android/sdk/platform-tools/adb"@)],
        None => Seq::empty(),
    };
    a + b + c
}

/// Where `adb` is looked for when it is not on `PATH` (see
/// `spec_adb_candidates`).
pub fn adb_candidates(android_home: &Option<String>, sdk_root: &Option<String>, home: &Option<String>) -> (r: Vec<String>)
    ensures
        strs(r@) == spec_adb_candidates(opt_text(*android_home), opt_text(*sdk_root), opt_text(*home)),
{
    let mut r: Vec<String> = Vec::new();
    if let Some(a) = android_home {
        let pt = join(a.as_str(), "platform-tools");
        r.push(join(pt.as_str(), "adb"));
    }
    if let Some(a) = sdk_root {
        let pt = join(a.as_str(), "platform-tools");
        r.push(join(pt.as_str(), "adb"));
    }
    if let Some(h) = home {
        r.push(join(h.as_str(), "Library/Android/sdk/platform-tools/adb"));
    }
    assert(strs(r@) =~= spec_adb_candidates(opt_text(*android_home), opt_text(*sdk_root), opt_text(*home)));
    r
}

impl AdbDiscoverer {
    /// The `adb` to run: plain `adb` when it runs from `PATH`; else the first
    /// candidate that exists; else plain `adb` all the same.
    pub fn resolve_adb_binary(on_path: bool, cands: &Vec<String>, exists: &Vec<bool>) -> (r: String)
        ensures
            r@ == if on_path {
                "adb"@
            } else {
                match first_marked(strs(cands@), exists@) {
                    Some(p) => p,
                    None => "adb"@,
                }
            },
    {
        if on_path {
            return owned("adb");
        }
        proof {
            assert(cands@.map_values(|s: String| s@) =~= strs(cands@));
        }
        match crate::paths::first_existing(cands, exists) {
            Some(p) => p,
            None => owned("adb"),
        }
    }
}

/// The SDK roots looked at for the emulator, in order: `ANDROID_HOME`,
/// `ANDROID_SDK_ROOT`, the default SDKs under the home directory, then the
/// one under `LOCALAPPDATA`; and in each root `emulator/emulator`, then
/// `tools/emulator`.
pub open spec fn spec_emulator_candidates(
    android_home: Option<Seq<char>>,
    sdk_root: Option<Seq<char>>,
    home: Option<Seq<char>>,
    local_app_data: Option<Seq<char>>,
) -> Seq<Seq<char>> {
    let roots = match android_home {
        Some(a) => seq![a],
        None => Seq::empty(),
    } + match sdk_root {
        Some(a) => seq![a],
        None => Seq::empty(),
    } + match home {
        Some(h) => seq![h + "/Library/Android/sdk"@, h + "/Android/Sdk"@],
        None => Seq::empty(),
    } + match local_app_data {
        Some(l) => seq![l + "/Android/Sdk"@],
        None => Seq::empty(),
    };
    in_roots(roots)
}

/// In each root, `emulator/emulator` then `tools/emulator`.
pub open spec fn in_roots(roots: Seq<Seq<char>>) -> Seq<Seq<char>>
    decreases roots.len(),
{
    if roots.len() == 0 {
        Seq::empty()
    } else {
        in_roots(roots.drop_last()) + seq![
            path_join(roots.last(), "emulator/emulator"@),
            path_join(roots.last(), "tools/emulator"@),
        ]
    }
}

/// Where the Android emulator is looked for when it is not on `PATH` (see
/// `spec_emulator_candidates`).
pub fn emulator_candidates(
    android_home: &Option<String>,
    sdk_root: &Option<String>,
    home: &Option<String>,
    local_app_data: &Option<String>,
) -> (r: Vec<String>)
    ensures
        strs(r@) == spec_emulator_candidates(
            opt_text(*android_home),
            opt_text(*sdk_root),
            opt_text(*home),
            opt_text(*local_app_data),
        ),
{
    let mut roots: Vec<String> = Vec::new();
    if let Some(a) = android_home {
        roots.push(owned(a.as_str()));
    }
    if let Some(a) = sdk_root {
        roots.push(owned(a.as_str()));
    }
    if let Some(h) = home {
        roots.push(crate::text::concat_str(h.as_str(), "/Library/Android/sdk"));
        roots.push(crate::text::concat_str(h.as_str(), "/Android/Sdk"));
    }
    if let Some(l) = local_app_data {
        roots.push(crate::text::concat_str(l.as_str(), "/Android/Sdk"));
    }
    let ghost gr = strs(roots@);
    assert(gr =~= match opt_text(*android_home) {
        Some(a) => seq![a],
        None => Seq::<Seq<char>>::empty(),
    } + match opt_text(*sdk_root) {
        Some(a) => seq![a],
        None => Seq::<Seq<char>>::empty(),
    } + match opt_text(*home) {
        Some(h) => seq![h + "/Library/Android/sdk"@, h + "/Android/Sdk"@],
        None => Seq::<Seq<char>>::empty(),
    } + match opt_text(*local_app_data) {
        Some(l) => seq![l + "/Android/Sdk"@],
        None => Seq::<Seq<char>>::empty(),
    });
    let mut r: Vec<String> = Vec::new();
    let mut i: usize = 0;
    assert(gr.take(0) =~= Seq::<Seq<char>>::empty());
    while i < roots.len()
        invariant
            gr == strs(roots@),
            i <= roots@.len(),
            strs(r@) == in_roots(gr.take(i as int)),
        decreases roots@.len() - i,
    {
        let ghost before = strs(r@);
        assert(gr.take(i + 1).drop_last() =~= gr.take(i as int));
        assert(gr.take(i + 1).last() == gr[i as int]);
        r.push(join(roots[i].as_str(), "emulator/emulator"));
        r.push(join(roots[i].as_str(), "tools/emulator"));
        assert(strs(r@) =~= before + seq![
            path_join(gr[i as int], "emulator/emulator"@),
            path_join(gr[i as int], "tools/emulator"@),
        ]);
        i = i + 1;
    }
    assert(gr.take(i as int) =~= gr);
    r
}

/// Where a program is looked for on `PATH`: in each directory of the
/// colon-separated list, in order.
pub open spec fn spec_which_candidates(path_var: Seq<char>, name: Seq<char>) -> Seq<Seq<char>> {
    crate::split::split_char(path_var, ':').map_values(|d: Seq<char>| path_join(d, name))
}

/// Where a program is looked for on `PATH` (see `spec_which_candidates`).
pub fn which_candidates(path_var: &str, name: &str) -> (r: Vec<String>)
    ensures
        strs(r@) == spec_which_candidates(path_var@, name@),
{
    let c = chars_of(path_var);
    let dirs = crate::split::split_on(c.as_slice(), ':');
    let ghost ds = crate::split::split_char(path_var@, ':');
    let mut r: Vec<String> = Vec::new();
    let mut i: usize = 0;
    while i < dirs.len()
        invariant
            dirs@.len() == ds.len(),
            forall|k: int| 0 <= k < dirs@.len() ==> #[trigger] dirs@[k]@ == ds[k],
            i <= dirs@.len(),
            strs(r@) == ds.take(i as int).map_values(|d: Seq<char>| path_join(d, name@)),
        decreases dirs@.len() - i,
    {
        let ghost before = strs(r@);
        let d = string_of(dirs[i].as_slice());
        r.push(join(d.as_str(), name));
        assert(strs(r@) =~= before.push(path_join(ds[i as int], name@)));
        assert(ds.take(i + 1) =~= ds.take(i as int).push(ds[i as int]));
        i = i + 1;
    }
    assert(ds.take(ds.len() as int) =~= ds);
    r
}

/// The variables that preparing the environment reads and sets.
pub struct EnvVars {
    pub android_home: Option<Seq<char>>,
    pub sdk_root: Option<Seq<char>>,
    pub java_home: Option<Seq<char>>,
    pub path: Seq<Seq<char>>,
}

/// For each candidate, whether it is on `disk` (the paths that exist).
pub open spec fn on_disk(cands: Seq<Seq<char>>, disk: Set<Seq<char>>) -> Seq<bool> {
    cands.map_values(|c: Seq<char>| disk.contains(c))
}

/// The variables after preparing the environment once (what
/// `prepare_environment` computes), from what `choose_android_home`,
/// `choose_java_home`, `path_candidates`, `existing` and `merge_path`
/// decide: `home` is `$HOME`, `disk` the paths that exist,
/// `nvm_bin` the newest nvm Node `bin` and `tool` what the `java_home` tool
/// printed.
pub open spec fn prepared_env(
    e: EnvVars,
    home: Option<Seq<char>>,
    disk: Set<Seq<char>>,
    nvm_bin: Option<Seq<char>>,
    tool: Option<Seq<char>>,
) -> EnvVars {
    let sdk = match (e.android_home, home) {
        (None, Some(h)) => first_marked(
            spec_android_home_candidates(h),
            on_disk(spec_android_home_candidates(h), disk),
        ),
        _ => None,
    };
    let (android_home, sdk_root) = match sdk {
        Some(a) => (Some(a), Some(a)),
        None => (e.android_home, e.sdk_root),
    };
    let java = match e.java_home {
        Some(_) => None,
        None => match first_marked(spec_java_candidates(), on_disk(spec_java_candidates(), disk)) {
            Some(j) => Some(j),
            None => match tool {
                Some(t) => if disk.contains(t) {
                    Some(t)
                } else {
                    None
                },
                None => None,
            },
        },
    };
    let java_home = match java {
        Some(j) => Some(j),
        None => e.java_home,
    };
    let cands = spec_path_candidates(home, nvm_bin, android_home, java_home);
    let path = match spec_merge_path(marked(cands, on_disk(cands, disk)), e.path) {
        Some(p) => p,
        None => e.path,
    };
    EnvVars { android_home, sdk_root, java_home, path }
}

/// Preparing the environment a second time, with the same home directory
/// and the same files on disk, changes nothing.
pub proof fn law_prepared_env_idempotent(
    e: EnvVars,
    home: Option<Seq<char>>,
    disk: Set<Seq<char>>,
    nvm_bin: Option<Seq<char>>,
    tool: Option<Seq<char>>,
)
    ensures
        prepared_env(prepared_env(e, home, disk, nvm_bin, tool), home, disk, nvm_bin, tool)
            == prepared_env(e, home, disk, nvm_bin, tool),
{
    let e1 = prepared_env(e, home, disk, nvm_bin, tool);
    let cands = spec_path_candidates(home, nvm_bin, e1.android_home, e1.java_home);
    law_merge_path_idempotent(marked(cands, on_disk(cands, disk)), e.path);
}

/// Variables already set are kept: a set `ANDROID_HOME` and `JAVA_HOME`
/// stay as they are, and every entry of `PATH` stays on it, in order,
/// behind the entries put in front.
pub proof fn law_prepared_env_keeps_set(
    e: EnvVars,
    home: Option<Seq<char>>,
    disk: Set<Seq<char>>,
    nvm_bin: Option<Seq<char>>,
    tool: Option<Seq<char>>,
)
    ensures
        e.android_home is Some ==> prepared_env(e, home, disk, nvm_bin, tool).android_home == e.android_home,
        e.java_home is Some ==> prepared_env(e, home, disk, nvm_bin, tool).java_home == e.java_home,
        prepared_env(e, home, disk, nvm_bin, tool).path.len() >= e.path.len(),
        prepared_env(e, home, disk, nvm_bin, tool).path.subrange(
            prepared_env(e, home, disk, nvm_bin, tool).path.len() - e.path.len(),
            prepared_env(e, home, disk, nvm_bin, tool).path.len() as int,
        ) == e.path,
{
    let e1 = prepared_env(e, home, disk, nvm_bin, tool);
    let cands = spec_path_candidates(home, nvm_bin, e1.android_home, e1.java_home);
    let extra = marked(cands, on_disk(cands, disk));
    match spec_merge_path(extra, e.path) {
        Some(m) => {
            let fresh = extra.filter(|p: Seq<char>| !e.path.contains(p));
            assert(m == fresh + e.path);
            assert(m.subrange(m.len() - e.path.len(), m.len() as int) =~= e.path);
        },
        None => {
            assert(e.path.subrange(0, e.path.len() as int) =~= e.path);
        },
    }
}


/// For each candidate, whether `present` lists it.
fn marks_in(cands: &Vec<String>, present: &Vec<String>) -> (r: Vec<bool>)
    ensures
        r@ == on_disk(strs(cands@), strs(present@).to_set()),
        r@.len() == cands@.len(),
{
    let ghost disk = strs(present@).to_set();
    let mut r: Vec<bool> = Vec::new();
    let mut i: usize = 0;
    while i < cands.len()
        invariant
            disk == strs(present@).to_set(),
            i <= cands@.len(),
            r@.len() == i,
            forall|k: int| 0 <= k < i ==> r@[k] == disk.contains(#[trigger] strs(cands@)[k]),
        decreases cands@.len() - i,
    {
        let b = contains_text(present, cands[i].as_str());
        r.push(b);
        i = i + 1;
    }
    assert(r@ =~= on_disk(strs(cands@), disk));
    r
}

/// Values of the variables that preparing the environment reads and sets.
pub struct EnvValues {
    pub android_home: Option<String>,
    pub sdk_root: Option<String>,
    pub java_home: Option<String>,
    pub path: Vec<String>,
}

/// The contents of the variables' values.
pub open spec fn env_view(v: EnvValues) -> EnvVars {
    EnvVars {
        android_home: opt_text(v.android_home),
        sdk_root: opt_text(v.sdk_root),
        java_home: opt_text(v.java_home),
        path: strs(v.path@),
    }
}

/// Prepares the environment for the build tools (see `prepared_env`): from
/// the variables' current values, the home directory, the paths found to
/// exist (`present`; any other is taken not to), the newest nvm Node `bin`
/// and what the `java_home` tool printed, the variables' new values.
pub fn prepare_environment(
    current: EnvValues,
    home: &Option<String>,
    present: &Vec<String>,
    nvm_bin: &Option<String>,
    tool: Option<String>,
) -> (r: EnvValues)
    ensures
        env_view(r) == prepared_env(
            env_view(current),
            opt_text(*home),
            strs(present@).to_set(),
            opt_text(*nvm_bin),
            opt_text(tool),
        ),
{
    let ghost disk = strs(present@).to_set();
    let ghost e = env_view(current);
    let flags = match home {
        Some(h) => {
            let c = android_home_candidates(h.as_str());
            marks_in(&c, present)
        },
        None => Vec::new(),
    };
    let sdk = choose_android_home(&current.android_home, home, &flags);
    let (android_home, sdk_root) = match sdk {
        Some(a) => (Some(owned(a.as_str())), Some(a)),
        None => (current.android_home, current.sdk_root),
    };
    let jc = java_home_candidates();
    let jflags = marks_in(&jc, present);
    proof {
        assert(strs(jc@) == spec_java_candidates());
    }
    let tool_exists = match &tool {
        Some(t) => contains_text(present, t.as_str()),
        None => false,
    };
    let java = choose_java_home(&current.java_home, &jflags, tool, tool_exists);
    let java_home = match java {
        Some(j) => Some(j),
        None => current.java_home,
    };
    let cands = path_candidates(home, nvm_bin, &android_home, &java_home);
    let pflags = marks_in(&cands, present);
    let extra = existing(&cands, &pflags);
    let path = match merge_path(&extra, &current.path) {
        Some(m) => m,
        None => current.path,
    };
    EnvValues { android_home, sdk_root, java_home, path }
}

} // verus!
