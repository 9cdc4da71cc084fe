//! File-system paths as text, joined as std's `Path::join` does on Unix.
use vstd::prelude::*;
use crate::text::{chars_of, concat_str, owned};

verus! {

/// `base` joined with `seg`: `seg` itself when it is absolute; `base` and
/// `seg` separated by one `/` unless `base` is empty or already ends in `/`.
pub open spec fn path_join(base: Seq<char>, seg: Seq<char>) -> Seq<char> {
    if seg.len() > 0 && seg[0] == '/' {
        seg
    } else if base.len() == 0 || base.last() == '/' {
        base + seg
    } else {
        base + "/"@ + seg
    }
}

/// Joins `seg` onto `base`.
pub fn join(base: &str, seg: &str) -> (r: String)
    ensures
        r@ == path_join(base@, seg@),
{
    let b = chars_of(base);
    let s = chars_of(seg);
    if s.len() > 0 && s[0] == '/' {
        owned(seg)
    } else if b.len() == 0 || b[b.len() - 1] == '/' {
        concat_str(base, seg)
    } else {
        let with_sep = concat_str(base, "/");
        concat_str(with_sep.as_str(), seg)
    }
}

/// The first of `cands` that is marked in `marks`, if any.
pub open spec fn first_marked(cands: Seq<Seq<char>>, marks: Seq<bool>) -> Option<Seq<char>>
    decreases cands.len(),
{
    if cands.len() == 0 || marks.len() == 0 {
        None
    } else if marks[0] {
        Some(cands[0])
    } else {
        first_marked(cands.drop_first(), marks.drop_first())
    }
}

/// The first candidate that the caller found to exist: `exists[k]` tells
/// whether `cands[k]` does.
pub fn first_existing(cands: &Vec<String>, exists: &Vec<bool>) -> (r: Option<String>)
    ensures
        match r {
            Some(x) => first_marked(cands@.map_values(|c: String| c@), exists@) == Some(x@),
            None => first_marked(cands@.map_values(|c: String| c@), exists@) is None,
        },
{
    let ghost all = cands@.map_values(|c: String| c@);
    let mut i: usize = 0;
    assert(all.skip(0) =~= all);
    assert(exists@.skip(0) =~= exists@);
    while i < cands.len() && i < exists.len()
        invariant
            all == cands@.map_values(|c: String| c@),
            i <= cands@.len(),
            i <= exists@.len(),
            first_marked(all, exists@) == first_marked(all.skip(i as int), exists@.skip(i as int)),
        decreases cands@.len() - i,
    {
        if exists[i] {
            assert(all.skip(i as int)[0] == cands@[i as int]@);
            return Some(owned(cands[i].as_str()));
        }
        assert(all.skip(i as int).drop_first() =~= all.skip(i + 1));
        assert(exists@.skip(i as int).drop_first() =~= exists@.skip(i + 1));
        i = i + 1;
    }
    assert(all.skip(i as int).len() == 0 || exists@.skip(i as int).len() == 0);
    None
}

} // verus!
