//! The first element of a sequence that satisfies a predicate.
use vstd::prelude::*;

verus! {

/// The index of the first element from `i` on that satisfies `p`.
pub open spec fn first_from<T>(s: Seq<T>, p: spec_fn(T) -> bool, i: int) -> Option<int>
    decreases s.len() - i,
{
    if i < 0 || i >= s.len() {
        None
    } else if p(s[i]) {
        Some(i)
    } else {
        first_from(s, p, i + 1)
    }
}

/// The index of the first element that satisfies `p`.
pub open spec fn first_index<T>(s: Seq<T>, p: spec_fn(T) -> bool) -> Option<int> {
    first_from(s, p, 0)
}

/// Scanning past elements that fail `p` does not change the first match.
pub proof fn lemma_first_from_skip<T>(s: Seq<T>, p: spec_fn(T) -> bool, i: int)
    requires
        0 <= i <= s.len(),
        forall|j: int| 0 <= j < i ==> !p(#[trigger] s[j]),
    ensures
        first_index(s, p) == first_from(s, p, i),
    decreases i,
{
    if i > 0 {
        lemma_first_from_skip(s, p, i - 1);
    }
}

/// What the first match is: in range, satisfying `p`, with no earlier match;
/// and with no match, no element satisfies `p`.
pub proof fn lemma_first_from_facts<T>(s: Seq<T>, p: spec_fn(T) -> bool, i: int)
    requires
        0 <= i <= s.len(),
    ensures
        first_from(s, p, i) matches Some(k) ==> i <= k < s.len() && p(s[k]) && forall|j: int|
            i <= j < k ==> !p(#[trigger] s[j]),
        first_from(s, p, i) is None ==> forall|j: int| i <= j < s.len() ==> !p(#[trigger] s[j]),
    decreases s.len() - i,
{
    if i < s.len() && !p(s[i]) {
        lemma_first_from_facts(s, p, i + 1);
    }
}

} // verus!
