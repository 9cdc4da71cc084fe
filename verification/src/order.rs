//! Stable sorting from the most recent to the oldest.
use vstd::prelude::*;

verus! {

/// A value carrying a timestamp by which lists of it are ordered.
pub trait Stamped {
    /// The timestamp.
    spec fn stamp_of(&self) -> int;

    /// The timestamp.
    fn stamp(&self) -> (r: i64)
        ensures
            r as int == self.stamp_of(),
    ;
}

/// The timestamp of a value, as a spec function.
pub open spec fn stamp_key<T: Stamped>() -> spec_fn(T) -> int {
    |x: T| x.stamp_of()
}

/// The position from `i` on before which every element has a key of at least
/// `x`: where a new element with key `x` goes after all elements whose key is
/// not smaller.
pub open spec fn insert_pos<T>(s: Seq<T>, k: spec_fn(T) -> int, x: int, i: int) -> int
    decreases s.len() - i,
{
    if i < 0 || i >= s.len() {
        s.len() as int
    } else if k(s[i]) < x {
        i
    } else {
        insert_pos(s, k, x, i + 1)
    }
}

/// `s` with `x` inserted after every element whose key is not smaller.
pub open spec fn insert_desc<T>(s: Seq<T>, k: spec_fn(T) -> int, x: T) -> Seq<T> {
    s.insert(insert_pos(s, k, k(x), 0), x)
}

/// `s` sorted from the greatest key to the smallest, elements with equal keys
/// keeping their order (a stable sort, as std's `sort_by`).
pub open spec fn sort_desc<T>(s: Seq<T>, k: spec_fn(T) -> int) -> Seq<T>
    decreases s.len(),
{
    if s.len() == 0 {
        s
    } else {
        insert_desc(sort_desc(s.drop_last(), k), k, s.last())
    }
}

/// The keys of `s` never increase.
pub open spec fn sorted_desc<T>(s: Seq<T>, k: spec_fn(T) -> int) -> bool {
    forall|i: int, j: int| 0 <= i < j < s.len() ==> k(#[trigger] s[i]) >= k(#[trigger] s[j])
}

proof fn lemma_insert_pos<T>(s: Seq<T>, k: spec_fn(T) -> int, x: int, i: int)
    requires
        0 <= i <= s.len(),
    ensures
        i <= insert_pos(s, k, x, i) <= s.len(),
        forall|j: int| i <= j < insert_pos(s, k, x, i) ==> k(#[trigger] s[j]) >= x,
        insert_pos(s, k, x, i) < s.len() ==> k(s[insert_pos(s, k, x, i)]) < x,
    decreases s.len() - i,
{
    if i < s.len() && k(s[i]) >= x {
        lemma_insert_pos(s, k, x, i + 1);
    }
}

proof fn lemma_insert_pos_from<T>(s: Seq<T>, k: spec_fn(T) -> int, x: int, p: int)
    requires
        0 <= p <= s.len(),
        forall|j: int| 0 <= j < p ==> k(#[trigger] s[j]) >= x,
    ensures
        insert_pos(s, k, x, 0) == insert_pos(s, k, x, p),
    decreases p,
{
    if p > 0 {
        lemma_insert_pos_from(s, k, x, p - 1);
    }
}

/// Inserting keeps a sorted sequence sorted.
proof fn lemma_insert_sorted<T>(s: Seq<T>, k: spec_fn(T) -> int, x: T)
    requires
        sorted_desc(s, k),
    ensures
        sorted_desc(insert_desc(s, k, x), k),
        insert_desc(s, k, x).len() == s.len() + 1,
{
    lemma_insert_pos(s, k, k(x), 0);
    let p = insert_pos(s, k, k(x), 0);
    let r = insert_desc(s, k, x);
    assert(r.len() == s.len() + 1);
    assert forall|i: int, j: int| 0 <= i < j < r.len() implies k(#[trigger] r[i]) >= k(
        #[trigger] r[j],
    ) by {
        if j < p {
            assert(r[i] == s[i] && r[j] == s[j]);
        } else if j == p {
            assert(r[i] == s[i]);
        } else if i < p {
            assert(r[i] == s[i] && r[j] == s[j - 1]);
            assert(k(s[i]) >= k(s[j - 1]));
        } else if i == p {
            assert(r[j] == s[j - 1]);
            assert(k(s[p]) < k(x));
            if p < j - 1 {
                assert(k(s[p]) >= k(s[j - 1]));
            }
        } else {
            assert(r[i] == s[i - 1] && r[j] == s[j - 1]);
        }
    }
}

/// A sorted sequence is sorted.
pub proof fn lemma_sort_desc_sorted<T>(s: Seq<T>, k: spec_fn(T) -> int)
    ensures
        sorted_desc(sort_desc(s, k), k),
        sort_desc(s, k).len() == s.len(),
    decreases s.len(),
{
    if s.len() > 0 {
        lemma_sort_desc_sorted(s.drop_last(), k);
        lemma_insert_sorted(sort_desc(s.drop_last(), k), k, s.last());
    }
}

/// Sorting only reorders: the same elements, as often each.
pub proof fn lemma_sort_desc_permutation<T>(s: Seq<T>, k: spec_fn(T) -> int)
    ensures
        sort_desc(s, k).to_multiset() == s.to_multiset(),
    decreases s.len(),
{
    broadcast use vstd::seq_lib::group_to_multiset_ensures;

    if s.len() > 0 {
        lemma_sort_desc_permutation(s.drop_last(), k);
        lemma_sort_desc_sorted(s.drop_last(), k);
        let t = sort_desc(s.drop_last(), k);
        lemma_insert_pos(t, k, k(s.last()), 0);
        vstd::seq_lib::to_multiset_insert(t, insert_pos(t, k, k(s.last()), 0), s.last());
        assert(s.drop_last().push(s.last()) =~= s);
    }
}

proof fn lemma_insert_pos_map<T, U>(
    s: Seq<T>,
    f: spec_fn(T) -> U,
    k1: spec_fn(T) -> int,
    k2: spec_fn(U) -> int,
    x: int,
    i: int,
)
    requires
        forall|y: T| #[trigger] k1(y) == k2(f(y)),
        0 <= i <= s.len(),
    ensures
        insert_pos(s, k1, x, i) == insert_pos(s.map_values(f), k2, x, i),
    decreases s.len() - i,
{
    if i < s.len() {
        assert(s.map_values(f)[i] == f(s[i]));
        assert(k1(s[i]) == k2(f(s[i])));
        lemma_insert_pos_map(s, f, k1, k2, x, i + 1);
    }
}

/// Sorting commutes with a map that preserves keys.
pub proof fn lemma_sort_desc_map<T, U>(
    s: Seq<T>,
    f: spec_fn(T) -> U,
    k1: spec_fn(T) -> int,
    k2: spec_fn(U) -> int,
)
    requires
        forall|y: T| #[trigger] k1(y) == k2(f(y)),
    ensures
        sort_desc(s, k1).map_values(f) == sort_desc(s.map_values(f), k2),
    decreases s.len(),
{
    if s.len() > 0 {
        lemma_sort_desc_map(s.drop_last(), f, k1, k2);
        lemma_sort_desc_sorted(s.drop_last(), k1);
        let t = sort_desc(s.drop_last(), k1);
        assert(s.map_values(f).drop_last() =~= s.drop_last().map_values(f));
        assert(s.map_values(f).last() == f(s.last()));
        assert(k1(s.last()) == k2(f(s.last())));
        lemma_insert_pos_map(t, f, k1, k2, k1(s.last()), 0);
        lemma_insert_pos(t, k1, k1(s.last()), 0);
        let p = insert_pos(t, k1, k1(s.last()), 0);
        assert(t.insert(p, s.last()).map_values(f) =~= t.map_values(f).insert(p, f(s.last())));
    }
}

/// Sorts from the most recent timestamp to the oldest, keeping the order of
/// equal timestamps.
pub fn sort_by_stamp_desc<T: Stamped>(v: Vec<T>) -> (r: Vec<T>)
    ensures
        r@ == sort_desc(v@, stamp_key::<T>()),
{
    let ghost orig = v@;
    let ghost k = stamp_key::<T>();
    assert(orig.len() <= usize::MAX) by {
        assert(v.len() == v@.len());
    }
    let mut rest = v;
    let mut r: Vec<T> = Vec::new();
    let mut i: usize = 0;
    assert(orig.take(0) =~= Seq::<T>::empty());
    assert(orig.skip(0) =~= orig);
    while rest.len() > 0
        invariant
            k == stamp_key::<T>(),
            orig.len() <= usize::MAX,
            i <= orig.len(),
            rest@ == orig.skip(i as int),
            r@ == sort_desc(orig.take(i as int), k),
        decreases rest@.len(),
    {
        let x = rest.remove(0);
        assert(x == orig[i as int]);
        assert(orig.skip(i as int).remove(0) =~= orig.skip(i + 1));
        let xs = x.stamp();
        let mut p: usize = 0;
        while p < r.len() && r[p].stamp() >= xs
            invariant
                p <= r@.len(),
                forall|j: int| 0 <= j < p ==> k(#[trigger] r@[j]) >= xs,
                k == stamp_key::<T>(),
            decreases r@.len() - p,
        {
            p = p + 1;
        }
        proof {
            lemma_insert_pos_from(r@, k, xs as int, p as int);
            assert(insert_pos(r@, k, xs as int, p as int) == p as int);
            assert(orig.take(i + 1).drop_last() =~= orig.take(i as int));
            assert(orig.take(i + 1).last() == x);
        }
        r.insert(p, x);
        i = i + 1;
    }
    assert(orig.take(i as int) =~= orig);
    r
}

} // verus!
