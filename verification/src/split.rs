//! Splitting character sequences into pieces: by a separator character, into
//! lines, and into whitespace-separated words.
use vstd::prelude::*;
use crate::text::{is_ws, is_whitespace, slice_of};

verus! {

/// The pieces of `s` between occurrences of `c`, including empty ones
/// (std's `str::split` with a char pattern). There is always one piece more
/// than there are occurrences of `c`.
pub open spec fn split_char(s: Seq<char>, c: char) -> Seq<Seq<char>>
    decreases s.len(),
{
    if s.len() == 0 {
        seq![Seq::empty()]
    } else {
        let rest = split_char(s.drop_first(), c);
        if s[0] == c {
            seq![Seq::<char>::empty()] + rest
        } else {
            rest.update(0, seq![s[0]] + rest[0])
        }
    }
}

/// The result of `split_char` is never empty.
pub proof fn lemma_split_char_nonempty(s: Seq<char>, c: char)
    ensures
        split_char(s, c).len() >= 1,
    decreases s.len(),
{
    if s.len() > 0 {
        lemma_split_char_nonempty(s.drop_first(), c);
    }
}

/// `rest` with `cur` put in front of its first piece.
pub open spec fn prepend_first(cur: Seq<char>, rest: Seq<Seq<char>>) -> Seq<Seq<char>> {
    rest.update(0, cur + rest[0])
}

/// Splits `s` at every occurrence of `c`.
pub fn split_on(s: &[char], c: char) -> (r: Vec<Vec<char>>)
    ensures
        r@.len() == split_char(s@, c).len(),
        forall|k: int| 0 <= k < r@.len() ==> #[trigger] r@[k]@ == split_char(s@, c)[k],
{
    let mut pieces: Vec<Vec<char>> = Vec::new();
    let mut cur: Vec<char> = Vec::new();
    let mut i: usize = 0;
    let ghost mut done: Seq<Seq<char>> = Seq::empty();
    proof {
        lemma_split_char_nonempty(s@, c);
        assert(s@.skip(0) =~= s@);
        assert(prepend_first(cur@, split_char(s@, c)) =~= split_char(s@, c));
    }
    while i < s.len()
        invariant
            i <= s@.len(),
            pieces@.len() == done.len(),
            forall|k: int| 0 <= k < done.len() ==> #[trigger] pieces@[k]@ == done[k],
            done + prepend_first(cur@, split_char(s@.skip(i as int), c)) == split_char(s@, c),
        decreases s@.len() - i,
    {
        let ghost rest = s@.skip(i as int);
        proof {
            lemma_split_char_nonempty(rest.drop_first(), c);
            assert(rest.drop_first() =~= s@.skip(i + 1));
        }
        if s[i] == c {
            proof {
                assert(prepend_first(cur@, split_char(rest, c)) =~= seq![cur@] + prepend_first(
                    Seq::empty(),
                    split_char(s@.skip(i + 1), c),
                ));
                assert(prepend_first(Seq::empty(), split_char(s@.skip(i + 1), c)) =~= split_char(
                    s@.skip(i + 1),
                    c,
                ));
                done = done.push(cur@);
            }
            pieces.push(cur);
            cur = Vec::new();
            proof {
                assert(prepend_first(cur@, split_char(s@.skip(i + 1), c)) =~= split_char(
                    s@.skip(i + 1),
                    c,
                ));
            }
        } else {
            let ghost old_cur = cur@;
            cur.push(s[i]);
            proof {
                let tail = split_char(s@.skip(i + 1), c);
                assert(rest[0] == s@[i as int]);
                assert(split_char(rest, c) == tail.update(0, seq![s@[i as int]] + tail[0]));
                assert(old_cur + (seq![s@[i as int]] + tail[0]) =~= cur@ + tail[0]);
                assert(prepend_first(old_cur, split_char(rest, c)) =~= prepend_first(
                    cur@,
                    split_char(s@.skip(i + 1), c),
                ));
            }
        }
        i = i + 1;
    }
    proof {
        assert(s@.skip(i as int) =~= Seq::<char>::empty());
        assert(done.push(cur@) =~= split_char(s@, c));
        done = done.push(cur@);
    }
    pieces.push(cur);
    pieces
}

/// `s` with one trailing `'\r'` removed when present.
pub open spec fn strip_cr(s: Seq<char>) -> Seq<char> {
    if s.len() > 0 && s.last() == '\r' {
        s.drop_last()
    } else {
        s
    }
}

/// The lines of `s` (std's `str::lines`): the pieces between `'\n'`, each
/// that ended in `'\n'` without one trailing `'\r'`, and without the final
/// piece when it is empty.
pub open spec fn lines(s: Seq<char>) -> Seq<Seq<char>> {
    let parts = split_char(s, '\n');
    let n = parts.len() - 1;
    let ended = Seq::new(n as nat, |k: int| strip_cr(parts[k]));
    if parts[n].len() == 0 {
        ended
    } else {
        ended.push(parts[n])
    }
}

/// Splits `s` into lines.
pub fn split_lines(s: &[char]) -> (r: Vec<Vec<char>>)
    ensures
        r@.len() == lines(s@).len(),
        forall|k: int| 0 <= k < r@.len() ==> #[trigger] r@[k]@ == lines(s@)[k],
{
    let parts = split_on(s, '\n');
    proof {
        lemma_split_char_nonempty(s@, '\n');
    }
    let n = parts.len() - 1;
    let mut out: Vec<Vec<char>> = Vec::new();
    let mut k: usize = 0;
    while k < n
        invariant
            n == parts@.len() - 1,
            parts@.len() == split_char(s@, '\n').len(),
            forall|j: int| 0 <= j < parts@.len() ==> #[trigger] parts@[j]@ == split_char(
                s@,
                '\n',
            )[j],
            k <= n,
            out@.len() == k,
            forall|j: int| 0 <= j < k ==> #[trigger] out@[j]@ == strip_cr(
                split_char(s@, '\n')[j],
            ),
        decreases n - k,
    {
        let piece = &parts[k];
        let len = piece.len();
        if len > 0 && piece[len - 1] == '\r' {
            out.push(slice_of(piece.as_slice(), 0, len - 1));
            assert(piece@.subrange(0, len - 1) =~= piece@.drop_last());
        } else {
            out.push(slice_of(piece.as_slice(), 0, len));
            assert(piece@.subrange(0, len as int) =~= piece@);
        }
        k = k + 1;
    }
    let last = &parts[n];
    if last.len() > 0 {
        out.push(slice_of(last.as_slice(), 0, last.len()));
        assert(last@.subrange(0, last@.len() as int) =~= last@);
    }
    out
}

/// Number of leading non-whitespace characters of `s`.
pub open spec fn word_len(s: Seq<char>) -> nat
    decreases s.len(),
{
    if s.len() > 0 && !is_ws(s[0]) {
        1 + word_len(s.drop_first())
    } else {
        0
    }
}

/// The whitespace-separated words of `s` (std's `str::split_whitespace`).
pub open spec fn words(s: Seq<char>) -> Seq<Seq<char>>
    decreases s.len(),
{
    if s.len() == 0 {
        Seq::empty()
    } else if is_ws(s[0]) {
        words(s.drop_first())
    } else {
        let w = word_len(s);
        proof {
            lemma_word_len_bound(s);
        }
        seq![s.take(w as int)] + words(s.skip(w as int))
    }
}

pub proof fn lemma_word_len_bound(s: Seq<char>)
    ensures
        word_len(s) <= s.len(),
        s.len() > 0 && !is_ws(s[0]) ==> word_len(s) >= 1,
    decreases s.len(),
{
    if s.len() > 0 && !is_ws(s[0]) {
        lemma_word_len_bound(s.drop_first());
    }
}

proof fn lemma_word_len_scan(s: Seq<char>, j: int)
    requires
        0 <= j <= s.len(),
        forall|k: int| 0 <= k < j ==> !is_ws(#[trigger] s[k]),
        j == s.len() || is_ws(s[j]),
    ensures
        word_len(s) == j,
    decreases j,
{
    if j > 0 {
        assert forall|k: int| 0 <= k < j - 1 implies !is_ws(#[trigger] s.drop_first()[k]) by {
            assert(s.drop_first()[k] == s[k + 1]);
        }
        lemma_word_len_scan(s.drop_first(), j - 1);
    }
}

/// Splits `s` into whitespace-separated words.
pub fn split_words(s: &[char]) -> (r: Vec<Vec<char>>)
    ensures
        r@.len() == words(s@).len(),
        forall|k: int| 0 <= k < r@.len() ==> #[trigger] r@[k]@ == words(s@)[k],
{
    let mut out: Vec<Vec<char>> = Vec::new();
    let ghost mut done: Seq<Seq<char>> = Seq::empty();
    let mut i: usize = 0;
    assert(s@.skip(0) =~= s@);
    while i < s.len()
        invariant
            i <= s@.len(),
            out@.len() == done.len(),
            forall|k: int| 0 <= k < done.len() ==> #[trigger] out@[k]@ == done[k],
            done + words(s@.skip(i as int)) == words(s@),
        decreases s@.len() - i,
    {
        let ghost rest = s@.skip(i as int);
        if is_whitespace(s[i]) {
            assert(rest.drop_first() =~= s@.skip(i + 1));
            i = i + 1;
        } else {
            let mut j: usize = i;
            while j < s.len() && !is_whitespace(s[j])
                invariant
                    i <= j <= s@.len(),
                    forall|k: int| i <= k < j ==> !is_ws(#[trigger] s@[k]),
                decreases s@.len() - j,
            {
                j = j + 1;
            }
            proof {
                assert forall|k: int| 0 <= k < j - i implies !is_ws(#[trigger] rest[k]) by {
                    assert(rest[k] == s@[i + k]);
                }
                lemma_word_len_scan(rest, (j - i) as int);
                assert(rest.take((j - i) as int) =~= s@.subrange(i as int, j as int));
                assert(rest.skip((j - i) as int) =~= s@.skip(j as int));
                done = done.push(s@.subrange(i as int, j as int));
            }
            out.push(slice_of(s, i, j));
            i = j;
        }
    }
    assert(s@.skip(i as int) =~= Seq::<char>::empty());
    assert(done =~= words(s@));
    out
}

/// `s` followed by the separator splits into `s` and an empty piece, when
/// `s` holds no separator.
pub proof fn lemma_split_char_push_sep(s: Seq<char>, c: char)
    requires
        !s.contains(c),
    ensures
        split_char(s.push(c), c) == seq![s, Seq::<char>::empty()],
    decreases s.len(),
{
    let t = s.push(c);
    if s.len() == 0 {
        assert(t.drop_first() =~= Seq::<char>::empty());
        assert(s =~= Seq::<char>::empty());
        assert(split_char(Seq::<char>::empty(), c) == seq![Seq::<char>::empty()]);
        assert(split_char(t, c) =~= seq![s, Seq::<char>::empty()]);
    } else {
        assert(s[0] != c) by {
            assert(s.contains(s[0]) || true);
            if s[0] == c {
                assert(s.contains(c));
            }
        }
        let d = s.drop_first();
        assert(!d.contains(c)) by {
            if d.contains(c) {
                let k = choose|k: int| 0 <= k < d.len() && d[k] == c;
                assert(s[k + 1] == c);
            }
        }
        lemma_split_char_push_sep(d, c);
        assert(t.drop_first() =~= d.push(c));
        assert(seq![t[0]] + d =~= s);
        assert(split_char(t, c) =~= seq![s, Seq::<char>::empty()]);
    }
}

/// The lines of `s` followed by a line break are `s` alone (without a
/// trailing `'\r'`), when `s` holds no line break.
pub proof fn lemma_lines_of_one_line(s: Seq<char>)
    requires
        !s.contains('\n'),
    ensures
        lines(s.push('\n')) == seq![strip_cr(s)],
{
    lemma_split_char_push_sep(s, '\n');
    assert(lines(s.push('\n')) =~= seq![strip_cr(s)]);
}

} // verus!
