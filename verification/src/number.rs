//! Decimal numbers: formatting unsigned integers and parsing `u32`.
use vstd::prelude::*;

verus! {

/// The decimal digit character for `d < 10`.
pub open spec fn digit_char(d: nat) -> char {
    (('0' as u32) + d) as char
}

/// The value of a decimal digit character.
pub open spec fn digit_value(c: char) -> nat {
    ((c as u32) - ('0' as u32)) as nat
}

/// `c` is an ASCII decimal digit.
pub open spec fn is_digit(c: char) -> bool {
    '0' <= c && c <= '9'
}

/// The decimal representation of `n`, without sign or leading zeros
/// (what `format!("{}", n)` writes).
pub open spec fn decimal(n: nat) -> Seq<char>
    decreases n,
{
    if n < 10 {
        seq![digit_char(n)]
    } else {
        decimal(n / 10).push(digit_char(n % 10))
    }
}

/// The decimal representation of `n`.
pub fn to_decimal(n: u64) -> (r: Vec<char>)
    ensures
        r@ == decimal(n as nat),
    decreases n,
{
    if n < 10 {
        let c = digit(n as u8);
        vec![c]
    } else {
        let mut r = to_decimal(n / 10);
        r.push(digit((n % 10) as u8));
        r
    }
}

/// The digit character of `d < 10`.
pub fn digit(d: u8) -> (c: char)
    requires
        d < 10,
    ensures
        c == digit_char(d as nat),
{
    let b: u8 = 48 + d;
    b as char
}

/// The value of the digit sequence `d` read as a decimal number.
pub open spec fn digits_value(d: Seq<char>) -> nat
    decreases d.len(),
{
    if d.len() == 0 {
        0
    } else {
        digits_value(d.drop_last()) * 10 + digit_value(d.last())
    }
}

/// `s` without one leading `+`.
pub open spec fn unsigned_digits(s: Seq<char>) -> Seq<char> {
    if s.len() > 0 && s[0] == '+' {
        s.drop_first()
    } else {
        s
    }
}

/// What std's `u32::from_str` returns for `s`: an optional `+` followed by
/// one or more ASCII digits whose value fits in `u32`; `None` for anything
/// else.
pub open spec fn parse_u32(s: Seq<char>) -> Option<u32> {
    let d = unsigned_digits(s);
    if d.len() > 0 && (forall|i: int| 0 <= i < d.len() ==> is_digit(#[trigger] d[i]))
        && digits_value(d) <= u32::MAX {
        Some(digits_value(d) as u32)
    } else {
        None
    }
}

proof fn lemma_digits_value_monotone(d: Seq<char>, k: int)
    requires
        0 <= k <= d.len(),
        forall|i: int| 0 <= i < d.len() ==> is_digit(#[trigger] d[i]),
    ensures
        digits_value(d.take(k)) <= digits_value(d),
    decreases d.len() - k,
{
    if k < d.len() {
        assert(d.drop_last().take(k) == d.take(k));
        lemma_digits_value_monotone(d.drop_last(), k);
    } else {
        assert(d.take(k) == d);
    }
}

/// Parses `s` as std's `u32::from_str` does.
pub fn parse_u32_chars(s: &[char]) -> (r: Option<u32>)
    ensures
        r == parse_u32(s@),
{
    let start: usize = if s.len() > 0 && s[0] == '+' {
        1
    } else {
        0
    };
    let ghost d = unsigned_digits(s@);
    assert(d =~= s@.skip(start as int));
    if start == s.len() {
        return None;
    }
    let mut i: usize = start;
    while i < s.len()
        invariant
            start <= i <= s@.len(),
            d == s@.skip(start as int),
            d == unsigned_digits(s@),
            forall|k: int| start <= k < i ==> is_digit(#[trigger] s@[k]),
        decreases s@.len() - i,
    {
        if !('0' <= s[i] && s[i] <= '9') {
            assert(d[i - start] == s@[i as int]);
            assert(!is_digit(d[i - start]));
            assert(!(forall|k: int| 0 <= k < d.len() ==> is_digit(#[trigger] d[k])));
            assert(parse_u32(s@) is None);
            return None;
        }
        i = i + 1;
    }
    assert forall|k: int| 0 <= k < d.len() implies is_digit(#[trigger] d[k]) by {
        assert(d[k] == s@[k + start]);
    }
    let mut acc: u64 = 0;
    let mut j: usize = start;
    while j < s.len()
        invariant
            start <= j <= s@.len(),
            d == s@.skip(start as int),
            d == unsigned_digits(s@),
            forall|k: int| 0 <= k < d.len() ==> is_digit(#[trigger] d[k]),
            acc == digits_value(d.take(j - start)),
            acc <= u32::MAX,
        decreases s@.len() - j,
    {
        assert(d[j - start] == s@[j as int]);
        assert(is_digit(d[j - start]));
        let v: u64 = (s[j] as u32 - 48) as u64;
        proof {
            assert(d.take(j + 1 - start).drop_last() =~= d.take(j - start));
            assert(d.take(j + 1 - start).last() == s@[j as int]);
        }
        let next: u64 = acc * 10 + v;
        if next > 4294967295 {
            proof {
                assert(digits_value(d.take(j + 1 - start)) == next);
                lemma_digits_value_monotone(d, j + 1 - start);
                assert(digits_value(d) > u32::MAX);
                assert(parse_u32(s@) is None);
            }
            return None;
        }
        acc = next;
        j = j + 1;
    }
    assert(d.take(j - start) =~= d);
    Some(acc as u32)
}


/// The decimal representation of a signed integer, with `-` when negative.
pub open spec fn signed_decimal(n: int) -> Seq<char> {
    if n < 0 {
        "-"@ + decimal((-n) as nat)
    } else {
        decimal(n as nat)
    }
}

/// The decimal representation of `n`.
pub fn to_signed_decimal(n: i32) -> (r: Vec<char>)
    ensures
        r@ == signed_decimal(n as int),
{
    if n < 0 {
        let m: u64 = (-(n as i64)) as u64;
        let digits = to_decimal(m);
        let mut r = vec!['-'];
        crate::text::extend(&mut r, digits.as_slice());
        assert(seq!['-'] =~= "-"@) by {
            reveal_strlit("-");
        }
        r
    } else {
        to_decimal(n as u64)
    }
}

} // verus!
