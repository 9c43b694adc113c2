//! Character-level helpers shared by the value parsers: digit runs, string
//! equality, integer literals and the floating-point literal grammar.
use vstd::prelude::*;

verus! {

pub open spec fn is_digit(c: char) -> bool {
    '0' <= c <= '9'
}

pub open spec fn digit_value(c: char) -> int {
    if is_digit(c) {
        c as int - '0' as int
    } else {
        0
    }
}

/// The number written by a run of decimal digits.
pub open spec fn digits_value(s: Seq<char>) -> int
    decreases s.len(),
{
    if s.len() == 0 {
        0
    } else {
        digits_value(s.drop_last()) * 10 + digit_value(s.last())
    }
}

/// The end of the run of digits that starts at `i`.
pub open spec fn digits_end(s: Seq<char>, i: int) -> int
    decreases s.len() - i,
{
    if 0 <= i < s.len() && is_digit(s[i]) {
        digits_end(s, i + 1)
    } else {
        i
    }
}

/// Every character is a decimal digit.
pub open spec fn all_digits(s: Seq<char>) -> bool {
    forall|k: int| 0 <= k < s.len() ==> is_digit(#[trigger] s[k])
}

pub proof fn lemma_digits_end_bounds(s: Seq<char>, i: int)
    requires
        0 <= i <= s.len(),
    ensures
        i <= digits_end(s, i) <= s.len(),
        forall|k: int| i <= k < digits_end(s, i) ==> is_digit(#[trigger] s[k]),
        digits_end(s, i) < s.len() ==> !is_digit(s[digits_end(s, i)]),
    decreases s.len() - i,
{
    if i < s.len() && is_digit(s[i]) {
        lemma_digits_end_bounds(s, i + 1);
    }
}

pub proof fn lemma_digits_end_step(s: Seq<char>, i: int, k: int)
    requires
        0 <= i <= k <= s.len(),
        forall|t: int| i <= t < k ==> is_digit(#[trigger] s[t]),
    ensures
        digits_end(s, i) == digits_end(s, k),
    decreases k - i,
{
    if i < k {
        lemma_digits_end_step(s, i + 1, k);
    }
}

pub proof fn lemma_digits_nonneg(s: Seq<char>)
    ensures
        digits_value(s) >= 0,
    decreases s.len(),
{
    if s.len() > 0 {
        lemma_digits_nonneg(s.drop_last());
    }
}

/// `c` is a decimal digit.
pub fn is_ascii_digit(c: char) -> (r: bool)
    ensures
        r == is_digit(c),
{
    '0' <= c && c <= '9'
}

/// The end of the run of digits of `text` that starts at `i`.
pub fn scan_digits(text: &str, i: usize, n: usize) -> (r: usize)
    requires
        n == text@.len(),
        i <= n,
    ensures
        r == digits_end(text@, i as int),
        i <= r <= n,
{
    let mut k = i;
    proof {
        lemma_digits_end_bounds(text@, i as int);
    }
    while k < n && is_ascii_digit(text.get_char(k))
        invariant
            n == text@.len(),
            i <= k <= n,
            forall|t: int| i <= t < k ==> is_digit(#[trigger] text@[t]),
        decreases n - k,
    {
        k = k + 1;
    }
    proof {
        lemma_digits_end_step(text@, i as int, k as int);
        lemma_digits_end_bounds(text@, k as int);
    }
    k
}

/// Whether two strings hold the same characters.
pub fn text_eq(a: &str, b: &str) -> (r: bool)
    ensures
        r == (a@ == b@),
{
    let n = a.unicode_len();
    if n != b.unicode_len() {
        return false;
    }
    let mut i: usize = 0;
    while i < n
        invariant
            n == a@.len(),
            n == b@.len(),
            i <= n,
            forall|k: int| 0 <= k < i ==> a@[k] == b@[k],
        decreases n - i,
    {
        if a.get_char(i) != b.get_char(i) {
            return false;
        }
        i = i + 1;
    }
    proof {
        assert(a@ =~= b@);
    }
    true
}

/// The value of an unsigned decimal integer literal: one or more digits.
pub open spec fn unsigned_literal(s: Seq<char>) -> Option<int> {
    if s.len() > 0 && all_digits(s) {
        Some(digits_value(s))
    } else {
        None
    }
}

/// The value of a signed decimal integer literal: an optional `-`, then digits.
pub open spec fn signed_literal(s: Seq<char>) -> Option<int> {
    if s.len() > 0 && s[0] == '-' {
        match unsigned_literal(s.drop_first()) {
            Some(v) => Some(-v),
            None => None,
        }
    } else {
        unsigned_literal(s)
    }
}

/// Reads an unsigned integer literal that fits in a `u64`.
pub fn parse_u64_text(text: &str) -> (r: Option<u64>)
    ensures
        match r {
            Some(v) => unsigned_literal(text@) == Some(v as int),
            None => !(unsigned_literal(text@) matches Some(v) && v <= u64::MAX),
        },
{
    let n = text.unicode_len();
    if n == 0 {
        return None;
    }
    let mut i: usize = 0;
    let mut v: u64 = 0;
    while i < n
        invariant
            n == text@.len(),
            n > 0,
            i <= n,
            all_digits(text@.take(i as int)),
            v == digits_value(text@.take(i as int)),
        decreases n - i,
    {
        let c = text.get_char(i);
        proof {
            assert(text@.take(i + 1).drop_last() =~= text@.take(i as int));
            lemma_digits_nonneg(text@.take(i as int));
        }
        if !is_ascii_digit(c) {
            proof {
                assert(text@[i as int] == c);
            }
            return None;
        }
        let d = (c as u32 - '0' as u32) as u64;
        if v > (u64::MAX - d) / 10 {
            proof {
                assert(text@.take(i + 1).last() == c);
                assert(digits_value(text@.take(i + 1)) > u64::MAX);
                if all_digits(text@) {
                    lemma_prefix_bound(text@, i as int + 1);
                }
            }
            return None;
        }
        v = v * 10 + d;
        i = i + 1;
        proof {
            assert forall|k: int| 0 <= k < i implies is_digit(#[trigger] text@.take(i as int)[k]) by {
                if k < i - 1 {
                    assert(text@.take(i as int)[k] == text@.take(i - 1)[k]);
                }
            }
        }
    }
    proof {
        assert(text@.take(n as int) =~= text@);
    }
    Some(v)
}

/// A number whose literal starts with `p` digits (all of `s` digits) is at least
/// the value of those digits.
proof fn lemma_prefix_bound(s: Seq<char>, p: int)
    requires
        0 <= p <= s.len(),
        all_digits(s),
    ensures
        digits_value(s) >= digits_value(s.take(p)),
    decreases s.len(),
{
    if s.len() > p {
        assert(all_digits(s.drop_last()));
        lemma_prefix_bound(s.drop_last(), p);
        assert(s.drop_last().take(p) =~= s.take(p));
        lemma_digits_nonneg(s.drop_last());
    } else {
        assert(s.take(p) =~= s);
    }
}

} // verus!
