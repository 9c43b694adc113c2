//! The duration grammar of the server: one or more `<integer><unit>` pairs,
//! with units `y`, `w`, `d`, `h`, `m`, `s` and `ms`.
use vstd::prelude::*;
use crate::text::{
    digits_end, digits_value, is_ascii_digit, is_digit, lemma_digits_end_bounds, lemma_digits_end_step,
    lemma_digits_nonneg,
};

verus! {

/// A signed span of time with millisecond precision.
#[derive(Debug, Clone, Copy, PartialEq, Eq, Structural)]
pub struct Duration {
    milliseconds: i64,
}

impl Duration {
    /// A duration of `ms` milliseconds.
    pub fn milliseconds(ms: i64) -> (r: Duration)
        ensures
            r@ == ms,
    {
        Duration { milliseconds: ms }
    }

    /// A duration of `s` whole seconds.
    pub fn seconds(s: i64) -> (r: Duration)
        requires
            i64::MIN <= s * 1000 <= i64::MAX,
        ensures
            r@ == s * 1000,
    {
        Duration { milliseconds: s * 1000 }
    }

    /// The number of whole milliseconds in this duration.
    pub fn whole_milliseconds(&self) -> (r: i64)
        ensures
            r == self@,
    {
        self.milliseconds
    }

    /// The number of whole seconds in this duration, rounded toward zero.
    pub fn whole_seconds(&self) -> (r: i64)
        ensures
            self@ >= 0 ==> r == self@ / 1000,
            self@ < 0 ==> r == -((-self@) / 1000),
    {
        self.milliseconds / 1000
    }

}

impl View for Duration {
    type V = int;

    /// The number of milliseconds.
    closed spec fn view(&self) -> int {
        self.milliseconds as int
    }
}

/// Why a duration string was refused.
#[derive(Debug, Clone, PartialEq, Eq)]
pub enum DurationError {
    /// The string is empty.
    Empty,
    /// The string is not a sequence of `<integer><unit>` pairs; holds the input.
    Syntax(String),
    /// The total does not fit in a signed 64-bit count of milliseconds; holds the input.
    Overflow(String),
}

/// The grammar of a duration, as a refusal states it.
pub const DURATION_GRAMMAR: &'static str = "one or more <integer><unit> pairs, the unit one of y, w, d, h, m, s, ms";

impl DurationError {
    /// The grammar that the refused text does not follow.
    pub fn expected(&self) -> (r: &'static str)
        ensures
            r == DURATION_GRAMMAR,
    {
        DURATION_GRAMMAR
    }
}

/// Milliseconds per unit, for the one-character units.
pub open spec fn unit_factor(c: char) -> Option<int> {
    if c == 'y' {
        Some((365 * 24 * 60 * 60 * 1000) as int)
    } else if c == 'w' {
        Some((7 * 24 * 60 * 60 * 1000) as int)
    } else if c == 'd' {
        Some((24 * 60 * 60 * 1000) as int)
    } else if c == 'h' {
        Some((60 * 60 * 1000) as int)
    } else if c == 'm' {
        Some((60 * 1000) as int)
    } else if c == 's' {
        Some(1000 as int)
    } else {
        None
    }
}

/// The unit that starts at `j`: its factor and the position after it. An `m`
/// followed by `s` is the unit `ms`.
pub open spec fn unit_at(s: Seq<char>, j: int) -> Option<(int, int)> {
    if 0 <= j && j + 1 < s.len() && s[j] == 'm' && s[j + 1] == 's' {
        Some((1, j + 2))
    } else if 0 <= j < s.len() {
        match unit_factor(s[j]) {
            Some(f) => Some((f, j + 1)),
            None => None,
        }
    } else {
        None
    }
}

/// The milliseconds of the pairs from position `i` on, or `None` where they
/// do not follow the grammar.
pub open spec fn pairs_total(s: Seq<char>, i: int) -> Option<int>
    decreases s.len() - i,
{
    if i < 0 || i >= s.len() {
        Some(0)
    } else {
        let j = digits_end(s, i);
        if j == i {
            None
        } else {
            match unit_at(s, j) {
                None => None,
                Some(u) => if u.1 <= i {
                    None
                } else {
                    match pairs_total(s, u.1) {
                        None => None,
                        Some(rest) => Some(digits_value(s.subrange(i, j)) * u.0 + rest),
                    }
                },
            }
        }
    }
}

/// The milliseconds a duration string stands for, or `None` where it is not one.
pub open spec fn duration_ms(s: Seq<char>) -> Option<int> {
    if s.len() == 0 {
        None
    } else {
        pairs_total(s, 0)
    }
}

proof fn lemma_pairs_total_nonneg(s: Seq<char>, i: int)
    ensures
        pairs_total(s, i) matches Some(t) ==> t >= 0,
    decreases s.len() - i,
{
    if 0 <= i < s.len() {
        let j = digits_end(s, i);
        lemma_digits_nonneg(s.subrange(i, j));
        if let Some(u) = unit_at(s, j) {
            if u.1 > i {
                lemma_pairs_total_nonneg(s, u.1);
                let d = digits_value(s.subrange(i, j));
                assert(d * u.0 >= 0) by (nonlinear_arith)
                    requires d >= 0, u.0 >= 1;
            }
        }
    }
}

/// `e` is the reason for refusing the text `s` as a duration.
pub open spec fn duration_rejects(s: Seq<char>, e: DurationError) -> bool {
    match e {
        DurationError::Empty => s.len() == 0,
        DurationError::Syntax(t) => s.len() > 0 && duration_ms(s) is None && t@ == s,
        DurationError::Overflow(t) => (duration_ms(s) matches Some(v) && v > i64::MAX) && t@ == s,
    }
}

/// Parses a duration string such as `5m`, `1h30m` or `1d12h10m` into
/// milliseconds. Repeated units add up; `ms` is one millisecond.
pub fn parse_duration(text: &str) -> (r: Result<Duration, DurationError>)
    ensures
        match r {
            Ok(d) => duration_ms(text@) == Some(d@) && d@ <= i64::MAX,
            Err(e) => duration_rejects(text@, e),
        },
{
    let n = text.unicode_len();
    if n == 0 {
        return Err(DurationError::Empty);
    }
    let ghost s = text@;
    let ghost whole = pairs_total(s, 0);
    let mut total: i64 = 0;
    let mut over = false;
    let ghost mut acc: int = 0;
    let mut i: usize = 0;
    proof {
        lemma_pairs_total_nonneg(s, 0);
    }
    while i < n
        invariant
            n == s.len(),
            s == text@,
            i <= n,
            whole == pairs_total(s, 0),
            whole == match pairs_total(s, i as int) {
                Some(rest) => Some(acc + rest),
                None => None::<int>,
            },
            acc >= 0,
            !over ==> total == acc,
            over ==> acc > i64::MAX,
        decreases n - i,
    {
        proof {
            lemma_digits_end_bounds(s, i as int);
            lemma_pairs_total_nonneg(s, i as int);
        }
        let start = i;
        let mut num: i64 = 0;
        let mut num_over = false;
        let ghost mut nv: int = 0;
        while i < n && is_ascii_digit(text.get_char(i))
            invariant
                n == s.len(),
                s == text@,
                start <= i <= n,
                forall|t: int| start <= t < i ==> is_digit(#[trigger] s[t]),
                nv == digits_value(s.subrange(start as int, i as int)),
                nv >= 0,
                !num_over ==> num == nv,
                num_over ==> nv > i64::MAX,
            decreases n - i,
        {
            let c = text.get_char(i);
            let d = (c as u32 - '0' as u32) as i64;
            proof {
                assert(s.subrange(start as int, i + 1).drop_last() =~= s.subrange(
                    start as int,
                    i as int,
                ));
            }
            let ghost nv2 = nv * 10 + d;
            if !num_over {
                if num <= (i64::MAX - d) / 10 {
                    num = num * 10 + d;
                } else {
                    num_over = true;
                }
            }
            proof {
                nv = nv2;
            }
            i = i + 1;
        }
        proof {
            lemma_digits_end_step(s, start as int, i as int);
            lemma_digits_end_bounds(s, i as int);
        }
        if i == start || i == n {
            return Err(DurationError::Syntax(text.to_string()));
        }
        let c = text.get_char(i);
        let factor: i64;
        if c == 'm' && i + 1 < n && text.get_char(i + 1) == 's' {
            factor = 1;
            i = i + 2;
        } else {
            if c == 'y' {
                factor = 365 * 24 * 60 * 60 * 1000;
            } else if c == 'w' {
                factor = 7 * 24 * 60 * 60 * 1000;
            } else if c == 'd' {
                factor = 24 * 60 * 60 * 1000;
            } else if c == 'h' {
                factor = 60 * 60 * 1000;
            } else if c == 'm' {
                factor = 60 * 1000;
            } else if c == 's' {
                factor = 1000;
            } else {
                return Err(DurationError::Syntax(text.to_string()));
            }
            i = i + 1;
        }
        let ghost add = nv * factor;
        proof {
            assert(add >= nv) by (nonlinear_arith)
                requires nv >= 0, factor >= 1, add == nv * factor;
        }
        if !over {
            let room: i64 = (i64::MAX - total) / factor;
            if num_over {
                over = true;
            } else if num > room {
                over = true;
                proof {
                    let m: int = i64::MAX - total; let f: int = factor as int;
                    assert(num * factor > m) by (nonlinear_arith)
                        requires num > room, room == m / f, f >= 1, m >= 0, f == factor;
                }
            } else {
                proof {
                    let m: int = i64::MAX - total; let f: int = factor as int;
                    assert(num * factor <= m) by (nonlinear_arith)
                        requires num <= room, room == m / f, f >= 1, m >= 0, num >= 0, f == factor;
                }
                total = total + num * factor;
            }
        }
        proof {
            acc = acc + add;
        }
    }
    if over {
        Err(DurationError::Overflow(text.to_string()))
    } else {
        Ok(Duration { milliseconds: total })
    }
}

} // verus!

verus! {

proof fn lemma_digits_end_shift(a: Seq<char>, b: Seq<char>, k: int)
    requires
        0 <= k <= b.len(),
    ensures
        digits_end(a + b, a.len() + k) == a.len() + digits_end(b, k),
    decreases b.len() - k,
{
    let s = a + b;
    if k < b.len() {
        assert(s[a.len() + k] == b[k]);
        if is_digit(b[k]) {
            lemma_digits_end_shift(a, b, k + 1);
        }
    }
}

proof fn lemma_pairs_total_shift(a: Seq<char>, b: Seq<char>, k: int)
    requires
        0 <= k <= b.len(),
    ensures
        pairs_total(a + b, a.len() + k) == pairs_total(b, k),
    decreases b.len() - k,
{
    let s = a + b;
    let n = a.len() as int;
    if k < b.len() {
        lemma_digits_end_shift(a, b, k);
        lemma_digits_end_bounds(b, k);
        let j = digits_end(b, k);
        assert(s.subrange(n + k, n + j) =~= b.subrange(k, j));
        if j < b.len() {
            assert(s[n + j] == b[j]);
            if j + 1 < b.len() {
                assert(s[n + j + 1] == b[j + 1]);
            }
        }
        if let Some(u) = unit_at(b, j) {
            if u.1 > k {
                lemma_pairs_total_shift(a, b, u.1);
            }
        }
    }
}

proof fn lemma_pairs_total_prefix(a: Seq<char>, b: Seq<char>, i: int)
    requires
        0 <= i <= a.len(),
        pairs_total(a, i) is Some,
        b.len() > 0,
        is_digit(b[0]),
    ensures
        pairs_total(a + b, i) == match pairs_total(b, 0) {
            Some(y) => Some(pairs_total(a, i)->0 + y),
            None => None::<int>,
        },
    decreases a.len() - i,
{
    let s = a + b;
    let n = a.len() as int;
    if i == n {
        lemma_pairs_total_shift(a, b, 0);
    } else {
        lemma_digits_end_bounds(a, i);
        let j = digits_end(a, i);
        assert(j < n);
        assert forall|t: int| i <= t < j implies is_digit(#[trigger] s[t]) by {
            assert(s[t] == a[t]);
        }
        lemma_digits_end_step(s, i, j);
        assert(s[j] == a[j]);
        assert(digits_end(s, j) == j);
        assert(s.subrange(i, j) =~= a.subrange(i, j));
        if j + 1 < n {
            assert(s[j + 1] == a[j + 1]);
        } else {
            assert(s[j + 1] == b[0]);
        }
        assert(unit_at(s, j) == unit_at(a, j));
        let u = unit_at(a, j)->0;
        lemma_pairs_total_prefix(a, b, u.1);
    }
}

/// A duration written as two duration strings one after the other is the sum
/// of the two: the value of `"1d12h10m"` is that of `"1d"`, `"12h"` and
/// `"10m"` added up.
pub proof fn lemma_duration_concat(a: Seq<char>, b: Seq<char>)
    requires
        duration_ms(a) is Some,
        duration_ms(b) is Some,
    ensures
        duration_ms(a + b) == Some(duration_ms(a)->0 + duration_ms(b)->0),
{
    lemma_digits_end_bounds(b, 0);
    assert(digits_end(b, 0) > 0);
    assert(is_digit(b[0]));
    lemma_pairs_total_prefix(a, b, 0);
}

} // verus!
