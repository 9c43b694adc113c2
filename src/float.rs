//! Floating-point values as the server sends them: decimal or scientific
//! literals, possibly quoted, and the tokens for not-a-number and the
//! infinities. A value is kept as the literal it arrived as, checked against
//! the grammar that Rust's `f64::from_str` accepts, so that no precision is
//! lost before the caller converts it.
use vstd::prelude::*;
use crate::text::{digits_end, scan_digits};

verus! {

/// A floating-point value, held as a well-formed literal.
#[derive(Debug, Clone, PartialEq, Eq)]
pub struct FloatValue {
    text: String,
}

impl View for FloatValue {
    type V = Seq<char>;

    /// The literal.
    closed spec fn view(&self) -> Seq<char> {
        self.text@
    }
}

impl FloatValue {
    pub closed spec fn wf(&self) -> bool {
        is_float_literal(self.text@)
    }

    /// The literal, ready for `str::parse::<f64>`.
    pub fn as_str(&self) -> (r: &str)
        ensures
            r@ == self@,
    {
        self.text.as_str()
    }
}

/// `t` spells `lower` with each character either as in `lower` or as in `upper`.
pub open spec fn spells_either(t: Seq<char>, lower: Seq<char>, upper: Seq<char>) -> bool {
    &&& t.len() == lower.len()
    &&& t.len() == upper.len()
    &&& forall|k: int| 0 <= k < t.len() ==> #[trigger] t[k] == lower[k] || t[k] == upper[k]
}

/// The length of the optional leading sign.
pub open spec fn sign_len(s: Seq<char>) -> int {
    if s.len() > 0 && (s[0] == '+' || s[0] == '-') {
        1
    } else {
        0
    }
}

/// From `i` on, `s` is empty or an exponent: `e` or `E`, an optional sign and
/// one or more digits.
pub open spec fn exponent_rest(s: Seq<char>, i: int) -> bool {
    i == s.len() || (0 <= i < s.len() && (s[i] == 'e' || s[i] == 'E') && {
        let j = if i + 1 < s.len() && (s[i + 1] == '+' || s[i + 1] == '-') {
            i + 2
        } else {
            i + 1
        };
        j < s.len() && digits_end(s, j) == s.len()
    })
}

/// From `b` on, `s` is a decimal number: digits with an optional fraction,
/// at least one digit in all, then an optional exponent.
pub open spec fn decimal_from(s: Seq<char>, b: int) -> bool {
    let a = digits_end(s, b);
    if a < s.len() && s[a] == '.' {
        let c = digits_end(s, a + 1);
        (a > b || c > a + 1) && exponent_rest(s, c)
    } else {
        a > b && exponent_rest(s, a)
    }
}

/// A literal that `f64::from_str` accepts: an optional sign, then `inf`,
/// `infinity` or `nan` in any case, or a decimal number.
pub open spec fn is_float_literal(s: Seq<char>) -> bool {
    let b = sign_len(s);
    let t = s.subrange(b, s.len() as int);
    ||| spells_either(t, "inf"@, "INF"@)
    ||| spells_either(t, "infinity"@, "INFINITY"@)
    ||| spells_either(t, "nan"@, "NAN"@)
    ||| decimal_from(s, b)
}

/// Whether `text` from `from` on spells `lower` in either case.
fn rest_spells(text: &str, from: usize, n: usize, lower: &str, upper: &str) -> (r: bool)
    requires
        n == text@.len(),
        from <= n,
    ensures
        r == spells_either(text@.subrange(from as int, n as int), lower@, upper@),
{
    let ghost t = text@.subrange(from as int, n as int);
    let m = lower.unicode_len();
    if m != upper.unicode_len() || n - from != m {
        return false;
    }
    let mut k: usize = 0;
    while k < m
        invariant
            n == text@.len(),
            from <= n,
            t == text@.subrange(from as int, n as int),
            m == lower@.len(),
            m == upper@.len(),
            n - from == m,
            k <= m,
            forall|q: int| 0 <= q < k ==> #[trigger] t[q] == lower@[q] || t[q] == upper@[q],
        decreases m - k,
    {
        let c = text.get_char(from + k);
        if c != lower.get_char(k) && c != upper.get_char(k) {
            proof {
                assert(t[k as int] == c);
            }
            return false;
        }
        k = k + 1;
    }
    true
}

fn exponent_ok(text: &str, i: usize, n: usize) -> (r: bool)
    requires
        n == text@.len(),
        i <= n,
    ensures
        r == exponent_rest(text@, i as int),
{
    if i == n {
        return true;
    }
    let c = text.get_char(i);
    if c != 'e' && c != 'E' {
        return false;
    }
    let mut j = i + 1;
    if j < n {
        let d = text.get_char(j);
        if d == '+' || d == '-' {
            j = j + 1;
        }
    }
    if j >= n {
        return false;
    }
    scan_digits(text, j, n) == n
}

/// Reads a floating-point literal: decimal or scientific notation with an
/// optional sign, or the tokens for not-a-number and the infinities. `None`
/// where the text is not such a literal.
pub fn parse_float(text: &str) -> (r: Option<FloatValue>)
    ensures
        r is Some <==> is_float_literal(text@),
        r matches Some(v) ==> v@ == text@ && v.wf(),
{
    let n = text.unicode_len();
    let mut b: usize = 0;
    if n > 0 {
        let c = text.get_char(0);
        if c == '+' || c == '-' {
            b = 1;
        }
    }
    let special = rest_spells(text, b, n, "inf", "INF") || rest_spells(text, b, n, "infinity", "INFINITY")
        || rest_spells(text, b, n, "nan", "NAN");
    let ok = if special {
        true
    } else {
        let a = scan_digits(text, b, n);
        if a < n && text.get_char(a) == '.' {
            let c = scan_digits(text, a + 1, n);
            (a > b || c > a + 1) && exponent_ok(text, c, n)
        } else {
            a > b && exponent_ok(text, a, n)
        }
    };
    if ok {
        Some(FloatValue { text: text.to_string() })
    } else {
        None
    }
}

} // verus!
