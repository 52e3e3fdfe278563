//! The grammar of a decimal floating-point numeral.
//!
//! A microphone level travels as text.  Whether a text is a numeral at all
//! is decided here; turning a numeral into a number is left to the caller.
//!
//! ```text
//! Float  ::= Sign? ( 'inf' | 'infinity' | 'nan' | Number )
//! Number ::= ( Digit+ | Digit+ '.' Digit* | Digit* '.' Digit+ ) Exp?
//! Exp    ::= 'e' Sign? Digit+
//! Sign   ::= [+-]
//! Digit  ::= [0-9]
//! ```
//!
//! Letters count in either case.

use crate::text::chars_of;
use vstd::prelude::*;

verus! {

pub open spec fn is_sign(c: char) -> bool {
    c == '+' || c == '-'
}

pub open spec fn is_decimal_digit(c: char) -> bool {
    '0' <= c <= '9'
}

/// The position behind the run of digits that begins at `from`.
pub open spec fn digits_end(s: Seq<char>, from: int) -> int
    decreases s.len() - from,
{
    if 0 <= from < s.len() && is_decimal_digit(s[from]) {
        digits_end(s, from + 1)
    } else {
        from
    }
}

/// From `from` on, `s` spells the word that `lower` and `upper` give in the
/// two cases, and nothing else.
pub open spec fn is_word_at(s: Seq<char>, from: int, lower: Seq<char>, upper: Seq<char>) -> bool {
    &&& s.len() - from == lower.len()
    &&& forall|i: int|
        0 <= i < lower.len() ==> s[from + i] == #[trigger] lower[i] || s[from + i] == upper[i]
}

/// From `at` on, `s` holds an exponent and nothing else, or nothing at all.
pub open spec fn is_exponent_or_end(s: Seq<char>, at: int) -> bool {
    ||| at == s.len()
    ||| {
        let digits = if at + 1 < s.len() && is_sign(s[at + 1]) {
            at + 2
        } else {
            at + 1
        };
        &&& at < s.len()
        &&& (s[at] == 'e' || s[at] == 'E')
        &&& digits_end(s, digits) > digits
        &&& digits_end(s, digits) == s.len()
    }
}

/// From `from` on, `s` is a number: digits with at most one point among
/// them, at least one digit in all, and an optional exponent.
pub open spec fn is_number_at(s: Seq<char>, from: int) -> bool {
    let whole = digits_end(s, from);
    if whole < s.len() && s[whole] == '.' {
        let fraction = digits_end(s, whole + 1);
        (whole > from || fraction > whole + 1) && is_exponent_or_end(s, fraction)
    } else {
        whole > from && is_exponent_or_end(s, whole)
    }
}

/// Where a numeral begins behind its optional sign.
pub open spec fn unsigned_start(s: Seq<char>) -> int {
    if s.len() > 0 && is_sign(s[0]) {
        1
    } else {
        0
    }
}

/// Whether `s` is a floating-point numeral.
pub open spec fn is_float_text(s: Seq<char>) -> bool {
    let from = unsigned_start(s);
    ||| is_word_at(s, from, "inf"@, "INF"@)
    ||| is_word_at(s, from, "infinity"@, "INFINITY"@)
    ||| is_word_at(s, from, "nan"@, "NAN"@)
    ||| is_number_at(s, from)
}

fn is_digit_char(c: char) -> (digit: bool)
    ensures
        digit == is_decimal_digit(c),
{
    '0' <= c && c <= '9'
}

/// The position behind the run of digits that begins at `from`.
fn skip_digits(chars: &Vec<char>, from: usize) -> (end: usize)
    requires
        from <= chars.len(),
    ensures
        from <= end <= chars.len(),
        end == digits_end(chars@, from as int),
{
    let mut end: usize = from;
    while end < chars.len() && is_digit_char(chars[end])
        invariant
            from <= end <= chars.len(),
            digits_end(chars@, end as int) == digits_end(chars@, from as int),
        decreases chars.len() - end,
    {
        end += 1;
    }
    end
}

/// Whether `chars` spells, from `from` on, the word given in both cases.
fn spells(chars: &Vec<char>, from: usize, lower: &str, upper: &str) -> (found: bool)
    requires
        from <= chars.len(),
        lower@.len() == upper@.len(),
    ensures
        found == is_word_at(chars@, from as int, lower@, upper@),
{
    let low = chars_of(lower);
    let up = chars_of(upper);
    if chars.len() - from != low.len() {
        return false;
    }
    let mut i: usize = 0;
    while i < low.len()
        invariant
            low@ == lower@,
            up@ == upper@,
            low.len() == up.len(),
            chars.len() - from == low.len(),
            i <= low.len(),
            forall|j: int|
                0 <= j < i ==> chars@[from + j] == #[trigger] low@[j] || chars@[from + j] == up@[j],
        decreases low.len() - i,
    {
        let c = chars[from + i];
        if c != low[i] && c != up[i] {
            assert(!(chars@[from + i] == low@[i as int] || chars@[from + i] == up@[i as int]));
            return false;
        }
        i += 1;
    }
    true
}

/// Whether `chars` holds, from `at` on, an exponent and nothing else, or
/// nothing at all.
fn exponent_or_end(chars: &Vec<char>, at: usize) -> (found: bool)
    requires
        at <= chars.len(),
    ensures
        found == is_exponent_or_end(chars@, at as int),
{
    let n = chars.len();
    if at == n {
        return true;
    }
    if chars[at] != 'e' && chars[at] != 'E' {
        return false;
    }
    let digits: usize = if at + 1 < n && (chars[at + 1] == '+' || chars[at + 1] == '-') {
        at + 2
    } else {
        at + 1
    };
    let end = skip_digits(chars, digits);
    end > digits && end == n
}

/// Whether `text` is a floating-point numeral.
pub fn is_float(text: &str) -> (float: bool)
    ensures
        float == is_float_text(text@),
{
    let chars = chars_of(text);
    let n = chars.len();
    let from: usize = if n > 0 && (chars[0] == '+' || chars[0] == '-') {
        1
    } else {
        0
    };
    proof {
        reveal_strlit("inf");
        reveal_strlit("INF");
        reveal_strlit("infinity");
        reveal_strlit("INFINITY");
        reveal_strlit("nan");
        reveal_strlit("NAN");
    }
    if spells(&chars, from, "inf", "INF") || spells(&chars, from, "infinity", "INFINITY")
        || spells(&chars, from, "nan", "NAN") {
        return true;
    }
    let whole = skip_digits(&chars, from);
    if whole < n && chars[whole] == '.' {
        let fraction = skip_digits(&chars, whole + 1);
        (whole > from || fraction > whole + 1) && exponent_or_end(&chars, fraction)
    } else {
        whole > from && exponent_or_end(&chars, whole)
    }
}

} // verus!
