//! Decimal integers in the syntax that Rust's `FromStr` for integers accepts:
//! an optional sign, then one or more ASCII digits, with no other character.

use vstd::prelude::*;
use vstd::string::*;
use crate::text::is_ascii_digit;

verus! {

pub open spec fn digit_value(c: char) -> int {
    (c as int) - ('0' as int)
}

pub open spec fn all_digits(s: Seq<char>) -> bool {
    forall|i: int| 0 <= i < s.len() ==> is_ascii_digit(#[trigger] s[i])
}

/// Value of a string of decimal digits.
pub open spec fn digits_value(s: Seq<char>) -> int
    decreases s.len(),
{
    if s.len() == 0 {
        0
    } else {
        digits_value(s.drop_last()) * 10 + digit_value(s.last())
    }
}

/// Value of one or more decimal digits.
pub open spec fn magnitude(s: Seq<char>) -> Option<int> {
    if s.len() > 0 && all_digits(s) {
        Some(digits_value(s))
    } else {
        None
    }
}

/// Value of an optionally signed decimal numeral; `-` only where `signed`.
pub open spec fn numeral_value(s: Seq<char>, signed: bool) -> Option<int> {
    if s.len() > 0 && s[0] == '+' {
        magnitude(s.drop_first())
    } else if signed && s.len() > 0 && s[0] == '-' {
        match magnitude(s.drop_first()) {
            Some(v) => Some(-v),
            None => None,
        }
    } else {
        magnitude(s)
    }
}

/// What `s.parse::<i64>()` yields, as an `Option`.
pub open spec fn parsed_i64(s: Seq<char>) -> Option<i64> {
    match numeral_value(s, true) {
        Some(v) => if i64::MIN <= v <= i64::MAX {
            Some(v as i64)
        } else {
            None
        },
        None => None,
    }
}

/// What `s.parse::<usize>()` yields, as an `Option`.
pub open spec fn parsed_usize(s: Seq<char>) -> Option<usize> {
    match numeral_value(s, false) {
        Some(v) => if 0 <= v <= usize::MAX {
            Some(v as usize)
        } else {
            None
        },
        None => None,
    }
}

proof fn lemma_digits_value_nonneg(s: Seq<char>)
    requires
        all_digits(s),
    ensures
        digits_value(s) >= 0,
    decreases s.len(),
{
    if s.len() > 0 {
        assert(is_ascii_digit(s[s.len() - 1]));
        lemma_digits_value_nonneg(s.drop_last());
    }
}

/// Extending a digit string never lowers its value.
proof fn lemma_digits_value_grows(s: Seq<char>, i: int, j: int)
    requires
        0 <= i <= j <= s.len(),
        all_digits(s),
    ensures
        digits_value(s.subrange(0, i)) <= digits_value(s.subrange(0, j)),
    decreases j - i,
{
    if i < j {
        lemma_digits_value_grows(s, i, j - 1);
        let t = s.subrange(0, j);
        assert(t.drop_last() =~= s.subrange(0, j - 1));
        assert(is_ascii_digit(s[j - 1]));
        assert(all_digits(s.subrange(0, j - 1)));
        lemma_digits_value_nonneg(s.subrange(0, j - 1));
    }
}

/// A one-character numeral is a single digit.
pub proof fn lemma_single_char_value(s: Seq<char>)
    requires
        s.len() == 1,
        parsed_i64(s) is Some,
    ensures
        0 <= parsed_i64(s)->0 <= 9,
{
    assert(s.drop_first().len() == 0);
    assert(is_ascii_digit(s[0]));
    assert(s.drop_last() =~= Seq::<char>::empty());
    assert(digits_value(Seq::<char>::empty()) == 0);
}

/// Reads digits `start..` of `s`; `None` when one is not a digit, when there is
/// none, or when the value exceeds `limit`.
fn read_magnitude(s: &str, start: usize, limit: u128) -> (r: Option<u128>)
    requires
        start <= s@.len(),
        limit <= 18_446_744_073_709_551_616,
    ensures
        r matches Some(x) ==> x <= limit && magnitude(s@.skip(start as int)) == Some(x as int),
        r is None ==> (magnitude(s@.skip(start as int)) is None || magnitude(
            s@.skip(start as int),
        )->0 > limit),
{
    let n = s.unicode_len();
    let ghost t = s@.skip(start as int);
    if start == n {
        return None;
    }
    let mut i: usize = start;
    let mut acc: u128 = 0;
    while i < n
        invariant
            n == s@.len(),
            start < n,
            start <= i <= n,
            t == s@.skip(start as int),
            limit <= 18_446_744_073_709_551_616,
            all_digits(t.subrange(0, i - start)),
            acc as int == digits_value(t.subrange(0, i - start)),
            acc <= limit,
        decreases n - i,
    {
        let c = s.get_char(i);
        if !('0' <= c && c <= '9') {
            assert(!is_ascii_digit(t[i - start]));
            return None;
        }
        let d = (c as u32 - '0' as u32) as u128;
        proof {
            let u = t.subrange(0, i - start + 1);
            assert(u.drop_last() =~= t.subrange(0, i - start));
            assert(u.last() == c);
        }
        acc = acc * 10 + d;
        i += 1;
        if acc > limit {
            proof {
                if all_digits(t) {
                    lemma_digits_value_grows(t, i - start, t.len() as int);
                    assert(t.subrange(0, t.len() as int) =~= t);
                }
            }
            return None;
        }
    }
    assert(t.subrange(0, i - start) =~= t);
    Some(acc)
}

/// `s.parse::<i64>().ok()`.
pub fn parse_i64(s: &str) -> (r: Option<i64>)
    ensures
        r == parsed_i64(s@),
{
    let n = s.unicode_len();
    let mut start: usize = 0;
    let mut negative = false;
    if n > 0 {
        let first = s.get_char(0);
        if first == '+' {
            start = 1;
        } else if first == '-' {
            start = 1;
            negative = true;
        }
    }
    proof {
        if n > 0 {
            assert(s@.skip(1) =~= s@.drop_first());
        }
        assert(s@.skip(0) =~= s@);
    }
    match read_magnitude(s, start, 9_223_372_036_854_775_808) {
        Some(v) => {
            if negative {
                Some((0 - (v as i128)) as i64)
            } else if v <= 9_223_372_036_854_775_807 {
                Some(v as i64)
            } else {
                None
            }
        },
        None => None,
    }
}

/// `s.parse::<usize>().ok()`.
pub fn parse_usize(s: &str) -> (r: Option<usize>)
    ensures
        r == parsed_usize(s@),
{
    let n = s.unicode_len();
    let mut start: usize = 0;
    if n > 0 && s.get_char(0) == '+' {
        start = 1;
    }
    proof {
        if n > 0 {
            assert(s@.skip(1) =~= s@.drop_first());
        }
        assert(s@.skip(0) =~= s@);
    }
    match read_magnitude(s, start, usize::MAX as u128) {
        Some(v) => Some(v as usize),
        None => None,
    }
}

pub open spec fn digit_char(d: int) -> char {
    if d == 0 {
        '0'
    } else if d == 1 {
        '1'
    } else if d == 2 {
        '2'
    } else if d == 3 {
        '3'
    } else if d == 4 {
        '4'
    } else if d == 5 {
        '5'
    } else if d == 6 {
        '6'
    } else if d == 7 {
        '7'
    } else if d == 8 {
        '8'
    } else {
        '9'
    }
}

/// Decimal digits of `n >= 0`, without leading zeros.
pub open spec fn digits(n: nat) -> Seq<char>
    decreases n,
{
    if n < 10 {
        seq![digit_char(n as int)]
    } else {
        digits(n / 10) + seq![digit_char(n as int % 10)]
    }
}

/// Decimal form of `v`, with `-` before a negative value.
pub open spec fn decimal(v: int) -> Seq<char> {
    if v < 0 {
        seq!['-'] + digits((-v) as nat)
    } else {
        digits(v as nat)
    }
}

proof fn lemma_digit_char(d: int)
    requires
        0 <= d < 10,
    ensures
        digit_value(digit_char(d)) == d,
        is_ascii_digit(digit_char(d)),
{
}

proof fn lemma_digits_read_back(n: nat)
    ensures
        all_digits(digits(n)),
        digits_value(digits(n)) == n,
        digits(n).len() > 0,
        digits(n)[0] != '-' && digits(n)[0] != '+',
    decreases n,
{
    lemma_digit_char(n as int % 10);
    if n < 10 {
        lemma_digit_char(n as int);
        let d = digits(n);
        assert(d.drop_last() =~= Seq::<char>::empty());
        assert(digits_value(Seq::<char>::empty()) == 0);
    }
    if n >= 10 {
        lemma_digits_read_back(n / 10);
        let d = digits(n);
        assert(d.drop_last() =~= digits(n / 10));
        assert(d.last() == digit_char(n as int % 10));
        assert(digits_value(d) == digits_value(d.drop_last()) * 10 + digit_value(d.last()));
        assert(n == (n / 10) * 10 + n % 10);
        assert forall|i: int| 0 <= i < d.len() implies is_ascii_digit(#[trigger] d[i]) by {
            if i < d.len() - 1 {
                assert(d[i] == digits(n / 10)[i]);
            }
        }
    }
}

/// A decimal form is non-empty and starts with a digit or `-`.
pub proof fn lemma_decimal_first(v: int)
    ensures
        decimal(v).len() > 0,
        ('0' <= decimal(v)[0] <= '9') || decimal(v)[0] == '-',
{
    if v < 0 {
        lemma_digits_read_back((-v) as nat);
    } else {
        lemma_digits_read_back(v as nat);
        assert(is_ascii_digit(digits(v as nat)[0]));
    }
}

/// A decimal form ends with a digit.
pub proof fn lemma_decimal_last(v: int)
    ensures
        decimal(v).len() > 0,
        '0' <= decimal(v).last() <= '9',
{
    if v < 0 {
        lemma_digits_read_back((-v) as nat);
        let d = digits((-v) as nat);
        assert(is_ascii_digit(d[d.len() - 1]));
        assert((seq!['-'] + d).last() == d.last());
    } else {
        lemma_digits_read_back(v as nat);
        let d = digits(v as nat);
        assert(is_ascii_digit(d[d.len() - 1]));
    }
}

/// The decimal form of an `i64` parses back to it.
pub proof fn law_decimal_round_trip(v: i64)
    ensures
        parsed_i64(decimal(v as int)) == Some(v),
        v >= 0 ==> parsed_usize(decimal(v as int)) == Some(v as usize) || v > usize::MAX,
{
    if v < 0 {
        lemma_digits_read_back((-v) as nat);
        assert((seq!['-'] + digits((-v) as nat)).drop_first() =~= digits((-v) as nat));
    } else {
        lemma_digits_read_back(v as nat);
    }
}

/// The decimal form of a `usize` parses back to it.
pub proof fn law_decimal_round_trip_usize(v: usize)
    ensures
        parsed_usize(decimal(v as int)) == Some(v),
{
    lemma_digits_read_back(v as nat);
}

fn digit_str(d: u64) -> (s: &'static str)
    requires
        d < 10,
    ensures
        s@ == seq![digit_char(d as int)],
{
    proof {
        reveal_strlit("0");
        reveal_strlit("1");
        reveal_strlit("2");
        reveal_strlit("3");
        reveal_strlit("4");
        reveal_strlit("5");
        reveal_strlit("6");
        reveal_strlit("7");
        reveal_strlit("8");
        reveal_strlit("9");
    }
    if d == 0 {
        "0"
    } else if d == 1 {
        "1"
    } else if d == 2 {
        "2"
    } else if d == 3 {
        "3"
    } else if d == 4 {
        "4"
    } else if d == 5 {
        "5"
    } else if d == 6 {
        "6"
    } else if d == 7 {
        "7"
    } else if d == 8 {
        "8"
    } else {
        "9"
    }
}

fn push_digits(out: &mut String, n: u64)
    ensures
        final(out)@ == old(out)@ + digits(n as nat),
    decreases n,
{
    if n >= 10 {
        push_digits(out, n / 10);
    }
    out.append(digit_str(n % 10));
    assert(final(out)@ =~= old(out)@ + digits(n as nat)) by {
        if n >= 10 {
            assert(digits(n as nat) == digits((n / 10) as nat) + seq![digit_char(n as int % 10)]);
        }
    }
}

/// Decimal form of `value` (as `value.to_string()`).
pub fn format_i64(value: i64) -> (s: String)
    ensures
        s@ == decimal(value as int),
{
    let mut out = String::new();
    if value < 0 {
        out.append("-");
        proof {
            reveal_strlit("-");
        }
        let magnitude = (0 - (value as i128)) as u64;
        push_digits(&mut out, magnitude);
    } else {
        push_digits(&mut out, value as u64);
    }
    out
}

/// Decimal form of `value` (as `value.to_string()`).
pub fn format_usize(value: usize) -> (s: String)
    ensures
        s@ == decimal(value as int),
{
    let mut out = String::new();
    push_digits(&mut out, value as u64);
    out
}

/// Decimal form of `value` (as `value.to_string()`).
pub fn format_u64(value: u64) -> (s: String)
    ensures
        s@ == decimal(value as int),
{
    let mut out = String::new();
    push_digits(&mut out, value);
    out
}

/// Decimal form of `value` (as `value.to_string()`).
pub fn format_u32(value: u32) -> (s: String)
    ensures
        s@ == decimal(value as int),
{
    let mut out = String::new();
    push_digits(&mut out, value as u64);
    out
}

} // verus!
