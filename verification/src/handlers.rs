//! Decisions the chat handlers make on plain values: durations, amounts,
//! payloads, names, replies and the choice of a server.

use vstd::prelude::*;
use vstd::string::*;
use vstd::utf8::encode_utf8;
use crate::model::Lang;
use crate::numbers::{decimal, format_i64, law_decimal_round_trip, parse_i64, parsed_i64};
use crate::text::{first_index_of, is_ascii_alphanumeric, str_eq, starts_with, strip_prefix};

verus! {

// ---------------------------------------------------------------------------
// Payloads and durations
// ---------------------------------------------------------------------------

/// Order id carried by a Telegram Stars invoice payload `awgram-stars:<id>`.
pub open spec fn order_id_of(payload: Seq<char>) -> Option<i64> {
    if "awgram-stars:"@.is_prefix_of(payload) {
        parsed_i64(payload.skip("awgram-stars:"@.len() as int))
    } else {
        None
    }
}

/// Order id carried by a Telegram Stars invoice payload `awgram-stars:<id>`.
pub fn star_order_id(payload: &str) -> (id: Option<i64>)
    ensures
        id == order_id_of(payload@),
{
    match strip_prefix(payload, "awgram-stars:") {
        Some(rest) => parse_i64(rest),
        None => None,
    }
}

pub open spec fn tariff_days(months: i64) -> Option<Seq<char>> {
    if months == 1 {
        Some("30d"@)
    } else if months == 3 {
        Some("90d"@)
    } else if months == 6 {
        Some("180d"@)
    } else if months == 12 {
        Some("365d"@)
    } else {
        None
    }
}

/// Key lifetime sold with a tariff of `months` months.
pub fn tariff_duration(months: i64) -> (r: Option<&'static str>)
    ensures
        match r {
            Some(s) => tariff_days(months) == Some(s@),
            None => tariff_days(months) is None,
        },
{
    if months == 1 {
        Some("30d")
    } else if months == 3 {
        Some("90d")
    } else if months == 6 {
        Some("180d")
    } else if months == 12 {
        Some("365d")
    } else {
        None
    }
}

/// Seconds in one unit of a duration suffix.
pub open spec fn unit_seconds(unit: char) -> Option<int> {
    if unit == 'h' {
        Some(3_600)
    } else if unit == 'd' {
        Some(86_400)
    } else if unit == 'w' {
        Some(604_800)
    } else if unit == 'm' {
        Some(2_592_000)
    } else if unit == 'y' {
        Some(31_536_000)
    } else {
        None
    }
}

/// A duration such as `30d`: an integer amount and one unit letter
/// (`h`, `d`, `w`, `m` = 30 days, `y` = 365 days), positive and within `i64`.
pub open spec fn duration_value(s: Seq<char>) -> Option<i64> {
    if s.len() == 0 {
        None
    } else {
        match (parsed_i64(s.drop_last()), unit_seconds(s.last())) {
            (Some(amount), Some(unit)) => {
                let total = amount * unit;
                if 0 < total <= i64::MAX {
                    Some(total as i64)
                } else {
                    None
                }
            },
            _ => None,
        }
    }
}

/// The last character is a single UTF-8 byte (the split point is a character
/// boundary).
pub open spec fn ends_in_single_byte(s: Seq<char>) -> bool {
    s.len() == 0 || (s.last() as int) < 0x80
}

/// Seconds in a duration such as `30d`.
pub fn duration_seconds(value: &str) -> (r: Option<i64>)
    requires
        ends_in_single_byte(value@),
    ensures
        r == duration_value(value@),
{
    let n = value.unicode_len();
    if n == 0 {
        return None;
    }
    let amount = match parse_i64(value.substring_char(0, n - 1)) {
        Some(a) => a,
        None => return None,
    };
    assert(value@.subrange(0, n - 1) =~= value@.drop_last());
    let unit = value.get_char(n - 1);
    let multiplier: i64 = if unit == 'h' {
        3_600
    } else if unit == 'd' {
        86_400
    } else if unit == 'w' {
        604_800
    } else if unit == 'm' {
        2_592_000
    } else if unit == 'y' {
        31_536_000
    } else {
        return None;
    };
    match amount.checked_mul(multiplier) {
        Some(total) => if total > 0 {
            Some(total)
        } else {
            None
        },
        None => None,
    }
}

proof fn lemma_term_of(n: i64, unit: char)
    ensures
        (decimal(n as int) + seq![unit]).drop_last() == decimal(n as int),
        (decimal(n as int) + seq![unit]).last() == unit,
        (decimal(n as int) + seq![unit]).len() > 0,
        parsed_i64(decimal(n as int)) == Some(n),
{
    assert((decimal(n as int) + seq![unit]).drop_last() =~= decimal(n as int));
    law_decimal_round_trip(n);
}

/// A typed term of `n` units is `n` times the unit's length: an hour of
/// 3600 seconds, a day of 86400, a week of seven days, a month of 30 days and
/// a year of 365 days; a term that is not positive, that overflows, or that
/// ends in another letter is refused.
pub proof fn law_duration_units(n: i64, other: char)
    requires
        other != 'h' && other != 'd' && other != 'w' && other != 'm' && other != 'y',
    ensures
        0 < n && n * 3_600 <= i64::MAX ==> duration_value(decimal(n as int) + seq!['h']) == Some((n * 3_600) as i64),
        0 < n && n * 86_400 <= i64::MAX ==> duration_value(decimal(n as int) + seq!['d']) == Some((n * 86_400) as i64),
        0 < n && n * 7 * 86_400 <= i64::MAX ==> duration_value(decimal(n as int) + seq!['w']) == Some((n * 7 * 86_400) as i64),
        0 < n && n * 30 * 86_400 <= i64::MAX ==> duration_value(decimal(n as int) + seq!['m']) == Some((n * 30 * 86_400) as i64),
        0 < n && n * 365 * 86_400 <= i64::MAX ==> duration_value(decimal(n as int) + seq!['y']) == Some((n * 365 * 86_400) as i64),
        n <= 0 ==> duration_value(decimal(n as int) + seq!['h']) is None && duration_value(decimal(n as int) + seq!['d']) is None
            && duration_value(decimal(n as int) + seq!['w']) is None && duration_value(decimal(n as int) + seq!['m']) is None
            && duration_value(decimal(n as int) + seq!['y']) is None,
        n * 3_600 > i64::MAX ==> duration_value(decimal(n as int) + seq!['h']) is None,
        n * 86_400 > i64::MAX ==> duration_value(decimal(n as int) + seq!['d']) is None,
        n * 7 * 86_400 > i64::MAX ==> duration_value(decimal(n as int) + seq!['w']) is None,
        n * 30 * 86_400 > i64::MAX ==> duration_value(decimal(n as int) + seq!['m']) is None,
        n * 365 * 86_400 > i64::MAX ==> duration_value(decimal(n as int) + seq!['y']) is None,
        duration_value(decimal(n as int) + seq![other]) is None,
{
    lemma_term_of(n, 'h');
    lemma_term_of(n, 'd');
    lemma_term_of(n, 'w');
    lemma_term_of(n, 'm');
    lemma_term_of(n, 'y');
    lemma_term_of(n, other);
}

/// A week is seven days: `n` weeks read as the same term as `7n` days, and
/// a year as 365 days.
pub proof fn law_week_is_seven_days(n: i64)
    requires
        0 < n,
        n * 365 <= i64::MAX,
    ensures
        duration_value(decimal(n as int) + seq!['w']) == duration_value(decimal(7 * n as int) + seq!['d']),
        duration_value(decimal(n as int) + seq!['y']) == duration_value(decimal(365 * n as int) + seq!['d']),
        duration_value(decimal(n as int) + seq!['m']) == duration_value(decimal(30 * n as int) + seq!['d']),
{
    lemma_term_of(n, 'w');
    lemma_term_of(n, 'y');
    lemma_term_of(n, 'm');
    lemma_term_of((7 * n) as i64, 'd');
    lemma_term_of((365 * n) as i64, 'd');
    lemma_term_of((30 * n) as i64, 'd');
    assert((365 * n) * 86_400 == n * 31_536_000);
    assert((30 * n) * 86_400 == n * 2_592_000);
    assert((7 * n) * 86_400 == n * 604_800);
}

/// New expiry when a key is extended by `seconds`: from its current expiry,
/// or from now when it has none or it has already passed; saturating.
pub open spec fn extended_expiry(current: Option<i64>, now: i64, seconds: i64) -> int {
    let base = match current {
        Some(e) => if e >= now {
            e
        } else {
            now
        },
        None => now,
    };
    let sum = base + seconds;
    if sum > i64::MAX {
        i64::MAX as int
    } else if sum < i64::MIN {
        i64::MIN as int
    } else {
        sum
    }
}

/// Expiry after extending a key by `seconds`.
pub fn extension_target(current: Option<i64>, now: i64, seconds: i64) -> (target: i64)
    ensures
        target == extended_expiry(current, now, seconds),
{
    let start = match current {
        Some(e) => e,
        None => now,
    };
    let base = if start >= now {
        start
    } else {
        now
    };
    let sum = base as i128 + seconds as i128;
    if sum > i64::MAX as i128 {
        i64::MAX
    } else if sum < i64::MIN as i128 {
        i64::MIN
    } else {
        sum as i64
    }
}

// ---------------------------------------------------------------------------
// Text the customer types
// ---------------------------------------------------------------------------

pub open spec fn navigation_labels() -> Seq<Seq<char>> {
    seq![
        "🏠 Кабинет"@,
        "🔑 Мои ключи"@,
        "➕ Купить ключ"@,
        "➕ Пополнить"@,
        "📖 Инструкция"@,
        "🆘 Поддержка"@,
        "🎟 Промокод"@,
        "♻️ Восстановить ключи"@,
    ]
}

/// Text that navigates the customer cabinet (and so cancels a pending input):
/// a `/start` command or one of the reply keyboard labels.
pub open spec fn is_navigation(text: Seq<char>) -> bool {
    "/start"@.is_prefix_of(text) || navigation_labels().contains(text)
}

pub fn is_customer_navigation(text: &str) -> (r: bool)
    ensures
        r == is_navigation(text@),
{
    let labels = ["🏠 Кабинет", "🔑 Мои ключи", "➕ Купить ключ", "➕ Пополнить", "📖 Инструкция", "🆘 Поддержка", "🎟 Промокод", "♻️ Восстановить ключи"];
    if starts_with(text, "/start") {
        return true;
    }
    let mut i: usize = 0;
    while i < 8
        invariant
            i <= 8,
            labels@.len() == 8,
            forall|k: int| 0 <= k < 8 ==> #[trigger] labels@[k]@ == navigation_labels()[k],
            forall|k: int| 0 <= k < i ==> text@ != #[trigger] navigation_labels()[k],
        decreases 8 - i,
    {
        if str_eq(text, labels[i]) {
            assert(navigation_labels()[i as int] == text@);
            return true;
        }
        i += 1;
    }
    proof {
        if navigation_labels().contains(text@) {
            let k = choose|k: int| 0 <= k < 8 && navigation_labels()[k] == text@;
            assert(text@ != navigation_labels()[k]);
        }
    }
    false
}

// ---------------------------------------------------------------------------
// Money amounts
// ---------------------------------------------------------------------------

/// Whitespace in the sense of `char::is_whitespace` (Unicode `White_Space`).
pub open spec fn is_whitespace(c: char) -> bool {
    ('\u{9}' <= c && c <= '\u{d}') || c == ' ' || c == '\u{85}' || c == '\u{a0}' || c == '\u{1680}'
        || ('\u{2000}' <= c && c <= '\u{200a}') || c == '\u{2028}' || c == '\u{2029}' || c
        == '\u{202f}' || c == '\u{205f}' || c == '\u{3000}'
}

pub open spec fn trim_start(s: Seq<char>) -> Seq<char>
    decreases s.len(),
{
    if s.len() > 0 && is_whitespace(s[0]) {
        trim_start(s.drop_first())
    } else {
        s
    }
}

pub open spec fn trim_end(s: Seq<char>) -> Seq<char>
    decreases s.len(),
{
    if s.len() > 0 && is_whitespace(s.last()) {
        trim_end(s.drop_last())
    } else {
        s
    }
}

/// `s` without leading and trailing whitespace.
pub open spec fn trimmed(s: Seq<char>) -> Seq<char> {
    trim_end(trim_start(s))
}

pub open spec fn comma_to_dot(c: char) -> char {
    if c == ',' {
        '.'
    } else {
        c
    }
}

/// Value in minor units (kopecks, cents) of an amount such as `12.5` or
/// `12,50`: a whole part that parses as a non-negative `i64` and at most one
/// separator followed by at most two fraction digits (a comma counts as a dot,
/// surrounding whitespace is ignored).
pub open spec fn minor_amount(value: Seq<char>) -> Option<i64> {
    let normalized = trimmed(value).map_values(|c: char| comma_to_dot(c));
    let (whole_text, fraction, extra) = match first_index_of(normalized, '.') {
        Some(i) => {
            let rest = normalized.subrange(i + 1, normalized.len() as int);
            (normalized.subrange(0, i), rest.take(match first_index_of(rest, '.') {
                Some(j) => j,
                None => rest.len() as int,
            }), first_index_of(rest, '.') is Some)
        },
        None => (normalized, "0"@, false),
    };
    match parsed_i64(whole_text) {
        Some(whole) => if extra || fraction.len() > 2 || whole < 0 {
            None
        } else {
            let cents: Option<int> = if fraction.len() == 0 {
                Some(0)
            } else if fraction.len() == 1 {
                match parsed_i64(fraction) {
                    Some(f) => Some(f * 10),
                    None => None,
                }
            } else {
                match parsed_i64(fraction) {
                    Some(f) => Some(f as int),
                    None => None,
                }
            };
            match cents {
                Some(c) => if whole * 100 <= i64::MAX && i64::MIN <= whole * 100 + c <= i64::MAX {
                    Some((whole * 100 + c) as i64)
                } else {
                    None
                },
                None => None,
            }
        },
        None => None,
    }
}

pub(crate) fn is_whitespace_char(c: char) -> (r: bool)
    ensures
        r == is_whitespace(c),
{
    ('\u{9}' <= c && c <= '\u{d}') || c == ' ' || c == '\u{85}' || c == '\u{a0}' || c == '\u{1680}'
        || ('\u{2000}' <= c && c <= '\u{200a}') || c == '\u{2028}' || c == '\u{2029}' || c
        == '\u{202f}' || c == '\u{205f}' || c == '\u{3000}'
}

/// `s.trim()`.
pub fn trim(s: &str) -> (t: &str)
    ensures
        t@ == trimmed(s@),
{
    let n = s.unicode_len();
    let mut a: usize = 0;
    assert(s@.skip(0) =~= s@);
    while a < n && is_whitespace_char(s.get_char(a))
        invariant
            n == s@.len(),
            a <= n,
            trim_start(s@) == trim_start(s@.skip(a as int)),
        decreases n - a,
    {
        assert(s@.skip(a as int).drop_first() =~= s@.skip(a + 1));
        a += 1;
    }
    assert(trim_start(s@) == s@.skip(a as int));
    let mut b: usize = n;
    while b > a && is_whitespace_char(s.get_char(b - 1))
        invariant
            n == s@.len(),
            a <= b <= n,
            trim_end(s@.skip(a as int)) == trim_end(s@.subrange(a as int, b as int)),
        decreases b,
    {
        assert(s@.subrange(a as int, b as int).drop_last() =~= s@.subrange(a as int, b - 1));
        b -= 1;
    }
    assert(s@.skip(a as int) =~= s@.subrange(a as int, n as int));
    s.substring_char(a, b)
}

/// Position of the first `.` or `,` in `s`.
fn find_separator(s: &str) -> (r: Option<usize>)
    ensures
        r matches Some(i) ==> first_index_of(s@.map_values(|c: char| comma_to_dot(c)), '.') == Some(
            i as int,
        ),
        r is None ==> first_index_of(s@.map_values(|c: char| comma_to_dot(c)), '.') is None,
{
    let ghost m = s@.map_values(|c: char| comma_to_dot(c));
    proof {
        crate::text::lemma_first_index_of(m, '.');
    }
    let n = s.unicode_len();
    let mut i: usize = 0;
    while i < n
        invariant
            n == s@.len(),
            m.len() == n,
            m == s@.map_values(|c: char| comma_to_dot(c)),
            i <= n,
            forall|j: int| 0 <= j < i ==> m[j] != '.',
            match first_index_of(m, '.') {
                Some(k) => 0 <= k < m.len() && m[k] == '.' && forall|j: int| 0 <= j < k ==> m[j] != '.',
                None => forall|j: int| 0 <= j < m.len() ==> m[j] != '.',
            },
        decreases n - i,
    {
        let c = s.get_char(i);
        assert(m[i as int] == comma_to_dot(c));
        if c == '.' || c == ',' {
            return Some(i);
        }
        i += 1;
    }
    None
}

/// Parts without separators read the same after commas become dots.
proof fn lemma_no_separator_same(s: Seq<char>, m: Seq<char>, from: int, to: int)
    requires
        m == s.map_values(|c: char| comma_to_dot(c)),
        0 <= from <= to <= s.len(),
        forall|j: int| from <= j < to ==> #[trigger] m[j] != '.',
    ensures
        s.subrange(from, to) == m.subrange(from, to),
{
    assert forall|j: int| 0 <= j < to - from implies s.subrange(from, to)[j] == m.subrange(
        from,
        to,
    )[j] by {
        assert(m[from + j] == comma_to_dot(s[from + j]));
    }
    assert(s.subrange(from, to) =~= m.subrange(from, to));
}

/// Amount in minor units typed as `12.50` or `12,5`.
pub fn parse_minor(value: &str) -> (r: Option<i64>)
    ensures
        r == minor_amount(value@),
{
    let t = trim(value);
    let ghost m = t@.map_values(|c: char| comma_to_dot(c));
    let n = t.unicode_len();
    proof {
        crate::text::lemma_first_index_of(m, '.');
    }
    let (whole_text, fraction, extra) = match find_separator(t) {
        Some(i) => {
            let rest = t.substring_char(i + 1, n);
            let ghost mr = m.subrange(i + 1, n as int);
            assert(rest@.map_values(|c: char| comma_to_dot(c)) =~= mr);
            proof {
                lemma_no_separator_same(t@, m, 0, i as int);
            }
            match find_separator(rest) {
                Some(j) => {
                    proof {
                        crate::text::lemma_first_index_of(mr, '.');
                        lemma_no_separator_same(rest@, rest@.map_values(|c: char| comma_to_dot(c)), 0, j as int);
                        assert(rest@.map_values(|c: char| comma_to_dot(c)).subrange(0, j as int)
                            =~= mr.take(j as int));
                    }
                    (t.substring_char(0, i), rest.substring_char(0, j), true)
                },
                None => {
                    proof {
                        crate::text::lemma_first_index_of(mr, '.');
                        lemma_no_separator_same(
                            rest@,
                            rest@.map_values(|c: char| comma_to_dot(c)),
                            0,
                            rest@.len() as int,
                        );
                        assert(rest@.map_values(|c: char| comma_to_dot(c)).subrange(
                            0,
                            rest@.len() as int,
                        ) =~= mr.take(mr.len() as int));
                        assert(rest@.subrange(0, rest@.len() as int) =~= rest@);
                    }
                    (t.substring_char(0, i), rest, false)
                },
            }
        },
        None => {
            proof {
                lemma_no_separator_same(t@, m, 0, n as int);
                assert(t@.subrange(0, n as int) =~= t@);
                assert(m.subrange(0, n as int) =~= m);
                reveal_strlit("0");
            }
            (t, "0", false)
        },
    };
    let whole = match parse_i64(whole_text) {
        Some(w) => w,
        None => return None,
    };
    let flen = fraction.unicode_len();
    if extra || flen > 2 || whole < 0 {
        return None;
    }
    let cents: i64 = if flen == 0 {
        0
    } else if flen == 1 {
        match parse_i64(fraction) {
            Some(f) => {
                proof {
                    crate::numbers::lemma_single_char_value(fraction@);
                }
                f * 10
            },
            None => return None,
        }
    } else {
        match parse_i64(fraction) {
            Some(f) => f,
            None => return None,
        }
    };
    match whole.checked_mul(100) {
        Some(w) => w.checked_add(cents),
        None => None,
    }
}

// ---------------------------------------------------------------------------
// Names and replies
// ---------------------------------------------------------------------------

pub open spec fn is_base_char(c: char) -> bool {
    is_ascii_alphanumeric(c) || c == '_' || c == '-'
}

/// The first `limit` characters of `s` that are name characters.
pub open spec fn name_chars(s: Seq<char>, limit: int) -> Seq<char>
    decreases s.len(),
{
    if s.len() == 0 || limit <= 0 {
        Seq::empty()
    } else if is_base_char(s[0]) {
        seq![s[0]] + name_chars(s.drop_first(), limit - 1)
    } else {
        name_chars(s.drop_first(), limit)
    }
}

pub open spec fn user_label(user_id: i64) -> Seq<char> {
    "user"@ + decimal(user_id as int)
}

/// Base of a customer's key names: up to 28 name characters of the username
/// (or of `user<id>` without one), or `user<id>` when that leaves nothing or
/// starts with `-`.
pub open spec fn base_name(username: Option<Seq<char>>, user_id: i64) -> Seq<char> {
    let raw = match username {
        Some(u) => u,
        None => user_label(user_id),
    };
    let base = name_chars(raw, 28);
    if base.len() == 0 || base[0] == '-' {
        let label = user_label(user_id);
        if label.len() > 28 {
            label.take(28)
        } else {
            label
        }
    } else {
        base
    }
}

proof fn lemma_name_chars_len(s: Seq<char>, limit: int)
    ensures
        name_chars(s, limit).len() <= if limit < 0 {
            0
        } else {
            limit
        },
    decreases s.len(),
{
    if s.len() > 0 && limit > 0 {
        lemma_name_chars_len(s.drop_first(), if is_base_char(s[0]) {
            limit - 1
        } else {
            limit
        });
    }
}

fn is_base_character(c: char) -> (r: bool)
    ensures
        r == is_base_char(c),
{
    ('0' <= c && c <= '9') || ('a' <= c && c <= 'z') || ('A' <= c && c <= 'Z') || c == '_' || c
        == '-'
}

pub open spec fn pow10(k: nat) -> nat
    decreases k,
{
    if k == 0 {
        1
    } else {
        10 * pow10((k - 1) as nat)
    }
}

proof fn lemma_digits_short(n: nat, k: nat)
    requires
        n < pow10(k),
        k >= 1,
    ensures
        crate::numbers::digits(n).len() <= k,
    decreases k,
{
    if n >= 10 {
        if k == 1 {
            assert(pow10(1) == 10) by {
                reveal_with_fuel(pow10, 2);
            }
        } else {
            lemma_digits_short(n / 10, (k - 1) as nat);
        }
    }
}

proof fn lemma_user_label_short(user_id: i64)
    ensures
        user_label(user_id).len() <= 28,
{
    reveal_strlit("user");
    assert(pow10(20) == 100_000_000_000_000_000_000) by {
        reveal_with_fuel(pow10, 21);
    }
    if user_id < 0 {
        lemma_digits_short((-(user_id as int)) as nat, 20);
    } else {
        lemma_digits_short(user_id as nat, 20);
    }
}

/// Base of a customer's key names (see `base_name`).
pub fn customer_base_name(username: Option<&str>, user_id: i64) -> (base: String)
    ensures
        base@ == base_name(
            match username {
                Some(u) => Some(u@),
                None => None,
            },
            user_id,
        ),
{
    let mut label = String::from_str("user");
    let digits = format_i64(user_id);
    label.append(digits.as_str());
    let raw: &str = match username {
        Some(u) => u,
        None => label.as_str(),
    };
    let n = raw.unicode_len();
    let mut base = String::new();
    let mut count: usize = 0;
    let mut i: usize = 0;
    assert(raw@.skip(0) =~= raw@);
    while i < n
        invariant
            n == raw@.len(),
            i <= n,
            count == base@.len(),
            count <= 28,
            base@ + name_chars(raw@.skip(i as int), 28 - count) == name_chars(raw@, 28),
        decreases n - i,
    {
        let c = raw.get_char(i);
        let ghost rest = raw@.skip(i as int);
        assert(rest[0] == c);
        assert(rest.drop_first() =~= raw@.skip(i + 1));
        if count < 28 && is_base_character(c) {
            base.append(raw.substring_char(i, i + 1));
            count += 1;
            assert(raw@.subrange(i as int, i + 1) =~= seq![c]);
            assert(name_chars(rest, 28 - (count - 1)) == seq![c] + name_chars(
                rest.drop_first(),
                28 - count,
            ));
            assert(base@ + name_chars(raw@.skip(i + 1), 28 - count) =~= (base@.drop_last()
                + seq![c]) + name_chars(raw@.skip(i + 1), 28 - count));
        } else if count == 28 {
            assert(name_chars(rest, 0) =~= Seq::<char>::empty());
            assert(name_chars(rest.drop_first(), 0) =~= Seq::<char>::empty());
        }
        i += 1;
    }
    assert(name_chars(raw@.skip(n as int), 28 - count) =~= Seq::<char>::empty());
    assert(base@ =~= name_chars(raw@, 28));
    proof {
        lemma_user_label_short(user_id);
        assert(label@ == user_label(user_id)) by {
            reveal_strlit("user");
        }
    }
    if count == 0 || base.as_str().get_char(0) == '-' {
        let mut fallback = String::from_str("user");
        fallback.append(digits.as_str());
        return fallback;
    }
    base
}

/// Reply when a dialog's state was lost.
pub fn session_expired_text(lang: Lang) -> (s: &'static str)
    ensures
        s@ == (match lang {
            Lang::Ru => "Сессия устарела. Начните заново."@,
            Lang::En => "Session expired. Start again."@,
        }),
{
    match lang {
        Lang::Ru => "Сессия устарела. Начните заново.",
        Lang::En => "Session expired. Start again.",
    }
}

/// Reply to callback data that names no action.
pub fn unknown_action_text(lang: Lang) -> (s: &'static str)
    ensures
        s@ == (match lang {
            Lang::Ru => "Неизвестное действие."@,
            Lang::En => "Unknown action."@,
        }),
{
    match lang {
        Lang::Ru => "Неизвестное действие.",
        Lang::En => "Unknown action.",
    }
}

// ---------------------------------------------------------------------------
// Long output
// ---------------------------------------------------------------------------

/// Byte limit of script output in a message (with room for HTML around it).
pub const MESSAGE_OUTPUT_LIMIT: usize = 3500;

/// `cut` is the last character boundary of `bytes` at or before `limit`.
pub open spec fn last_boundary_within(bytes: Seq<u8>, limit: int, cut: int) -> bool {
    &&& 0 <= cut <= limit
    &&& vstd::utf8::is_char_boundary(bytes, cut)
    &&& forall|k: int| cut < k <= limit ==> !vstd::utf8::is_char_boundary(bytes, k)
}

/// Script output cut to the message limit: unchanged when it fits; otherwise
/// its bytes up to the last character boundary within the limit, then a line
/// with an ellipsis.
pub fn truncate_for_message(body: String) -> (r: String)
    ensures
        encode_utf8(body@).len() <= 3500 ==> r@ == body@,
        encode_utf8(body@).len() > 3500 ==> exists|cut: int, head: Seq<char>|
            last_boundary_within(encode_utf8(body@), 3500, cut) && encode_utf8(head)
                == encode_utf8(body@).subrange(0, cut) && r@ == head + "\n…"@,
{
    let text = body.as_str();
    if text.as_bytes().len() <= MESSAGE_OUTPUT_LIMIT {
        return body;
    }
    proof {
        vstd::utf8::encode_utf8_valid_utf8(body@);
        vstd::utf8::is_char_boundary_start_end_of_seq(encode_utf8(body@));
    }
    let mut cut: usize = MESSAGE_OUTPUT_LIMIT;
    while !text.is_char_boundary(cut)
        invariant
            0 <= cut <= 3500,
            text@ == body@,
            text.spec_bytes() == encode_utf8(body@),
            encode_utf8(body@).len() > 3500,
            vstd::utf8::valid_utf8(encode_utf8(body@)),
            vstd::utf8::is_char_boundary(encode_utf8(body@), 0),
            forall|k: int| cut < k <= 3500 ==> !vstd::utf8::is_char_boundary(encode_utf8(body@), k),
        decreases cut,
    {
        cut -= 1;
    }
    let (head, _) = text.split_at(cut);
    let mut out = String::from_str(head);
    out.append("\n…");
    proof {
        assert(last_boundary_within(encode_utf8(body@), 3500, cut as int));
        assert(encode_utf8(head@) == encode_utf8(body@).subrange(0, cut as int));
    }
    out
}

// ---------------------------------------------------------------------------
// Servers
// ---------------------------------------------------------------------------

/// What the choice of a recovery server reads of a server.
#[derive(Debug, Clone)]
pub struct ServerChoice {
    pub id: i64,
    pub is_local: bool,
    pub protocol: String,
}

pub open spec fn is_panel(s: ServerChoice) -> bool {
    s.protocol@ == "amneziawg-panel"@
}

/// Index of the first server satisfying `p`.
pub open spec fn first_where(servers: Seq<ServerChoice>, p: spec_fn(ServerChoice) -> bool) -> Option<
    int,
> {
    if exists|i: int| 0 <= i < servers.len() && p(#[trigger] servers[i]) {
        Some(
            choose|i: int|
                0 <= i < servers.len() && p(#[trigger] servers[i]) && forall|j: int|
                    0 <= j < i ==> !p(#[trigger] servers[j]),
        )
    } else {
        None
    }
}

/// Server that restores legacy keys, in order of preference: the default
/// server when it is remote; the first remote panel server; the first remote
/// server; the default server; the first server.
pub open spec fn recovery_choice(servers: Seq<ServerChoice>, preferred: Option<i64>) -> Option<int> {
    let by_default = |s: ServerChoice| preferred == Some(s.id);
    if preferred is Some && first_where(servers, |s: ServerChoice| by_default(s) && !s.is_local) is Some {
        first_where(servers, |s: ServerChoice| by_default(s) && !s.is_local)
    } else if first_where(servers, |s: ServerChoice| is_panel(s) && !s.is_local) is Some {
        first_where(servers, |s: ServerChoice| is_panel(s) && !s.is_local)
    } else if first_where(servers, |s: ServerChoice| !s.is_local) is Some {
        first_where(servers, |s: ServerChoice| !s.is_local)
    } else if preferred is Some && first_where(servers, |s: ServerChoice| by_default(s)) is Some {
        first_where(servers, |s: ServerChoice| by_default(s))
    } else if servers.len() > 0 {
        Some(0)
    } else {
        None
    }
}

proof fn lemma_first_where_is(servers: Seq<ServerChoice>, p: spec_fn(ServerChoice) -> bool, i: int)
    requires
        0 <= i < servers.len(),
        p(servers[i]),
        forall|j: int| 0 <= j < i ==> !p(#[trigger] servers[j]),
    ensures
        first_where(servers, p) == Some(i),
{
    let k = choose|k: int|
        0 <= k < servers.len() && p(#[trigger] servers[k]) && forall|j: int|
            0 <= j < k ==> !p(#[trigger] servers[j]);
    assert(p(servers[k]));
    if k < i {
        assert(!p(servers[k]));
    }
    if i < k {
        assert(!p(servers[i]));
    }
}

/// Index of the first server that `matches` accepts, where `matches(k)` says
/// whether server `k` satisfies `p`.
fn position_where(
    servers: &[ServerChoice],
    p: Ghost<spec_fn(ServerChoice) -> bool>,
    flags: &Vec<bool>,
) -> (r: Option<usize>)
    requires
        flags@.len() == servers@.len(),
        forall|k: int| 0 <= k < servers@.len() ==> #[trigger] flags@[k] == p@(servers@[k]),
    ensures
        match r {
            Some(i) => first_where(servers@, p@) == Some(i as int),
            None => first_where(servers@, p@) is None,
        },
{
    let n = servers.len();
    let mut i: usize = 0;
    while i < n
        invariant
            n == servers@.len(),
            flags@.len() == n,
            forall|k: int| 0 <= k < n ==> #[trigger] flags@[k] == p@(servers@[k]),
            i <= n,
            forall|j: int| 0 <= j < i ==> !p@(#[trigger] servers@[j]),
        decreases n - i,
    {
        if flags[i] {
            proof {
                lemma_first_where_is(servers@, p@, i as int);
            }
            return Some(i);
        }
        i += 1;
    }
    None
}

/// Server that restores legacy keys (see `recovery_choice`), as an index into
/// `servers`; `preferred` is the default server's id.
#[verifier::loop_isolation(false)]
pub fn legacy_recovery_server(servers: &[ServerChoice], preferred: Option<i64>) -> (r: Option<
    usize,
>)
    ensures
        match r {
            Some(i) => recovery_choice(servers@, preferred) == Some(i as int),
            None => recovery_choice(servers@, preferred) is None,
        },
{
    let n = servers.len();
    let mut default_remote: Vec<bool> = Vec::new();
    let mut panel_remote: Vec<bool> = Vec::new();
    let mut remote: Vec<bool> = Vec::new();
    let mut default_any: Vec<bool> = Vec::new();
    let ghost by_default = |s: ServerChoice| preferred == Some(s.id);
    let ghost p1 = |s: ServerChoice| by_default(s) && !s.is_local;
    let ghost p2 = |s: ServerChoice| is_panel(s) && !s.is_local;
    let ghost p3 = |s: ServerChoice| !s.is_local;
    let ghost p4 = |s: ServerChoice| by_default(s);
    let mut i: usize = 0;
    while i < n
        invariant
            n == servers@.len(),
            i <= n,
            default_remote@.len() == i,
            panel_remote@.len() == i,
            remote@.len() == i,
            default_any@.len() == i,
            forall|k: int| 0 <= k < i ==> #[trigger] default_remote@[k] == p1(servers@[k]),
            forall|k: int| 0 <= k < i ==> #[trigger] panel_remote@[k] == p2(servers@[k]),
            forall|k: int| 0 <= k < i ==> #[trigger] remote@[k] == p3(servers@[k]),
            forall|k: int| 0 <= k < i ==> #[trigger] default_any@[k] == p4(servers@[k]),
        decreases n - i,
    {
        let server = &servers[i];
        let is_default = match preferred {
            Some(id) => server.id == id,
            None => false,
        };
        let panel = str_eq(server.protocol.as_str(), "amneziawg-panel");
        default_remote.push(is_default && !server.is_local);
        panel_remote.push(panel && !server.is_local);
        remote.push(!server.is_local);
        default_any.push(is_default);
        i += 1;
    }
    if preferred.is_some() {
        if let Some(k) = position_where(servers, Ghost(p1), &default_remote) {
            return Some(k);
        }
    }
    if let Some(k) = position_where(servers, Ghost(p2), &panel_remote) {
        return Some(k);
    }
    if let Some(k) = position_where(servers, Ghost(p3), &remote) {
        return Some(k);
    }
    if preferred.is_some() {
        if let Some(k) = position_where(servers, Ghost(p4), &default_any) {
            return Some(k);
        }
    }
    if n > 0 {
        Some(0)
    } else {
        None
    }
}

// ---------------------------------------------------------------------------
// Editing a message in place
// ---------------------------------------------------------------------------

/// How an attempt to edit a message in place ended.
#[derive(Debug, Clone, Copy, PartialEq, Eq, Structural)]
pub enum EditOutcome {
    Edited,
    /// The message already showed this text and keyboard.
    NotModified,
    /// Any other failure (the message is too old, was deleted, ...).
    Failed,
}

/// What follows an edit.
#[derive(Debug, Clone, Copy, PartialEq, Eq, Structural)]
pub enum EditFollowUp {
    Nothing,
    /// Take the keyboard off the old message and send the text and keyboard
    /// as a new one, so that only one live keyboard remains.
    ClearAndSend,
}

/// A screen is shown by editing the pressed message; an unchanged message is
/// fine; only a failed edit falls back to a new message.
pub fn edit_follow_up(outcome: EditOutcome) -> (r: EditFollowUp)
    ensures
        r == (if outcome is Failed { EditFollowUp::ClearAndSend } else { EditFollowUp::Nothing }),
{
    match outcome {
        EditOutcome::Failed => EditFollowUp::ClearAndSend,
        _ => EditFollowUp::Nothing,
    }
}

} // verus!
