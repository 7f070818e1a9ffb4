//! What owners type while configuring servers and client groups: fields
//! separated by `|`, credentials, quotas and administrator ids.

use vstd::prelude::*;
use vstd::string::*;
use crate::handlers::{minor_amount, parse_minor, trim, trimmed};
use crate::inputs::{split_words, words};
use crate::links::{eq_ignore_ascii_case, equal_ignoring_case};
use crate::numbers::{parse_i64, parsed_i64};
use crate::text::{split_at_first, split_first};

verus! {

/// The pieces of `s` between the occurrences of `c`, as `str::split` yields
/// them: one more piece than there are separators, empty pieces included.
pub open spec fn pieces(s: Seq<char>, c: char) -> Seq<Seq<char>>
    decreases s.len(),
{
    if s.len() == 0 {
        seq![Seq::empty()]
    } else if s.last() == c {
        pieces(s.drop_last(), c).push(Seq::empty())
    } else {
        let p = pieces(s.drop_last(), c);
        p.update(p.len() - 1, p.last().push(s.last()))
    }
}

proof fn lemma_pieces_not_empty(s: Seq<char>, c: char)
    ensures
        pieces(s, c).len() >= 1,
    decreases s.len(),
{
    if s.len() > 0 {
        lemma_pieces_not_empty(s.drop_last(), c);
    }
}

/// The `|`-separated fields of `text`, each trimmed.
pub open spec fn pipe_fields_of(text: Seq<char>) -> Seq<Seq<char>> {
    pieces(text, '|').map_values(|p: Seq<char>| trimmed(p))
}

/// Splits `text` at every `|` and trims each field.
pub fn pipe_fields<'a>(text: &'a str) -> (r: Vec<&'a str>)
    ensures
        r@.map_values(|f: &str| f@) == pipe_fields_of(text@),
{
    let n = text.unicode_len();
    let mut out: Vec<&'a str> = Vec::new();
    let mut start: usize = 0;
    let mut i: usize = 0;
    while i < n
        invariant
            n == text@.len(),
            start <= i <= n,
            out@.len() + 1 == pieces(text@.take(i as int), '|').len(),
            forall|k: int|
                0 <= k < out@.len() ==> #[trigger] out@[k]@ == trimmed(
                    pieces(text@.take(i as int), '|')[k],
                ),
            pieces(text@.take(i as int), '|').last() == text@.subrange(start as int, i as int),
        decreases n - i,
    {
        proof {
            lemma_pieces_not_empty(text@.take(i as int), '|');
            assert(text@.take(i + 1).drop_last() =~= text@.take(i as int));
            assert(text@.take(i + 1).last() == text@[i as int]);
        }
        let ghost before = pieces(text@.take(i as int), '|');
        if text.get_char(i) == '|' {
            let field = trim(text.substring_char(start, i));
            out.push(field);
            start = i + 1;
            proof {
                let after = pieces(text@.take(i + 1), '|');
                assert(after == before.push(Seq::empty()));
                assert(text@.subrange(start as int, i + 1) =~= Seq::<char>::empty());
                assert forall|k: int| 0 <= k < out@.len() implies #[trigger] out@[k]@ == trimmed(
                    after[k],
                ) by {
                    assert(after[k] == before[k]);
                }
            }
        } else {
            proof {
                let after = pieces(text@.take(i + 1), '|');
                assert(after == before.update(before.len() - 1, before.last().push(text@[i as int])));
                assert(text@.subrange(start as int, i + 1) =~= text@.subrange(
                    start as int,
                    i as int,
                ).push(text@[i as int]));
                assert forall|k: int| 0 <= k < out@.len() implies #[trigger] out@[k]@ == trimmed(
                    after[k],
                ) by {
                    assert(after[k] == before[k]);
                }
            }
        }
        i += 1;
    }
    let last = trim(text.substring_char(start, n));
    out.push(last);
    proof {
        assert(text@.take(n as int) =~= text@);
        let p = pieces(text@, '|');
        assert(out@.map_values(|f: &str| f@) =~= p.map_values(|q: Seq<char>| trimmed(q)));
    }
    out
}

// ---------------------------------------------------------------------------
// Servers
// ---------------------------------------------------------------------------

/// Location and hoster of a new server, typed as `LOCATION | HOSTER`: exactly
/// two fields, neither empty.
pub open spec fn server_details_of(text: Seq<char>) -> Option<(Seq<char>, Seq<char>)> {
    let f = pipe_fields_of(text);
    if f.len() == 2 && f[0].len() > 0 && f[1].len() > 0 {
        Some((f[0], f[1]))
    } else {
        None
    }
}

pub fn server_details<'a>(text: &'a str) -> (r: Option<(&'a str, &'a str)>)
    ensures
        match r {
            Some((location, hoster)) => server_details_of(text@) == Some((location@, hoster@)),
            None => server_details_of(text@) is None,
        },
{
    let f = pipe_fields(text);
    proof {
        let v = f@.map_values(|x: &str| x@);
        assert(f@.len() == 2 ==> v[0] == f@[0]@ && v[1] == f@[1]@);
    }
    if f.len() == 2 && f[0].unicode_len() > 0 && f[1].unicode_len() > 0 {
        Some((f[0], f[1]))
    } else {
        None
    }
}

/// Number of fields in a server's passport: name, hostname, public IP,
/// hoster, location, protocol and the date it was opened.
pub const PASSPORT_FIELDS: usize = 7;

/// The fields of a server passport, when exactly `PASSPORT_FIELDS` were
/// typed.
pub fn passport_fields<'a>(text: &'a str) -> (r: Option<Vec<&'a str>>)
    ensures
        match r {
            Some(f) => pipe_fields_of(text@).len() == PASSPORT_FIELDS && f@.map_values(
                |x: &str| x@,
            ) == pipe_fields_of(text@),
            None => pipe_fields_of(text@).len() != PASSPORT_FIELDS,
        },
{
    let f = pipe_fields(text);
    if f.len() == PASSPORT_FIELDS {
        Some(f)
    } else {
        None
    }
}

/// A server's billing as typed: `PAID_UNTIL | MONTHS | COST | CURRENCY | AUTO`.
#[derive(Debug, Clone, PartialEq, Eq)]
pub struct BillingInput<'a> {
    /// The date the server is paid until, as typed.
    pub paid_until: &'a str,
    pub period_months: i64,
    /// The cost in minor units.
    pub cost_minor: i64,
    pub currency: &'a str,
    pub auto_renew: bool,
}

/// `yes`, `on`, `1` or `да`, in any ASCII case.
pub open spec fn yes_word(t: Seq<char>) -> bool {
    equal_ignoring_case(t, "да"@) || equal_ignoring_case(t, "yes"@) || equal_ignoring_case(
        t,
        "on"@,
    ) || equal_ignoring_case(t, "1"@)
}

/// The billing typed as `text`: five fields, the months an integer and the
/// cost an amount (the date is read by the caller).
pub open spec fn billing_of(text: Seq<char>) -> Option<(Seq<char>, i64, i64, Seq<char>, bool)> {
    let f = pipe_fields_of(text);
    if f.len() != 5 {
        None
    } else {
        match (parsed_i64(f[1]), minor_amount(f[2])) {
            (Some(months), Some(cost)) => Some((f[0], months, cost, f[3], yes_word(f[4]))),
            _ => None,
        }
    }
}

pub fn billing_input<'a>(text: &'a str) -> (r: Option<BillingInput<'a>>)
    ensures
        match r {
            Some(b) => billing_of(text@) == Some(
                (b.paid_until@, b.period_months, b.cost_minor, b.currency@, b.auto_renew),
            ),
            None => billing_of(text@) is None,
        },
{
    let f = pipe_fields(text);
    if f.len() != 5 {
        return None;
    }
    proof {
        let v = f@.map_values(|x: &str| x@);
        assert(v[0] == f@[0]@ && v[1] == f@[1]@ && v[2] == f@[2]@);
        assert(v[3] == f@[3]@ && v[4] == f@[4]@);
    }
    let months = match parse_i64(f[1]) {
        Some(m) => m,
        None => return None,
    };
    let cost = match parse_minor(f[2]) {
        Some(c) => c,
        None => return None,
    };
    let auto = f[4];
    let auto_renew = eq_ignore_ascii_case(auto, "да") || eq_ignore_ascii_case(auto, "yes")
        || eq_ignore_ascii_case(auto, "on") || eq_ignore_ascii_case(auto, "1");
    Some(
        BillingInput {
            paid_until: f[0],
            period_months: months,
            cost_minor: cost,
            currency: f[3],
            auto_renew,
        },
    )
}

/// `text` cut at its first `|` into two trimmed parts (as `splitn(2, '|')`);
/// the second is empty when there is no `|`.
pub open spec fn credentials_of(text: Seq<char>) -> (Seq<char>, Seq<char>) {
    match split_at_first(text, '|') {
        Some((a, b)) => (trimmed(a), trimmed(b)),
        None => (trimmed(text), Seq::empty()),
    }
}

pub fn credentials<'a>(text: &'a str) -> (r: (&'a str, &'a str))
    ensures
        credentials_of(text@) == (r.0@, r.1@),
{
    match split_first(text, '|') {
        Some((a, b)) => (trim(a), trim(b)),
        None => {
            proof {
                reveal_strlit("");
            }
            (trim(text), "")
        },
    }
}

/// A panel's address and password, typed as `URL | PASSWORD`, neither empty.
pub fn panel_credentials<'a>(text: &'a str) -> (r: Option<(&'a str, &'a str)>)
    ensures
        match r {
            Some((url, password)) => credentials_of(text@) == (url@, password@) && url@.len() > 0
                && password@.len() > 0,
            None => credentials_of(text@).0.len() == 0 || credentials_of(text@).1.len() == 0,
        },
{
    let (url, password) = credentials(text);
    if url.unicode_len() == 0 || password.unicode_len() == 0 {
        None
    } else {
        Some((url, password))
    }
}

/// The password for deploying to a server, typed as `root | PASSWORD`: only
/// the user `root` is accepted, and the password must not be empty.
pub fn deploy_password<'a>(text: &'a str) -> (r: Option<&'a str>)
    ensures
        match r {
            Some(password) => credentials_of(text@) == ("root"@, password@) && password@.len() > 0,
            None => credentials_of(text@).0 != "root"@ || credentials_of(text@).1.len() == 0,
        },
{
    let (user, password) = credentials(text);
    if crate::text::str_eq(user, "root") && password.unicode_len() > 0 {
        Some(password)
    } else {
        None
    }
}

// ---------------------------------------------------------------------------
// Payments
// ---------------------------------------------------------------------------

/// The longest payment instructions, in bytes of UTF-8.
pub const INSTRUCTIONS_LIMIT: usize = 1000;

/// New payment instructions: the trimmed text, when it is not empty and its
/// UTF-8 form takes at most `INSTRUCTIONS_LIMIT` bytes.
pub open spec fn instructions_of(text: Seq<char>) -> Option<Seq<char>> {
    let t = trimmed(text);
    if t.len() > 0 && vstd::utf8::encode_utf8(t).len() <= INSTRUCTIONS_LIMIT {
        Some(t)
    } else {
        None
    }
}

pub fn instructions_input<'a>(text: &'a str) -> (r: Option<&'a str>)
    ensures
        match r {
            Some(t) => instructions_of(text@) == Some(t@),
            None => instructions_of(text@) is None,
        },
{
    let t = trim(text);
    if t.unicode_len() > 0 && t.as_bytes().len() <= INSTRUCTIONS_LIMIT {
        Some(t)
    } else {
        None
    }
}

// ---------------------------------------------------------------------------
// Users
// ---------------------------------------------------------------------------

/// A personal discount as typed: `clear` (any case) removes it; else a
/// percent from 0 to 100, optionally followed by the date it ends (returned
/// as typed, for the caller to read). `None` when neither.
pub open spec fn discount_of(text: Seq<char>) -> Option<(Option<i64>, Option<Seq<char>>)> {
    let t = trimmed(text);
    let w = words(t);
    if equal_ignoring_case(t, "clear"@) {
        Some((None, None))
    } else if w.len() == 0 {
        None
    } else {
        match parsed_i64(w[0]) {
            Some(d) => if 0 <= d <= 100 {
                Some((Some(d), if w.len() > 1 {
                    Some(w[1])
                } else {
                    None
                }))
            } else {
                None
            },
            None => None,
        }
    }
}

pub fn discount_input<'a>(text: &'a str) -> (r: Option<(Option<i64>, Option<&'a str>)>)
    ensures
        match r {
            Some((d, until)) => discount_of(text@) == Some(
                (
                    d,
                    match until {
                        Some(u) => Some(u@),
                        None => None,
                    },
                ),
            ),
            None => discount_of(text@) is None,
        },
{
    let t = trim(text);
    if eq_ignore_ascii_case(t, "clear") {
        return Some((None, None));
    }
    let w = split_words(t);
    if w.len() == 0 {
        return None;
    }
    proof {
        let v = w@.map_values(|x: &str| x@);
        assert(v[0] == w@[0]@);
        assert(w@.len() > 1 ==> v[1] == w@[1]@);
    }
    match parse_i64(w[0]) {
        Some(d) => if 0 <= d && d <= 100 {
            let until = if w.len() > 1 {
                Some(w[1])
            } else {
                None
            };
            Some((Some(d), until))
        } else {
            None
        },
        None => None,
    }
}

// ---------------------------------------------------------------------------
// Client groups
// ---------------------------------------------------------------------------

/// The largest quota a group can be given.
pub const QUOTA_LIMIT: i64 = 100_000;

/// A group's quota as typed: an integer from zero (no limit) to
/// `QUOTA_LIMIT`; `None` for anything else.
pub open spec fn quota_of(text: Seq<char>) -> Option<Option<i64>> {
    match parsed_i64(trimmed(text)) {
        Some(n) => if n == 0 {
            Some(None)
        } else if 0 < n <= QUOTA_LIMIT {
            Some(Some(n))
        } else {
            None
        },
        None => None,
    }
}

pub fn quota_input(text: &str) -> (r: Option<Option<i64>>)
    ensures
        r == quota_of(text@),
{
    match parse_i64(trim(text)) {
        Some(n) => if n == 0 {
            Some(None)
        } else if 0 < n && n <= QUOTA_LIMIT {
            Some(Some(n))
        } else {
            None
        },
        None => None,
    }
}

/// A Telegram id typed for a new group administrator: a positive integer.
pub open spec fn admin_id_of(text: Seq<char>) -> Option<i64> {
    match parsed_i64(trimmed(text)) {
        Some(n) => if n > 0 {
            Some(n)
        } else {
            None
        },
        None => None,
    }
}

pub fn admin_id_input(text: &str) -> (r: Option<i64>)
    ensures
        r == admin_id_of(text@),
{
    match parse_i64(trim(text)) {
        Some(n) => if n > 0 {
            Some(n)
        } else {
            None
        },
        None => None,
    }
}

} // verus!
