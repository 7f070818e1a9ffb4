//! What the bot reads from typed messages: start parameters, owner commands,
//! and the values the dialogs ask for.

use vstd::prelude::*;
use vstd::string::*;
use crate::handlers::{
    duration_value, ends_in_single_byte, is_whitespace, trim, trim_end, trim_start, trimmed,
};
use crate::links::{ascii_lower, eq_ignore_ascii_case, equal_ignoring_case, lower};
use crate::numbers::{
    decimal, format_i64, law_decimal_round_trip, lemma_decimal_first, lemma_decimal_last, parse_i64,
    parse_usize, parsed_i64, parsed_usize,
};
use crate::text::{starts_with, strip_prefix};

verus! {

// ---------------------------------------------------------------------------
// Words
// ---------------------------------------------------------------------------

/// The words of `s`: its maximal runs of non-whitespace characters, in order
/// (as `split_whitespace`).
pub open spec fn words(s: Seq<char>) -> Seq<Seq<char>>
    decreases s.len(),
{
    if s.len() == 0 {
        Seq::empty()
    } else if is_whitespace(s[0]) {
        words(s.drop_first())
    } else if s.len() > 1 && !is_whitespace(s[1]) {
        let rest = words(s.drop_first());
        rest.update(0, seq![s[0]] + rest[0])
    } else {
        seq![seq![s[0]]] + words(s.drop_first())
    }
}

/// Every word is non-empty and holds no whitespace.
pub proof fn law_words_are_words(s: Seq<char>)
    ensures
        forall|k: int| 0 <= k < words(s).len() ==> #[trigger] words(s)[k].len() > 0,
        forall|k: int, j: int|
            0 <= k < words(s).len() && 0 <= j < words(s)[k].len() ==> !is_whitespace(
                #[trigger] words(s)[k][j],
            ),
    decreases s.len(),
{
    if s.len() > 0 {
        law_words_are_words(s.drop_first());
        if !is_whitespace(s[0]) && s.len() > 1 && !is_whitespace(s[1]) {
            let rest = words(s.drop_first());
            lemma_words_nonempty(s.drop_first());
            let w = seq![s[0]] + rest[0];
            assert forall|j: int| 0 <= j < w.len() implies !is_whitespace(#[trigger] w[j]) by {
                if j > 0 {
                    assert(w[j] == rest[0][j - 1]);
                }
            }
        }
    }
}

/// A text that starts with a non-whitespace character has a first word.
proof fn lemma_words_nonempty(s: Seq<char>)
    requires
        s.len() > 0,
        !is_whitespace(s[0]),
    ensures
        words(s).len() > 0,
    decreases s.len(),
{
    if s.len() > 1 && !is_whitespace(s[1]) {
        lemma_words_nonempty(s.drop_first());
    }
}

pub open spec fn ranges_text(s: Seq<char>, ranges: Seq<(usize, usize)>) -> Seq<Seq<char>> {
    ranges.map_values(|r: (usize, usize)| s.subrange(r.0 as int, r.1 as int))
}

/// The words of `s` (as `s.split_whitespace()`).
pub fn split_words<'a>(s: &'a str) -> (ws: Vec<&'a str>)
    ensures
        ws@.map_values(|w: &str| w@) == words(s@),
{
    let n = s.unicode_len();
    // The words of the suffix from `i`, last word first, as index ranges.
    let mut rev: Vec<(usize, usize)> = Vec::new();
    let mut i = n;
    assert(s@.skip(n as int) =~= Seq::<char>::empty());
    while i > 0
        invariant
            n == s@.len(),
            i <= n,
            ranges_text(s@, rev@).reverse() == words(s@.skip(i as int)),
            forall|k: int| 0 <= k < rev@.len() ==> i <= #[trigger] rev@[k].0 < rev@[k].1 <= n,
            rev@.len() > 0 ==> rev@.last().0 >= i,
            (i < n && !is_whitespace(s@[i as int])) ==> rev@.len() > 0 && rev@.last().0 == i,
        decreases i,
    {
        let c = s.get_char(i - 1);
        let ghost tail = s@.skip(i as int);
        assert(s@.skip(i - 1).drop_first() =~= tail);
        assert(s@.skip(i - 1)[0] == c);
        if crate::handlers::is_whitespace_char(c) {
        } else if i < n && !crate::handlers::is_whitespace_char(s.get_char(i)) {
            assert(tail.len() > 1 ==> tail[0] == s@[i as int]);
            assert(s@.skip(i - 1)[1] == s@[i as int]);
            let last = rev.len() - 1;
            let end = rev[last].1;
            let ghost before = rev@;
            rev.set(last, (i - 1, end));
            proof {
                let r = ranges_text(s@, before).reverse();
                assert(before.last().0 == i);
                assert(ranges_text(s@, rev@).reverse() =~= r.update(0, seq![c] + r[0])) by {
                    assert(r[0] == s@.subrange(i as int, end as int));
                    assert(s@.subrange(i - 1, end as int) =~= seq![c] + s@.subrange(i as int, end as int));
                }
            }
        } else {
            let ghost before = rev@;
            rev.push((i - 1, i));
            proof {
                assert(s@.subrange(i - 1, i as int) =~= seq![c]);
                assert(ranges_text(s@, rev@).reverse() =~= seq![seq![c]] + ranges_text(s@, before).reverse());
            }
        }
        i -= 1;
    }
    assert(s@.skip(0) =~= s@);
    let mut ws: Vec<&'a str> = Vec::new();
    let m = rev.len();
    let mut k = m;
    while k > 0
        invariant
            m == rev@.len(),
            k <= m,
            n == s@.len(),
            forall|j: int| 0 <= j < rev@.len() ==> #[trigger] rev@[j].0 < rev@[j].1 <= n,
            ws@.map_values(|w: &str| w@) == ranges_text(s@, rev@).reverse().take((m - k) as int),
        decreases k,
    {
        let r = rev[k - 1];
        ws.push(s.substring_char(r.0, r.1));
        proof {
            let all = ranges_text(s@, rev@).reverse();
            assert(all[(m - k) as int] == s@.subrange(r.0 as int, r.1 as int));
            assert(all.take((m - k + 1) as int) =~= all.take((m - k) as int).push(all[(m - k) as int]));
        }
        k -= 1;
        assert(ws@.map_values(|w: &str| w@) =~= ranges_text(s@, rev@).reverse().take((m - k) as int));
    }
    assert(ranges_text(s@, rev@).reverse().take(m as int) =~= ranges_text(s@, rev@).reverse());
    ws
}

// ---------------------------------------------------------------------------
// Start parameters and owner commands
// ---------------------------------------------------------------------------

/// The inviting user of a start message `/start ref_<id>`.
pub open spec fn referrer_of(text: Seq<char>) -> Option<i64> {
    if "/start ref_"@.is_prefix_of(text) {
        parsed_i64(trimmed(text.skip("/start ref_"@.len() as int)))
    } else {
        None
    }
}

pub fn start_referrer(text: &str) -> (r: Option<i64>)
    ensures
        r == referrer_of(text@),
{
    match strip_prefix(text, "/start ref_") {
        Some(rest) => parse_i64(trim(rest)),
        None => None,
    }
}

/// The start parameter of `user`'s referral link.
pub open spec fn referral_parameter(user: i64) -> Seq<char> {
    "ref_"@ + decimal(user as int)
}

/// The referral link of `user` to the bot named `bot`.
pub open spec fn referral_link_spec(bot: Seq<char>, user: i64) -> Seq<char> {
    "https://t.me/"@ + bot + "?start="@ + referral_parameter(user)
}

pub fn referral_link(bot: &str, user: i64) -> (link: String)
    ensures
        link@ == referral_link_spec(bot@, user),
{
    proof {
        reveal_strlit("ref_");
    }
    let mut link = "https://t.me/".to_string();
    link.append(bot);
    link.append("?start=");
    link.append("ref_");
    let id = format_i64(user);
    link.append(id.as_str());
    proof {
        assert(link@ =~= referral_link_spec(bot@, user));
    }
    link
}

/// Whoever opens a referral link starts the bot with `/start` and the link's
/// parameter, and that message names the user the link belongs to.
pub proof fn law_referral_round_trip(user: i64)
    ensures
        referrer_of("/start "@ + referral_parameter(user)) == Some(user),
{
    reveal_strlit("/start ");
    reveal_strlit("ref_");
    reveal_strlit("/start ref_");
    let d = decimal(user as int);
    let text = "/start "@ + referral_parameter(user);
    assert(text =~= "/start ref_"@ + d);
    assert("/start ref_"@.is_prefix_of(text)) by {
        assert(text.subrange(0, "/start ref_"@.len() as int) =~= "/start ref_"@);
    }
    assert(text.skip("/start ref_"@.len() as int) =~= d);
    lemma_decimal_first(user as int);
    lemma_decimal_last(user as int);
    law_decimal_round_trip(user);
    assert(trim_start(d) == d);
    assert(trim_end(d) == d);
}

/// The invitation token of a start message `/start inv_<token>`.
pub open spec fn invite_of(text: Seq<char>) -> Option<Seq<char>> {
    if "/start inv_"@.is_prefix_of(text) {
        Some(trimmed(text.skip("/start inv_"@.len() as int)))
    } else {
        None
    }
}

pub fn start_invite<'a>(text: &'a str) -> (r: Option<&'a str>)
    ensures
        match r {
            Some(token) => invite_of(text@) == Some(token@),
            None => invite_of(text@) is None,
        },
{
    match strip_prefix(text, "/start inv_") {
        Some(rest) => Some(trim(rest)),
        None => None,
    }
}

/// The link that invites its holder into a client group with `token`.
pub open spec fn invite_link_spec(bot: Seq<char>, token: Seq<char>) -> Seq<char> {
    "https://t.me/"@ + bot + "?start=inv_"@ + token
}

pub fn invite_link(bot: &str, token: &str) -> (link: String)
    ensures
        link@ == invite_link_spec(bot@, token@),
{
    let mut link = "https://t.me/".to_string();
    link.append(bot);
    link.append("?start=inv_");
    link.append(token);
    link
}

/// Whoever opens an invite link starts the bot with `/start inv_<token>`,
/// and that message yields the token (one without surrounding whitespace).
pub proof fn law_invite_round_trip(token: Seq<char>)
    requires
        trimmed(token) == token,
    ensures
        invite_of("/start inv_"@ + token) == Some(token),
{
    let text = "/start inv_"@ + token;
    assert("/start inv_"@.is_prefix_of(text)) by {
        assert(text.subrange(0, "/start inv_"@.len() as int) =~= "/start inv_"@);
    }
    assert(text.skip("/start inv_"@.len() as int) =~= token);
}

/// The user a `/reply_<id>` command answers.
pub open spec fn reply_target_of(text: Seq<char>) -> Option<i64> {
    if "/reply_"@.is_prefix_of(text) {
        parsed_i64(text.skip("/reply_"@.len() as int))
    } else {
        None
    }
}

pub fn reply_target(text: &str) -> (r: Option<i64>)
    ensures
        r == reply_target_of(text@),
{
    match strip_prefix(text, "/reply_") {
        Some(rest) => parse_i64(rest),
        None => None,
    }
}

/// A `/role <id> <role>` command: the user and the role (`remove` takes the
/// role away).
pub open spec fn role_command_of(text: Seq<char>) -> Option<(i64, Seq<char>)> {
    if "/role "@.is_prefix_of(text) {
        let parts = words(text.skip("/role "@.len() as int));
        if parts.len() >= 2 {
            match parsed_i64(parts[0]) {
                Some(user) => Some((user, parts[1])),
                None => None,
            }
        } else {
            None
        }
    } else {
        None
    }
}

pub fn role_command<'a>(text: &'a str) -> (r: Option<(i64, &'a str)>)
    ensures
        match r {
            Some((user, role)) => role_command_of(text@) == Some((user, role@)),
            None => role_command_of(text@) is None,
        },
{
    match strip_prefix(text, "/role ") {
        Some(args) => {
            let parts = split_words(args);
            if parts.len() >= 2 {
                proof {
                    assert(parts@.map_values(|w: &str| w@)[0] == parts@[0]@);
                    assert(parts@.map_values(|w: &str| w@)[1] == parts@[1]@);
                }
                match parse_i64(parts[0]) {
                    Some(user) => Some((user, parts[1])),
                    None => None,
                }
            } else {
                None
            }
        },
        None => None,
    }
}

/// A `/bulk_<command> <prefix> [term]` command: the command, the prefix of
/// the keys it applies to, and the term when one follows.
pub open spec fn bulk_command_of(text: Seq<char>) -> Option<(Seq<char>, Seq<char>, Option<Seq<char>>)> {
    if "/bulk_"@.is_prefix_of(text) {
        let parts = words(text.skip("/bulk_"@.len() as int));
        if parts.len() >= 2 {
            Some((parts[0], parts[1], if parts.len() >= 3 {
                Some(parts[2])
            } else {
                None
            }))
        } else {
            None
        }
    } else {
        None
    }
}

pub fn bulk_command<'a>(text: &'a str) -> (r: Option<(&'a str, &'a str, Option<&'a str>)>)
    ensures
        match r {
            Some((command, prefix, term)) => bulk_command_of(text@) == Some(
                (
                    command@,
                    prefix@,
                    match term {
                        Some(t) => Some(t@),
                        None => None,
                    },
                ),
            ),
            None => bulk_command_of(text@) is None,
        },
{
    match strip_prefix(text, "/bulk_") {
        Some(args) => {
            let parts = split_words(args);
            if parts.len() >= 2 {
                proof {
                    assert(parts@.map_values(|w: &str| w@)[0] == parts@[0]@);
                    assert(parts@.map_values(|w: &str| w@)[1] == parts@[1]@);
                    if parts@.len() >= 3 {
                        assert(parts@.map_values(|w: &str| w@)[2] == parts@[2]@);
                    }
                }
                let term = if parts.len() >= 3 {
                    Some(parts[2])
                } else {
                    None
                };
                Some((parts[0], parts[1], term))
            } else {
                None
            }
        },
        None => None,
    }
}

// ---------------------------------------------------------------------------
// Dialog values
// ---------------------------------------------------------------------------

/// The smallest and largest top-up, in rubles.
pub const TOPUP_MIN_RUBLES: i64 = 100;
pub const TOPUP_MAX_RUBLES: i64 = 100_000;

/// A top-up amount in whole rubles, within the allowed range.
pub open spec fn topup_of(text: Seq<char>) -> Option<i64> {
    match parsed_i64(trimmed(text)) {
        Some(v) => if TOPUP_MIN_RUBLES <= v <= TOPUP_MAX_RUBLES {
            Some(v)
        } else {
            None
        },
        None => None,
    }
}

pub fn topup_rubles(text: &str) -> (r: Option<i64>)
    ensures
        r == topup_of(text@),
{
    match parse_i64(trim(text)) {
        Some(v) => if TOPUP_MIN_RUBLES <= v && v <= TOPUP_MAX_RUBLES {
            Some(v)
        } else {
            None
        },
        None => None,
    }
}

/// The highest price of one tariff.
pub const PRICE_MAX: i64 = 1_000_000;

/// The integers among the words of `text`.
pub open spec fn integers_among(ws: Seq<Seq<char>>) -> Seq<i64>
    decreases ws.len(),
{
    if ws.len() == 0 {
        Seq::empty()
    } else {
        let rest = integers_among(ws.drop_last());
        match parsed_i64(ws.last()) {
            Some(v) => rest.push(v),
            None => rest,
        }
    }
}

/// Four tariff prices: exactly four integer words (other words are ignored),
/// each from 1 to `PRICE_MAX`.
pub open spec fn prices_of(text: Seq<char>) -> Option<Seq<i64>> {
    let values = integers_among(words(text));
    if values.len() == 4 && forall|k: int| 0 <= k < 4 ==> 1 <= #[trigger] values[k] <= PRICE_MAX {
        Some(values)
    } else {
        None
    }
}

pub fn tariff_prices(text: &str) -> (r: Option<[i64; 4]>)
    ensures
        match r {
            Some(p) => prices_of(text@) == Some(p@),
            None => prices_of(text@) is None,
        },
{
    let ws = split_words(text);
    let mut values: Vec<i64> = Vec::new();
    let n = ws.len();
    let mut i: usize = 0;
    while i < n
        invariant
            n == ws@.len(),
            i <= n,
            values@ == integers_among(ws@.map_values(|w: &str| w@).take(i as int)),
        decreases n - i,
    {
        proof {
            let all = ws@.map_values(|w: &str| w@);
            assert(all.take(i + 1).drop_last() =~= all.take(i as int));
            assert(all.take(i + 1).last() == ws@[i as int]@);
        }
        match parse_i64(ws[i]) {
            Some(v) => values.push(v),
            None => {},
        }
        i += 1;
    }
    assert(ws@.map_values(|w: &str| w@).take(n as int) =~= ws@.map_values(|w: &str| w@));
    if values.len() == 4 && 1 <= values[0] && values[0] <= PRICE_MAX && 1 <= values[1] && values[1]
        <= PRICE_MAX && 1 <= values[2] && values[2] <= PRICE_MAX && 1 <= values[3] && values[3]
        <= PRICE_MAX {
        let p = [values[0], values[1], values[2], values[3]];
        assert(p@ =~= values@);
        Some(p)
    } else {
        assert(!(forall|k: int| 0 <= k < 4 ==> 1 <= #[trigger] values@[k] <= PRICE_MAX) || values@.len() != 4);
        None
    }
}

/// Tariff prices given in rubles, as kopecks.
pub fn prices_in_kopecks(rubles: [i64; 4]) -> (k: [i64; 4])
    requires
        forall|i: int| 0 <= i < 4 ==> 1 <= #[trigger] rubles@[i] <= PRICE_MAX,
    ensures
        forall|i: int| 0 <= i < 4 ==> #[trigger] k@[i] == rubles@[i] * 100,
{
    let k = [rubles[0] * 100, rubles[1] * 100, rubles[2] * 100, rubles[3] * 100];
    assert(k@[0] == rubles@[0] * 100 && k@[1] == rubles@[1] * 100 && k@[2] == rubles@[2] * 100
        && k@[3] == rubles@[3] * 100);
    k
}

/// A referral percentage from 0 to 100.
pub open spec fn percent_of(text: Seq<char>) -> Option<u8> {
    match parsed_usize(trimmed(text)) {
        Some(v) => if v <= 100 {
            Some(v as u8)
        } else {
            None
        },
        None => None,
    }
}

pub fn referral_percent(text: &str) -> (r: Option<u8>)
    ensures
        r == percent_of(text@),
{
    match parse_usize(trim(text)) {
        Some(v) => if v <= 100 {
            Some(v as u8)
        } else {
            None
        },
        None => None,
    }
}

/// The staff change a text asks for: a user id, and the role to give (for
/// removal the id alone is enough).
pub open spec fn staff_change_of(text: Seq<char>, removing: bool) -> Option<(i64, Seq<char>)> {
    let parts = words(text);
    if parts.len() == 0 {
        None
    } else {
        match parsed_i64(parts[0]) {
            None => None,
            Some(user) => if removing {
                Some((user, "remove"@))
            } else if parts.len() >= 2 {
                Some((user, parts[1]))
            } else {
                None
            },
        }
    }
}

pub fn staff_change<'a>(text: &'a str, removing: bool) -> (r: Option<(i64, &'a str)>)
    ensures
        match r {
            Some((user, role)) => staff_change_of(text@, removing) == Some((user, role@)),
            None => staff_change_of(text@, removing) is None,
        },
{
    let parts = split_words(text);
    if parts.len() == 0 {
        return None;
    }
    proof {
        assert(parts@.map_values(|w: &str| w@)[0] == parts@[0]@);
    }
    match parse_i64(parts[0]) {
        None => None,
        Some(user) => if removing {
            Some((user, "remove"))
        } else if parts.len() >= 2 {
            proof {
                assert(parts@.map_values(|w: &str| w@)[1] == parts@[1]@);
            }
            Some((user, parts[1]))
        } else {
            None
        },
    }
}

/// Position of the first whitespace character of `s`.
pub open spec fn first_whitespace(s: Seq<char>) -> Option<int>
    decreases s.len(),
{
    if s.len() == 0 {
        None
    } else if is_whitespace(s[0]) {
        Some(0)
    } else {
        match first_whitespace(s.drop_first()) {
            Some(i) => Some(i + 1),
            None => None,
        }
    }
}

proof fn lemma_first_whitespace(s: Seq<char>)
    ensures
        match first_whitespace(s) {
            Some(i) => 0 <= i < s.len() && is_whitespace(s[i]) && forall|j: int|
                0 <= j < i ==> !is_whitespace(#[trigger] s[j]),
            None => forall|j: int| 0 <= j < s.len() ==> !is_whitespace(#[trigger] s[j]),
        },
    decreases s.len(),
{
    if s.len() > 0 && !is_whitespace(s[0]) {
        lemma_first_whitespace(s.drop_first());
        assert forall|j: int| 0 < j < s.len() implies s[j] == s.drop_first()[j - 1] by {}
    }
}

/// A request to restore an old key: the requested name (the first part of
/// the text), and a comment when more text follows.
pub open spec fn key_request_of(text: Seq<char>) -> (Seq<char>, Option<Seq<char>>) {
    let t = trimmed(text);
    match first_whitespace(t) {
        None => (t, None),
        Some(i) => {
            let comment = trimmed(t.skip(i + 1));
            (t.take(i), if comment.len() == 0 {
                None
            } else {
                Some(comment)
            })
        },
    }
}

pub fn key_request<'a>(text: &'a str) -> (r: (&'a str, Option<&'a str>))
    ensures
        key_request_of(text@) == (
            r.0@,
            match r.1 {
                Some(c) => Some(c@),
                None => None,
            },
        ),
{
    let t = trim(text);
    let n = t.unicode_len();
    proof {
        lemma_first_whitespace(t@);
    }
    let mut i: usize = 0;
    while i < n && !crate::handlers::is_whitespace_char(t.get_char(i))
        invariant
            n == t@.len(),
            i <= n,
            forall|j: int| 0 <= j < i ==> !is_whitespace(#[trigger] t@[j]),
        decreases n - i,
    {
        i += 1;
    }
    if i == n {
        assert(first_whitespace(t@) is None);
        assert(t@.subrange(0, n as int) =~= t@);
        (t, None)
    } else {
        assert(first_whitespace(t@) == Some(i as int));
        let requested = t.substring_char(0, i);
        assert(requested@ =~= t@.take(i as int));
        let rest = t.substring_char(i + 1, n);
        assert(rest@ =~= t@.skip(i + 1));
        let comment = trim(rest);
        if comment.unicode_len() == 0 {
            (requested, None)
        } else {
            (requested, Some(comment))
        }
    }
}

/// The longest reason for declining a request, and the longest note, in
/// characters.
pub const REASON_LIMIT: usize = 500;

/// The longest name of a client group, in characters.
pub const GROUP_NAME_LIMIT: usize = 32;

/// The longest name of a server, in characters.
pub const SERVER_NAME_LIMIT: usize = 64;

/// The trimmed text, when it is not empty and at most `limit` characters
/// long.
pub open spec fn bounded_of(text: Seq<char>, limit: usize) -> Option<Seq<char>> {
    let t = trimmed(text);
    if 0 < t.len() <= limit {
        Some(t)
    } else {
        None
    }
}

/// The trimmed text when it holds between one and `limit` characters (a
/// group or server name, a reason); `None` otherwise.
pub fn bounded_text<'a>(text: &'a str, limit: usize) -> (r: Option<&'a str>)
    ensures
        match r {
            Some(t) => bounded_of(text@, limit) == Some(t@),
            None => bounded_of(text@, limit) is None,
        },
{
    let t = trim(text);
    let n = t.unicode_len();
    if 0 < n && n <= limit {
        Some(t)
    } else {
        None
    }
}

/// A reason for declining: the trimmed text, when it is not empty and at
/// most `REASON_LIMIT` characters long.
pub fn decline_reason<'a>(text: &'a str) -> (r: Option<&'a str>)
    ensures
        match r {
            Some(t) => bounded_of(text@, REASON_LIMIT) == Some(t@),
            None => bounded_of(text@, REASON_LIMIT) is None,
        },
{
    bounded_text(text, REASON_LIMIT)
}

/// A note as typed: `clear` in any case removes the note, other text of at
/// most `REASON_LIMIT` characters (after trimming) replaces it; longer text
/// is refused (`None`).
pub open spec fn note_of(text: Seq<char>) -> Option<Option<Seq<char>>> {
    let t = trimmed(text);
    if t.len() > REASON_LIMIT {
        None
    } else if equal_ignoring_case(t, "clear"@) {
        Some(None)
    } else {
        Some(Some(t))
    }
}

pub fn note_input<'a>(text: &'a str) -> (r: Option<Option<&'a str>>)
    ensures
        match r {
            None => note_of(text@) is None,
            Some(None) => note_of(text@) == Some(None::<Seq<char>>),
            Some(Some(t)) => note_of(text@) == Some(Some(t@)),
        },
{
    let t = trim(text);
    if t.unicode_len() > REASON_LIMIT {
        None
    } else if eq_ignore_ascii_case(t, "clear") {
        Some(None)
    } else {
        Some(Some(t))
    }
}

/// The longest term an owner can give a key by typing it, in seconds (ten
/// years of 365 days).
pub const EXPIRY_LIMIT: i64 = 315_360_000;

/// What an owner typed as a key's new term.
#[derive(Debug, Clone, Copy, PartialEq, Eq)]
pub enum ExpiryInput {
    /// `none` (or its Russian forms): the key no longer expires.
    Forever,
    /// Extend the key by this many seconds.
    Seconds(i64),
    /// Neither a word for "no term" nor a duration within the limit.
    Invalid,
}

/// The words (in any ASCII case) that remove a key's term.
pub open spec fn forever_word(t: Seq<char>) -> bool {
    equal_ignoring_case(t, "none"@) || equal_ignoring_case(t, "без срока"@)
        || equal_ignoring_case(t, "бессрочно"@)
}

/// Seconds in one unit of a duration, the unit letter in any ASCII case.
pub open spec fn unit_seconds_any_case(unit: char) -> Option<int> {
    let c = ascii_lower(unit);
    if c == 'h' as int {
        Some(3_600)
    } else if c == 'd' as int {
        Some(86_400)
    } else if c == 'w' as int {
        Some(604_800)
    } else if c == 'm' as int {
        Some(2_592_000)
    } else if c == 'y' as int {
        Some(31_536_000)
    } else {
        None
    }
}

/// A duration as `duration_value` reads it, the unit letter in any ASCII
/// case (lowering ASCII letters never changes whether an amount parses: a
/// letter makes it unreadable either way).
pub open spec fn duration_any_case(s: Seq<char>) -> Option<i64> {
    if s.len() == 0 {
        None
    } else {
        match (parsed_i64(s.drop_last()), unit_seconds_any_case(s.last())) {
            (Some(amount), Some(unit)) => {
                let total = amount * unit;
                if 0 < total <= i64::MAX {
                    Some(total as i64)
                } else {
                    None
                }
            },
            _ => None,
        }
    }
}

/// The new term typed as `text`: a word for "no term", else a duration of
/// at most `EXPIRY_LIMIT` seconds.
pub open spec fn expiry_input_of(text: Seq<char>) -> ExpiryInput {
    let t = trimmed(text);
    if forever_word(t) {
        ExpiryInput::Forever
    } else {
        match duration_any_case(t) {
            Some(v) => if v <= EXPIRY_LIMIT {
                ExpiryInput::Seconds(v)
            } else {
                ExpiryInput::Invalid
            },
            None => ExpiryInput::Invalid,
        }
    }
}

/// The term `n` followed by the letter `unit` reads, once trimmed, as itself,
/// and is no word for "no term".
proof fn lemma_typed_term(n: i64, unit: char)
    requires
        !is_whitespace(unit),
    ensures
        trimmed(decimal(n as int) + seq![unit]) == decimal(n as int) + seq![unit],
        !forever_word(decimal(n as int) + seq![unit]),
        (decimal(n as int) + seq![unit]).drop_last() == decimal(n as int),
        (decimal(n as int) + seq![unit]).last() == unit,
        parsed_i64(decimal(n as int)) == Some(n),
{
    let s = decimal(n as int) + seq![unit];
    lemma_decimal_first(n as int);
    law_decimal_round_trip(n);
    assert(s[0] == decimal(n as int)[0]);
    assert(trim_start(s) == s);
    assert(trim_end(s) == s);
    assert(s.drop_last() =~= decimal(n as int));
    reveal_strlit("none");
    reveal_strlit("без срока");
    reveal_strlit("бессрочно");
    assert(ascii_lower(s[0]) != ascii_lower("none"@[0]));
    assert(ascii_lower(s[0]) != ascii_lower("без срока"@[0]));
    assert(ascii_lower(s[0]) != ascii_lower("бессрочно"@[0]));
}

/// The owner's term of `n` units, the unit letter in either case, is `n`
/// times the unit's length (an hour of 3600 seconds, a day of 86400, a week
/// of seven days, a month of 30 days, a year of 365 days) while that is
/// positive and within `EXPIRY_LIMIT`; anything else typed that way is
/// refused.
pub proof fn law_expiry_units(n: i64)
    ensures
        0 < n && n * 3_600 <= EXPIRY_LIMIT ==> expiry_input_of(decimal(n as int) + seq!['h']) == ExpiryInput::Seconds((n * 3_600) as i64)
            && expiry_input_of(decimal(n as int) + seq!['H']) == ExpiryInput::Seconds((n * 3_600) as i64),
        0 < n && n * 86_400 <= EXPIRY_LIMIT ==> expiry_input_of(decimal(n as int) + seq!['d']) == ExpiryInput::Seconds((n * 86_400) as i64)
            && expiry_input_of(decimal(n as int) + seq!['D']) == ExpiryInput::Seconds((n * 86_400) as i64),
        0 < n && n * 7 * 86_400 <= EXPIRY_LIMIT ==> expiry_input_of(decimal(n as int) + seq!['w']) == ExpiryInput::Seconds((n * 7 * 86_400) as i64)
            && expiry_input_of(decimal(n as int) + seq!['W']) == ExpiryInput::Seconds((n * 7 * 86_400) as i64),
        0 < n && n * 30 * 86_400 <= EXPIRY_LIMIT ==> expiry_input_of(decimal(n as int) + seq!['m']) == ExpiryInput::Seconds((n * 30 * 86_400) as i64)
            && expiry_input_of(decimal(n as int) + seq!['M']) == ExpiryInput::Seconds((n * 30 * 86_400) as i64),
        0 < n && n * 365 * 86_400 <= EXPIRY_LIMIT ==> expiry_input_of(decimal(n as int) + seq!['y']) == ExpiryInput::Seconds((n * 365 * 86_400) as i64)
            && expiry_input_of(decimal(n as int) + seq!['Y']) == ExpiryInput::Seconds((n * 365 * 86_400) as i64),
        n <= 0 || n * 3_600 > EXPIRY_LIMIT ==> expiry_input_of(decimal(n as int) + seq!['h']) == ExpiryInput::Invalid,
        n <= 0 || n * 86_400 > EXPIRY_LIMIT ==> expiry_input_of(decimal(n as int) + seq!['d']) == ExpiryInput::Invalid,
        n <= 0 || n * 7 * 86_400 > EXPIRY_LIMIT ==> expiry_input_of(decimal(n as int) + seq!['w']) == ExpiryInput::Invalid,
        n <= 0 || n * 30 * 86_400 > EXPIRY_LIMIT ==> expiry_input_of(decimal(n as int) + seq!['m']) == ExpiryInput::Invalid,
        n <= 0 || n * 365 * 86_400 > EXPIRY_LIMIT ==> expiry_input_of(decimal(n as int) + seq!['y']) == ExpiryInput::Invalid,
{
    lemma_typed_term(n, 'h');
    lemma_typed_term(n, 'H');
    lemma_typed_term(n, 'd');
    lemma_typed_term(n, 'D');
    lemma_typed_term(n, 'w');
    lemma_typed_term(n, 'W');
    lemma_typed_term(n, 'm');
    lemma_typed_term(n, 'M');
    lemma_typed_term(n, 'y');
    lemma_typed_term(n, 'Y');
}

/// `none`, `без срока` and `бессрочно`, in any ASCII case, take a key's term
/// away.
pub proof fn law_forever_words(s: Seq<char>)
    requires
        equal_ignoring_case(s, "none"@) || equal_ignoring_case(s, "без срока"@) || equal_ignoring_case(
            s,
            "бессрочно"@,
        ),
    ensures
        expiry_input_of(s) == ExpiryInput::Forever,
{
    reveal_strlit("none");
    reveal_strlit("без срока");
    reveal_strlit("бессрочно");
    assert(s.len() > 0);
    assert(ascii_lower(s[0]) == ascii_lower("none"@[0]) || ascii_lower(s[0]) == ascii_lower("без срока"@[0])
        || ascii_lower(s[0]) == ascii_lower("бессрочно"@[0]));
    let l = s.len() - 1;
    assert(ascii_lower(s[l]) == ascii_lower("none"@[3]) || ascii_lower(s[l]) == ascii_lower("без срока"@[8])
        || ascii_lower(s[l]) == ascii_lower("бессрочно"@[8]));
    assert(s.last() == s[l]);
    assert(trim_start(s) == s);
    assert(trim_end(s) == s);
}

/// The owner's term reads a duration as `duration_seconds` reads it: for a
/// lower-case unit letter, and for the same letter in upper case, the term is
/// that duration when it is within `EXPIRY_LIMIT`.
pub proof fn law_expiry_reads_durations(n: i64, unit: char)
    requires
        unit == 'h' || unit == 'd' || unit == 'w' || unit == 'm' || unit == 'y',
    ensures
        expiry_input_of(decimal(n as int) + seq![unit]) == match duration_value(decimal(n as int) + seq![unit]) {
            Some(v) => if v <= EXPIRY_LIMIT { ExpiryInput::Seconds(v) } else { ExpiryInput::Invalid },
            None => ExpiryInput::Invalid,
        },
        expiry_input_of(decimal(n as int) + seq![((unit as int) - 32) as char]) == expiry_input_of(decimal(n as int) + seq![unit]),
{
    lemma_typed_term(n, unit);
    let upper = ((unit as int) - 32) as char;
    lemma_typed_term(n, upper);
}

/// Reads a key's new term. A duration whose last character takes more than
/// one byte in UTF-8 has no unit to split off, and is not taken here.
pub fn expiry_input(text: &str) -> (r: ExpiryInput)
    requires
        forever_word(trimmed(text@)) || ends_in_single_byte(trimmed(text@)),
    ensures
        r == expiry_input_of(text@),
{
    let t = trim(text);
    if eq_ignore_ascii_case(t, "none") || eq_ignore_ascii_case(t, "без срока")
        || eq_ignore_ascii_case(t, "бессрочно") {
        return ExpiryInput::Forever;
    }
    let n = t.unicode_len();
    if n == 0 {
        return ExpiryInput::Invalid;
    }
    let amount = match parse_i64(t.substring_char(0, n - 1)) {
        Some(a) => a,
        None => return ExpiryInput::Invalid,
    };
    assert(t@.subrange(0, n - 1) =~= t@.drop_last());
    let unit = lower(t.get_char(n - 1));
    let multiplier: i64 = if unit == 104 {
        3_600
    } else if unit == 100 {
        86_400
    } else if unit == 119 {
        604_800
    } else if unit == 109 {
        2_592_000
    } else if unit == 121 {
        31_536_000
    } else {
        return ExpiryInput::Invalid;
    };
    match amount.checked_mul(multiplier) {
        Some(total) => if 0 < total && total <= EXPIRY_LIMIT {
            ExpiryInput::Seconds(total)
        } else {
            ExpiryInput::Invalid
        },
        None => ExpiryInput::Invalid,
    }
}

/// A new promo code as typed: `CODE [MAX_USES]` for an old-key code,
/// `CODE PERCENT [MAX_USES]` for a discount (a missing or unreadable percent
/// counts as zero).
pub open spec fn promo_of(text: Seq<char>, legacy: bool) -> (Seq<char>, i64, Option<i64>) {
    let p = words(text);
    let code = if p.len() > 0 {
        p[0]
    } else {
        Seq::empty()
    };
    if legacy {
        (code, 0, if p.len() > 1 {
            parsed_i64(p[1])
        } else {
            None
        })
    } else {
        (
            code,
            if p.len() > 1 {
                match parsed_i64(p[1]) {
                    Some(v) => v,
                    None => 0,
                }
            } else {
                0
            },
            if p.len() > 2 {
                parsed_i64(p[2])
            } else {
                None
            },
        )
    }
}

/// The code, the discount percent (zero for an old-key code) and the limit
/// of uses of a promo code typed as `text`.
pub fn promo_input<'a>(text: &'a str, legacy: bool) -> (r: (&'a str, i64, Option<i64>))
    ensures
        promo_of(text@, legacy) == (r.0@, r.1, r.2),
{
    let p = split_words(text);
    proof {
        let v = p@.map_values(|w: &str| w@);
        assert(p@.len() > 0 ==> v[0] == p@[0]@);
        assert(p@.len() > 1 ==> v[1] == p@[1]@);
        assert(p@.len() > 2 ==> v[2] == p@[2]@);
        reveal_strlit("");
    }
    let code: &'a str = if p.len() > 0 {
        p[0]
    } else {
        ""
    };
    if legacy {
        let uses = if p.len() > 1 {
            parse_i64(p[1])
        } else {
            None
        };
        (code, 0, uses)
    } else {
        let percent = if p.len() > 1 {
            match parse_i64(p[1]) {
                Some(v) => v,
                None => 0,
            }
        } else {
            0
        };
        let uses = if p.len() > 2 {
            parse_i64(p[2])
        } else {
            None
        };
        (code, percent, uses)
    }
}

/// The most keys one prefix operation touches.
pub const PREFIX_LIMIT: usize = 100;

/// The names that start with `prefix`, in order, at most `PREFIX_LIMIT`.
pub open spec fn with_prefix(names: Seq<Seq<char>>, prefix: Seq<char>) -> Seq<Seq<char>>
    decreases names.len(),
{
    if names.len() == 0 {
        Seq::empty()
    } else {
        let rest = with_prefix(names.drop_last(), prefix);
        if prefix.is_prefix_of(names.last()) && rest.len() < PREFIX_LIMIT {
            rest.push(names.last())
        } else {
            rest
        }
    }
}

/// A prefix operation touches only names with that prefix, and at most
/// `PREFIX_LIMIT` of them.
pub proof fn law_prefix_selection(names: Seq<Seq<char>>, prefix: Seq<char>)
    ensures
        with_prefix(names, prefix).len() <= PREFIX_LIMIT,
        forall|k: int|
            0 <= k < with_prefix(names, prefix).len() ==> prefix.is_prefix_of(
                #[trigger] with_prefix(names, prefix)[k],
            ) && names.contains(with_prefix(names, prefix)[k]),
    decreases names.len(),
{
    if names.len() > 0 {
        let init = names.drop_last();
        law_prefix_selection(init, prefix);
        let rest = with_prefix(init, prefix);
        assert forall|k: int| 0 <= k < with_prefix(names, prefix).len() implies prefix.is_prefix_of(
            #[trigger] with_prefix(names, prefix)[k],
        ) && names.contains(with_prefix(names, prefix)[k]) by {
            if k < rest.len() {
                assert(with_prefix(names, prefix)[k] == rest[k]);
                let j = choose|j: int| 0 <= j < init.len() && init[j] == rest[k];
                assert(names[j] == rest[k]);
            } else {
                assert(names[names.len() - 1] == names.last());
            }
        }
    }
}

/// The names that start with `prefix` (the first `PREFIX_LIMIT`).
pub fn names_with_prefix(names: &[String], prefix: &str) -> (r: Vec<String>)
    ensures
        r@.map_values(|s: String| s@) == with_prefix(names@.map_values(|s: String| s@), prefix@),
{
    let mut r: Vec<String> = Vec::new();
    let n = names.len();
    let mut i: usize = 0;
    while i < n
        invariant
            n == names@.len(),
            i <= n,
            r@.map_values(|s: String| s@) == with_prefix(
                names@.map_values(|s: String| s@).take(i as int),
                prefix@,
            ),
        decreases n - i,
    {
        proof {
            let all = names@.map_values(|s: String| s@);
            assert(all.take(i + 1).drop_last() =~= all.take(i as int));
            assert(all.take(i + 1).last() == names@[i as int]@);
        }
        let ghost before = r@;
        if starts_with(names[i].as_str(), prefix) && r.len() < PREFIX_LIMIT {
            r.push(names[i].clone());
            assert(r@.map_values(|s: String| s@) =~= before.map_values(|s: String| s@).push(
                names@[i as int]@,
            ));
        }
        i += 1;
    }
    assert(names@.map_values(|s: String| s@).take(n as int) =~= names@.map_values(|s: String| s@));
    r
}

} // verus!
