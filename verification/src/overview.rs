//! The figures and states that the dashboards and key lists show.

use vstd::prelude::*;
use vstd::string::*;

verus! {

/// Seconds in the week within which a key counts as expiring.
pub const WEEK_SECONDS: i64 = 7 * 86_400;

/// The key expires after `now` and within a week of it.
pub open spec fn expiring_soon(expiry: Option<i64>, now: i64) -> bool {
    match expiry {
        Some(e) => now < e && e <= now + WEEK_SECONDS,
        None => false,
    }
}

pub fn expires_within_week(expiry: Option<i64>, now: i64) -> (r: bool)
    ensures
        r == expiring_soon(expiry, now),
{
    match expiry {
        Some(e) => now < e && (e as i128) <= (now as i128) + (WEEK_SECONDS as i128),
        None => false,
    }
}

/// What a customer's dashboard knows of one key: whether its server is
/// online, and its expiry.
#[derive(Debug, Clone, Copy, PartialEq, Eq, Structural)]
pub struct KeyHealth {
    pub online: bool,
    pub expiry: Option<i64>,
}

/// The key works: its server is online and it has not expired.
pub open spec fn working(k: KeyHealth, now: i64) -> bool {
    k.online && match k.expiry {
        Some(e) => e > now,
        None => true,
    }
}

pub open spec fn count_where(keys: Seq<KeyHealth>, p: spec_fn(KeyHealth) -> bool) -> nat {
    keys.filter(p).len()
}

/// The customer dashboard's figures: keys that work, keys that need a
/// replacement (their server is gone or not online), keys expiring within a
/// week.
pub open spec fn dashboard_figures(keys: Seq<KeyHealth>, now: i64) -> (nat, nat, nat) {
    (
        count_where(keys, |k: KeyHealth| working(k, now)),
        count_where(keys, |k: KeyHealth| !k.online),
        count_where(keys, |k: KeyHealth| expiring_soon(k.expiry, now)),
    )
}

fn is_working(k: KeyHealth, now: i64) -> (r: bool)
    ensures
        r == working(k, now),
{
    k.online && match k.expiry {
        Some(e) => e > now,
        None => true,
    }
}

/// The figures of the customer dashboard at time `now`.
pub fn dashboard_counts(keys: &[KeyHealth], now: i64) -> (r: (usize, usize, usize))
    ensures
        (r.0 as nat, r.1 as nat, r.2 as nat) == dashboard_figures(keys@, now),
{
    let mut working_keys: usize = 0;
    let mut broken: usize = 0;
    let mut expiring: usize = 0;
    let n = keys.len();
    let mut i: usize = 0;
    while i < n
        invariant
            n == keys@.len(),
            i <= n,
            working_keys == count_where(keys@.take(i as int), |k: KeyHealth| working(k, now)),
            broken == count_where(keys@.take(i as int), |k: KeyHealth| !k.online),
            expiring == count_where(keys@.take(i as int), |k: KeyHealth| expiring_soon(k.expiry, now)),
            working_keys <= i,
            broken <= i,
            expiring <= i,
        decreases n - i,
    {
        let k = keys[i];
        proof {
            assert(keys@.take(i + 1).drop_last() =~= keys@.take(i as int));
            assert(keys@.take(i + 1).last() == k);
            reveal(Seq::filter);
        }
        if is_working(k, now) {
            working_keys += 1;
        }
        if !k.online {
            broken += 1;
        }
        if expires_within_week(k.expiry, now) {
            expiring += 1;
        }
        i += 1;
    }
    assert(keys@.take(n as int) =~= keys@);
    (working_keys, broken, expiring)
}

// ---------------------------------------------------------------------------
// Servers
// ---------------------------------------------------------------------------

/// What the server overview knows of one server.
pub struct ServerHealth {
    pub status: String,
    pub is_local: bool,
    /// Until when the server's hosting is paid.
    pub paid_until: Option<i64>,
}

/// A server needs attention when it warns or is offline, or its hosting runs
/// out within a week.
pub open spec fn needs_attention(s: ServerHealth, now: i64) -> bool {
    s.status@ == "warning"@ || s.status@ == "offline"@ || match s.paid_until {
        Some(v) => v <= now + WEEK_SECONDS,
        None => false,
    }
}

pub open spec fn count_servers(servers: Seq<ServerHealth>, p: spec_fn(ServerHealth) -> bool) -> nat {
    servers.filter(p).len()
}

/// The server overview's figures: servers that need attention, local
/// servers, online servers.
pub open spec fn server_figures_spec(servers: Seq<ServerHealth>, now: i64) -> (nat, nat, nat) {
    (
        count_servers(servers, |s: ServerHealth| needs_attention(s, now)),
        count_servers(servers, |s: ServerHealth| s.is_local),
        count_servers(servers, |s: ServerHealth| s.status@ == "online"@),
    )
}

fn attention(s: &ServerHealth, now: i64) -> (r: bool)
    ensures
        r == needs_attention(*s, now),
{
    crate::text::str_eq(s.status.as_str(), "warning") || crate::text::str_eq(
        s.status.as_str(),
        "offline",
    ) || match s.paid_until {
        Some(v) => (v as i128) <= (now as i128) + (WEEK_SECONDS as i128),
        None => false,
    }
}

/// The figures of the server overview at time `now`.
pub fn server_figures(servers: &[ServerHealth], now: i64) -> (r: (usize, usize, usize))
    ensures
        (r.0 as nat, r.1 as nat, r.2 as nat) == server_figures_spec(servers@, now),
{
    let mut flagged: usize = 0;
    let mut local: usize = 0;
    let mut online: usize = 0;
    let n = servers.len();
    let mut i: usize = 0;
    while i < n
        invariant
            n == servers@.len(),
            i <= n,
            flagged == count_servers(servers@.take(i as int), |s: ServerHealth| needs_attention(s, now)),
            local == count_servers(servers@.take(i as int), |s: ServerHealth| s.is_local),
            online == count_servers(servers@.take(i as int), |s: ServerHealth| s.status@ == "online"@),
            flagged <= i,
            local <= i,
            online <= i,
        decreases n - i,
    {
        let s = &servers[i];
        proof {
            assert(servers@.take(i + 1).drop_last() =~= servers@.take(i as int));
            assert(servers@.take(i + 1).last() == *s);
            reveal(Seq::filter);
        }
        if attention(s, now) {
            flagged += 1;
        }
        if s.is_local {
            local += 1;
        }
        if crate::text::str_eq(s.status.as_str(), "online") {
            online += 1;
        }
        i += 1;
    }
    assert(servers@.take(n as int) =~= servers@);
    (flagged, local, online)
}

// ---------------------------------------------------------------------------
// A customer's key list
// ---------------------------------------------------------------------------

/// The icon and state text of a key: not working when its server is gone or
/// not online, paused when disabled, otherwise working.
pub open spec fn key_state_spec(online: bool, disabled: bool) -> (Seq<char>, Seq<char>) {
    if !online {
        ("❌"@, "НЕ РАБОТАЕТ — требуется замена"@)
    } else if disabled {
        ("⏸"@, "отключён"@)
    } else {
        ("✅"@, "работает"@)
    }
}

pub fn key_state(online: bool, disabled: bool) -> (r: (&'static str, &'static str))
    ensures
        (r.0@, r.1@) == key_state_spec(online, disabled),
{
    if !online {
        ("❌", "НЕ РАБОТАЕТ — требуется замена")
    } else if disabled {
        ("⏸", "отключён")
    } else {
        ("✅", "работает")
    }
}

/// The most characters a key's button title shows.
pub const TITLE_LIMIT: usize = 60;

/// A key's button title: icon, device and name, cut to `TITLE_LIMIT`
/// characters.
pub open spec fn key_title_spec(icon: Seq<char>, device: Seq<char>, name: Seq<char>) -> Seq<char> {
    let full = icon + " "@ + device + " · "@ + name;
    if full.len() <= TITLE_LIMIT {
        full
    } else {
        full.take(TITLE_LIMIT as int)
    }
}

pub fn key_title(icon: &str, device: &str, name: &str) -> (t: String)
    ensures
        t@ == key_title_spec(icon@, device@, name@),
{
    let mut full = icon.to_string();
    full.append(" ");
    full.append(device);
    full.append(" · ");
    full.append(name);
    let n = full.as_str().unicode_len();
    if n <= TITLE_LIMIT {
        full
    } else {
        let t = full.as_str().substring_char(0, TITLE_LIMIT).to_string();
        assert(full@.subrange(0, TITLE_LIMIT as int) =~= full@.take(TITLE_LIMIT as int));
        t
    }
}

// ---------------------------------------------------------------------------
// Paged user list
// ---------------------------------------------------------------------------

/// Users on one page of the user list.
pub const USERS_PER_PAGE: usize = 10;

/// The page of the user list actually shown for a requested page: the last
/// page when the request is beyond it; with the number of pages (at least
/// one) and the positions of the users shown.
pub open spec fn users_page_spec(count: nat, requested: nat) -> (nat, nat, nat, nat) {
    let pages: nat = if count == 0 {
        1
    } else {
        ((count + 9) / 10) as nat
    };
    let page: nat = if requested < pages {
        requested
    } else {
        (pages - 1) as nat
    };
    let start: nat = page * 10;
    let end: nat = if start + 10 <= count {
        start + 10
    } else if start <= count {
        count
    } else {
        start
    };
    (page, pages, start, end)
}

/// Which page of `count` users is shown for the requested page: (page,
/// pages, first position, end position).
pub fn users_page(count: usize, requested: usize) -> (r: (usize, usize, usize, usize))
    ensures
        (r.0 as nat, r.1 as nat, r.2 as nat, r.3 as nat) == users_page_spec(count as nat, requested as nat),
{
    let pages: usize = if count == 0 {
        1
    } else {
        count / USERS_PER_PAGE + if count % USERS_PER_PAGE == 0 {
            0
        } else {
            1
        }
    };
    assert(count > 0 ==> pages == (count + 9) / 10) by (nonlinear_arith)
        requires
            count > 0 ==> pages == count / 10 + if count % 10 == 0 {
                0int
            } else {
                1int
            },
    ;
    let page = if requested < pages {
        requested
    } else {
        pages - 1
    };
    assert(page * 10 <= count + 9) by (nonlinear_arith)
        requires
            page < pages,
            count == 0 ==> pages == 1,
            count > 0 ==> pages == (count + 9) / 10,
    ;
    let start = page * USERS_PER_PAGE;
    let end = if count >= 10 && start <= count - 10 {
        start + 10
    } else if start <= count {
        count
    } else {
        start
    };
    (page, pages, start, end)
}

} // verus!

verus! {

// ---------------------------------------------------------------------------
// Statistics
// ---------------------------------------------------------------------------

/// What the subscription statistics know of one key.
#[derive(Debug, Clone, Copy, PartialEq, Eq, Structural)]
pub struct Subscription {
    pub disabled: bool,
    pub expiry: Option<i64>,
}

/// A subscription is active when the key is not disabled and has not expired.
pub open spec fn active(s: Subscription, now: i64) -> bool {
    !s.disabled && match s.expiry {
        Some(e) => e > now,
        None => true,
    }
}

pub open spec fn count_subscriptions(keys: Seq<Subscription>, p: spec_fn(Subscription) -> bool) -> nat {
    keys.filter(p).len()
}

/// The subscription statistics: active keys, keys expiring within a week,
/// disabled keys and all keys.
pub open spec fn subscription_figures_spec(keys: Seq<Subscription>, now: i64) -> (nat, nat, nat, nat) {
    (
        count_subscriptions(keys, |s: Subscription| active(s, now)),
        count_subscriptions(keys, |s: Subscription| expiring_soon(s.expiry, now)),
        count_subscriptions(keys, |s: Subscription| s.disabled),
        keys.len(),
    )
}

pub fn subscription_figures(keys: &[Subscription], now: i64) -> (r: (usize, usize, usize, usize))
    ensures
        (r.0 as nat, r.1 as nat, r.2 as nat, r.3 as nat) == subscription_figures_spec(keys@, now),
{
    let mut active_keys: usize = 0;
    let mut expiring: usize = 0;
    let mut disabled: usize = 0;
    let n = keys.len();
    let mut i: usize = 0;
    while i < n
        invariant
            n == keys@.len(),
            i <= n,
            active_keys == count_subscriptions(keys@.take(i as int), |s: Subscription| active(s, now)),
            expiring == count_subscriptions(
                keys@.take(i as int),
                |s: Subscription| expiring_soon(s.expiry, now),
            ),
            disabled == count_subscriptions(keys@.take(i as int), |s: Subscription| s.disabled),
            active_keys <= i,
            expiring <= i,
            disabled <= i,
        decreases n - i,
    {
        let s = keys[i];
        proof {
            assert(keys@.take(i + 1).drop_last() =~= keys@.take(i as int));
            assert(keys@.take(i + 1).last() == s);
            reveal(Seq::filter);
        }
        let live = !s.disabled && match s.expiry {
            Some(e) => e > now,
            None => true,
        };
        if live {
            active_keys += 1;
        }
        if expires_within_week(s.expiry, now) {
            expiring += 1;
        }
        if s.disabled {
            disabled += 1;
        }
        i += 1;
    }
    assert(keys@.take(n as int) =~= keys@);
    (active_keys, expiring, disabled, n)
}

/// How many approved purchases were for each tariff: one, three, six and
/// twelve months. `purchases` holds, for each payment, whether it was
/// approved and for how many months.
pub open spec fn tariff_counts_spec(purchases: Seq<(bool, i64)>) -> [nat; 4] {
    [
        purchases.filter(|p: (bool, i64)| p.0 && p.1 == 1).len(),
        purchases.filter(|p: (bool, i64)| p.0 && p.1 == 3).len(),
        purchases.filter(|p: (bool, i64)| p.0 && p.1 == 6).len(),
        purchases.filter(|p: (bool, i64)| p.0 && p.1 == 12).len(),
    ]
}

pub fn tariff_counts(purchases: &[(bool, i64)]) -> (r: [usize; 4])
    ensures
        r@.map_values(|c: usize| c as nat) == tariff_counts_spec(purchases@)@,
{
    let mut counts: [usize; 4] = [0, 0, 0, 0];
    let n = purchases.len();
    let mut i: usize = 0;
    while i < n
        invariant
            n == purchases@.len(),
            i <= n,
            counts[0] == purchases@.take(i as int).filter(|p: (bool, i64)| p.0 && p.1 == 1).len(),
            counts[1] == purchases@.take(i as int).filter(|p: (bool, i64)| p.0 && p.1 == 3).len(),
            counts[2] == purchases@.take(i as int).filter(|p: (bool, i64)| p.0 && p.1 == 6).len(),
            counts[3] == purchases@.take(i as int).filter(|p: (bool, i64)| p.0 && p.1 == 12).len(),
            counts[0] <= i,
            counts[1] <= i,
            counts[2] <= i,
            counts[3] <= i,
        decreases n - i,
    {
        let p = purchases[i];
        proof {
            assert(purchases@.take(i + 1).drop_last() =~= purchases@.take(i as int));
            assert(purchases@.take(i + 1).last() == p);
            reveal(Seq::filter);
        }
        if p.0 {
            if p.1 == 1 {
                counts[0] = counts[0] + 1;
            } else if p.1 == 3 {
                counts[1] = counts[1] + 1;
            } else if p.1 == 6 {
                counts[2] = counts[2] + 1;
            } else if p.1 == 12 {
                counts[3] = counts[3] + 1;
            }
        }
        i += 1;
    }
    assert(purchases@.take(n as int) =~= purchases@);
    assert(counts@.map_values(|c: usize| c as nat) =~= tariff_counts_spec(purchases@)@);
    counts
}

/// What a server's panel reports of one client.
#[derive(Debug, Clone, Copy, PartialEq, Eq, Structural)]
pub struct PanelClient {
    /// When the client last completed a handshake.
    pub last_handshake: Option<i64>,
    pub rx: u64,
    pub tx: u64,
}

/// `now - handshake`, held within `i64` (as `saturating_sub` does).
pub open spec fn elapsed(now: i64, handshake: i64) -> int {
    let d = now - handshake;
    if d > i64::MAX {
        i64::MAX as int
    } else if d < i64::MIN {
        i64::MIN as int
    } else {
        d
    }
}

/// A client is online when its last handshake is less than `threshold`
/// seconds old.
pub open spec fn online_at(c: PanelClient, now: i64, threshold: i64) -> bool {
    match c.last_handshake {
        Some(h) => elapsed(now, h) < threshold,
        None => false,
    }
}

pub open spec fn traffic_sum(clients: Seq<PanelClient>) -> nat
    decreases clients.len(),
{
    if clients.len() == 0 {
        0
    } else {
        traffic_sum(clients.drop_last()) + (clients.last().rx as nat) + (clients.last().tx as nat)
    }
}

/// A panel's figures: clients online at `now`, and all their traffic in
/// bytes, held at `u64::MAX`.
pub open spec fn panel_figures_spec(clients: Seq<PanelClient>, now: i64, threshold: i64) -> (nat, nat) {
    (
        clients.filter(|c: PanelClient| online_at(c, now, threshold)).len(),
        if traffic_sum(clients) <= u64::MAX {
            traffic_sum(clients)
        } else {
            u64::MAX as nat
        },
    )
}

pub fn panel_figures(clients: &[PanelClient], now: i64, threshold: i64) -> (r: (usize, u64))
    ensures
        (r.0 as nat, r.1 as nat) == panel_figures_spec(clients@, now, threshold),
{
    let mut online: usize = 0;
    let mut traffic: u64 = 0;
    let n = clients.len();
    let mut i: usize = 0;
    while i < n
        invariant
            n == clients@.len(),
            i <= n,
            online == clients@.take(i as int).filter(
                |c: PanelClient| online_at(c, now, threshold),
            ).len(),
            online <= i,
            traffic == (if traffic_sum(clients@.take(i as int)) <= u64::MAX {
                traffic_sum(clients@.take(i as int))
            } else {
                u64::MAX as nat
            }),
        decreases n - i,
    {
        let c = clients[i];
        proof {
            assert(clients@.take(i + 1).drop_last() =~= clients@.take(i as int));
            assert(clients@.take(i + 1).last() == c);
            reveal(Seq::filter);
        }
        let is_online = match c.last_handshake {
            Some(h) => {
                let d: i128 = (now as i128) - (h as i128);
                let held: i128 = if d > i64::MAX as i128 {
                    i64::MAX as i128
                } else if d < i64::MIN as i128 {
                    i64::MIN as i128
                } else {
                    d
                };
                held < threshold as i128
            },
            None => false,
        };
        if is_online {
            online += 1;
        }
        traffic = traffic.saturating_add(c.rx).saturating_add(c.tx);
        i += 1;
    }
    assert(clients@.take(n as int) =~= clients@);
    (online, traffic)
}

} // verus!
