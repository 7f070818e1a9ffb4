//! Who receives a broadcast: the audience an owner picked, and the users it
//! selects by the state of their keys.

use vstd::prelude::*;
use vstd::string::*;
use crate::handlers::{trim, trimmed};
use crate::numbers::{parse_i64, parsed_i64};
use crate::overview::{expires_within_week, expiring_soon, WEEK_SECONDS};
use crate::text::{str_eq, strip_prefix};

verus! {

/// The users a broadcast goes to.
#[derive(Debug, Clone, Copy, PartialEq, Eq, Structural)]
pub enum Audience {
    /// Users with at least one key that is enabled and not expired.
    Active,
    /// Users with a key expiring within a week.
    Expiring,
    /// Users without keys.
    NoKeys,
    /// Users with a key on this server (`None`: an unreadable server id,
    /// which selects nobody).
    Server(Option<i64>),
    /// Everyone.
    Everyone,
}

/// The audience named `s` in a broadcast's settings; any other name means
/// everyone.
pub open spec fn audience_of(s: Seq<char>) -> Audience {
    if s == "active"@ {
        Audience::Active
    } else if s == "expiring"@ {
        Audience::Expiring
    } else if s == "nokeys"@ {
        Audience::NoKeys
    } else if "server:"@.is_prefix_of(s) {
        Audience::Server(parsed_i64(s.skip(7)))
    } else {
        Audience::Everyone
    }
}

pub fn audience(s: &str) -> (a: Audience)
    ensures
        a == audience_of(s@),
{
    proof {
        reveal_strlit("server:");
    }
    if str_eq(s, "active") {
        Audience::Active
    } else if str_eq(s, "expiring") {
        Audience::Expiring
    } else if str_eq(s, "nokeys") {
        Audience::NoKeys
    } else {
        match strip_prefix(s, "server:") {
            Some(id) => Audience::Server(parse_i64(id)),
            None => Audience::Everyone,
        }
    }
}

/// The word an owner types to start a prepared broadcast.
pub open spec fn confirms_broadcast(text: Option<Seq<char>>) -> bool {
    match text {
        Some(t) => trimmed(t) == "ОТПРАВИТЬ"@,
        None => false,
    }
}

/// Whether a message (its text, if it has one) starts the broadcast.
pub fn broadcast_confirmed(text: Option<&str>) -> (r: bool)
    ensures
        r == confirms_broadcast(
            match text {
                Some(t) => Some(t@),
                None => None,
            },
        ),
{
    match text {
        Some(t) => str_eq(trim(t), "ОТПРАВИТЬ"),
        None => false,
    }
}

/// What a broadcast looks at in one of a user's keys.
#[derive(Debug, Clone, Copy, PartialEq, Eq, Structural)]
pub struct RecipientKey {
    pub disabled: bool,
    pub expiry: Option<i64>,
    /// The server the key lives on, when it is known.
    pub server: Option<i64>,
}

/// A user and their keys.
#[derive(Debug, Clone)]
pub struct Recipient {
    pub user_id: i64,
    pub keys: Vec<RecipientKey>,
}

pub open spec fn live(k: RecipientKey, now: i64) -> bool {
    !k.disabled && match k.expiry {
        Some(e) => e > now,
        None => true,
    }
}

/// A user with these keys belongs to the audience at time `now`.
pub open spec fn selected(a: Audience, keys: Seq<RecipientKey>, now: i64) -> bool {
    match a {
        Audience::Active => exists|i: int| 0 <= i < keys.len() && live(#[trigger] keys[i], now),
        Audience::Expiring => exists|i: int|
            0 <= i < keys.len() && expiring_soon(#[trigger] keys[i].expiry, now),
        Audience::NoKeys => keys.len() == 0,
        Audience::Server(Some(id)) => exists|i: int|
            0 <= i < keys.len() && #[trigger] keys[i].server == Some(id),
        Audience::Server(None) => false,
        Audience::Everyone => true,
    }
}

/// The ids of the users the audience selects, in the order given.
pub open spec fn recipients_spec(a: Audience, users: Seq<Recipient>, now: i64) -> Seq<i64>
    decreases users.len(),
{
    if users.len() == 0 {
        Seq::empty()
    } else {
        let rest = recipients_spec(a, users.drop_last(), now);
        if selected(a, users.last().keys@, now) {
            rest.push(users.last().user_id)
        } else {
            rest
        }
    }
}

/// A broadcast reaches only users it was given, at most once each as
/// listed, and one to everyone reaches every user.
pub proof fn law_broadcast_reaches_listed_users(a: Audience, users: Seq<Recipient>, now: i64)
    ensures
        recipients_spec(a, users, now).len() <= users.len(),
        forall|k: int|
            #![trigger recipients_spec(a, users, now)[k]]
            0 <= k < recipients_spec(a, users, now).len() ==> exists|j: int|
                0 <= j < users.len() && #[trigger] users[j].user_id == recipients_spec(
                    a,
                    users,
                    now,
                )[k],
        a == Audience::Everyone ==> recipients_spec(a, users, now) == users.map_values(
            |u: Recipient| u.user_id,
        ),
    decreases users.len(),
{
    if users.len() > 0 {
        let init = users.drop_last();
        law_broadcast_reaches_listed_users(a, init, now);
        let rest = recipients_spec(a, init, now);
        let all = recipients_spec(a, users, now);
        assert forall|k: int| #![trigger all[k]] 0 <= k < all.len() implies exists|j: int|
            0 <= j < users.len() && #[trigger] users[j].user_id == all[k] by {
            if k < rest.len() {
                assert(all[k] == rest[k]);
                let j = choose|j: int| 0 <= j < init.len() && #[trigger] init[j].user_id == rest[k];
                assert(users[j] == init[j]);
            } else {
                assert(users[users.len() - 1].user_id == all[k]);
            }
        }
        if a == Audience::Everyone {
            assert(users.map_values(|u: Recipient| u.user_id) =~= init.map_values(
                |u: Recipient| u.user_id,
            ).push(users.last().user_id));
        }
    } else {
        assert(users.map_values(|u: Recipient| u.user_id) =~= Seq::<i64>::empty());
    }
}

/// A broadcast to the active audience reaches a user exactly when one of
/// their keys is enabled and not yet expired: a user whose keys are all
/// disabled or expired adds nobody to the recipients, and a user with such a
/// key is added after those before.
pub proof fn law_active_needs_a_live_key(users: Seq<Recipient>, u: Recipient, now: i64)
    ensures
        (forall|i: int| 0 <= i < u.keys@.len() ==> (#[trigger] u.keys@[i]).disabled || (u.keys@[i].expiry
            is Some && u.keys@[i].expiry->0 <= now)) ==> recipients_spec(Audience::Active, users.push(u), now)
            == recipients_spec(Audience::Active, users, now),
        (exists|i: int| 0 <= i < u.keys@.len() && !(#[trigger] u.keys@[i]).disabled && (u.keys@[i].expiry
            is None || u.keys@[i].expiry->0 > now)) ==> recipients_spec(Audience::Active, users.push(u), now)
            == recipients_spec(Audience::Active, users, now).push(u.user_id),
{
    assert(users.push(u).drop_last() =~= users);
    assert(users.push(u).last() == u);
    if exists|i: int| 0 <= i < u.keys@.len() && !(#[trigger] u.keys@[i]).disabled && (u.keys@[i].expiry
        is None || u.keys@[i].expiry->0 > now) {
        let i = choose|i: int| 0 <= i < u.keys@.len() && !(#[trigger] u.keys@[i]).disabled && (u.keys@[i].expiry
            is None || u.keys@[i].expiry->0 > now);
        assert(live(u.keys@[i], now));
    }
}

/// The other audiences add a user after those before exactly when: one of
/// their keys expires after `now` and within seven days of it (expiring);
/// they have no keys (no keys); one of their keys is on the chosen server
/// (server; an unreadable server id adds nobody); always (everyone).
pub proof fn law_audiences_add_users(users: Seq<Recipient>, u: Recipient, now: i64, server: i64)
    ensures
        recipients_spec(Audience::Expiring, users.push(u), now) == if exists|i: int|
            0 <= i < u.keys@.len() && (#[trigger] u.keys@[i]).expiry is Some && now < u.keys@[i].expiry->0
                && u.keys@[i].expiry->0 - now <= 7 * 86_400 {
            recipients_spec(Audience::Expiring, users, now).push(u.user_id)
        } else {
            recipients_spec(Audience::Expiring, users, now)
        },
        recipients_spec(Audience::NoKeys, users.push(u), now) == if u.keys@.len() == 0 {
            recipients_spec(Audience::NoKeys, users, now).push(u.user_id)
        } else {
            recipients_spec(Audience::NoKeys, users, now)
        },
        recipients_spec(Audience::Server(Some(server)), users.push(u), now) == if exists|i: int|
            0 <= i < u.keys@.len() && (#[trigger] u.keys@[i]).server == Some(server) {
            recipients_spec(Audience::Server(Some(server)), users, now).push(u.user_id)
        } else {
            recipients_spec(Audience::Server(Some(server)), users, now)
        },
        recipients_spec(Audience::Server(None), users.push(u), now) == recipients_spec(
            Audience::Server(None),
            users,
            now,
        ),
        recipients_spec(Audience::Everyone, users.push(u), now) == recipients_spec(
            Audience::Everyone,
            users,
            now,
        ).push(u.user_id),
{
    assert(users.push(u).drop_last() =~= users);
    assert(users.push(u).last() == u);
    assert(WEEK_SECONDS == 7 * 86_400);
}

/// Among `users`, one with id `id` has a key that is enabled and not yet
/// expired at `now`.
pub open spec fn has_usable_key(users: Seq<Recipient>, id: i64, now: i64) -> bool {
    exists|j: int, i: int|
        0 <= j < users.len() && users[j].user_id == id && 0 <= i < users[j].keys@.len()
            && !(#[trigger] users[j].keys@[i]).disabled && (users[j].keys@[i].expiry is None
            || users[j].keys@[i].expiry->0 > now)
}

/// Every user the active audience reaches has a key that is enabled and not
/// yet expired.
pub proof fn law_active_recipients_have_live_keys(users: Seq<Recipient>, now: i64)
    ensures
        forall|k: int|
            0 <= k < recipients_spec(Audience::Active, users, now).len() ==> has_usable_key(
                users,
                #[trigger] recipients_spec(Audience::Active, users, now)[k],
                now,
            ),
    decreases users.len(),
{
    if users.len() > 0 {
        let init = users.drop_last();
        law_active_recipients_have_live_keys(init, now);
        let rest = recipients_spec(Audience::Active, init, now);
        let all = recipients_spec(Audience::Active, users, now);
        assert forall|k: int| 0 <= k < all.len() implies has_usable_key(users, #[trigger] all[k], now) by {
            if k < rest.len() {
                assert(all[k] == rest[k]);
                assert(has_usable_key(init, rest[k], now));
                let (j, i) = choose|j: int, i: int|
                    0 <= j < init.len() && init[j].user_id == rest[k] && 0 <= i < init[j].keys@.len()
                        && !(#[trigger] init[j].keys@[i]).disabled && (init[j].keys@[i].expiry is None
                        || init[j].keys@[i].expiry->0 > now);
                assert(users[j] == init[j]);
                assert(!users[j].keys@[i].disabled);
            } else {
                let last = users.len() - 1;
                assert(users[last] == users.last());
                assert(selected(Audience::Active, users.last().keys@, now));
                let i = choose|i: int| 0 <= i < users.last().keys@.len() && live(
                    #[trigger] users.last().keys@[i],
                    now,
                );
                assert(!users[last].keys@[i].disabled);
            }
        }
    }
}

fn key_matches(a: Audience, k: RecipientKey, now: i64) -> (r: bool)
    ensures
        r == match a {
            Audience::Active => live(k, now),
            Audience::Expiring => expiring_soon(k.expiry, now),
            Audience::Server(Some(id)) => k.server == Some(id),
            _ => false,
        },
{
    match a {
        Audience::Active => !k.disabled && match k.expiry {
            Some(e) => e > now,
            None => true,
        },
        Audience::Expiring => expires_within_week(k.expiry, now),
        Audience::Server(Some(id)) => match k.server {
            Some(s) => s == id,
            None => false,
        },
        _ => false,
    }
}

fn is_selected(a: Audience, keys: &Vec<RecipientKey>, now: i64) -> (r: bool)
    ensures
        r == selected(a, keys@, now),
{
    match a {
        Audience::NoKeys => return keys.len() == 0,
        Audience::Server(None) => return false,
        Audience::Everyone => return true,
        _ => {},
    }
    let n = keys.len();
    let mut i: usize = 0;
    while i < n
        invariant
            n == keys@.len(),
            i <= n,
            a !is NoKeys && a !is Everyone && a != Audience::Server(None),
            forall|j: int| 0 <= j < i ==> !(match a {
                Audience::Active => live(#[trigger] keys@[j], now),
                Audience::Expiring => expiring_soon(keys@[j].expiry, now),
                Audience::Server(Some(id)) => keys@[j].server == Some(id),
                _ => false,
            }),
        decreases n - i,
    {
        if key_matches(a, keys[i], now) {
            return true;
        }
        i += 1;
    }
    false
}

/// The users a broadcast to audience `a` reaches at time `now`.
pub fn recipients(a: Audience, users: &[Recipient], now: i64) -> (r: Vec<i64>)
    ensures
        r@ == recipients_spec(a, users@, now),
{
    let mut out: Vec<i64> = Vec::new();
    let n = users.len();
    let mut i: usize = 0;
    while i < n
        invariant
            n == users@.len(),
            i <= n,
            out@ == recipients_spec(a, users@.take(i as int), now),
        decreases n - i,
    {
        proof {
            assert(users@.take(i + 1).drop_last() =~= users@.take(i as int));
            assert(users@.take(i + 1).last() == users@[i as int]);
        }
        if is_selected(a, &users[i].keys, now) {
            out.push(users[i].user_id);
        }
        i += 1;
    }
    assert(users@.take(n as int) =~= users@);
    out
}

} // verus!
