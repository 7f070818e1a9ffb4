//! Creating a batch of clients, step by step. Names are generated first (the
//! numbering continues and fills gaps); then the group's quota is checked. On
//! this host the free addresses are checked and one call creates every key;
//! on a remote node the keys are created one by one, and a key whose term or
//! server binding fails is removed again while the batch goes on.
//!
//! `bulk_step` decides; the caller performs each command and reports the
//! outcome back as the next event.

use vstd::prelude::*;
use crate::handlers::{duration_seconds, duration_value, ends_in_single_byte};
use crate::numbers::{decimal, format_usize};

verus! {

/// What is known before the first step.
#[derive(Debug, Clone, Copy, PartialEq, Eq, Structural)]
pub struct BulkPlan {
    /// How many keys were asked for.
    pub count: usize,
    pub group: Option<i64>,
    /// The keys are created on this host rather than on a remote node.
    pub local: bool,
    /// The lifetime of each remote key in seconds; none when no term was
    /// chosen or the term does not read as a duration.
    pub remote_seconds: Option<i64>,
}

/// Where the work on one remote key stands.
#[derive(Debug, Clone, Copy, PartialEq, Eq, Structural)]
pub enum KeyStep {
    Creating,
    ExpirySetting,
    GroupAssigning,
    ServerBinding,
    /// Removing the key again.
    Discarding,
    Delivering,
}

#[derive(Debug, Clone, Copy, PartialEq, Eq, Structural)]
pub enum BulkPhase {
    /// Waiting for the generated names.
    Start,
    /// Waiting for the group's remaining places, for this many names.
    QuotaAsked { total: usize },
    /// Waiting for the free addresses.
    CapacityAsked { total: usize },
    /// Waiting for how many generated names the service already lists.
    CollisionsAsked,
    /// Waiting for the one call that creates every key here.
    AddingMany,
    /// Working on key `index` of `total` on a remote node; `created` keys are
    /// done; each expires at `expires_at`, when set.
    Remote { index: usize, created: usize, total: usize, expires_at: Option<i64>, step: KeyStep },
    Finished,
}

#[derive(Debug, Clone, Copy, PartialEq, Eq, Structural)]
pub enum BulkEvent {
    /// How many names were generated (none when the prefix is unusable), and
    /// the time.
    NamesGenerated(Option<usize>, i64),
    /// The group's remaining places, and the time.
    Remaining(Option<i64>, i64),
    /// Free addresses on this host, when they could be read.
    Capacity(Option<u32>),
    /// How many generated names the service's client list already holds
    /// (`None` when the list could not be read).
    Listed(Option<usize>),
    /// Whether the call that creates every key succeeded.
    ManyAdded(bool),
    Created(bool),
    ExpirySet(bool),
    GroupAssigned,
    ServerBound(bool),
    Removed,
    Delivered,
}

#[derive(Debug, Clone, Copy, PartialEq, Eq, Structural)]
pub enum BulkReply {
    /// The prefix leaves no valid names.
    BadPrefix,
    QuotaReached,
    /// No address is free.
    CapacityExhausted,
    /// Fewer addresses are free than keys were asked for.
    CapacityInsufficient { free: u32 },
    CapacityUnavailable,
    /// This many generated names are already taken on the service.
    NamesTaken { count: usize },
    /// The keys were created here; the caller records them, sends their
    /// files and the summary.
    Created,
    /// The single creation call failed.
    Failed,
    /// On a remote node `created` of `total` keys were created.
    RemoteSummary { created: usize, total: usize },
}

#[derive(Debug, Clone, Copy, PartialEq, Eq, Structural)]
pub enum BulkCommand {
    AskRemaining(i64),
    AskCapacity,
    /// Count the generated names the service's client list already holds.
    CheckCollisions,
    /// Create every generated key here in one call.
    AddMany,
    /// Create key `index` on the remote node.
    CreateRemote(usize),
    SetRemoteExpiry(usize, i64),
    /// Bind key `index` to the plan's group.
    AssignGroup(usize),
    BindServer(usize),
    /// Remove key `index` from the remote node.
    DiscardRemote(usize),
    /// Record key `index` as created and send its files.
    RecordAndDeliver(usize),
    Finish(BulkReply),
}

/// The lifetime of each remote key for the term `expires`.
pub open spec fn remote_lifetime(local: bool, expires: Option<Seq<char>>) -> Option<i64> {
    if local {
        None
    } else {
        match expires {
            Some(text) => duration_value(text),
            None => None,
        }
    }
}

/// The event each phase waits for.
pub open spec fn bulk_awaits(phase: BulkPhase, event: BulkEvent) -> bool {
    match phase {
        BulkPhase::Start => event is NamesGenerated,
        BulkPhase::QuotaAsked { .. } => event is Remaining,
        BulkPhase::CapacityAsked { .. } => event is Capacity,
        BulkPhase::CollisionsAsked => event is Listed,
        BulkPhase::AddingMany => event is ManyAdded,
        BulkPhase::Remote { step, .. } => match step {
            KeyStep::Creating => event is Created,
            KeyStep::ExpirySetting => event is ExpirySet,
            KeyStep::GroupAssigning => event is GroupAssigned,
            KeyStep::ServerBinding => event is ServerBound,
            KeyStep::Discarding => event is Removed,
            KeyStep::Delivering => event is Delivered,
        },
        BulkPhase::Finished => false,
    }
}

/// The phases a plan can reach: on a remote node the key being worked on is
/// one of the generated names, and no more keys are done than were tried.
pub open spec fn bulk_reachable(plan: BulkPlan, phase: BulkPhase) -> bool {
    match phase {
        BulkPhase::QuotaAsked { .. } => plan.group is Some,
        BulkPhase::CapacityAsked { .. } => plan.local,
        BulkPhase::CollisionsAsked => plan.local,
        BulkPhase::AddingMany => plan.local,
        BulkPhase::Remote { index, created, total, expires_at, step } => {
            &&& !plan.local
            &&& index < total
            &&& created <= index + if step is Delivering {
                1int
            } else {
                0int
            }
            &&& (step is ExpirySetting ==> expires_at is Some)
        },
        _ => true,
    }
}

pub open spec fn bulk_finish(reply: BulkReply) -> (BulkPhase, BulkCommand) {
    (BulkPhase::Finished, BulkCommand::Finish(reply))
}

/// The expiry of every remote key, given the time the batch starts.
pub open spec fn batch_expiry(plan: BulkPlan, now: i64) -> Option<i64> {
    match plan.remote_seconds {
        Some(seconds) => Some((now + seconds) as i64),
        None => None,
    }
}

/// After the quota check: on this host the capacity check, on a remote node
/// the first key (or the summary, when no name was generated).
pub open spec fn after_quota(plan: BulkPlan, total: usize, now: i64) -> (BulkPhase, BulkCommand) {
    if plan.local {
        (BulkPhase::CapacityAsked { total }, BulkCommand::AskCapacity)
    } else if total == 0 {
        bulk_finish(BulkReply::RemoteSummary { created: 0, total: 0 })
    } else {
        (
            BulkPhase::Remote {
                index: 0,
                created: 0,
                total,
                expires_at: batch_expiry(plan, now),
                step: KeyStep::Creating,
            },
            BulkCommand::CreateRemote(0),
        )
    }
}

/// The next remote key after key `index`, or the summary after the last.
pub open spec fn next_key(index: usize, created: usize, total: usize, expires_at: Option<i64>) -> (
    BulkPhase,
    BulkCommand,
) {
    if index + 1 < total {
        (
            BulkPhase::Remote {
                index: (index + 1) as usize,
                created,
                total,
                expires_at,
                step: KeyStep::Creating,
            },
            BulkCommand::CreateRemote((index + 1) as usize),
        )
    } else {
        bulk_finish(BulkReply::RemoteSummary { created, total })
    }
}

pub open spec fn key_phase(
    index: usize,
    created: usize,
    total: usize,
    expires_at: Option<i64>,
    step: KeyStep,
) -> BulkPhase {
    BulkPhase::Remote { index, created, total, expires_at, step }
}

/// The next phase and command after `event` in `phase`.
pub open spec fn bulk_transition(plan: BulkPlan, phase: BulkPhase, event: BulkEvent) -> (
    BulkPhase,
    BulkCommand,
) {
    match (phase, event) {
        (BulkPhase::Start, BulkEvent::NamesGenerated(names, now)) => match names {
            None => bulk_finish(BulkReply::BadPrefix),
            Some(total) => match plan.group {
                Some(group) => (BulkPhase::QuotaAsked { total }, BulkCommand::AskRemaining(group)),
                None => after_quota(plan, total, now),
            },
        },
        (BulkPhase::QuotaAsked { total }, BulkEvent::Remaining(remaining, now)) => if remaining
            is Some && remaining->0 < plan.count {
            bulk_finish(BulkReply::QuotaReached)
        } else {
            after_quota(plan, total, now)
        },
        (BulkPhase::CapacityAsked { .. }, BulkEvent::Capacity(free)) => match free {
            None => bulk_finish(BulkReply::CapacityUnavailable),
            Some(f) => if f == 0 {
                bulk_finish(BulkReply::CapacityExhausted)
            } else if f < plan.count {
                bulk_finish(BulkReply::CapacityInsufficient { free: f })
            } else {
                (BulkPhase::CollisionsAsked, BulkCommand::CheckCollisions)
            },
        },
        (BulkPhase::CollisionsAsked, BulkEvent::Listed(taken)) => match taken {
            Some(n) => if n > 0 {
                bulk_finish(BulkReply::NamesTaken { count: n })
            } else {
                (BulkPhase::AddingMany, BulkCommand::AddMany)
            },
            None => (BulkPhase::AddingMany, BulkCommand::AddMany),
        },
        (BulkPhase::AddingMany, BulkEvent::ManyAdded(ok)) => bulk_finish(
            if ok {
                BulkReply::Created
            } else {
                BulkReply::Failed
            },
        ),
        (
            BulkPhase::Remote { index, created, total, expires_at, step },
            event,
        ) => match (step, event) {
            (KeyStep::Creating, BulkEvent::Created(ok)) => if !ok {
                next_key(index, created, total, expires_at)
            } else {
                match expires_at {
                    Some(at) => (
                        key_phase(index, created, total, expires_at, KeyStep::ExpirySetting),
                        BulkCommand::SetRemoteExpiry(index, at),
                    ),
                    None => (
                        key_phase(index, created, total, expires_at, KeyStep::GroupAssigning),
                        BulkCommand::AssignGroup(index),
                    ),
                }
            },
            (KeyStep::ExpirySetting, BulkEvent::ExpirySet(ok)) => if ok {
                (
                    key_phase(index, created, total, expires_at, KeyStep::GroupAssigning),
                    BulkCommand::AssignGroup(index),
                )
            } else {
                (
                    key_phase(index, created, total, expires_at, KeyStep::Discarding),
                    BulkCommand::DiscardRemote(index),
                )
            },
            (KeyStep::GroupAssigning, BulkEvent::GroupAssigned) => (
                key_phase(index, created, total, expires_at, KeyStep::ServerBinding),
                BulkCommand::BindServer(index),
            ),
            (KeyStep::ServerBinding, BulkEvent::ServerBound(ok)) => if ok {
                (
                    key_phase(index, (created + 1) as usize, total, expires_at, KeyStep::Delivering),
                    BulkCommand::RecordAndDeliver(index),
                )
            } else {
                (
                    key_phase(index, created, total, expires_at, KeyStep::Discarding),
                    BulkCommand::DiscardRemote(index),
                )
            },
            (KeyStep::Discarding, BulkEvent::Removed) => next_key(index, created, total, expires_at),
            (KeyStep::Delivering, BulkEvent::Delivered) => next_key(index, created, total, expires_at),
            _ => bulk_finish(BulkReply::Failed),
        },
        _ => bulk_finish(BulkReply::Failed),
    }
}

/// The expiry of the remote keys fits in `i64` when the batch starts.
pub open spec fn bulk_expiry_fits(plan: BulkPlan, phase: BulkPhase, event: BulkEvent) -> bool {
    match (event, plan.remote_seconds) {
        (BulkEvent::NamesGenerated(_, now), Some(seconds)) => i64::MIN <= now + seconds
            <= i64::MAX,
        (BulkEvent::Remaining(_, now), Some(seconds)) => i64::MIN <= now + seconds <= i64::MAX,
        _ => true,
    }
}

impl BulkPlan {
    /// The plan for `count` keys with the term `expires` (such as `30d`).
    pub fn new(count: usize, group: Option<i64>, local: bool, expires: Option<&str>) -> (plan:
        BulkPlan)
        requires
            !local && expires is Some ==> ends_in_single_byte(expires->0@),
        ensures
            plan.count == count,
            plan.group == group,
            plan.local == local,
            plan.remote_seconds == remote_lifetime(
                local,
                match expires {
                    Some(text) => Some(text@),
                    None => None,
                },
            ),
    {
        let remote_seconds = if local {
            None
        } else {
            match expires {
                Some(text) => duration_seconds(text),
                None => None,
            }
        };
        BulkPlan { count, group, local, remote_seconds }
    }
}

fn finish_with(reply: BulkReply) -> (r: (BulkPhase, BulkCommand))
    ensures
        r == bulk_finish(reply),
{
    (BulkPhase::Finished, BulkCommand::Finish(reply))
}

fn start_keys(plan: &BulkPlan, total: usize, now: i64) -> (r: (BulkPhase, BulkCommand))
    requires
        plan.remote_seconds is Some ==> i64::MIN <= now + plan.remote_seconds->0 <= i64::MAX,
    ensures
        r == after_quota(*plan, total, now),
{
    if plan.local {
        (BulkPhase::CapacityAsked { total }, BulkCommand::AskCapacity)
    } else if total == 0 {
        finish_with(BulkReply::RemoteSummary { created: 0, total: 0 })
    } else {
        let expires_at = match plan.remote_seconds {
            Some(seconds) => Some(now + seconds),
            None => None,
        };
        (
            BulkPhase::Remote { index: 0, created: 0, total, expires_at, step: KeyStep::Creating },
            BulkCommand::CreateRemote(0),
        )
    }
}

fn advance(index: usize, created: usize, total: usize, expires_at: Option<i64>) -> (r: (
    BulkPhase,
    BulkCommand,
))
    requires
        index < total,
    ensures
        r == next_key(index, created, total, expires_at),
{
    if index + 1 < total {
        (
            BulkPhase::Remote { index: index + 1, created, total, expires_at, step: KeyStep::Creating },
            BulkCommand::CreateRemote(index + 1),
        )
    } else {
        finish_with(BulkReply::RemoteSummary { created, total })
    }
}

/// One step of creating a batch: the next phase, and the command to perform.
pub fn bulk_step(plan: &BulkPlan, phase: BulkPhase, event: BulkEvent) -> (r: (
    BulkPhase,
    BulkCommand,
))
    requires
        bulk_reachable(*plan, phase),
        bulk_expiry_fits(*plan, phase, event),
    ensures
        r == bulk_transition(*plan, phase, event),
{
    match (phase, event) {
        (BulkPhase::Start, BulkEvent::NamesGenerated(names, now)) => match names {
            None => finish_with(BulkReply::BadPrefix),
            Some(total) => match plan.group {
                Some(group) => (BulkPhase::QuotaAsked { total }, BulkCommand::AskRemaining(group)),
                None => start_keys(plan, total, now),
            },
        },
        (BulkPhase::QuotaAsked { total }, BulkEvent::Remaining(remaining, now)) => {
            let short = match remaining {
                Some(r) => (r as i128) < (plan.count as i128),
                None => false,
            };
            if short {
                finish_with(BulkReply::QuotaReached)
            } else {
                start_keys(plan, total, now)
            }
        },
        (BulkPhase::CapacityAsked { .. }, BulkEvent::Capacity(free)) => match free {
            None => finish_with(BulkReply::CapacityUnavailable),
            Some(f) => if f == 0 {
                finish_with(BulkReply::CapacityExhausted)
            } else if (f as u64 as u128) < (plan.count as u128) {
                finish_with(BulkReply::CapacityInsufficient { free: f })
            } else {
                (BulkPhase::CollisionsAsked, BulkCommand::CheckCollisions)
            },
        },
        (BulkPhase::CollisionsAsked, BulkEvent::Listed(taken)) => match taken {
            Some(n) => if n > 0 {
                finish_with(BulkReply::NamesTaken { count: n })
            } else {
                (BulkPhase::AddingMany, BulkCommand::AddMany)
            },
            None => (BulkPhase::AddingMany, BulkCommand::AddMany),
        },
        (BulkPhase::AddingMany, BulkEvent::ManyAdded(ok)) => finish_with(
            if ok {
                BulkReply::Created
            } else {
                BulkReply::Failed
            },
        ),
        (BulkPhase::Remote { index, created, total, expires_at, step }, event) => match (
            step,
            event,
        ) {
            (KeyStep::Creating, BulkEvent::Created(ok)) => if !ok {
                advance(index, created, total, expires_at)
            } else {
                match expires_at {
                    Some(at) => (
                        BulkPhase::Remote {
                            index,
                            created,
                            total,
                            expires_at,
                            step: KeyStep::ExpirySetting,
                        },
                        BulkCommand::SetRemoteExpiry(index, at),
                    ),
                    None => (
                        BulkPhase::Remote {
                            index,
                            created,
                            total,
                            expires_at,
                            step: KeyStep::GroupAssigning,
                        },
                        BulkCommand::AssignGroup(index),
                    ),
                }
            },
            (KeyStep::ExpirySetting, BulkEvent::ExpirySet(ok)) => if ok {
                (
                    BulkPhase::Remote {
                        index,
                        created,
                        total,
                        expires_at,
                        step: KeyStep::GroupAssigning,
                    },
                    BulkCommand::AssignGroup(index),
                )
            } else {
                (
                    BulkPhase::Remote { index, created, total, expires_at, step: KeyStep::Discarding },
                    BulkCommand::DiscardRemote(index),
                )
            },
            (KeyStep::GroupAssigning, BulkEvent::GroupAssigned) => (
                BulkPhase::Remote { index, created, total, expires_at, step: KeyStep::ServerBinding },
                BulkCommand::BindServer(index),
            ),
            (KeyStep::ServerBinding, BulkEvent::ServerBound(ok)) => if ok {
                (
                    BulkPhase::Remote {
                        index,
                        created: created + 1,
                        total,
                        expires_at,
                        step: KeyStep::Delivering,
                    },
                    BulkCommand::RecordAndDeliver(index),
                )
            } else {
                (
                    BulkPhase::Remote { index, created, total, expires_at, step: KeyStep::Discarding },
                    BulkCommand::DiscardRemote(index),
                )
            },
            (KeyStep::Discarding, BulkEvent::Removed) => advance(index, created, total, expires_at),
            (KeyStep::Delivering, BulkEvent::Delivered) => advance(
                index,
                created,
                total,
                expires_at,
            ),
            _ => finish_with(BulkReply::Failed),
        },
        _ => finish_with(BulkReply::Failed),
    }
}

// ---------------------------------------------------------------------------
// Albums and the summary
// ---------------------------------------------------------------------------

/// The most files one album holds.
pub const ALBUM_LIMIT: usize = 10;

/// The index ranges of the albums that carry `n` files: consecutive, in
/// order, each of `ALBUM_LIMIT` files but the last.
pub open spec fn album_ranges_spec(n: nat) -> Seq<(usize, usize)> {
    Seq::new(
        (n + 9) / 10,
        |i: int|
            (
                (10 * i) as usize,
                (if 10 * i + 10 <= n {
                    10 * i + 10
                } else {
                    n as int
                }) as usize,
            ),
    )
}

/// The albums that carry `n` files, as index ranges.
pub fn album_ranges(n: usize) -> (r: Vec<(usize, usize)>)
    ensures
        r@ == album_ranges_spec(n as nat),
{
    let count: usize = n / ALBUM_LIMIT + if n % ALBUM_LIMIT == 0 {
        0
    } else {
        1
    };
    assert(count == (n + 9) / 10) by (nonlinear_arith)
        requires
            count == n / 10 + if n % 10 == 0 {
                0int
            } else {
                1int
            },
    ;
    let mut r: Vec<(usize, usize)> = Vec::new();
    let mut i: usize = 0;
    while i < count
        invariant
            count == (n + 9) / 10,
            i <= count,
            r@.len() == i,
            forall|j: int| 0 <= j < i ==> #[trigger] r@[j] == album_ranges_spec(n as nat)[j],
        decreases count - i,
    {
        assert(10 * i < n) by (nonlinear_arith)
            requires
                i < count,
                count == (n + 9) / 10,
        ;
        let start = ALBUM_LIMIT * i;
        let end = if n - start >= ALBUM_LIMIT {
            start + ALBUM_LIMIT
        } else {
            n
        };
        r.push((start, end));
        i += 1;
    }
    assert(r@ =~= album_ranges_spec(n as nat));
    r
}

/// Albums go out when the settings ask for configuration files and at least
/// one key was created.
pub fn sends_albums(deliver_conf: bool, created: usize) -> (r: bool)
    ensures
        r == (deliver_conf && created > 0),
{
    deliver_conf && created > 0
}

/// The summary of a batch on the remote node at `location`.
pub open spec fn remote_summary(location: Seq<char>, created: int, total: int) -> Seq<char> {
    "✅ На сервере «"@ + location + "» создано "@ + decimal(created) + "/"@ + decimal(total)
        + " ключей."@
}

/// The summary of a batch on the remote node at `location`.
pub fn remote_summary_text(location: &str, created: usize, total: usize) -> (s: String)
    ensures
        s@ == remote_summary(location@, created as int, total as int),
{
    let mut s = String::from_str("✅ На сервере «");
    s.append(location);
    s.append("» создано ");
    let c = format_usize(created);
    s.append(c.as_str());
    s.append("/");
    let t = format_usize(total);
    s.append(t.as_str());
    s.append(" ключей.");
    s
}

// ---------------------------------------------------------------------------
// Laws
// ---------------------------------------------------------------------------

/// Every step leads from a reachable phase to a reachable one.
pub proof fn law_bulk_steps_stay_reachable(plan: BulkPlan, phase: BulkPhase, event: BulkEvent)
    requires
        bulk_reachable(plan, phase),
        bulk_awaits(phase, event),
    ensures
        bulk_reachable(plan, bulk_transition(plan, phase, event).0),
{
}

/// A batch for a group goes on only when the group has room for all of it (or
/// its room is unknown).
pub proof fn law_bulk_quota_check(plan: BulkPlan, total: usize, remaining: i64, now: i64)
    requires
        remaining < plan.count,
    ensures
        bulk_transition(plan, BulkPhase::QuotaAsked { total }, BulkEvent::Remaining(Some(remaining), now))
            == bulk_finish(BulkReply::QuotaReached),
{
}

/// The keys here are looked up only when enough addresses are free, and
/// created only when no generated name is known to be taken.
pub proof fn law_bulk_capacity_check(plan: BulkPlan, phase: BulkPhase, event: BulkEvent)
    ensures
        bulk_transition(plan, phase, event).1 == BulkCommand::CheckCollisions ==> (event matches BulkEvent::Capacity(
            Some(free),
        ) && free > 0 && free >= plan.count),
        bulk_transition(plan, phase, event).1 == BulkCommand::AddMany ==> (phase
            == BulkPhase::CollisionsAsked && (event == BulkEvent::Listed(None) || event
            == BulkEvent::Listed(Some(0)))),
{
}

/// On a remote node the names are tried one after the other, each once, and
/// the summary never counts more keys than were tried.
pub proof fn law_bulk_remote_in_order(plan: BulkPlan, phase: BulkPhase, event: BulkEvent)
    requires
        bulk_reachable(plan, phase),
        bulk_awaits(phase, event),
    ensures
        bulk_transition(plan, phase, event).1 matches BulkCommand::CreateRemote(next) ==> (
        next == 0 || (phase matches BulkPhase::Remote { index, .. } && next == index + 1)),
        bulk_transition(plan, phase, event).1 matches BulkCommand::Finish(
            BulkReply::RemoteSummary { created, total },
        ) ==> created <= total,
{
}

/// A remote key is counted as created only once it is bound to its server; a
/// key whose term or binding failed is removed.
pub proof fn law_bulk_counts_bound_keys(plan: BulkPlan, phase: BulkPhase, event: BulkEvent)
    requires
        bulk_reachable(plan, phase),
        bulk_awaits(phase, event),
        phase matches BulkPhase::Remote { .. },
    ensures
        bulk_transition(plan, phase, event).0 matches BulkPhase::Remote { created: after, .. }
            ==> (phase matches BulkPhase::Remote { created: before, step, .. } && (after == before || (
        after == before + 1 && step is ServerBinding && event == BulkEvent::ServerBound(true)))),
        (event == BulkEvent::ExpirySet(false) || event == BulkEvent::ServerBound(false)) ==> (
        bulk_transition(plan, phase, event).1 is DiscardRemote),
{
}

} // verus!
