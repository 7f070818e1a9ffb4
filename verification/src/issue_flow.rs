//! Issuing a key to a customer, for a purchase or as a free trial: the
//! checks before, then creating the key (here or on a remote node), setting
//! its term, binding it to its owner and server, and removing it again when a
//! later step fails.
//!
//! `issue_step` decides; the caller performs each command and reports the
//! outcome back as the next event.

use vstd::prelude::*;
use vstd::string::*;
use crate::handlers::{duration_seconds, duration_value, ends_in_single_byte, tariff_days, tariff_duration};

verus! {

// ---------------------------------------------------------------------------
// Checks before a key is created
// ---------------------------------------------------------------------------

/// Why a key cannot be issued.
#[derive(Debug, Clone, Copy, PartialEq, Eq, Structural)]
pub enum IssueRefusal {
    /// The chosen server does not exist.
    ServerMissing,
    /// The chosen server takes no more keys.
    ServerFull,
    /// The user is not registered.
    UnknownUser,
    /// No default server for trials is set.
    NoDefaultServer,
    /// The default server is not available.
    DefaultUnavailable,
    /// The tariff is not one of the offered terms.
    UnknownTariff,
    /// No free name could be made for the key.
    NoFreeName,
}

/// The server chosen for a purchase, when it exists: whether it takes new
/// keys, its key count and its capacity.
pub struct ServerLoad {
    pub enabled: bool,
    pub keys: i64,
    pub capacity: i64,
}

/// Whether a purchase may go to the chosen server.
pub open spec fn purchase_refusal(server: Option<(bool, i64, i64)>) -> Option<IssueRefusal> {
    match server {
        None => Some(IssueRefusal::ServerMissing),
        Some((enabled, keys, capacity)) => if !enabled || keys >= capacity {
            Some(IssueRefusal::ServerFull)
        } else {
            None
        },
    }
}

/// The refusal of a purchase on `server`, if any: it must exist, take new
/// keys, and have a free place.
pub fn purchase_server_check(server: Option<&ServerLoad>) -> (r: Option<IssueRefusal>)
    ensures
        r == purchase_refusal(
            match server {
                Some(s) => Some((s.enabled, s.keys, s.capacity)),
                None => None,
            },
        ),
{
    match server {
        None => Some(IssueRefusal::ServerMissing),
        Some(s) => if !s.enabled || s.keys >= s.capacity {
            Some(IssueRefusal::ServerFull)
        } else {
            None
        },
    }
}

/// The server a trial key goes to: the default server, when it is among the
/// available ones.
pub open spec fn trial_server_spec(default: Option<i64>, available: Seq<i64>) -> Result<
    i64,
    IssueRefusal,
> {
    match default {
        None => Err(IssueRefusal::NoDefaultServer),
        Some(id) => if available.contains(id) {
            Ok(id)
        } else {
            Err(IssueRefusal::DefaultUnavailable)
        },
    }
}

pub fn trial_server(default: Option<i64>, available: &[i64]) -> (r: Result<i64, IssueRefusal>)
    ensures
        r == trial_server_spec(default, available@),
{
    match default {
        None => Err(IssueRefusal::NoDefaultServer),
        Some(id) => if crate::auth::contains_id(available, id) {
            Ok(id)
        } else {
            Err(IssueRefusal::DefaultUnavailable)
        },
    }
}

/// The name stem of a trial key: the user's base name marked as a trial.
pub open spec fn trial_stem(base: Seq<char>) -> Seq<char> {
    base + "_trial"@
}

pub fn trial_name_stem(base: &str) -> (s: String)
    ensures
        s@ == trial_stem(base@),
{
    let mut s = base.to_string();
    s.append("_trial");
    s
}

// ---------------------------------------------------------------------------
// The issuing steps
// ---------------------------------------------------------------------------

/// The term of a key created on a remote node.
#[derive(Debug, Clone, Copy, PartialEq, Eq, Structural)]
pub enum IssueTerm {
    /// It expires at this time.
    At(i64),
    /// It expires this many seconds after it is created.
    Lasting(i64),
    /// The term does not read as a duration.
    Invalid,
}

/// What is known before the key is created.
#[derive(Debug, Clone, Copy, PartialEq, Eq, Structural)]
pub struct IssuePlan {
    /// The key is created on this host rather than on a remote node.
    pub local: bool,
    pub term: IssueTerm,
}

/// The remote term of a purchased key with the tariff term `expires`.
pub open spec fn purchase_term(expires: Seq<char>) -> IssueTerm {
    match duration_value(expires) {
        Some(seconds) => IssueTerm::Lasting(seconds),
        None => IssueTerm::Invalid,
    }
}

/// The seconds a trial key lasts.
pub const TRIAL_SECONDS: i64 = 86_400;

impl IssuePlan {
    /// The plan of a purchased key with the tariff term `expires` (such as
    /// `30d`).
    pub fn purchase(local: bool, expires: &str) -> (plan: IssuePlan)
        requires
            ends_in_single_byte(expires@),
        ensures
            plan.local == local,
            plan.term == purchase_term(expires@),
    {
        let term = match duration_seconds(expires) {
            Some(seconds) => IssueTerm::Lasting(seconds),
            None => IssueTerm::Invalid,
        };
        IssuePlan { local, term }
    }

    /// The plan of a trial key claimed at `claimed_at`: it lasts a day from
    /// the claim.
    pub fn trial(local: bool, claimed_at: i64) -> (plan: IssuePlan)
        requires
            claimed_at + TRIAL_SECONDS <= i64::MAX,
        ensures
            plan.local == local,
            plan.term == IssueTerm::At((claimed_at + TRIAL_SECONDS) as i64),
    {
        IssuePlan { local, term: IssueTerm::At(claimed_at + TRIAL_SECONDS) }
    }
}

#[derive(Debug, Clone, Copy, PartialEq, Eq, Structural)]
pub enum IssuePhase {
    /// Waiting for the key to be created.
    Creating,
    /// Waiting for the remote key's term to be set.
    ExpirySetting,
    /// Removing the remote key whose term could not be set.
    Discarding,
    /// Waiting for the key to be bound to its owner and server.
    Binding,
    /// Removing the key that could not be bound.
    Unbinding,
    Finished,
}

#[derive(Debug, Clone, Copy, PartialEq, Eq, Structural)]
pub enum IssueEvent {
    /// Whether the key was created, and the time.
    Created(bool, i64),
    ExpirySet(bool),
    /// Whether the server binding held.
    Bound(bool),
    Removed,
}

#[derive(Debug, Clone, Copy, PartialEq, Eq, Structural)]
pub enum IssueCommand {
    /// Create the key here with the plan's term.
    CreateLocal,
    CreateRemote,
    /// Set the remote key to expire at this time.
    SetRemoteExpiry(i64),
    /// Remove the remote key again.
    DiscardRemote,
    /// Bind the key to no group, to its owner, and to its server.
    Bind,
    /// Remove the key (here or remotely, as created).
    RemoveKey,
    /// The key was issued.
    Issued,
    /// The key could not be issued.
    Failed,
}

/// The first step: creating the key.
pub open spec fn issue_start(plan: IssuePlan) -> (IssuePhase, IssueCommand) {
    (IssuePhase::Creating, if plan.local {
        IssueCommand::CreateLocal
    } else {
        IssueCommand::CreateRemote
    })
}

/// The next phase and command after `event` in `phase`.
pub open spec fn issue_transition(plan: IssuePlan, phase: IssuePhase, event: IssueEvent) -> (
    IssuePhase,
    IssueCommand,
) {
    match (phase, event) {
        (IssuePhase::Creating, IssueEvent::Created(ok, now)) => if !ok {
            (IssuePhase::Finished, IssueCommand::Failed)
        } else if plan.local {
            (IssuePhase::Binding, IssueCommand::Bind)
        } else {
            match plan.term {
                IssueTerm::At(at) => (IssuePhase::ExpirySetting, IssueCommand::SetRemoteExpiry(at)),
                IssueTerm::Lasting(seconds) => (
                    IssuePhase::ExpirySetting,
                    IssueCommand::SetRemoteExpiry((now + seconds) as i64),
                ),
                IssueTerm::Invalid => (IssuePhase::Finished, IssueCommand::Failed),
            }
        },
        (IssuePhase::ExpirySetting, IssueEvent::ExpirySet(ok)) => if ok {
            (IssuePhase::Binding, IssueCommand::Bind)
        } else {
            (IssuePhase::Discarding, IssueCommand::DiscardRemote)
        },
        (IssuePhase::Discarding, IssueEvent::Removed) => (IssuePhase::Finished, IssueCommand::Failed),
        (IssuePhase::Binding, IssueEvent::Bound(ok)) => if ok {
            (IssuePhase::Finished, IssueCommand::Issued)
        } else {
            (IssuePhase::Unbinding, IssueCommand::RemoveKey)
        },
        (IssuePhase::Unbinding, IssueEvent::Removed) => (IssuePhase::Finished, IssueCommand::Failed),
        _ => (IssuePhase::Finished, IssueCommand::Failed),
    }
}

/// The term of a remote key fits in `i64`.
pub open spec fn issue_expiry_fits(plan: IssuePlan, event: IssueEvent) -> bool {
    match (event, plan.term) {
        (IssueEvent::Created(true, now), IssueTerm::Lasting(seconds)) => plan.local || i64::MIN
            <= now + seconds <= i64::MAX,
        _ => true,
    }
}

/// The first step of issuing a key.
pub fn issue_begin(plan: &IssuePlan) -> (r: (IssuePhase, IssueCommand))
    ensures
        r == issue_start(*plan),
{
    (IssuePhase::Creating, if plan.local {
        IssueCommand::CreateLocal
    } else {
        IssueCommand::CreateRemote
    })
}

/// One step of issuing a key: the next phase, and the command to perform.
pub fn issue_step(plan: &IssuePlan, phase: IssuePhase, event: IssueEvent) -> (r: (
    IssuePhase,
    IssueCommand,
))
    requires
        issue_expiry_fits(*plan, event),
    ensures
        r == issue_transition(*plan, phase, event),
{
    match (phase, event) {
        (IssuePhase::Creating, IssueEvent::Created(ok, now)) => if !ok {
            (IssuePhase::Finished, IssueCommand::Failed)
        } else if plan.local {
            (IssuePhase::Binding, IssueCommand::Bind)
        } else {
            match plan.term {
                IssueTerm::At(at) => (IssuePhase::ExpirySetting, IssueCommand::SetRemoteExpiry(at)),
                IssueTerm::Lasting(seconds) => (
                    IssuePhase::ExpirySetting,
                    IssueCommand::SetRemoteExpiry(now + seconds),
                ),
                IssueTerm::Invalid => (IssuePhase::Finished, IssueCommand::Failed),
            }
        },
        (IssuePhase::ExpirySetting, IssueEvent::ExpirySet(ok)) => if ok {
            (IssuePhase::Binding, IssueCommand::Bind)
        } else {
            (IssuePhase::Discarding, IssueCommand::DiscardRemote)
        },
        (IssuePhase::Discarding, IssueEvent::Removed) => (IssuePhase::Finished, IssueCommand::Failed),
        (IssuePhase::Binding, IssueEvent::Bound(ok)) => if ok {
            (IssuePhase::Finished, IssueCommand::Issued)
        } else {
            (IssuePhase::Unbinding, IssueCommand::RemoveKey)
        },
        (IssuePhase::Unbinding, IssueEvent::Removed) => (IssuePhase::Finished, IssueCommand::Failed),
        _ => (IssuePhase::Finished, IssueCommand::Failed),
    }
}

/// A key is reported issued only after it was bound to its server.
pub proof fn law_issued_only_when_bound(plan: IssuePlan, phase: IssuePhase, event: IssueEvent)
    requires
        issue_transition(plan, phase, event).1 == IssueCommand::Issued,
    ensures
        phase == IssuePhase::Binding,
        event == IssueEvent::Bound(true),
{
}

/// A remote key whose term could not be set, or any key whose server binding
/// failed, is removed next.
pub proof fn law_issue_failed_key_is_removed(plan: IssuePlan, phase: IssuePhase, event: IssueEvent)
    ensures
        (phase == IssuePhase::ExpirySetting && event == IssueEvent::ExpirySet(false))
            ==> issue_transition(plan, phase, event).1 == IssueCommand::DiscardRemote,
        (phase == IssuePhase::Binding && event == IssueEvent::Bound(false)) ==> issue_transition(
            plan,
            phase,
            event,
        ).1 == IssueCommand::RemoveKey,
{
}

/// A trial key on a remote node expires a day after it was claimed.
pub proof fn law_trial_lasts_a_day(local: bool, claimed_at: i64, now: i64)
    requires
        !local,
        claimed_at + TRIAL_SECONDS <= i64::MAX,
    ensures
        issue_transition(
            IssuePlan { local, term: IssueTerm::At((claimed_at + TRIAL_SECONDS) as i64) },
            IssuePhase::Creating,
            IssueEvent::Created(true, now),
        ).1 == IssueCommand::SetRemoteExpiry((claimed_at + 86_400) as i64),
{
}

// ---------------------------------------------------------------------------
// A purchased key: the checks, then the issuing steps
// ---------------------------------------------------------------------------

/// Why a purchase of `months` months on `server` by a user (`user_known`:
/// registered) cannot be issued, when a free name was (`name_found`) or was
/// not made; checked in this order: server, user, name, tariff.
pub open spec fn purchase_checks(
    server: Option<(bool, i64, i64)>,
    user_known: bool,
    name_found: bool,
    months: i64,
) -> Option<IssueRefusal> {
    if purchase_refusal(server) is Some {
        purchase_refusal(server)
    } else if !user_known {
        Some(IssueRefusal::UnknownUser)
    } else if !name_found {
        Some(IssueRefusal::NoFreeName)
    } else if tariff_days(months) is None {
        Some(IssueRefusal::UnknownTariff)
    } else {
        None
    }
}

/// The start of issuing a purchased key: a refusal, with no key created, or
/// the plan and the command that creates the key.
pub fn purchase_begin(
    server: Option<&ServerLoad>,
    local: bool,
    user_known: bool,
    name_found: bool,
    months: i64,
) -> (r: Result<(IssuePlan, IssuePhase, IssueCommand), IssueRefusal>)
    ensures
        match purchase_checks(
            match server {
                Some(s) => Some((s.enabled, s.keys, s.capacity)),
                None => None,
            },
            user_known,
            name_found,
            months,
        ) {
            Some(refusal) => r == Err::<(IssuePlan, IssuePhase, IssueCommand), IssueRefusal>(refusal),
            None => r matches Ok((plan, phase, command)) && plan.local == local && plan.term
                == purchase_term(tariff_days(months)->0) && (phase, command) == issue_start(plan),
        },
{
    if let Some(refusal) = purchase_server_check(server) {
        return Err(refusal);
    }
    if !user_known {
        return Err(IssueRefusal::UnknownUser);
    }
    if !name_found {
        return Err(IssueRefusal::NoFreeName);
    }
    let expires = match tariff_duration(months) {
        Some(e) => e,
        None => return Err(IssueRefusal::UnknownTariff),
    };
    proof {
        reveal_strlit("30d");
        reveal_strlit("90d");
        reveal_strlit("180d");
        reveal_strlit("365d");
    }
    let plan = IssuePlan::purchase(local, expires);
    let (phase, command) = issue_begin(&plan);
    Ok((plan, phase, command))
}

// ---------------------------------------------------------------------------
// A trial key: the claim around the issuing steps
// ---------------------------------------------------------------------------

/// What to do about a trial.
#[derive(Debug, Clone, Copy, PartialEq, Eq, Structural)]
pub enum TrialStep {
    /// The claim was refused (a trial was given before): nothing happens.
    NotDue,
    /// Release the claim made at `at`; `notify`: tell the user the trial
    /// could not be issued.
    Release { at: i64, notify: bool },
    /// Issue the trial key with this plan, starting with this command.
    Issue { plan: IssuePlan, command: IssueCommand },
    /// The key was issued: send the gift message and its files.
    Gift,
}

/// The start of a trial claimed (or not) at `claimed_at`: a user that is not
/// registered releases the claim silently; no usable default server (`server`
/// holds whether it is local, when it is available) or no free name releases
/// it and tells the user; otherwise the key is created.
pub open spec fn trial_begin_spec(
    claimed: bool,
    claimed_at: i64,
    user_known: bool,
    server: Option<bool>,
    name_found: bool,
) -> TrialStep {
    if !claimed {
        TrialStep::NotDue
    } else if !user_known {
        TrialStep::Release { at: claimed_at, notify: false }
    } else {
        match server {
            None => TrialStep::Release { at: claimed_at, notify: true },
            Some(local) => if !name_found {
                TrialStep::Release { at: claimed_at, notify: true }
            } else {
                let plan = IssuePlan {
                    local,
                    term: IssueTerm::At((claimed_at + TRIAL_SECONDS) as i64),
                };
                TrialStep::Issue { plan, command: issue_start(plan).1 }
            },
        }
    }
}

pub fn trial_begin(
    claimed: bool,
    claimed_at: i64,
    user_known: bool,
    server: Option<bool>,
    name_found: bool,
) -> (r: TrialStep)
    requires
        claimed_at + TRIAL_SECONDS <= i64::MAX,
    ensures
        r == trial_begin_spec(claimed, claimed_at, user_known, server, name_found),
{
    if !claimed {
        return TrialStep::NotDue;
    }
    if !user_known {
        return TrialStep::Release { at: claimed_at, notify: false };
    }
    match server {
        None => TrialStep::Release { at: claimed_at, notify: true },
        Some(local) => if !name_found {
            TrialStep::Release { at: claimed_at, notify: true }
        } else {
            let plan = IssuePlan::trial(local, claimed_at);
            let (_, command) = issue_begin(&plan);
            TrialStep::Issue { plan, command }
        },
    }
}

/// The end of a trial whose issuing steps finished with `last`: the gift
/// when the key was issued, otherwise the claim's release with the time it
/// was made, and a message to the user.
pub open spec fn trial_end_spec(claimed_at: i64, last: IssueCommand) -> TrialStep {
    if last == IssueCommand::Issued {
        TrialStep::Gift
    } else {
        TrialStep::Release { at: claimed_at, notify: true }
    }
}

pub fn trial_end(claimed_at: i64, last: IssueCommand) -> (r: TrialStep)
    ensures
        r == trial_end_spec(claimed_at, last),
{
    if let IssueCommand::Issued = last {
        TrialStep::Gift
    } else {
        TrialStep::Release { at: claimed_at, notify: true }
    }
}

/// A claimed trial that does not end in a key releases its claim with the
/// very time it was claimed at, and a trial never both releases and gifts.
pub proof fn law_trial_claim_released_as_claimed(
    claimed_at: i64,
    user_known: bool,
    server: Option<bool>,
    name_found: bool,
    last: IssueCommand,
)
    ensures
        trial_begin_spec(true, claimed_at, user_known, server, name_found) matches TrialStep::Release {
            at,
            ..
        } ==> at == claimed_at,
        last != IssueCommand::Issued ==> trial_end_spec(claimed_at, last) == (TrialStep::Release {
            at: claimed_at,
            notify: true,
        }),
        trial_end_spec(claimed_at, last) == TrialStep::Gift ==> last == IssueCommand::Issued,
        !user_known ==> trial_begin_spec(true, claimed_at, user_known, server, name_found)
            == (TrialStep::Release { at: claimed_at, notify: false }),
{
}

/// A purchase that any check refuses creates no key: the first step is a
/// creation command only when every check passed.
pub proof fn law_refused_purchase_creates_nothing(
    server: Option<(bool, i64, i64)>,
    user_known: bool,
    name_found: bool,
    months: i64,
)
    ensures
        purchase_checks(server, user_known, name_found, months) is None <==> (server matches Some(
            (enabled, keys, capacity),
        ) && enabled && keys < capacity && user_known && name_found && (months == 1 || months == 3
            || months == 6 || months == 12)),
{
}

} // verus!
