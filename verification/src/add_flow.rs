//! Adding one client, step by step: the quota check, replacing an old client,
//! creating the new one (here or on a remote node), binding it to its group
//! and server, and undoing what was done when a later step fails.
//!
//! `add_step` decides; the caller performs each command against the VPN, the
//! store and the chat, and reports the outcome back as the next event.

use vstd::prelude::*;
use crate::handlers::{duration_seconds, duration_value, ends_in_single_byte};
use crate::store::QuotaAssign;

verus! {

/// The term of a key created on a remote node (a local key takes the term as
/// text and reads it itself).
#[derive(Debug, Clone, Copy, PartialEq, Eq, Structural)]
pub enum RemoteTerm {
    /// No term: the key does not expire.
    Unlimited,
    /// The key expires this many seconds after it is created.
    Seconds(i64),
    /// The term does not read as a duration.
    Invalid,
}

/// What is known before the first step.
#[derive(Debug, Clone, Copy, PartialEq, Eq, Structural)]
pub struct AddPlan {
    /// The client replaces an existing one of the same name.
    pub recreate: bool,
    /// The group the client joins.
    pub group: Option<i64>,
    /// The key is created on this host rather than on a remote node.
    pub local: bool,
    pub term: RemoteTerm,
}

#[derive(Debug, Clone, Copy, PartialEq, Eq, Structural)]
pub enum AddPhase {
    Start,
    /// Waiting for the group's remaining places.
    QuotaAsked,
    /// Waiting for the old client to be removed.
    OldRemoving,
    /// Waiting for the key to be created.
    Creating,
    /// Waiting for the remote key's term to be set.
    ExpirySetting,
    /// Removing a remote key whose term could not be set.
    RemoteDiscarding,
    /// Waiting for the group binding.
    GroupAssigning,
    /// Waiting for the server binding; carries the group binding's outcome.
    ServerAssigning(QuotaAssign),
    /// Removing a key that could not be bound to its server.
    Unbinding,
    /// Removing a key that lost the race for the group's last place.
    QuotaRollingBack,
    /// Waiting for the key's files to be delivered.
    Delivering,
    Finished,
}

#[derive(Debug, Clone, Copy, PartialEq, Eq, Structural)]
pub enum CreateOutcome {
    Created,
    /// A client of that name appeared in the meantime; whether it lies in
    /// the user's scope.
    Exists { in_scope: bool },
    Failed,
}

#[derive(Debug, Clone, Copy, PartialEq, Eq, Structural)]
pub enum AddEvent {
    Begin,
    Remaining(Option<i64>),
    /// Whether a removal succeeded.
    Removed(bool),
    /// The creation's outcome and the time it completed.
    Created(CreateOutcome, i64),
    ExpirySet(bool),
    GroupAssigned(QuotaAssign),
    ServerBound(bool),
    Delivered(bool),
}

/// How the dialog ends.
#[derive(Debug, Clone, Copy, PartialEq, Eq, Structural)]
pub enum AddReply {
    /// The group is full.
    QuotaReached { with_home: bool },
    /// An error message.
    Failed { with_home: bool },
    /// The name is taken; with the offer to recreate the key when the client
    /// is in the user's scope, otherwise with the home menu.
    Exists { offer_recreate: bool },
    /// The key was created; its files were delivered unless stated.
    Done { delivery_failed: bool },
}

#[derive(Debug, Clone, Copy, PartialEq, Eq, Structural)]
pub enum AddCommand {
    /// Read the group's remaining places.
    AskRemaining(i64),
    /// Remove the client that is being replaced.
    RemoveOld,
    CreateLocal,
    CreateRemote,
    /// Set the remote key to expire at this time.
    SetRemoteExpiry(i64),
    /// Remove the remote key again.
    DiscardRemote,
    /// Record the creation, then bind the client to the plan's group; under
    /// the group's quota when `quota` holds.
    AssignGroup { quota: bool },
    BindServer,
    /// Remove the key that could not be bound (here or remotely, as created).
    RemoveUnbound,
    /// Remove the client that did not fit into its group, and record that.
    RollBackQuota,
    Deliver,
    Finish(AddReply),
}

/// The remote term for a key created with the term `expires`.
pub open spec fn remote_term(local: bool, expires: Option<Seq<char>>) -> RemoteTerm {
    if local {
        RemoteTerm::Unlimited
    } else {
        match expires {
            None => RemoteTerm::Unlimited,
            Some(text) => match duration_value(text) {
                Some(seconds) => RemoteTerm::Seconds(seconds),
                None => RemoteTerm::Invalid,
            },
        }
    }
}

/// The event each phase waits for.
pub open spec fn awaits(phase: AddPhase, event: AddEvent) -> bool {
    match phase {
        AddPhase::Start => event is Begin,
        AddPhase::QuotaAsked => event is Remaining,
        AddPhase::OldRemoving => event is Removed,
        AddPhase::Creating => event is Created,
        AddPhase::ExpirySetting => event is ExpirySet,
        AddPhase::RemoteDiscarding => event is Removed,
        AddPhase::GroupAssigning => event is GroupAssigned,
        AddPhase::ServerAssigning(_) => event is ServerBound,
        AddPhase::Unbinding => event is Removed,
        AddPhase::QuotaRollingBack => event is Removed,
        AddPhase::Delivering => event is Delivered,
        AddPhase::Finished => false,
    }
}

/// The creation step.
pub open spec fn create_step(plan: AddPlan) -> (AddPhase, AddCommand) {
    (AddPhase::Creating, if plan.local {
        AddCommand::CreateLocal
    } else {
        AddCommand::CreateRemote
    })
}

/// The group binding is under the quota for a new client of a group.
pub open spec fn binds_under_quota(plan: AddPlan) -> bool {
    plan.group is Some && !plan.recreate
}

pub open spec fn assign_step(plan: AddPlan) -> (AddPhase, AddCommand) {
    (AddPhase::GroupAssigning, AddCommand::AssignGroup { quota: binds_under_quota(plan) })
}

pub open spec fn finish(reply: AddReply) -> (AddPhase, AddCommand) {
    (AddPhase::Finished, AddCommand::Finish(reply))
}

/// The remaining places leave no room.
pub open spec fn no_room(remaining: Option<i64>) -> bool {
    remaining is Some && remaining->0 < 1
}

/// The next phase and command after `event` in `phase`.
pub open spec fn add_transition(plan: AddPlan, phase: AddPhase, event: AddEvent) -> (
    AddPhase,
    AddCommand,
) {
    match (phase, event) {
        (AddPhase::Start, AddEvent::Begin) => if binds_under_quota(plan) {
            (AddPhase::QuotaAsked, AddCommand::AskRemaining(plan.group->0))
        } else if plan.recreate {
            (AddPhase::OldRemoving, AddCommand::RemoveOld)
        } else {
            create_step(plan)
        },
        (AddPhase::QuotaAsked, AddEvent::Remaining(remaining)) => if no_room(remaining) {
            finish(AddReply::QuotaReached { with_home: false })
        } else {
            create_step(plan)
        },
        (AddPhase::OldRemoving, AddEvent::Removed(ok)) => if ok {
            create_step(plan)
        } else {
            finish(AddReply::Failed { with_home: false })
        },
        (AddPhase::Creating, AddEvent::Created(outcome, now)) => match outcome {
            CreateOutcome::Exists { in_scope } => finish(AddReply::Exists { offer_recreate: in_scope }),
            CreateOutcome::Failed => finish(AddReply::Failed { with_home: true }),
            CreateOutcome::Created => if plan.local {
                assign_step(plan)
            } else {
                match plan.term {
                    RemoteTerm::Unlimited => assign_step(plan),
                    RemoteTerm::Seconds(seconds) => (
                        AddPhase::ExpirySetting,
                        AddCommand::SetRemoteExpiry((now + seconds) as i64),
                    ),
                    RemoteTerm::Invalid => (AddPhase::RemoteDiscarding, AddCommand::DiscardRemote),
                }
            },
        },
        (AddPhase::ExpirySetting, AddEvent::ExpirySet(ok)) => if ok {
            assign_step(plan)
        } else {
            (AddPhase::RemoteDiscarding, AddCommand::DiscardRemote)
        },
        (AddPhase::RemoteDiscarding, AddEvent::Removed(_)) => finish(
            AddReply::Failed { with_home: true },
        ),
        (AddPhase::GroupAssigning, AddEvent::GroupAssigned(outcome)) => (
            AddPhase::ServerAssigning(
                if binds_under_quota(plan) {
                    outcome
                } else {
                    QuotaAssign::Assigned
                },
            ),
            AddCommand::BindServer,
        ),
        (AddPhase::ServerAssigning(outcome), AddEvent::ServerBound(ok)) => if !ok {
            (AddPhase::Unbinding, AddCommand::RemoveUnbound)
        } else if !plan.recreate && outcome == QuotaAssign::Full {
            (AddPhase::QuotaRollingBack, AddCommand::RollBackQuota)
        } else {
            (AddPhase::Delivering, AddCommand::Deliver)
        },
        (AddPhase::Unbinding, AddEvent::Removed(_)) => finish(AddReply::Failed { with_home: false }),
        (AddPhase::QuotaRollingBack, AddEvent::Removed(ok)) => if ok {
            finish(AddReply::QuotaReached { with_home: true })
        } else {
            finish(AddReply::Failed { with_home: false })
        },
        (AddPhase::Delivering, AddEvent::Delivered(ok)) => finish(
            AddReply::Done { delivery_failed: !ok },
        ),
        _ => finish(AddReply::Failed { with_home: false }),
    }
}

/// The phases a plan can reach from its start.
pub open spec fn reachable(plan: AddPlan, phase: AddPhase) -> bool {
    match phase {
        AddPhase::QuotaAsked => binds_under_quota(plan),
        AddPhase::OldRemoving => plan.recreate,
        AddPhase::ExpirySetting => !plan.local && plan.term is Seconds,
        AddPhase::RemoteDiscarding => !plan.local,
        AddPhase::ServerAssigning(outcome) => binds_under_quota(plan) || outcome
            == QuotaAssign::Assigned,
        AddPhase::QuotaRollingBack => binds_under_quota(plan),
        _ => true,
    }
}

/// The expiry time of a remote key fits in `i64`.
pub open spec fn expiry_fits(plan: AddPlan, event: AddEvent) -> bool {
    match (event, plan.term) {
        (AddEvent::Created(CreateOutcome::Created, now), RemoteTerm::Seconds(seconds)) => plan.local
            || i64::MIN <= now + seconds <= i64::MAX,
        _ => true,
    }
}

impl AddPlan {
    /// The plan for adding a client with the term `expires` (such as `30d`).
    pub fn new(recreate: bool, group: Option<i64>, local: bool, expires: Option<&str>) -> (plan:
        AddPlan)
        requires
            !local && expires is Some ==> ends_in_single_byte(expires->0@),
        ensures
            plan.recreate == recreate,
            plan.group == group,
            plan.local == local,
            plan.term == remote_term(
                local,
                match expires {
                    Some(text) => Some(text@),
                    None => None,
                },
            ),
    {
        let term = if local {
            RemoteTerm::Unlimited
        } else {
            match expires {
                None => RemoteTerm::Unlimited,
                Some(text) => match duration_seconds(text) {
                    Some(seconds) => RemoteTerm::Seconds(seconds),
                    None => RemoteTerm::Invalid,
                },
            }
        };
        AddPlan { recreate, group, local, term }
    }
}

fn creation(plan: &AddPlan) -> (r: (AddPhase, AddCommand))
    ensures
        r == create_step(*plan),
{
    (AddPhase::Creating, if plan.local {
        AddCommand::CreateLocal
    } else {
        AddCommand::CreateRemote
    })
}

fn assignment(plan: &AddPlan) -> (r: (AddPhase, AddCommand))
    ensures
        r == assign_step(*plan),
{
    (AddPhase::GroupAssigning, AddCommand::AssignGroup {
        quota: plan.group.is_some() && !plan.recreate,
    })
}

fn finished(reply: AddReply) -> (r: (AddPhase, AddCommand))
    ensures
        r == finish(reply),
{
    (AddPhase::Finished, AddCommand::Finish(reply))
}

/// One step of adding a client: the next phase, and the command to perform.
pub fn add_step(plan: &AddPlan, phase: AddPhase, event: AddEvent) -> (r: (AddPhase, AddCommand))
    requires
        expiry_fits(*plan, event),
    ensures
        r == add_transition(*plan, phase, event),
{
    let under_quota = plan.group.is_some() && !plan.recreate;
    match (phase, event) {
        (AddPhase::Start, AddEvent::Begin) => if under_quota {
            let group = match plan.group {
                Some(g) => g,
                None => 0,
            };
            (AddPhase::QuotaAsked, AddCommand::AskRemaining(group))
        } else if plan.recreate {
            (AddPhase::OldRemoving, AddCommand::RemoveOld)
        } else {
            creation(plan)
        },
        (AddPhase::QuotaAsked, AddEvent::Remaining(remaining)) => {
            let full = match remaining {
                Some(r) => r < 1,
                None => false,
            };
            if full {
                finished(AddReply::QuotaReached { with_home: false })
            } else {
                creation(plan)
            }
        },
        (AddPhase::OldRemoving, AddEvent::Removed(ok)) => if ok {
            creation(plan)
        } else {
            finished(AddReply::Failed { with_home: false })
        },
        (AddPhase::Creating, AddEvent::Created(outcome, now)) => match outcome {
            CreateOutcome::Exists { in_scope } => finished(AddReply::Exists { offer_recreate: in_scope }),
            CreateOutcome::Failed => finished(AddReply::Failed { with_home: true }),
            CreateOutcome::Created => if plan.local {
                assignment(plan)
            } else {
                match plan.term {
                    RemoteTerm::Unlimited => assignment(plan),
                    RemoteTerm::Seconds(seconds) => (
                        AddPhase::ExpirySetting,
                        AddCommand::SetRemoteExpiry(now + seconds),
                    ),
                    RemoteTerm::Invalid => (AddPhase::RemoteDiscarding, AddCommand::DiscardRemote),
                }
            },
        },
        (AddPhase::ExpirySetting, AddEvent::ExpirySet(ok)) => if ok {
            assignment(plan)
        } else {
            (AddPhase::RemoteDiscarding, AddCommand::DiscardRemote)
        },
        (AddPhase::RemoteDiscarding, AddEvent::Removed(_)) => finished(
            AddReply::Failed { with_home: true },
        ),
        (AddPhase::GroupAssigning, AddEvent::GroupAssigned(outcome)) => (
            AddPhase::ServerAssigning(
                if under_quota {
                    outcome
                } else {
                    QuotaAssign::Assigned
                },
            ),
            AddCommand::BindServer,
        ),
        (AddPhase::ServerAssigning(outcome), AddEvent::ServerBound(ok)) => {
            let lost_race = match outcome {
                QuotaAssign::Full => true,
                _ => false,
            };
            if !ok {
                (AddPhase::Unbinding, AddCommand::RemoveUnbound)
            } else if !plan.recreate && lost_race {
                (AddPhase::QuotaRollingBack, AddCommand::RollBackQuota)
            } else {
                (AddPhase::Delivering, AddCommand::Deliver)
            }
        },
        (AddPhase::Unbinding, AddEvent::Removed(_)) => finished(
            AddReply::Failed { with_home: false },
        ),
        (AddPhase::QuotaRollingBack, AddEvent::Removed(ok)) => if ok {
            finished(AddReply::QuotaReached { with_home: true })
        } else {
            finished(AddReply::Failed { with_home: false })
        },
        (AddPhase::Delivering, AddEvent::Delivered(ok)) => finished(
            AddReply::Done { delivery_failed: !ok },
        ),
        _ => finished(AddReply::Failed { with_home: false }),
    }
}

// ---------------------------------------------------------------------------
// Laws
// ---------------------------------------------------------------------------

/// Every step leads from a reachable phase to a reachable one.
pub proof fn law_add_steps_stay_reachable(plan: AddPlan, phase: AddPhase, event: AddEvent)
    requires
        reachable(plan, phase),
        awaits(phase, event),
    ensures
        reachable(plan, add_transition(plan, phase, event).0),
{
    match phase {
        AddPhase::Creating => match event {
            AddEvent::Created(outcome, _) => match outcome {
                CreateOutcome::Created => match plan.term {
                    RemoteTerm::Seconds(_) => {},
                    _ => {},
                },
                _ => {},
            },
            _ => {},
        },
        _ => {},
    }
}

/// A new client of a group is created only after the group's remaining places
/// were read and left room.
pub proof fn law_add_quota_check_precedes_creation(plan: AddPlan, phase: AddPhase, event: AddEvent)
    requires
        reachable(plan, phase),
        binds_under_quota(plan),
        add_transition(plan, phase, event).1 is CreateLocal || add_transition(plan, phase, event).1 is CreateRemote,
    ensures
        phase == AddPhase::QuotaAsked,
        event matches AddEvent::Remaining(remaining) && !no_room(remaining),
{
    match phase {
        AddPhase::Start => {},
        AddPhase::QuotaAsked => {},
        AddPhase::OldRemoving => {},
        AddPhase::Creating => {},
        AddPhase::ExpirySetting => {},
        AddPhase::RemoteDiscarding => {},
        AddPhase::GroupAssigning => {},
        AddPhase::ServerAssigning(_) => {},
        AddPhase::Unbinding => {},
        AddPhase::QuotaRollingBack => {},
        AddPhase::Delivering => {},
        AddPhase::Finished => {},
    }
}

/// A replacing client is created only after the old one was removed.
pub proof fn law_add_recreate_removes_first(plan: AddPlan, phase: AddPhase, event: AddEvent)
    requires
        reachable(plan, phase),
        plan.recreate,
        add_transition(plan, phase, event).1 is CreateLocal || add_transition(plan, phase, event).1 is CreateRemote,
    ensures
        phase == AddPhase::OldRemoving,
        event == AddEvent::Removed(true),
{
    match phase {
        AddPhase::Start => {},
        AddPhase::QuotaAsked => {},
        AddPhase::OldRemoving => {},
        AddPhase::Creating => {},
        AddPhase::ExpirySetting => {},
        AddPhase::RemoteDiscarding => {},
        AddPhase::GroupAssigning => {},
        AddPhase::ServerAssigning(_) => {},
        AddPhase::Unbinding => {},
        AddPhase::QuotaRollingBack => {},
        AddPhase::Delivering => {},
        AddPhase::Finished => {},
    }
}

/// "Done" is reported only once the files are being delivered, which comes
/// only after the key was bound to its server without losing the race for the
/// group's last place.
pub proof fn law_add_done_only_after_success(plan: AddPlan, phase: AddPhase, event: AddEvent)
    ensures
        (add_transition(plan, phase, event).1 matches AddCommand::Finish(AddReply::Done { .. }))
            ==> phase == AddPhase::Delivering,
        add_transition(plan, phase, event).0 == AddPhase::Delivering ==> (phase matches AddPhase::ServerAssigning(outcome)
            && event == AddEvent::ServerBound(true) && !(!plan.recreate && outcome == QuotaAssign::Full)),
{
    match phase {
        AddPhase::Start => {},
        AddPhase::QuotaAsked => {},
        AddPhase::OldRemoving => {},
        AddPhase::Creating => {},
        AddPhase::ExpirySetting => {},
        AddPhase::RemoteDiscarding => {},
        AddPhase::GroupAssigning => {},
        AddPhase::ServerAssigning(_) => {},
        AddPhase::Unbinding => {},
        AddPhase::QuotaRollingBack => {},
        AddPhase::Delivering => {},
        AddPhase::Finished => {},
    }
}

/// A key that exists but cannot stay (its remote term failed, its server
/// binding failed, or its group was already full) is removed next.
pub proof fn law_add_failed_key_is_removed(plan: AddPlan, phase: AddPhase, event: AddEvent)
    ensures
        (phase == AddPhase::Creating && (event matches AddEvent::Created(CreateOutcome::Created, _))
            && !plan.local && plan.term == RemoteTerm::Invalid) ==> add_transition(plan, phase, event).1
            == AddCommand::DiscardRemote,
        (phase == AddPhase::ExpirySetting && event == AddEvent::ExpirySet(false)) ==> add_transition(
            plan,
            phase,
            event,
        ).1 == AddCommand::DiscardRemote,
        ((phase is ServerAssigning) && event == AddEvent::ServerBound(false)) ==> add_transition(
            plan,
            phase,
            event,
        ).1 == AddCommand::RemoveUnbound,
        (phase == AddPhase::ServerAssigning(QuotaAssign::Full) && event == AddEvent::ServerBound(true)
            && !plan.recreate) ==> add_transition(plan, phase, event).1 == AddCommand::RollBackQuota,
{
}

/// Only a new client of a group can lose the race for the group's last place:
/// the binding of any other client counts as assigned.
pub proof fn law_add_quota_only_for_new_group_clients(plan: AddPlan, outcome: QuotaAssign)
    requires
        !binds_under_quota(plan),
    ensures
        add_transition(plan, AddPhase::GroupAssigning, AddEvent::GroupAssigned(outcome)).0
            == AddPhase::ServerAssigning(QuotaAssign::Assigned),
{
}

} // verus!
