use awgram::add_flow::{
    add_step, AddCommand, AddEvent, AddPhase, AddPlan, AddReply, CreateOutcome, RemoteTerm,
};
use awgram::bulk_flow::{
    album_ranges, bulk_step, remote_summary_text, sends_albums, BulkCommand, BulkEvent, BulkPhase,
    BulkPlan, BulkReply, KeyStep,
};
use awgram::issue_flow::{
    purchase_begin, trial_begin, trial_end, TrialStep,
    issue_begin, issue_step, purchase_server_check, trial_name_stem, trial_server, IssueCommand,
    IssueEvent, IssuePhase, IssuePlan, IssueRefusal, IssueTerm, ServerLoad,
};
use awgram::store::QuotaAssign;

fn run_add(plan: &AddPlan, events: &[AddEvent]) -> Vec<AddCommand> {
    let mut phase = AddPhase::Start;
    let mut commands = Vec::new();
    for event in events {
        let (next, command) = add_step(plan, phase, *event);
        phase = next;
        commands.push(command);
    }
    commands
}

#[test]
fn add_plan_reads_remote_term() {
    let plan = AddPlan::new(false, None, false, Some("30d"));
    assert_eq!(plan.term, RemoteTerm::Seconds(30 * 86_400));
    assert_eq!(AddPlan::new(false, None, false, Some("x")).term, RemoteTerm::Invalid);
    assert_eq!(AddPlan::new(false, None, true, Some("30d")).term, RemoteTerm::Unlimited);
    assert_eq!(AddPlan::new(false, None, false, None).term, RemoteTerm::Unlimited);
}

#[test]
fn add_new_group_client_checks_quota_first() {
    let plan = AddPlan::new(false, Some(7), true, None);
    let commands = run_add(&plan, &[AddEvent::Begin, AddEvent::Remaining(Some(0))]);
    assert_eq!(
        commands,
        vec![
            AddCommand::AskRemaining(7),
            AddCommand::Finish(AddReply::QuotaReached { with_home: false })
        ]
    );
}

#[test]
fn add_local_client_happy_path() {
    let plan = AddPlan::new(false, Some(7), true, None);
    let commands = run_add(
        &plan,
        &[
            AddEvent::Begin,
            AddEvent::Remaining(Some(2)),
            AddEvent::Created(CreateOutcome::Created, 1_000),
            AddEvent::GroupAssigned(QuotaAssign::Assigned),
            AddEvent::ServerBound(true),
            AddEvent::Delivered(true),
        ],
    );
    assert_eq!(
        commands,
        vec![
            AddCommand::AskRemaining(7),
            AddCommand::CreateLocal,
            AddCommand::AssignGroup { quota: true },
            AddCommand::BindServer,
            AddCommand::Deliver,
            AddCommand::Finish(AddReply::Done { delivery_failed: false }),
        ]
    );
}

#[test]
fn add_lost_quota_race_is_rolled_back() {
    let plan = AddPlan::new(false, Some(7), true, None);
    let commands = run_add(
        &plan,
        &[
            AddEvent::Begin,
            AddEvent::Remaining(None),
            AddEvent::Created(CreateOutcome::Created, 1_000),
            AddEvent::GroupAssigned(QuotaAssign::Full),
            AddEvent::ServerBound(true),
            AddEvent::Removed(true),
        ],
    );
    assert_eq!(commands[4], AddCommand::RollBackQuota);
    assert_eq!(commands[5], AddCommand::Finish(AddReply::QuotaReached { with_home: true }));
}

#[test]
fn add_recreate_removes_old_client_first() {
    let plan = AddPlan::new(true, Some(7), false, Some("1d"));
    let commands = run_add(
        &plan,
        &[
            AddEvent::Begin,
            AddEvent::Removed(true),
            AddEvent::Created(CreateOutcome::Created, 1_000),
            AddEvent::ExpirySet(true),
            AddEvent::GroupAssigned(QuotaAssign::Full),
            AddEvent::ServerBound(true),
        ],
    );
    assert_eq!(
        commands,
        vec![
            AddCommand::RemoveOld,
            AddCommand::CreateRemote,
            AddCommand::SetRemoteExpiry(1_000 + 86_400),
            AddCommand::AssignGroup { quota: false },
            AddCommand::BindServer,
            AddCommand::Deliver,
        ]
    );
    let failed = run_add(&plan, &[AddEvent::Begin, AddEvent::Removed(false)]);
    assert_eq!(failed[1], AddCommand::Finish(AddReply::Failed { with_home: false }));
}

#[test]
fn add_remote_key_with_failed_term_is_discarded() {
    let plan = AddPlan::new(false, None, false, Some("7d"));
    let commands = run_add(
        &plan,
        &[
            AddEvent::Begin,
            AddEvent::Created(CreateOutcome::Created, 5),
            AddEvent::ExpirySet(false),
            AddEvent::Removed(true),
        ],
    );
    assert_eq!(commands[2], AddCommand::DiscardRemote);
    assert_eq!(commands[3], AddCommand::Finish(AddReply::Failed { with_home: true }));
    let invalid = AddPlan::new(false, None, false, Some("7x"));
    let commands = run_add(&invalid, &[AddEvent::Begin, AddEvent::Created(CreateOutcome::Created, 5)]);
    assert_eq!(commands[1], AddCommand::DiscardRemote);
}

#[test]
fn add_name_taken_or_failure_ends_the_dialog() {
    let plan = AddPlan::new(false, None, true, None);
    let exists = run_add(&plan, &[AddEvent::Begin, AddEvent::Created(CreateOutcome::Exists { in_scope: true }, 0)]);
    assert_eq!(exists[1], AddCommand::Finish(AddReply::Exists { offer_recreate: true }));
    let foreign = run_add(&plan, &[AddEvent::Begin, AddEvent::Created(CreateOutcome::Exists { in_scope: false }, 0)]);
    assert_eq!(foreign[1], AddCommand::Finish(AddReply::Exists { offer_recreate: false }));
    let failed = run_add(&plan, &[AddEvent::Begin, AddEvent::Created(CreateOutcome::Failed, 0)]);
    assert_eq!(failed[1], AddCommand::Finish(AddReply::Failed { with_home: true }));
    let unbound = run_add(
        &plan,
        &[
            AddEvent::Begin,
            AddEvent::Created(CreateOutcome::Created, 0),
            AddEvent::GroupAssigned(QuotaAssign::Assigned),
            AddEvent::ServerBound(false),
            AddEvent::Removed(true),
        ],
    );
    assert_eq!(unbound[3], AddCommand::RemoveUnbound);
    assert_eq!(unbound[4], AddCommand::Finish(AddReply::Failed { with_home: false }));
}

fn run_bulk(plan: &BulkPlan, events: &[BulkEvent]) -> (BulkPhase, Vec<BulkCommand>) {
    let mut phase = BulkPhase::Start;
    let mut commands = Vec::new();
    for event in events {
        let (next, command) = bulk_step(plan, phase, *event);
        phase = next;
        commands.push(command);
    }
    (phase, commands)
}

#[test]
fn bulk_local_checks_quota_and_capacity() {
    let plan = BulkPlan::new(5, Some(3), true, None);
    let (_, quota) = run_bulk(&plan, &[BulkEvent::NamesGenerated(Some(5), 0), BulkEvent::Remaining(Some(4), 0)]);
    assert_eq!(quota[1], BulkCommand::Finish(BulkReply::QuotaReached));
    let plan = BulkPlan::new(5, None, true, None);
    let (_, full) = run_bulk(&plan, &[BulkEvent::NamesGenerated(Some(5), 0), BulkEvent::Capacity(Some(0))]);
    assert_eq!(full, vec![BulkCommand::AskCapacity, BulkCommand::Finish(BulkReply::CapacityExhausted)]);
    let (_, short) = run_bulk(&plan, &[BulkEvent::NamesGenerated(Some(5), 0), BulkEvent::Capacity(Some(4))]);
    assert_eq!(short[1], BulkCommand::Finish(BulkReply::CapacityInsufficient { free: 4 }));
    let (_, unknown) = run_bulk(&plan, &[BulkEvent::NamesGenerated(Some(5), 0), BulkEvent::Capacity(None)]);
    assert_eq!(unknown[1], BulkCommand::Finish(BulkReply::CapacityUnavailable));
    let (_, ok) = run_bulk(
        &plan,
        &[BulkEvent::NamesGenerated(Some(5), 0), BulkEvent::Capacity(Some(5)), BulkEvent::Listed(Some(0)), BulkEvent::ManyAdded(true)],
    );
    assert_eq!(
        ok,
        vec![BulkCommand::AskCapacity, BulkCommand::CheckCollisions, BulkCommand::AddMany, BulkCommand::Finish(BulkReply::Created)]
    );
    let (_, taken) = run_bulk(
        &plan,
        &[BulkEvent::NamesGenerated(Some(5), 0), BulkEvent::Capacity(Some(5)), BulkEvent::Listed(Some(2))],
    );
    assert_eq!(taken[2], BulkCommand::Finish(BulkReply::NamesTaken { count: 2 }));
    let (_, unread) = run_bulk(
        &plan,
        &[BulkEvent::NamesGenerated(Some(5), 0), BulkEvent::Capacity(Some(5)), BulkEvent::Listed(None)],
    );
    assert_eq!(unread[2], BulkCommand::AddMany);
}

#[test]
fn bulk_bad_prefix_stops_at_once() {
    let plan = BulkPlan::new(5, None, true, None);
    let (_, commands) = run_bulk(&plan, &[BulkEvent::NamesGenerated(None, 0)]);
    assert_eq!(commands, vec![BulkCommand::Finish(BulkReply::BadPrefix)]);
}

#[test]
fn bulk_remote_counts_only_bound_keys() {
    let plan = BulkPlan::new(2, None, false, Some("1d"));
    assert_eq!(plan.remote_seconds, Some(86_400));
    let (phase, commands) = run_bulk(
        &plan,
        &[
            BulkEvent::NamesGenerated(Some(2), 100),
            BulkEvent::Created(true),
            BulkEvent::ExpirySet(true),
            BulkEvent::GroupAssigned,
            BulkEvent::ServerBound(true),
            BulkEvent::Delivered,
            BulkEvent::Created(true),
            BulkEvent::ExpirySet(false),
            BulkEvent::Removed,
        ],
    );
    assert_eq!(
        commands,
        vec![
            BulkCommand::CreateRemote(0),
            BulkCommand::SetRemoteExpiry(0, 100 + 86_400),
            BulkCommand::AssignGroup(0),
            BulkCommand::BindServer(0),
            BulkCommand::RecordAndDeliver(0),
            BulkCommand::CreateRemote(1),
            BulkCommand::SetRemoteExpiry(1, 100 + 86_400),
            BulkCommand::DiscardRemote(1),
            BulkCommand::Finish(BulkReply::RemoteSummary { created: 1, total: 2 }),
        ]
    );
    assert_eq!(phase, BulkPhase::Finished);
}

#[test]
fn bulk_remote_invalid_term_means_no_expiry() {
    let plan = BulkPlan::new(1, None, false, Some("soon"));
    assert_eq!(plan.remote_seconds, None);
    let (_, commands) = run_bulk(&plan, &[BulkEvent::NamesGenerated(Some(1), 0), BulkEvent::Created(true)]);
    assert_eq!(commands[1], BulkCommand::AssignGroup(0));
    let (_, failed) = run_bulk(&plan, &[BulkEvent::NamesGenerated(Some(1), 0), BulkEvent::Created(false)]);
    assert_eq!(failed[1], BulkCommand::Finish(BulkReply::RemoteSummary { created: 0, total: 1 }));
}

#[test]
fn bulk_remote_phase_tracks_progress() {
    let plan = BulkPlan::new(3, None, false, None);
    let (phase, _) = run_bulk(&plan, &[BulkEvent::NamesGenerated(Some(3), 0)]);
    assert_eq!(
        phase,
        BulkPhase::Remote { index: 0, created: 0, total: 3, expires_at: None, step: KeyStep::Creating }
    );
}

#[test]
fn albums_hold_at_most_ten_files() {
    assert_eq!(album_ranges(0), vec![]);
    assert_eq!(album_ranges(10), vec![(0, 10)]);
    assert_eq!(album_ranges(23), vec![(0, 10), (10, 20), (20, 23)]);
    assert!(sends_albums(true, 1));
    assert!(!sends_albums(true, 0));
    assert!(!sends_albums(false, 3));
}

#[test]
fn remote_summary_names_the_location_and_counts() {
    assert_eq!(remote_summary_text("Рига", 3, 5), "✅ На сервере «Рига» создано 3/5 ключей.");
}

fn run_issue(plan: &IssuePlan, events: &[IssueEvent]) -> Vec<IssueCommand> {
    let (mut phase, first) = issue_begin(plan);
    let mut commands = vec![first];
    for event in events {
        let (next, command) = issue_step(plan, phase, *event);
        phase = next;
        commands.push(command);
    }
    commands
}

#[test]
fn purchase_needs_a_server_with_room() {
    assert_eq!(purchase_server_check(None), Some(IssueRefusal::ServerMissing));
    let full = ServerLoad { enabled: true, keys: 10, capacity: 10 };
    assert_eq!(purchase_server_check(Some(&full)), Some(IssueRefusal::ServerFull));
    let off = ServerLoad { enabled: false, keys: 0, capacity: 10 };
    assert_eq!(purchase_server_check(Some(&off)), Some(IssueRefusal::ServerFull));
    let room = ServerLoad { enabled: true, keys: 9, capacity: 10 };
    assert_eq!(purchase_server_check(Some(&room)), None);
}

#[test]
fn trial_goes_to_available_default_server() {
    assert_eq!(trial_server(None, &[1, 2]), Err(IssueRefusal::NoDefaultServer));
    assert_eq!(trial_server(Some(3), &[1, 2]), Err(IssueRefusal::DefaultUnavailable));
    assert_eq!(trial_server(Some(2), &[1, 2]), Ok(2));
    assert_eq!(trial_name_stem("alice"), "alice_trial");
}

#[test]
fn purchase_on_remote_node_sets_term_then_binds() {
    let plan = IssuePlan::purchase(false, "30d");
    assert_eq!(plan.term, IssueTerm::Lasting(30 * 86_400));
    let commands = run_issue(
        &plan,
        &[IssueEvent::Created(true, 1_000), IssueEvent::ExpirySet(true), IssueEvent::Bound(true)],
    );
    assert_eq!(
        commands,
        vec![
            IssueCommand::CreateRemote,
            IssueCommand::SetRemoteExpiry(1_000 + 30 * 86_400),
            IssueCommand::Bind,
            IssueCommand::Issued,
        ]
    );
}

#[test]
fn trial_key_lasts_a_day_and_failures_remove_it() {
    let plan = IssuePlan::trial(false, 500);
    let commands = run_issue(
        &plan,
        &[IssueEvent::Created(true, 900), IssueEvent::ExpirySet(false), IssueEvent::Removed],
    );
    assert_eq!(
        commands,
        vec![
            IssueCommand::CreateRemote,
            IssueCommand::SetRemoteExpiry(500 + 86_400),
            IssueCommand::DiscardRemote,
            IssueCommand::Failed,
        ]
    );
    let local = IssuePlan::trial(true, 500);
    let unbound = run_issue(&local, &[IssueEvent::Created(true, 900), IssueEvent::Bound(false), IssueEvent::Removed]);
    assert_eq!(
        unbound,
        vec![IssueCommand::CreateLocal, IssueCommand::Bind, IssueCommand::RemoveKey, IssueCommand::Failed]
    );
}

#[test]
fn purchase_refusals_create_nothing() {
    let open = ServerLoad { enabled: true, keys: 1, capacity: 5 };
    let full = ServerLoad { enabled: true, keys: 5, capacity: 5 };
    assert_eq!(purchase_begin(None, true, true, true, 1).err(), Some(IssueRefusal::ServerMissing));
    assert_eq!(purchase_begin(Some(&full), true, true, true, 1).err(), Some(IssueRefusal::ServerFull));
    assert_eq!(purchase_begin(Some(&open), true, false, true, 1).err(), Some(IssueRefusal::UnknownUser));
    assert_eq!(purchase_begin(Some(&open), true, true, false, 1).err(), Some(IssueRefusal::NoFreeName));
    assert_eq!(purchase_begin(Some(&open), true, true, true, 2).err(), Some(IssueRefusal::UnknownTariff));
    let (plan, _, command) = purchase_begin(Some(&open), false, true, true, 3).unwrap();
    assert_eq!(command, IssueCommand::CreateRemote);
    assert_eq!(plan.term, IssueTerm::Lasting(90 * 86_400));
}

#[test]
fn trial_claim_is_released_with_its_time() {
    let t = 1_000;
    assert_eq!(trial_begin(false, t, true, Some(true), true), TrialStep::NotDue);
    assert_eq!(trial_begin(true, t, false, Some(true), true), TrialStep::Release { at: t, notify: false });
    assert_eq!(trial_begin(true, t, true, None, true), TrialStep::Release { at: t, notify: true });
    assert_eq!(trial_begin(true, t, true, Some(false), false), TrialStep::Release { at: t, notify: true });
    match trial_begin(true, t, true, Some(false), true) {
        TrialStep::Issue { plan, command } => {
            assert_eq!(plan.term, IssueTerm::At(t + 86_400));
            assert_eq!(command, IssueCommand::CreateRemote);
        }
        other => panic!("{other:?}"),
    }
    assert_eq!(trial_end(t, IssueCommand::Issued), TrialStep::Gift);
    assert_eq!(trial_end(t, IssueCommand::Failed), TrialStep::Release { at: t, notify: true });
}
