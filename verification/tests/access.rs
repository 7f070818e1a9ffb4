use awgram::access::authorize;
use awgram::action::Action;
use awgram::auth::Role;
use awgram::model::{ClientFilter, ModifyParam};
use awgram::store::{ListScope, Store};

fn coverage_samples() -> Vec<Action> {
    let samples = vec![
        Action::AdminDashboard,
        Action::AdminVpn,
        Action::AdminServers,
        Action::AdminKeys,
        Action::AdminUsersHub,
        Action::AdminCommunication,
        Action::AdminSystem,
        Action::ServerAdd,
        Action::ServerCard(1),
        Action::RemoteMigration(1),
        Action::RemoteMigrationPreflight(1),
        Action::RemoteMigrationStatus(1),
        Action::RemoteMigrationTest(1),
        Action::RemoteMigrationApprove(1),
        Action::RemoteMigrationAsk(1),
        Action::RemoteMigrationRun(1),
        Action::RemoteMigrationRollback(1),
        Action::ServerBilling,
        Action::ServerBillingAsk(1),
        Action::ServerPassportAsk(1),
        Action::ServerEnroll(1),
        Action::ServerEnrollRevoke(1),
        Action::ServerSetDefault(1),
        Action::ServerDeployAsk(1),
        Action::ServerCheck(1),
        Action::ServerDiagnose(1),
        Action::ServerProvisioningProbe(1),
        Action::ServerPanelConnect(1),
        Action::ServerPanelSync(1),
        Action::ServerPanelAudit(1),
        Action::AdminCreate,
        Action::AdminOwners,
        Action::AdminFinance,
        Action::AdminSupport,
        Action::AdminBroadcast,
        Action::AdminBroadcastTemplates,
        Action::BroadcastAudience("all".into()),
        Action::BroadcastRetry(1),
        Action::AdminHelp,
        Action::AdminSearch,
        Action::AdminRoles,
        Action::AdminRoleAction("add".into()),
        Action::AdminBulk("menu".into()),
        Action::AdminBulkConfirm,
        Action::AdminUser(1),
        Action::AdminUserKeys(1),
        Action::AdminUserDeleteKeysAsk(1),
        Action::AdminUserDeleteKeysConfirm(1),
        Action::AdminUserPayments(1),
        Action::AdminUserBalance(1),
        Action::AdminUserDiscount(1),
        Action::AdminUserNote(1),
        Action::AdminUserBlock(1, true),
        Action::StatsSection("vpn".into()),
        Action::SupportFilter("open".into()),
        Action::AdminPromos,
        Action::AdminPromoAction("discount".into()),
        Action::ClientNoteAsk("key".into()),
        Action::LegacyRenew("key".into()),
        Action::LegacyRenewMethod("key".into(), "manual".into()),
        Action::LegacyRestore,
        Action::LegacyRequestNew,
        Action::LegacyRequestApprove(1),
        Action::LegacyRequestReject(1),
        Action::PromoInput,
        Action::LegacyPriceAsk,
        Action::Menu,
        Action::List,
        Action::Add,
        Action::Stats,
        Action::Page(0),
        Action::ShowClient("s".into()),
        Action::ClientHistory("s".into()),
        Action::SendConf("s".into()),
        Action::AskDelete("s".into()),
        Action::ConfirmDelete("s".into()),
        Action::Recreate("s".into()),
        Action::Regen("s".into()),
        Action::RegenAll,
        Action::RegenAllRun(false),
        Action::Expiry("none".into()),
        Action::Lang("ru".into()),
        Action::Settings,
        Action::SetLang("ru".into()),
        Action::SetPsk(false),
        Action::SetSlug(false),
        Action::AddPsk(false),
        Action::AddServer(1),
        Action::Backup,
        Action::BackupNew,
        Action::BackupList,
        Action::BackupCard(0),
        Action::BackupDownload(0),
        Action::Restore(0),
        Action::RestoreYes(0),
        Action::Check,
        Action::Diagnose,
        Action::Modify("s".into()),
        Action::ModifyParam("s".into(), ModifyParam::Dns),
        Action::Restart,
        Action::RestartRun,
        Action::RepairModule,
        Action::AddBulk,
        Action::AddBulkRun(1),
        Action::BulkExpiry("none".into()),
        Action::AddBulkPsk(false),
        Action::BulkServer(1),
        Action::AcquiringUrlAsk,
        Action::SendQr("s".into()),
        Action::SendLink("s".into()),
        Action::SendAll("s".into()),
        Action::SetConf(false),
        Action::SetQr(false),
        Action::SetLink(false),
        Action::SetListFilter(ClientFilter::All),
        Action::Groups,
        Action::GroupCreate,
        Action::GroupCard(0),
        Action::GroupRenameAsk(0),
        Action::GroupQuotaAsk(0),
        Action::GroupAdmins(0),
        Action::GroupAdminRemove(0, 0),
        Action::GroupInvite(0),
        Action::GroupInviteRevoke(0),
        Action::GroupAdminById(0),
        Action::GroupDeleteAsk(0),
        Action::GroupDeleteDetach(0),
        Action::GroupDeleteAllAsk(0),
        Action::GroupDeleteAllYes(0),
        Action::GroupRegenAsk(0),
        Action::GroupRegenRun(0),
        Action::GroupSelect(0),
        Action::GroupSelectMenu,
        Action::MoveClientAsk("s".into()),
        Action::MoveClientTo(None, "s".into()),
        Action::GroupScopeAsk,
        Action::GroupScopeSet(ListScope::All),
        Action::Unknown,
        Action::AdminOperations,
        Action::AdminOperationsRefresh,
        Action::AdminOperationsAck,
        Action::AdminKeyHealth,
        Action::AdminDbBackup,
        Action::AdminDbBackupAudit,
        Action::ServerMaintenanceAsk(1),
        Action::ServerMaintenanceFinish(1),
    ];

    // Компайл-страховка: исчерпывающий match без wildcard по каждому
    // образцу. Добавили вариант в Action — этот match перестал
    // собираться, пока сюда не добавлен образец нового варианта (а
    // значит, и напоминание дописать для него строку в authorize_table).
    for sample in &samples {
        match sample {
            Action::AdminDashboard => {}
            Action::AdminVpn => {}
            Action::AdminServers => {}
            Action::AdminKeys => {}
            Action::AdminUsersHub => {}
            Action::AdminCommunication => {}
            Action::AdminSystem => {}
            Action::AdminUpdate => {}
            Action::AdminUpdateRun => {}
            Action::AdminUpdateStatus => {}
            Action::AdminUpdateRollback => {}
            Action::ServerAdd => {}
            Action::ServerCard(_) => {}
            Action::RemoteMigration(_) => {}
            Action::RemoteMigrationPreflight(_) => {}
            Action::RemoteMigrationStatus(_) => {}
            Action::RemoteMigrationTest(_) => {}
            Action::RemoteMigrationApprove(_) => {}
            Action::RemoteMigrationAsk(_) => {}
            Action::RemoteMigrationRun(_) => {}
            Action::RemoteMigrationRollback(_) => {}
            Action::ServerBilling => {}
            Action::ServerBillingAsk(_) => {}
            Action::ServerPassportAsk(_) => {}
            Action::ServerEnroll(_) => {}
            Action::ServerEnrollRevoke(_) => {}
            Action::ServerSetDefault(_) => {}
            Action::ServerDeployAsk(_) => {}
            Action::ServerCheck(_) => {}
            Action::ServerDiagnose(_) => {}
            Action::ServerProvisioningProbe(_) => {}
            Action::ServerPanelConnect(_) => {}
            Action::ServerPanelSync(_) => {}
            Action::ServerPanelAudit(_) => {}
            Action::LocalMigration => {}
            Action::LocalMigrationPreflight => {}
            Action::LocalMigrationStart => {}
            Action::LocalMigrationStatus => {}
            Action::LocalMigrationRollback => {}
            Action::AdminCreate => {}
            Action::AdminOwners => {}
            Action::AdminOwnersPage(_) => {}
            Action::AdminFinance => {}
            Action::AdminSupport => {}
            Action::AdminBroadcast => {}
            Action::AdminBroadcastTemplates => {}
            Action::BroadcastAudience(_) => {}
            Action::BroadcastRetry(_) => {}
            Action::AdminHelp => {}
            Action::AdminSearch => {}
            Action::AdminRoles => {}
            Action::AdminRoleAction(_) => {}
            Action::AdminBulk(_) => {}
            Action::AdminBulkConfirm => {}
            Action::AdminUser(_) => {}
            Action::AdminUserKeys(_) => {}
            Action::AdminUserDeleteKeysAsk(_) => {}
            Action::AdminUserDeleteKeysConfirm(_) => {}
            Action::AdminUserPayments(_) => {}
            Action::AdminUserBalance(_) => {}
            Action::AdminUserDiscount(_) => {}
            Action::AdminUserNote(_) => {}
            Action::AdminUserBlock(_, _) => {}
            Action::StatsSection(_) => {}
            Action::SupportFilter(_) => {}
            Action::AdminPromos => {}
            Action::AdminCommerce => {}
            Action::AdminPricesRub => {}
            Action::AdminPricesStars => {}
            Action::AdminReferral => {}
            Action::AdminPromoAction(_) => {}
            Action::ClientNoteAsk(_) => {}
            Action::LegacyRenew(_) => {}
            Action::LegacyRenewMethod(_, _) => {}
            Action::LegacyRestore => {}
            Action::LegacyRequestNew => {}
            Action::LegacyRequestApprove(_) => {}
            Action::LegacyRequestReject(_) => {}
            Action::PromoInput => {}
            Action::Guide(_) => {}
            Action::LegacyPriceAsk => {}
            Action::Menu => {}
            Action::List => {}
            Action::Add => {}
            Action::Stats => {}
            Action::Page(_) => {}
            Action::ShowClient(_) => {}
            Action::ClientHistory(_) => {}
            Action::SendConf(_) => {}
            Action::AskDelete(_) => {}
            Action::ConfirmDelete(_) => {}
            Action::Recreate(_) => {}
            Action::Regen(_) => {}
            Action::RegenAll => {}
            Action::RegenAllRun(_) => {}
            Action::Expiry(_) => {}
            Action::Lang(_) => {}
            Action::Settings => {}
            Action::SetLang(_) => {}
            Action::SetPsk(_) => {}
            Action::SetSlug(_) => {}
            Action::AddPsk(_) => {}
            Action::AddServer(_) => {}
            Action::Backup => {}
            Action::BackupNew => {}
            Action::BackupList => {}
            Action::BackupCard(_) => {}
            Action::BackupDownload(_) => {}
            Action::Restore(_) => {}
            Action::RestoreYes(_) => {}
            Action::Check => {}
            Action::Diagnose => {}
            Action::Modify(_) => {}
            Action::ModifyParam(_, _) => {}
            Action::Restart => {}
            Action::RestartRun => {}
            Action::RepairModule => {}
            Action::AddBulk => {}
            Action::AddBulkRun(_) => {}
            Action::BulkExpiry(_) => {}
            Action::AddBulkPsk(_) => {}
            Action::BulkServer(_) => {}
            Action::SendQr(_) => {}
            Action::SendLink(_) => {}
            Action::SendAll(_) => {}
            Action::SetConf(_) => {}
            Action::SetQr(_) => {}
            Action::SetLink(_) => {}
            Action::SetListFilter(_) => {}
            Action::Groups => {}
            Action::GroupCreate => {}
            Action::GroupCard(_) => {}
            Action::GroupRenameAsk(_) => {}
            Action::GroupQuotaAsk(_) => {}
            Action::GroupAdmins(_) => {}
            Action::GroupAdminRemove(_, _) => {}
            Action::GroupInvite(_) => {}
            Action::GroupInviteRevoke(_) => {}
            Action::GroupAdminById(_) => {}
            Action::GroupDeleteAsk(_) => {}
            Action::GroupDeleteDetach(_) => {}
            Action::GroupDeleteAllAsk(_) => {}
            Action::GroupDeleteAllYes(_) => {}
            Action::GroupRegenAsk(_) => {}
            Action::GroupRegenRun(_) => {}
            Action::GroupSelect(_) => {}
            Action::GroupSelectMenu => {}
            Action::MoveClientAsk(_) => {}
            Action::MoveClientTo(_, _) => {}
            Action::GroupScopeAsk => {}
            Action::GroupScopeSet(_) => {}
            Action::Buy => {}
            Action::BuyServer(_) => {}
            Action::BuyTerm(_) => {}
            Action::BuyMethod(_, _) => {}
            Action::BuyPaid(_) => {}
            Action::MyKeys => {}
            Action::Profile => {}
            Action::Portal => {}
            Action::Balance => {}
            Action::PaymentApprove(_) => {}
            Action::PaymentReject(_) => {}
            Action::AssignOwnerAsk(_) => {}
            Action::AdminExpiryAsk(_) => {}
            Action::SetClientEnabled(_, _) => {}
            Action::PaymentInstructionsAsk => {}
            Action::AcquiringUrlAsk => {}
            Action::CustomerKey(_) => {}
            Action::CustomerMove(_) => {}
            Action::CustomerMoveServer(_, _) => {}
            Action::CustomerMoveConfirm(_) => {}
            Action::CustomerMoveCancel(_) => {}
            Action::CustomerRefresh(_) => {}
            Action::CustomerRefreshRun(_) => {}
            Action::Renew(_) => {}
            Action::RenewTerm(_, _) => {}
            Action::RenewMethod(_, _, _) => {}
            Action::AutoRenew(_, _, _) => {}
            Action::DeviceLabelAsk(_) => {}
            Action::SupportTicket(_) => {}
            Action::SupportNewCategory(_) => {}
            Action::SupportTake(_) => {}
            Action::SupportReply(_) => {}
            Action::SupportClose(_) => {}
            Action::SupportPriority(_, _) => {}
            Action::SupportRate(_, _) => {}
            Action::FinanceExport => {}
            Action::Unknown => {}
            Action::AdminOperations => {}
            Action::AdminOperationsRefresh => {}
            Action::AdminOperationsAck => {}
            Action::AdminKeyHealth => {}
            Action::AdminDbBackup => {}
            Action::AdminDbBackupAudit => {}
            Action::ServerMaintenanceAsk(_) => {}
            Action::ServerMaintenanceFinish(_) => {}
        }
    }

    samples
}


/// Табличный тест гейта авторизации: каждая строка — один Action и
/// ожидаемый доступ для owner/GA (снято с текущего поведения диспатча).
/// Denied проверяется отдельно на каждой строке — защита в глубину.
#[test]
fn authorize_table() {
    let mut store = Store::open_in_memory();
    let ga_group = store.create_group("a", 0).unwrap();
    let foreign = store.create_group("b", 0).unwrap();
    store.add_group_admin(ga_group, 42, 1, 0);
    store.assign_client_group("mine", Some(ga_group), 10);
    store.assign_client_group("theirs", Some(foreign), 10);
    // "free" — клиент без группы (строки в БД нет — client_group → None).
    let owner = Role::Owner;
    let ga = Role::GroupAdmin(vec![ga_group]);
    let denied = Role::Denied;

    // (action, разрешено owner, разрешено ga)
    let table: Vec<(Action, bool, bool)> = vec![
        // Общие.
        (Action::Menu, true, true),
        (Action::List, true, true),
        (Action::Add, true, true),
        (Action::Stats, true, true),
        (Action::Page(0), true, true),
        (Action::Expiry("1d".into()), true, true),
        (Action::AddPsk(true), true, true),
        (Action::AddServer(1), true, true),
        (Action::Lang("ru".into()), true, true),
        (
            Action::SetListFilter(ClientFilter::All),
            true,
            true,
        ),
        (Action::Unknown, true, true),
        // Выбор группы: только GA, и только своя.
        (Action::GroupSelectMenu, false, true),
        (Action::GroupSelect(ga_group), false, true),
        (Action::GroupSelect(foreign), false, false),
        // Клиентские: владелец — все, GA — только свой скоуп.
        (Action::ShowClient("mine".into()), true, true),
        (Action::ShowClient("theirs".into()), true, false),
        (Action::ShowClient("free".into()), true, false),
        (Action::ClientHistory("mine".into()), true, true),
        (Action::ClientHistory("theirs".into()), true, false),
        (Action::SendConf("mine".into()), true, true),
        (Action::SendConf("theirs".into()), true, false),
        (Action::SendQr("mine".into()), true, true),
        (Action::SendQr("theirs".into()), true, false),
        (Action::SendLink("mine".into()), true, true),
        (Action::SendLink("theirs".into()), true, false),
        (Action::SendAll("mine".into()), true, true),
        (Action::SendAll("theirs".into()), true, false),
        (Action::AskDelete("mine".into()), true, true),
        (Action::AskDelete("theirs".into()), true, false),
        (Action::ConfirmDelete("mine".into()), true, true),
        (Action::ConfirmDelete("theirs".into()), true, false),
        (Action::Recreate("mine".into()), true, true),
        (Action::Recreate("theirs".into()), true, false),
        (Action::Regen("mine".into()), true, true),
        (Action::Regen("theirs".into()), true, false),
        // Owner-only.
        (Action::RegenAll, true, false),
        (Action::RegenAllRun(false), true, false),
        (Action::AddBulk, true, true),
        (Action::AddBulkRun(3), true, true),
        (Action::BulkExpiry("1d".into()), true, true),
        (Action::AddBulkPsk(true), true, true),
        (Action::BulkServer(1), true, true),
        (Action::Settings, true, false),
        (Action::SetLang("en".into()), true, false),
        (Action::SetPsk(true), true, false),
        (Action::SetSlug(true), true, false),
        (Action::SetConf(true), true, false),
        (Action::SetQr(true), true, false),
        (Action::SetLink(true), true, false),
        (Action::Modify("mine".into()), true, false),
        (
            Action::ModifyParam("mine".into(), ModifyParam::Dns),
            true,
            false,
        ),
        (Action::Restart, true, false),
        (Action::RestartRun, true, false),
        (Action::RepairModule, true, false),
        (Action::Backup, true, false),
        (Action::BackupNew, true, false),
        (Action::BackupList, true, false),
        (Action::BackupCard(0), true, false),
        (Action::BackupDownload(0), true, false),
        (Action::Restore(0), true, false),
        (Action::RestoreYes(0), true, false),
        (Action::Check, true, false),
        (Action::Diagnose, true, false),
        (Action::Groups, true, false),
        (Action::GroupCreate, true, false),
        (Action::GroupCard(ga_group), true, false),
        (Action::GroupRenameAsk(ga_group), true, false),
        (Action::GroupQuotaAsk(ga_group), true, false),
        (Action::GroupAdmins(ga_group), true, false),
        (Action::GroupAdminRemove(ga_group, 42), true, false),
        (Action::GroupInvite(ga_group), true, false),
        (Action::GroupInviteRevoke(ga_group), true, false),
        (Action::GroupAdminById(ga_group), true, false),
        (Action::GroupDeleteAsk(ga_group), true, false),
        (Action::GroupDeleteDetach(ga_group), true, false),
        (Action::GroupDeleteAllAsk(ga_group), true, false),
        (Action::GroupDeleteAllYes(ga_group), true, false),
        (Action::GroupRegenAsk(ga_group), true, false),
        (Action::GroupRegenRun(ga_group), true, false),
        (Action::MoveClientAsk("mine".into()), true, false),
        (
            Action::MoveClientTo(Some(ga_group), "mine".into()),
            true,
            false,
        ),
        (Action::GroupScopeAsk, true, false),
        (Action::GroupScopeSet(ListScope::All), true, false),
        // Пользовательские коммерческие действия доступны и владельцу,
        // и групповому администратору в общей таблице авторизации.
        (Action::Buy, true, true),
        (Action::BuyTerm(1), true, true),
        (Action::BuyMethod(1, "manual".into()), true, true),
        (Action::BuyPaid(1), true, true),
        (Action::MyKeys, true, true),
        (Action::Profile, true, true),
        (Action::Balance, true, true),
        (Action::CustomerKey("mine".into()), true, true),
        (Action::CustomerRefresh("mine".into()), true, true),
        (Action::CustomerRefreshRun("mine".into()), true, true),
        (Action::Renew("mine".into()), true, true),
        (Action::RenewTerm("mine".into(), 1), true, true),
        (
            Action::RenewMethod("mine".into(), 1, "manual".into()),
            true,
            true,
        ),
        (Action::LegacyRenew("mine".into()), true, true),
        (
            Action::LegacyRenewMethod("mine".into(), "manual".into()),
            true,
            true,
        ),
        (Action::LegacyRequestNew, true, true),
        (Action::PromoInput, true, true),
        (Action::AutoRenew("mine".into(), 1, true), true, true),
        (Action::DeviceLabelAsk("mine".into()), true, true),
        (Action::SupportRate(1, 5), true, true),
        // Остальные административные и операторские действия — owner-only.
        (Action::PaymentApprove(1), true, false),
        (Action::PaymentReject(1), true, false),
        (Action::AssignOwnerAsk("mine".into()), true, false),
        (Action::AdminExpiryAsk("mine".into()), true, false),
        (Action::SetClientEnabled("mine".into(), true), true, false),
        (Action::PaymentInstructionsAsk, true, false),
        (Action::SupportTicket(1), true, false),
        (Action::SupportNewCategory("general".into()), true, false),
        (Action::SupportTake(1), true, false),
        (Action::SupportReply(1), true, false),
        (Action::SupportClose(1), true, false),
        (Action::SupportPriority(1, "high".into()), true, false),
        (Action::FinanceExport, true, false),
        (Action::AdminDashboard, true, false),
        (Action::AdminVpn, true, false),
        (Action::AdminServers, true, false),
        (Action::AdminKeys, true, false),
        (Action::AdminUsersHub, true, false),
        (Action::AdminCommunication, true, false),
        (Action::AdminSystem, true, false),
        (Action::ServerAdd, true, false),
        (Action::ServerCard(1), true, false),
        (Action::RemoteMigration(1), true, false),
        (Action::RemoteMigrationPreflight(1), true, false),
        (Action::RemoteMigrationStatus(1), true, false),
        (Action::RemoteMigrationTest(1), true, false),
        (Action::RemoteMigrationApprove(1), true, false),
        (Action::RemoteMigrationAsk(1), true, false),
        (Action::RemoteMigrationRun(1), true, false),
        (Action::RemoteMigrationRollback(1), true, false),
        (Action::ServerBilling, true, false),
        (Action::ServerBillingAsk(1), true, false),
        (Action::ServerPassportAsk(1), true, false),
        (Action::ServerEnroll(1), true, false),
        (Action::ServerEnrollRevoke(1), true, false),
        (Action::ServerSetDefault(1), true, false),
        (Action::ServerDeployAsk(1), true, false),
        (Action::ServerCheck(1), true, false),
        (Action::ServerDiagnose(1), true, false),
        (Action::ServerProvisioningProbe(1), true, false),
        (Action::ServerPanelConnect(1), true, false),
        (Action::ServerPanelSync(1), true, false),
        (Action::ServerPanelAudit(1), true, false),
        (Action::LocalMigration, true, false),
        (Action::LocalMigrationPreflight, true, false),
        (Action::LocalMigrationStart, true, false),
        (Action::LocalMigrationStatus, true, false),
        (Action::LocalMigrationRollback, true, false),
        (Action::AdminCreate, true, false),
        (Action::AdminOwners, true, false),
        (Action::AdminFinance, true, false),
        (Action::AdminSupport, true, false),
        (Action::AdminBroadcast, true, false),
        (Action::AdminBroadcastTemplates, true, false),
        (Action::BroadcastAudience("all".into()), true, false),
        (Action::BroadcastRetry(1), true, false),
        (Action::AdminHelp, true, false),
        (Action::AdminSearch, true, false),
        (Action::AdminRoles, true, false),
        (Action::AdminRoleAction("add".into()), true, false),
        (Action::AdminBulk("menu".into()), true, false),
        (Action::AdminBulkConfirm, true, false),
        (Action::AdminUser(1), true, false),
        (Action::AdminUserKeys(1), true, false),
        (Action::AdminUserDeleteKeysAsk(1), true, false),
        (Action::AdminUserDeleteKeysConfirm(1), true, false),
        (Action::AdminUserPayments(1), true, false),
        (Action::AdminUserBalance(1), true, false),
        (Action::AdminUserDiscount(1), true, false),
        (Action::AdminUserNote(1), true, false),
        (Action::AdminUserBlock(1, true), true, false),
        (Action::StatsSection("vpn".into()), true, false),
        (Action::SupportFilter("open".into()), true, false),
        (Action::AdminPromos, true, false),
        (Action::AdminPromoAction("legacy".into()), true, false),
        (Action::ClientNoteAsk("mine".into()), true, false),
        (Action::LegacyRestore, true, false),
        (Action::LegacyRequestApprove(1), true, false),
        (Action::LegacyRequestReject(1), true, false),
        (Action::LegacyPriceAsk, true, false),
        (Action::AcquiringUrlAsk, true, false),
        (Action::AdminOperations, true, false),
        (Action::AdminOperationsRefresh, true, false),
        (Action::AdminOperationsAck, true, false),
        (Action::AdminKeyHealth, true, false),
        (Action::AdminDbBackup, true, false),
        (Action::AdminDbBackupAudit, true, false),
        (Action::ServerMaintenanceAsk(1), true, false),
        (Action::ServerMaintenanceFinish(1), true, false),
    ];

    // Ассерт полноты: на каждый вариант Action (образцы из
    // coverage_samples) в таблице выше должна найтись хотя бы одна
    // строка — иначе новый вариант получит проверку доступа в
    // authorize(), но проскочит мимо теста молча.
    let table_discriminants: std::collections::HashSet<_> = table
        .iter()
        .map(|(action, _, _)| std::mem::discriminant(action))
        .collect();
    for sample in coverage_samples() {
        assert!(
            table_discriminants.contains(&std::mem::discriminant(&sample)),
            "authorize_table не содержит строки для варианта {sample:?} — допишите строку в table"
        );
    }

    for (action, owner_ok, ga_ok) in &table {
        assert_eq!(
            authorize(action, &owner, &store),
            *owner_ok,
            "owner: {action:?}"
        );
        assert_eq!(authorize(action, &ga, &store), *ga_ok, "ga: {action:?}");
        // Denied не проходит НИЧЕГО — защита в глубину (обычно отсекается
        // раньше, на входе в handle_callback).
        assert!(!authorize(action, &denied, &store), "denied: {action:?}");
    }
}
