//! Callback data of inline buttons and the actions it names.

use vstd::prelude::*;
use vstd::string::*;
use crate::model::{filter_named, ClientFilter, ModifyParam};
use crate::numbers::{parse_i64, parse_usize, parsed_i64, parsed_usize};
use crate::store::ListScope;
use crate::text::{
    first_field, split_at_first, split_at_last, split_first, split_last, str_eq, strip_prefix,
    up_to_first,
};

verus! {

/// What a pressed inline button asks for.
#[derive(Debug, Clone, PartialEq)]
pub enum Action {
    AdminDashboard,
    AdminVpn,
    AdminServers,
    AdminKeys,
    AdminUsersHub,
    AdminCommunication,
    AdminSystem,
    AdminUpdate,
    AdminUpdateRun,
    AdminUpdateStatus,
    AdminUpdateRollback,
    ServerAdd,
    ServerCard(i64),
    RemoteMigration(i64),
    RemoteMigrationPreflight(i64),
    RemoteMigrationStatus(i64),
    RemoteMigrationTest(i64),
    RemoteMigrationApprove(i64),
    RemoteMigrationAsk(i64),
    RemoteMigrationRun(i64),
    RemoteMigrationRollback(i64),
    ServerBilling,
    ServerBillingAsk(i64),
    ServerPassportAsk(i64),
    ServerEnroll(i64),
    ServerEnrollRevoke(i64),
    ServerSetDefault(i64),
    ServerDeployAsk(i64),
    ServerCheck(i64),
    ServerDiagnose(i64),
    ServerProvisioningProbe(i64),
    ServerPanelConnect(i64),
    ServerPanelSync(i64),
    ServerPanelAudit(i64),
    LocalMigration,
    LocalMigrationPreflight,
    LocalMigrationStart,
    LocalMigrationStatus,
    LocalMigrationRollback,
    AdminCreate,
    AdminOwners,
    AdminOwnersPage(usize),
    AdminFinance,
    AdminSupport,
    AdminBroadcast,
    AdminBroadcastTemplates,
    BroadcastAudience(String),
    BroadcastRetry(i64),
    AdminHelp,
    AdminSearch,
    AdminRoles,
    AdminRoleAction(String),
    AdminBulk(String),
    AdminBulkConfirm,
    AdminUser(i64),
    AdminUserKeys(i64),
    AdminUserDeleteKeysAsk(i64),
    AdminUserDeleteKeysConfirm(i64),
    AdminUserPayments(i64),
    AdminUserBalance(i64),
    AdminUserDiscount(i64),
    AdminUserNote(i64),
    AdminUserBlock(i64, bool),
    StatsSection(String),
    SupportFilter(String),
    AdminPromos,
    AdminCommerce,
    AdminPricesRub,
    AdminPricesStars,
    AdminReferral,
    AdminPromoAction(String),
    ClientNoteAsk(String),
    LegacyRenew(String),
    LegacyRenewMethod(String, String),
    LegacyRestore,
    LegacyRequestNew,
    LegacyRequestApprove(i64),
    LegacyRequestReject(i64),
    PromoInput,
    Guide(String),
    LegacyPriceAsk,
    Menu,
    List,
    Add,
    Stats,
    Page(usize),
    ShowClient(String),
    ClientHistory(String),
    SendConf(String),
    AskDelete(String),
    ConfirmDelete(String),
    Recreate(String),
    Regen(String),
    RegenAll,
    RegenAllRun(bool),
    Expiry(String),
    Lang(String),
    Settings,
    SetLang(String),
    SetPsk(bool),
    SetSlug(bool),
    AddPsk(bool),
    AddServer(i64),
    Backup,
    BackupNew,
    BackupList,
    BackupCard(usize),
    BackupDownload(usize),
    Restore(usize),
    RestoreYes(usize),
    Check,
    Diagnose,
    Modify(String),
    ModifyParam(String, ModifyParam),
    Restart,
    RestartRun,
    RepairModule,
    AddBulk,
    AddBulkRun(usize),
    BulkExpiry(String),
    AddBulkPsk(bool),
    BulkServer(i64),
    SendQr(String),
    SendLink(String),
    SendAll(String),
    SetConf(bool),
    SetQr(bool),
    SetLink(bool),
    SetListFilter(ClientFilter),
    Groups,
    GroupCreate,
    GroupCard(i64),
    GroupRenameAsk(i64),
    GroupQuotaAsk(i64),
    GroupAdmins(i64),
    GroupAdminRemove(i64, i64),
    GroupInvite(i64),
    GroupInviteRevoke(i64),
    GroupAdminById(i64),
    GroupDeleteAsk(i64),
    GroupDeleteDetach(i64),
    GroupDeleteAllAsk(i64),
    GroupDeleteAllYes(i64),
    GroupRegenAsk(i64),
    GroupRegenRun(i64),
    GroupSelect(i64),
    GroupSelectMenu,
    MoveClientAsk(String),
    MoveClientTo(Option<i64>, String),
    GroupScopeAsk,
    GroupScopeSet(ListScope),
    Buy,
    BuyServer(i64),
    BuyTerm(i64),
    BuyMethod(i64, String),
    BuyPaid(i64),
    MyKeys,
    Profile,
    Portal,
    Balance,
    PaymentApprove(i64),
    PaymentReject(i64),
    AssignOwnerAsk(String),
    AdminExpiryAsk(String),
    SetClientEnabled(String, bool),
    PaymentInstructionsAsk,
    AcquiringUrlAsk,
    CustomerKey(String),
    CustomerMove(String),
    CustomerMoveServer(String, i64),
    CustomerMoveConfirm(i64),
    CustomerMoveCancel(i64),
    CustomerRefresh(String),
    CustomerRefreshRun(String),
    Renew(String),
    RenewTerm(String, i64),
    RenewMethod(String, i64, String),
    AutoRenew(String, i64, bool),
    DeviceLabelAsk(String),
    SupportTicket(i64),
    SupportNewCategory(String),
    SupportTake(i64),
    SupportReply(i64),
    SupportClose(i64),
    SupportPriority(i64, String),
    SupportRate(i64, i64),
    FinanceExport,
    Unknown,
    AdminOperations,
    AdminOperationsRefresh,
    AdminOperationsAck,
    AdminKeyHealth,
    AdminDbBackup,
    AdminDbBackupAudit,
    ServerMaintenanceAsk(i64),
    ServerMaintenanceFinish(i64),
}

pub enum ActionView {
    AdminDashboard,
    AdminVpn,
    AdminServers,
    AdminKeys,
    AdminUsersHub,
    AdminCommunication,
    AdminSystem,
    AdminUpdate,
    AdminUpdateRun,
    AdminUpdateStatus,
    AdminUpdateRollback,
    ServerAdd,
    ServerCard(i64),
    RemoteMigration(i64),
    RemoteMigrationPreflight(i64),
    RemoteMigrationStatus(i64),
    RemoteMigrationTest(i64),
    RemoteMigrationApprove(i64),
    RemoteMigrationAsk(i64),
    RemoteMigrationRun(i64),
    RemoteMigrationRollback(i64),
    ServerBilling,
    ServerBillingAsk(i64),
    ServerPassportAsk(i64),
    ServerEnroll(i64),
    ServerEnrollRevoke(i64),
    ServerSetDefault(i64),
    ServerDeployAsk(i64),
    ServerCheck(i64),
    ServerDiagnose(i64),
    ServerProvisioningProbe(i64),
    ServerPanelConnect(i64),
    ServerPanelSync(i64),
    ServerPanelAudit(i64),
    LocalMigration,
    LocalMigrationPreflight,
    LocalMigrationStart,
    LocalMigrationStatus,
    LocalMigrationRollback,
    AdminCreate,
    AdminOwners,
    AdminOwnersPage(usize),
    AdminFinance,
    AdminSupport,
    AdminBroadcast,
    AdminBroadcastTemplates,
    BroadcastAudience(Seq<char>),
    BroadcastRetry(i64),
    AdminHelp,
    AdminSearch,
    AdminRoles,
    AdminRoleAction(Seq<char>),
    AdminBulk(Seq<char>),
    AdminBulkConfirm,
    AdminUser(i64),
    AdminUserKeys(i64),
    AdminUserDeleteKeysAsk(i64),
    AdminUserDeleteKeysConfirm(i64),
    AdminUserPayments(i64),
    AdminUserBalance(i64),
    AdminUserDiscount(i64),
    AdminUserNote(i64),
    AdminUserBlock(i64, bool),
    StatsSection(Seq<char>),
    SupportFilter(Seq<char>),
    AdminPromos,
    AdminCommerce,
    AdminPricesRub,
    AdminPricesStars,
    AdminReferral,
    AdminPromoAction(Seq<char>),
    ClientNoteAsk(Seq<char>),
    LegacyRenew(Seq<char>),
    LegacyRenewMethod(Seq<char>, Seq<char>),
    LegacyRestore,
    LegacyRequestNew,
    LegacyRequestApprove(i64),
    LegacyRequestReject(i64),
    PromoInput,
    Guide(Seq<char>),
    LegacyPriceAsk,
    Menu,
    List,
    Add,
    Stats,
    Page(usize),
    ShowClient(Seq<char>),
    ClientHistory(Seq<char>),
    SendConf(Seq<char>),
    AskDelete(Seq<char>),
    ConfirmDelete(Seq<char>),
    Recreate(Seq<char>),
    Regen(Seq<char>),
    RegenAll,
    RegenAllRun(bool),
    Expiry(Seq<char>),
    Lang(Seq<char>),
    Settings,
    SetLang(Seq<char>),
    SetPsk(bool),
    SetSlug(bool),
    AddPsk(bool),
    AddServer(i64),
    Backup,
    BackupNew,
    BackupList,
    BackupCard(usize),
    BackupDownload(usize),
    Restore(usize),
    RestoreYes(usize),
    Check,
    Diagnose,
    Modify(Seq<char>),
    ModifyParam(Seq<char>, ModifyParam),
    Restart,
    RestartRun,
    RepairModule,
    AddBulk,
    AddBulkRun(usize),
    BulkExpiry(Seq<char>),
    AddBulkPsk(bool),
    BulkServer(i64),
    SendQr(Seq<char>),
    SendLink(Seq<char>),
    SendAll(Seq<char>),
    SetConf(bool),
    SetQr(bool),
    SetLink(bool),
    SetListFilter(ClientFilter),
    Groups,
    GroupCreate,
    GroupCard(i64),
    GroupRenameAsk(i64),
    GroupQuotaAsk(i64),
    GroupAdmins(i64),
    GroupAdminRemove(i64, i64),
    GroupInvite(i64),
    GroupInviteRevoke(i64),
    GroupAdminById(i64),
    GroupDeleteAsk(i64),
    GroupDeleteDetach(i64),
    GroupDeleteAllAsk(i64),
    GroupDeleteAllYes(i64),
    GroupRegenAsk(i64),
    GroupRegenRun(i64),
    GroupSelect(i64),
    GroupSelectMenu,
    MoveClientAsk(Seq<char>),
    MoveClientTo(Option<i64>, Seq<char>),
    GroupScopeAsk,
    GroupScopeSet(ListScope),
    Buy,
    BuyServer(i64),
    BuyTerm(i64),
    BuyMethod(i64, Seq<char>),
    BuyPaid(i64),
    MyKeys,
    Profile,
    Portal,
    Balance,
    PaymentApprove(i64),
    PaymentReject(i64),
    AssignOwnerAsk(Seq<char>),
    AdminExpiryAsk(Seq<char>),
    SetClientEnabled(Seq<char>, bool),
    PaymentInstructionsAsk,
    AcquiringUrlAsk,
    CustomerKey(Seq<char>),
    CustomerMove(Seq<char>),
    CustomerMoveServer(Seq<char>, i64),
    CustomerMoveConfirm(i64),
    CustomerMoveCancel(i64),
    CustomerRefresh(Seq<char>),
    CustomerRefreshRun(Seq<char>),
    Renew(Seq<char>),
    RenewTerm(Seq<char>, i64),
    RenewMethod(Seq<char>, i64, Seq<char>),
    AutoRenew(Seq<char>, i64, bool),
    DeviceLabelAsk(Seq<char>),
    SupportTicket(i64),
    SupportNewCategory(Seq<char>),
    SupportTake(i64),
    SupportReply(i64),
    SupportClose(i64),
    SupportPriority(i64, Seq<char>),
    SupportRate(i64, i64),
    FinanceExport,
    Unknown,
    AdminOperations,
    AdminOperationsRefresh,
    AdminOperationsAck,
    AdminKeyHealth,
    AdminDbBackup,
    AdminDbBackupAudit,
    ServerMaintenanceAsk(i64),
    ServerMaintenanceFinish(i64),
}

impl View for Action {
    type V = ActionView;

    open spec fn view(&self) -> ActionView {
        match self {
            Action::AdminDashboard => ActionView::AdminDashboard,
            Action::AdminVpn => ActionView::AdminVpn,
            Action::AdminServers => ActionView::AdminServers,
            Action::AdminKeys => ActionView::AdminKeys,
            Action::AdminUsersHub => ActionView::AdminUsersHub,
            Action::AdminCommunication => ActionView::AdminCommunication,
            Action::AdminSystem => ActionView::AdminSystem,
            Action::AdminUpdate => ActionView::AdminUpdate,
            Action::AdminUpdateRun => ActionView::AdminUpdateRun,
            Action::AdminUpdateStatus => ActionView::AdminUpdateStatus,
            Action::AdminUpdateRollback => ActionView::AdminUpdateRollback,
            Action::ServerAdd => ActionView::ServerAdd,
            Action::ServerCard(a0) => ActionView::ServerCard(*a0),
            Action::RemoteMigration(a0) => ActionView::RemoteMigration(*a0),
            Action::RemoteMigrationPreflight(a0) => ActionView::RemoteMigrationPreflight(*a0),
            Action::RemoteMigrationStatus(a0) => ActionView::RemoteMigrationStatus(*a0),
            Action::RemoteMigrationTest(a0) => ActionView::RemoteMigrationTest(*a0),
            Action::RemoteMigrationApprove(a0) => ActionView::RemoteMigrationApprove(*a0),
            Action::RemoteMigrationAsk(a0) => ActionView::RemoteMigrationAsk(*a0),
            Action::RemoteMigrationRun(a0) => ActionView::RemoteMigrationRun(*a0),
            Action::RemoteMigrationRollback(a0) => ActionView::RemoteMigrationRollback(*a0),
            Action::ServerBilling => ActionView::ServerBilling,
            Action::ServerBillingAsk(a0) => ActionView::ServerBillingAsk(*a0),
            Action::ServerPassportAsk(a0) => ActionView::ServerPassportAsk(*a0),
            Action::ServerEnroll(a0) => ActionView::ServerEnroll(*a0),
            Action::ServerEnrollRevoke(a0) => ActionView::ServerEnrollRevoke(*a0),
            Action::ServerSetDefault(a0) => ActionView::ServerSetDefault(*a0),
            Action::ServerDeployAsk(a0) => ActionView::ServerDeployAsk(*a0),
            Action::ServerCheck(a0) => ActionView::ServerCheck(*a0),
            Action::ServerDiagnose(a0) => ActionView::ServerDiagnose(*a0),
            Action::ServerProvisioningProbe(a0) => ActionView::ServerProvisioningProbe(*a0),
            Action::ServerPanelConnect(a0) => ActionView::ServerPanelConnect(*a0),
            Action::ServerPanelSync(a0) => ActionView::ServerPanelSync(*a0),
            Action::ServerPanelAudit(a0) => ActionView::ServerPanelAudit(*a0),
            Action::LocalMigration => ActionView::LocalMigration,
            Action::LocalMigrationPreflight => ActionView::LocalMigrationPreflight,
            Action::LocalMigrationStart => ActionView::LocalMigrationStart,
            Action::LocalMigrationStatus => ActionView::LocalMigrationStatus,
            Action::LocalMigrationRollback => ActionView::LocalMigrationRollback,
            Action::AdminCreate => ActionView::AdminCreate,
            Action::AdminOwners => ActionView::AdminOwners,
            Action::AdminOwnersPage(a0) => ActionView::AdminOwnersPage(*a0),
            Action::AdminFinance => ActionView::AdminFinance,
            Action::AdminSupport => ActionView::AdminSupport,
            Action::AdminBroadcast => ActionView::AdminBroadcast,
            Action::AdminBroadcastTemplates => ActionView::AdminBroadcastTemplates,
            Action::BroadcastAudience(a0) => ActionView::BroadcastAudience(a0@),
            Action::BroadcastRetry(a0) => ActionView::BroadcastRetry(*a0),
            Action::AdminHelp => ActionView::AdminHelp,
            Action::AdminSearch => ActionView::AdminSearch,
            Action::AdminRoles => ActionView::AdminRoles,
            Action::AdminRoleAction(a0) => ActionView::AdminRoleAction(a0@),
            Action::AdminBulk(a0) => ActionView::AdminBulk(a0@),
            Action::AdminBulkConfirm => ActionView::AdminBulkConfirm,
            Action::AdminUser(a0) => ActionView::AdminUser(*a0),
            Action::AdminUserKeys(a0) => ActionView::AdminUserKeys(*a0),
            Action::AdminUserDeleteKeysAsk(a0) => ActionView::AdminUserDeleteKeysAsk(*a0),
            Action::AdminUserDeleteKeysConfirm(a0) => ActionView::AdminUserDeleteKeysConfirm(*a0),
            Action::AdminUserPayments(a0) => ActionView::AdminUserPayments(*a0),
            Action::AdminUserBalance(a0) => ActionView::AdminUserBalance(*a0),
            Action::AdminUserDiscount(a0) => ActionView::AdminUserDiscount(*a0),
            Action::AdminUserNote(a0) => ActionView::AdminUserNote(*a0),
            Action::AdminUserBlock(a0, a1) => ActionView::AdminUserBlock(*a0, *a1),
            Action::StatsSection(a0) => ActionView::StatsSection(a0@),
            Action::SupportFilter(a0) => ActionView::SupportFilter(a0@),
            Action::AdminPromos => ActionView::AdminPromos,
            Action::AdminCommerce => ActionView::AdminCommerce,
            Action::AdminPricesRub => ActionView::AdminPricesRub,
            Action::AdminPricesStars => ActionView::AdminPricesStars,
            Action::AdminReferral => ActionView::AdminReferral,
            Action::AdminPromoAction(a0) => ActionView::AdminPromoAction(a0@),
            Action::ClientNoteAsk(a0) => ActionView::ClientNoteAsk(a0@),
            Action::LegacyRenew(a0) => ActionView::LegacyRenew(a0@),
            Action::LegacyRenewMethod(a0, a1) => ActionView::LegacyRenewMethod(a0@, a1@),
            Action::LegacyRestore => ActionView::LegacyRestore,
            Action::LegacyRequestNew => ActionView::LegacyRequestNew,
            Action::LegacyRequestApprove(a0) => ActionView::LegacyRequestApprove(*a0),
            Action::LegacyRequestReject(a0) => ActionView::LegacyRequestReject(*a0),
            Action::PromoInput => ActionView::PromoInput,
            Action::Guide(a0) => ActionView::Guide(a0@),
            Action::LegacyPriceAsk => ActionView::LegacyPriceAsk,
            Action::Menu => ActionView::Menu,
            Action::List => ActionView::List,
            Action::Add => ActionView::Add,
            Action::Stats => ActionView::Stats,
            Action::Page(a0) => ActionView::Page(*a0),
            Action::ShowClient(a0) => ActionView::ShowClient(a0@),
            Action::ClientHistory(a0) => ActionView::ClientHistory(a0@),
            Action::SendConf(a0) => ActionView::SendConf(a0@),
            Action::AskDelete(a0) => ActionView::AskDelete(a0@),
            Action::ConfirmDelete(a0) => ActionView::ConfirmDelete(a0@),
            Action::Recreate(a0) => ActionView::Recreate(a0@),
            Action::Regen(a0) => ActionView::Regen(a0@),
            Action::RegenAll => ActionView::RegenAll,
            Action::RegenAllRun(a0) => ActionView::RegenAllRun(*a0),
            Action::Expiry(a0) => ActionView::Expiry(a0@),
            Action::Lang(a0) => ActionView::Lang(a0@),
            Action::Settings => ActionView::Settings,
            Action::SetLang(a0) => ActionView::SetLang(a0@),
            Action::SetPsk(a0) => ActionView::SetPsk(*a0),
            Action::SetSlug(a0) => ActionView::SetSlug(*a0),
            Action::AddPsk(a0) => ActionView::AddPsk(*a0),
            Action::AddServer(a0) => ActionView::AddServer(*a0),
            Action::Backup => ActionView::Backup,
            Action::BackupNew => ActionView::BackupNew,
            Action::BackupList => ActionView::BackupList,
            Action::BackupCard(a0) => ActionView::BackupCard(*a0),
            Action::BackupDownload(a0) => ActionView::BackupDownload(*a0),
            Action::Restore(a0) => ActionView::Restore(*a0),
            Action::RestoreYes(a0) => ActionView::RestoreYes(*a0),
            Action::Check => ActionView::Check,
            Action::Diagnose => ActionView::Diagnose,
            Action::Modify(a0) => ActionView::Modify(a0@),
            Action::ModifyParam(a0, a1) => ActionView::ModifyParam(a0@, *a1),
            Action::Restart => ActionView::Restart,
            Action::RestartRun => ActionView::RestartRun,
            Action::RepairModule => ActionView::RepairModule,
            Action::AddBulk => ActionView::AddBulk,
            Action::AddBulkRun(a0) => ActionView::AddBulkRun(*a0),
            Action::BulkExpiry(a0) => ActionView::BulkExpiry(a0@),
            Action::AddBulkPsk(a0) => ActionView::AddBulkPsk(*a0),
            Action::BulkServer(a0) => ActionView::BulkServer(*a0),
            Action::SendQr(a0) => ActionView::SendQr(a0@),
            Action::SendLink(a0) => ActionView::SendLink(a0@),
            Action::SendAll(a0) => ActionView::SendAll(a0@),
            Action::SetConf(a0) => ActionView::SetConf(*a0),
            Action::SetQr(a0) => ActionView::SetQr(*a0),
            Action::SetLink(a0) => ActionView::SetLink(*a0),
            Action::SetListFilter(a0) => ActionView::SetListFilter(*a0),
            Action::Groups => ActionView::Groups,
            Action::GroupCreate => ActionView::GroupCreate,
            Action::GroupCard(a0) => ActionView::GroupCard(*a0),
            Action::GroupRenameAsk(a0) => ActionView::GroupRenameAsk(*a0),
            Action::GroupQuotaAsk(a0) => ActionView::GroupQuotaAsk(*a0),
            Action::GroupAdmins(a0) => ActionView::GroupAdmins(*a0),
            Action::GroupAdminRemove(a0, a1) => ActionView::GroupAdminRemove(*a0, *a1),
            Action::GroupInvite(a0) => ActionView::GroupInvite(*a0),
            Action::GroupInviteRevoke(a0) => ActionView::GroupInviteRevoke(*a0),
            Action::GroupAdminById(a0) => ActionView::GroupAdminById(*a0),
            Action::GroupDeleteAsk(a0) => ActionView::GroupDeleteAsk(*a0),
            Action::GroupDeleteDetach(a0) => ActionView::GroupDeleteDetach(*a0),
            Action::GroupDeleteAllAsk(a0) => ActionView::GroupDeleteAllAsk(*a0),
            Action::GroupDeleteAllYes(a0) => ActionView::GroupDeleteAllYes(*a0),
            Action::GroupRegenAsk(a0) => ActionView::GroupRegenAsk(*a0),
            Action::GroupRegenRun(a0) => ActionView::GroupRegenRun(*a0),
            Action::GroupSelect(a0) => ActionView::GroupSelect(*a0),
            Action::GroupSelectMenu => ActionView::GroupSelectMenu,
            Action::MoveClientAsk(a0) => ActionView::MoveClientAsk(a0@),
            Action::MoveClientTo(a0, a1) => ActionView::MoveClientTo(*a0, a1@),
            Action::GroupScopeAsk => ActionView::GroupScopeAsk,
            Action::GroupScopeSet(a0) => ActionView::GroupScopeSet(*a0),
            Action::Buy => ActionView::Buy,
            Action::BuyServer(a0) => ActionView::BuyServer(*a0),
            Action::BuyTerm(a0) => ActionView::BuyTerm(*a0),
            Action::BuyMethod(a0, a1) => ActionView::BuyMethod(*a0, a1@),
            Action::BuyPaid(a0) => ActionView::BuyPaid(*a0),
            Action::MyKeys => ActionView::MyKeys,
            Action::Profile => ActionView::Profile,
            Action::Portal => ActionView::Portal,
            Action::Balance => ActionView::Balance,
            Action::PaymentApprove(a0) => ActionView::PaymentApprove(*a0),
            Action::PaymentReject(a0) => ActionView::PaymentReject(*a0),
            Action::AssignOwnerAsk(a0) => ActionView::AssignOwnerAsk(a0@),
            Action::AdminExpiryAsk(a0) => ActionView::AdminExpiryAsk(a0@),
            Action::SetClientEnabled(a0, a1) => ActionView::SetClientEnabled(a0@, *a1),
            Action::PaymentInstructionsAsk => ActionView::PaymentInstructionsAsk,
            Action::AcquiringUrlAsk => ActionView::AcquiringUrlAsk,
            Action::CustomerKey(a0) => ActionView::CustomerKey(a0@),
            Action::CustomerMove(a0) => ActionView::CustomerMove(a0@),
            Action::CustomerMoveServer(a0, a1) => ActionView::CustomerMoveServer(a0@, *a1),
            Action::CustomerMoveConfirm(a0) => ActionView::CustomerMoveConfirm(*a0),
            Action::CustomerMoveCancel(a0) => ActionView::CustomerMoveCancel(*a0),
            Action::CustomerRefresh(a0) => ActionView::CustomerRefresh(a0@),
            Action::CustomerRefreshRun(a0) => ActionView::CustomerRefreshRun(a0@),
            Action::Renew(a0) => ActionView::Renew(a0@),
            Action::RenewTerm(a0, a1) => ActionView::RenewTerm(a0@, *a1),
            Action::RenewMethod(a0, a1, a2) => ActionView::RenewMethod(a0@, *a1, a2@),
            Action::AutoRenew(a0, a1, a2) => ActionView::AutoRenew(a0@, *a1, *a2),
            Action::DeviceLabelAsk(a0) => ActionView::DeviceLabelAsk(a0@),
            Action::SupportTicket(a0) => ActionView::SupportTicket(*a0),
            Action::SupportNewCategory(a0) => ActionView::SupportNewCategory(a0@),
            Action::SupportTake(a0) => ActionView::SupportTake(*a0),
            Action::SupportReply(a0) => ActionView::SupportReply(*a0),
            Action::SupportClose(a0) => ActionView::SupportClose(*a0),
            Action::SupportPriority(a0, a1) => ActionView::SupportPriority(*a0, a1@),
            Action::SupportRate(a0, a1) => ActionView::SupportRate(*a0, *a1),
            Action::FinanceExport => ActionView::FinanceExport,
            Action::Unknown => ActionView::Unknown,
            Action::AdminOperations => ActionView::AdminOperations,
            Action::AdminOperationsRefresh => ActionView::AdminOperationsRefresh,
            Action::AdminOperationsAck => ActionView::AdminOperationsAck,
            Action::AdminKeyHealth => ActionView::AdminKeyHealth,
            Action::AdminDbBackup => ActionView::AdminDbBackup,
            Action::AdminDbBackupAudit => ActionView::AdminDbBackupAudit,
            Action::ServerMaintenanceAsk(a0) => ActionView::ServerMaintenanceAsk(*a0),
            Action::ServerMaintenanceFinish(a0) => ActionView::ServerMaintenanceFinish(*a0),
        }
    }
}

pub open spec fn option_view(a: Option<Action>) -> Option<ActionView> {
    match a {
        Some(action) => Some(action@),
        None => None,
    }
}

pub open spec fn buy_method_view(v: Seq<char>) -> ActionView {
    match split_at_first(v, ':') {
        Some(parts) => match parsed_i64(parts.0) {
            Some(months) => ActionView::BuyMethod(months, parts.1),
            None => ActionView::Unknown,
        },
        None => ActionView::Unknown,
    }
}

fn buy_method_action(v: &str) -> (a: Action)
    ensures
        a@ == buy_method_view(v@),
{
    match split_first(v, ':') {
        Some(parts) => match parse_i64(parts.0) {
            Some(months) => Action::BuyMethod(months, parts.1.to_owned()),
            None => Action::Unknown,
        },
        None => Action::Unknown,
    }
}

pub open spec fn move_run_view(v: Seq<char>) -> ActionView {
    match split_at_last(v, ':') {
        Some(parts) => match parsed_i64(parts.1) {
            Some(server_id) => ActionView::CustomerMoveServer(parts.0, server_id),
            None => ActionView::Unknown,
        },
        None => ActionView::Unknown,
    }
}

fn move_run_action(v: &str) -> (a: Action)
    ensures
        a@ == move_run_view(v@),
{
    match split_last(v, ':') {
        Some(parts) => match parse_i64(parts.1) {
            Some(server_id) => Action::CustomerMoveServer(parts.0.to_owned(), server_id),
            None => Action::Unknown,
        },
        None => Action::Unknown,
    }
}

pub open spec fn support_priority_view(v: Seq<char>) -> ActionView {
    match split_at_first(v, ':') {
        Some(parts) => match parsed_i64(parts.0) {
            Some(id) => ActionView::SupportPriority(id, parts.1),
            None => ActionView::Unknown,
        },
        None => ActionView::Unknown,
    }
}

fn support_priority_action(v: &str) -> (a: Action)
    ensures
        a@ == support_priority_view(v@),
{
    match split_first(v, ':') {
        Some(parts) => match parse_i64(parts.0) {
            Some(id) => Action::SupportPriority(id, parts.1.to_owned()),
            None => Action::Unknown,
        },
        None => Action::Unknown,
    }
}

pub open spec fn support_rate_view(v: Seq<char>) -> ActionView {
    match split_at_first(v, ':') {
        Some(parts) => match (parsed_i64(parts.0), parsed_i64(parts.1)) {
            (Some(id), Some(rating)) => ActionView::SupportRate(id, rating),
            _ => ActionView::Unknown,
        },
        None => ActionView::Unknown,
    }
}

fn support_rate_action(v: &str) -> (a: Action)
    ensures
        a@ == support_rate_view(v@),
{
    match split_first(v, ':') {
        Some(parts) => match (parse_i64(parts.0), parse_i64(parts.1)) {
            (Some(id), Some(rating)) => Action::SupportRate(id, rating),
            _ => Action::Unknown,
        },
        None => Action::Unknown,
    }
}

pub open spec fn userblock_view(v: Seq<char>) -> ActionView {
    match split_at_first(v, ':') {
        Some(parts) => match parsed_i64(parts.0) {
            Some(id) => ActionView::AdminUserBlock(id, up_to_first(parts.1, ':') == "on"@),
            None => ActionView::Unknown,
        },
        None => ActionView::Unknown,
    }
}

fn userblock_action(v: &str) -> (a: Action)
    ensures
        a@ == userblock_view(v@),
{
    match split_first(v, ':') {
        Some(parts) => match parse_i64(parts.0) {
            Some(id) => Action::AdminUserBlock(id, str_eq(first_field(parts.1, ':'), "on")),
            None => Action::Unknown,
        },
        None => Action::Unknown,
    }
}

pub open spec fn renew_term_view(v: Seq<char>) -> ActionView {
    match split_at_last(v, ':') {
        Some(parts) => match parsed_i64(parts.1) {
            Some(months) => ActionView::RenewTerm(parts.0, months),
            None => ActionView::Unknown,
        },
        None => ActionView::Unknown,
    }
}

fn renew_term_action(v: &str) -> (a: Action)
    ensures
        a@ == renew_term_view(v@),
{
    match split_last(v, ':') {
        Some(parts) => match parse_i64(parts.1) {
            Some(months) => Action::RenewTerm(parts.0.to_owned(), months),
            None => Action::Unknown,
        },
        None => Action::Unknown,
    }
}

pub open spec fn legacy_renew_method_view(v: Seq<char>) -> ActionView {
    match split_at_last(v, ':') {
        Some(parts) => ActionView::LegacyRenewMethod(parts.0, parts.1),
        None => ActionView::Unknown,
    }
}

fn legacy_renew_method_action(v: &str) -> (a: Action)
    ensures
        a@ == legacy_renew_method_view(v@),
{
    match split_last(v, ':') {
        Some(parts) => Action::LegacyRenewMethod(parts.0.to_owned(), parts.1.to_owned()),
        None => Action::Unknown,
    }
}

pub open spec fn renew_method_view(v: Seq<char>) -> ActionView {
    match split_at_last(v, ':') {
        Some(parts) => match split_at_last(parts.0, ':') {
            Some(head) => match parsed_i64(head.1) {
                Some(months) => ActionView::RenewMethod(head.0, months, parts.1),
                None => ActionView::Unknown,
            },
            None => ActionView::Unknown,
        },
        None => ActionView::Unknown,
    }
}

fn renew_method_action(v: &str) -> (a: Action)
    ensures
        a@ == renew_method_view(v@),
{
    match split_last(v, ':') {
        Some(parts) => match split_last(parts.0, ':') {
            Some(head) => match parse_i64(head.1) {
                Some(months) => Action::RenewMethod(head.0.to_owned(), months, parts.1.to_owned()),
                None => Action::Unknown,
            },
            None => Action::Unknown,
        },
        None => Action::Unknown,
    }
}

pub open spec fn autorenew_view(v: Seq<char>) -> ActionView {
    match split_at_last(v, ':') {
        Some(parts) => match split_at_last(parts.0, ':') {
            Some(head) => match parsed_i64(head.1) {
                Some(months) => ActionView::AutoRenew(head.0, months, parts.1 == "on"@),
                None => ActionView::Unknown,
            },
            None => ActionView::Unknown,
        },
        None => ActionView::Unknown,
    }
}

fn autorenew_action(v: &str) -> (a: Action)
    ensures
        a@ == autorenew_view(v@),
{
    match split_last(v, ':') {
        Some(parts) => match split_last(parts.0, ':') {
            Some(head) => match parse_i64(head.1) {
                Some(months) => Action::AutoRenew(head.0.to_owned(), months, str_eq(parts.1, "on")),
                None => Action::Unknown,
            },
            None => Action::Unknown,
        },
        None => Action::Unknown,
    }
}

pub open spec fn admdel_view(v: Seq<char>) -> ActionView {
    match split_at_first(v, ':') {
        Some(parts) => match (parsed_i64(parts.0), parsed_i64(parts.1)) {
            (Some(group), Some(user)) => ActionView::GroupAdminRemove(group, user),
            _ => ActionView::Unknown,
        },
        None => ActionView::Unknown,
    }
}

fn admdel_action(v: &str) -> (a: Action)
    ensures
        a@ == admdel_view(v@),
{
    match split_first(v, ':') {
        Some(parts) => match (parse_i64(parts.0), parse_i64(parts.1)) {
            (Some(group), Some(user)) => Action::GroupAdminRemove(group, user),
            _ => Action::Unknown,
        },
        None => Action::Unknown,
    }
}

pub open spec fn gmoveto_view(v: Seq<char>) -> ActionView {
    match split_at_first(v, ':') {
        Some(parts) => if parts.0 == "none"@ {
            ActionView::MoveClientTo(None, parts.1)
        } else {
            match parsed_i64(parts.0) {
                Some(group) => ActionView::MoveClientTo(Some(group), parts.1),
                None => ActionView::Unknown,
            }
        },
        None => ActionView::Unknown,
    }
}

fn gmoveto_action(v: &str) -> (a: Action)
    ensures
        a@ == gmoveto_view(v@),
{
    match split_first(v, ':') {
        Some(parts) => if str_eq(parts.0, "none") {
            Action::MoveClientTo(None, parts.1.to_owned())
        } else {
            match parse_i64(parts.0) {
                Some(group) => Action::MoveClientTo(Some(group), parts.1.to_owned()),
                None => Action::Unknown,
            }
        },
        None => Action::Unknown,
    }
}

pub open spec fn gscope_view(v: Seq<char>) -> ActionView {
    if v == "all"@ {
        ActionView::GroupScopeSet(ListScope::All)
    } else if v == "none"@ {
        ActionView::GroupScopeSet(ListScope::NoGroup)
    } else {
        match parsed_i64(v) {
            Some(group) => ActionView::GroupScopeSet(ListScope::Group(group)),
            None => ActionView::Unknown,
        }
    }
}

fn gscope_action(v: &str) -> (a: Action)
    ensures
        a@ == gscope_view(v@),
{
    if str_eq(v, "all") {
        Action::GroupScopeSet(ListScope::All)
    } else if str_eq(v, "none") {
        Action::GroupScopeSet(ListScope::NoGroup)
    } else {
        match parse_i64(v) {
            Some(group) => Action::GroupScopeSet(ListScope::Group(group)),
            None => Action::Unknown,
        }
    }
}

pub open spec fn listfilter_view(v: Seq<char>) -> ActionView {
    match filter_named(v) {
        Some(filter) => ActionView::SetListFilter(filter),
        None => ActionView::Unknown,
    }
}

fn listfilter_action(v: &str) -> (a: Action)
    ensures
        a@ == listfilter_view(v@),
{
    match ClientFilter::parse_str(v) {
        Some(filter) => Action::SetListFilter(filter),
        None => Action::Unknown,
    }
}

pub open spec fn modparam_view(v: Seq<char>) -> ActionView {
    match split_at_first(v, ':') {
        Some(parts) => if parts.1 == "keepalive"@ {
            ActionView::ModifyParam(parts.0, ModifyParam::Keepalive)
        } else if parts.1 == "dns"@ {
            ActionView::ModifyParam(parts.0, ModifyParam::Dns)
        } else if parts.1 == "allowedips"@ {
            ActionView::ModifyParam(parts.0, ModifyParam::AllowedIps)
        } else if parts.1 == "endpoint"@ {
            ActionView::ModifyParam(parts.0, ModifyParam::Endpoint)
        } else {
            ActionView::Unknown
        },
        None => ActionView::Unknown,
    }
}

fn modparam_action(v: &str) -> (a: Action)
    ensures
        a@ == modparam_view(v@),
{
    match split_first(v, ':') {
        Some(parts) => if str_eq(parts.1, "keepalive") {
            Action::ModifyParam(parts.0.to_owned(), ModifyParam::Keepalive)
        } else if str_eq(parts.1, "dns") {
            Action::ModifyParam(parts.0.to_owned(), ModifyParam::Dns)
        } else if str_eq(parts.1, "allowedips") {
            Action::ModifyParam(parts.0.to_owned(), ModifyParam::AllowedIps)
        } else if str_eq(parts.1, "endpoint") {
            Action::ModifyParam(parts.0.to_owned(), ModifyParam::Endpoint)
        } else {
            Action::Unknown
        },
        None => Action::Unknown,
    }
}

/// Actions named by the whole callback data.
pub open spec fn exact_callback(data: Seq<char>) -> Option<ActionView> {
    if data == "admin:dashboard"@ {
        Some(ActionView::AdminDashboard)
    } else if data == "admin:vpn"@ {
        Some(ActionView::AdminVpn)
    } else if data == "admin:servers"@ {
        Some(ActionView::AdminServers)
    } else if data == "migration:local"@ {
        Some(ActionView::LocalMigration)
    } else if data == "migration:preflight"@ {
        Some(ActionView::LocalMigrationPreflight)
    } else if data == "migration:start"@ {
        Some(ActionView::LocalMigrationStart)
    } else if data == "migration:status"@ {
        Some(ActionView::LocalMigrationStatus)
    } else if data == "migration:rollback"@ {
        Some(ActionView::LocalMigrationRollback)
    } else if data == "admin:keys"@ {
        Some(ActionView::AdminKeys)
    } else if data == "admin:users"@ {
        Some(ActionView::AdminUsersHub)
    } else if data == "admin:communication"@ {
        Some(ActionView::AdminCommunication)
    } else if data == "admin:system"@ {
        Some(ActionView::AdminSystem)
    } else if data == "admin:update"@ {
        Some(ActionView::AdminUpdate)
    } else if data == "admin:update:run"@ {
        Some(ActionView::AdminUpdateRun)
    } else if data == "admin:update:status"@ {
        Some(ActionView::AdminUpdateStatus)
    } else if data == "admin:update:rollback"@ {
        Some(ActionView::AdminUpdateRollback)
    } else if data == "server:add"@ {
        Some(ActionView::ServerAdd)
    } else if data == "server:billing"@ {
        Some(ActionView::ServerBilling)
    } else if data == "admin:create"@ {
        Some(ActionView::AdminCreate)
    } else if data == "admin:owners"@ {
        Some(ActionView::AdminOwners)
    } else if data == "admin:finance"@ {
        Some(ActionView::AdminFinance)
    } else if data == "admin:support"@ {
        Some(ActionView::AdminSupport)
    } else if data == "admin:broadcast"@ {
        Some(ActionView::AdminBroadcast)
    } else if data == "admin:broadcast:templates"@ {
        Some(ActionView::AdminBroadcastTemplates)
    } else if data == "admin:help"@ {
        Some(ActionView::AdminHelp)
    } else if data == "admin:search"@ {
        Some(ActionView::AdminSearch)
    } else if data == "admin:roles"@ {
        Some(ActionView::AdminRoles)
    } else if data == "menu"@ {
        Some(ActionView::Menu)
    } else if data == "list"@ {
        Some(ActionView::List)
    } else if data == "add"@ {
        Some(ActionView::Add)
    } else if data == "addbulk"@ {
        Some(ActionView::AddBulk)
    } else if data == "stats"@ {
        Some(ActionView::Stats)
    } else if data == "admin:bulk:confirm"@ {
        Some(ActionView::AdminBulkConfirm)
    } else if data == "settings"@ {
        Some(ActionView::Settings)
    } else if data == "backup"@ {
        Some(ActionView::Backup)
    } else if data == "bk:new"@ {
        Some(ActionView::BackupNew)
    } else if data == "bk:list"@ {
        Some(ActionView::BackupList)
    } else if data == "check"@ {
        Some(ActionView::Check)
    } else if data == "diagnose"@ {
        Some(ActionView::Diagnose)
    } else if data == "regen_all"@ {
        Some(ActionView::RegenAll)
    } else if data == "regen_all_go"@ {
        Some(ActionView::RegenAllRun(false))
    } else if data == "regen_all_routes"@ {
        Some(ActionView::RegenAllRun(true))
    } else if data == "restart"@ {
        Some(ActionView::Restart)
    } else if data == "restart_go"@ {
        Some(ActionView::RestartRun)
    } else if data == "repair"@ {
        Some(ActionView::RepairModule)
    } else if data == "groups"@ {
        Some(ActionView::Groups)
    } else if data == "g:new"@ {
        Some(ActionView::GroupCreate)
    } else if data == "g:selmenu"@ {
        Some(ActionView::GroupSelectMenu)
    } else if data == "gscope"@ {
        Some(ActionView::GroupScopeAsk)
    } else if data == "buy"@ {
        Some(ActionView::Buy)
    } else if data == "mykeys"@ {
        Some(ActionView::MyKeys)
    } else if data == "profile"@ {
        Some(ActionView::Profile)
    } else if data == "portal"@ {
        Some(ActionView::Portal)
    } else if data == "balance"@ {
        Some(ActionView::Balance)
    } else if data == "set:payment"@ {
        Some(ActionView::PaymentInstructionsAsk)
    } else if data == "set:acquiring"@ {
        Some(ActionView::AcquiringUrlAsk)
    } else if data == "finance:export"@ {
        Some(ActionView::FinanceExport)
    } else if data == "admin:promos"@ {
        Some(ActionView::AdminPromos)
    } else if data == "admin:commerce"@ {
        Some(ActionView::AdminCommerce)
    } else if data == "admin:prices:rub"@ {
        Some(ActionView::AdminPricesRub)
    } else if data == "admin:prices:stars"@ {
        Some(ActionView::AdminPricesStars)
    } else if data == "admin:referral"@ {
        Some(ActionView::AdminReferral)
    } else if data == "admin:legacy"@ {
        Some(ActionView::LegacyRestore)
    } else if data == "legacy:request:new"@ {
        Some(ActionView::LegacyRequestNew)
    } else if data == "legacy:promo"@ {
        Some(ActionView::PromoInput)
    } else if data == "legacy:price"@ {
        Some(ActionView::LegacyPriceAsk)
    } else if data == "admin:operations"@ {
        Some(ActionView::AdminOperations)
    } else if data == "admin:operations:refresh"@ {
        Some(ActionView::AdminOperationsRefresh)
    } else if data == "admin:operations:ack"@ {
        Some(ActionView::AdminOperationsAck)
    } else if data == "admin:keys:health"@ {
        Some(ActionView::AdminKeyHealth)
    } else if data == "admin:db-backup"@ {
        Some(ActionView::AdminDbBackup)
    } else if data == "admin:db-backup-audit"@ {
        Some(ActionView::AdminDbBackupAudit)
    } else {
        None
    }
}

/// Actions named by a prefix of the callback data (rule group 1).
pub open spec fn prefixed_callback_1(data: Seq<char>) -> Option<ActionView> {
    if "guide:"@.is_prefix_of(data) {
        let v = data.skip("guide:"@.len() as int);
        Some(ActionView::Guide(v))
    } else if "admin:owners:page:"@.is_prefix_of(data) {
        let v = data.skip("admin:owners:page:"@.len() as int);
        Some(match parsed_usize(v) {
                Some(n) => ActionView::AdminOwnersPage(n),
                None => ActionView::Unknown,
            })
    } else if "server:migrate:preflight:"@.is_prefix_of(data) {
        let v = data.skip("server:migrate:preflight:"@.len() as int);
        Some(match parsed_i64(v) {
                Some(n) => ActionView::RemoteMigrationPreflight(n),
                None => ActionView::Unknown,
            })
    } else if "server:migrate:status:"@.is_prefix_of(data) {
        let v = data.skip("server:migrate:status:"@.len() as int);
        Some(match parsed_i64(v) {
                Some(n) => ActionView::RemoteMigrationStatus(n),
                None => ActionView::Unknown,
            })
    } else if "server:migrate:test:"@.is_prefix_of(data) {
        let v = data.skip("server:migrate:test:"@.len() as int);
        Some(match parsed_i64(v) {
                Some(n) => ActionView::RemoteMigrationTest(n),
                None => ActionView::Unknown,
            })
    } else if "server:migrate:approve:"@.is_prefix_of(data) {
        let v = data.skip("server:migrate:approve:"@.len() as int);
        Some(match parsed_i64(v) {
                Some(n) => ActionView::RemoteMigrationApprove(n),
                None => ActionView::Unknown,
            })
    } else if "server:migrate:ask:"@.is_prefix_of(data) {
        let v = data.skip("server:migrate:ask:"@.len() as int);
        Some(match parsed_i64(v) {
                Some(n) => ActionView::RemoteMigrationAsk(n),
                None => ActionView::Unknown,
            })
    } else if "server:migrate:run:"@.is_prefix_of(data) {
        let v = data.skip("server:migrate:run:"@.len() as int);
        Some(match parsed_i64(v) {
                Some(n) => ActionView::RemoteMigrationRun(n),
                None => ActionView::Unknown,
            })
    } else if "server:migrate:rollback:"@.is_prefix_of(data) {
        let v = data.skip("server:migrate:rollback:"@.len() as int);
        Some(match parsed_i64(v) {
                Some(n) => ActionView::RemoteMigrationRollback(n),
                None => ActionView::Unknown,
            })
    } else if "server:migrate:"@.is_prefix_of(data) {
        let v = data.skip("server:migrate:"@.len() as int);
        Some(match parsed_i64(v) {
                Some(n) => ActionView::RemoteMigration(n),
                None => ActionView::Unknown,
            })
    } else if "buy:term:"@.is_prefix_of(data) {
        let v = data.skip("buy:term:"@.len() as int);
        Some(match parsed_i64(v) {
                Some(n) => ActionView::BuyTerm(n),
                None => ActionView::Unknown,
            })
    } else if "buy:method:"@.is_prefix_of(data) {
        let v = data.skip("buy:method:"@.len() as int);
        Some(buy_method_view(v))
    } else {
        None
    }
}

/// Actions named by a prefix of the callback data (rule group 2).
pub open spec fn prefixed_callback_2(data: Seq<char>) -> Option<ActionView> {
    if "buy:server:"@.is_prefix_of(data) {
        let v = data.skip("buy:server:"@.len() as int);
        Some(match parsed_i64(v) {
                Some(n) => ActionView::BuyServer(n),
                None => ActionView::Unknown,
            })
    } else if "buy:paid:"@.is_prefix_of(data) {
        let v = data.skip("buy:paid:"@.len() as int);
        Some(match parsed_i64(v) {
                Some(n) => ActionView::BuyPaid(n),
                None => ActionView::Unknown,
            })
    } else if "pay:ok:"@.is_prefix_of(data) {
        let v = data.skip("pay:ok:"@.len() as int);
        Some(match parsed_i64(v) {
                Some(n) => ActionView::PaymentApprove(n),
                None => ActionView::Unknown,
            })
    } else if "pay:no:"@.is_prefix_of(data) {
        let v = data.skip("pay:no:"@.len() as int);
        Some(match parsed_i64(v) {
                Some(n) => ActionView::PaymentReject(n),
                None => ActionView::Unknown,
            })
    } else if "owner:assign:"@.is_prefix_of(data) {
        let v = data.skip("owner:assign:"@.len() as int);
        Some(ActionView::AssignOwnerAsk(v))
    } else if "owner:expiry:"@.is_prefix_of(data) {
        let v = data.skip("owner:expiry:"@.len() as int);
        Some(ActionView::AdminExpiryAsk(v))
    } else if "owner:enable:"@.is_prefix_of(data) {
        let v = data.skip("owner:enable:"@.len() as int);
        Some(ActionView::SetClientEnabled(v, true))
    } else if "owner:disable:"@.is_prefix_of(data) {
        let v = data.skip("owner:disable:"@.len() as int);
        Some(ActionView::SetClientEnabled(v, false))
    } else if "mykey:"@.is_prefix_of(data) {
        let v = data.skip("mykey:"@.len() as int);
        Some(ActionView::CustomerKey(v))
    } else if "move:choose:"@.is_prefix_of(data) {
        let v = data.skip("move:choose:"@.len() as int);
        Some(ActionView::CustomerMove(v))
    } else if "move:run:"@.is_prefix_of(data) {
        let v = data.skip("move:run:"@.len() as int);
        Some(move_run_view(v))
    } else if "move:confirm:"@.is_prefix_of(data) {
        let v = data.skip("move:confirm:"@.len() as int);
        Some(match parsed_i64(v) {
                Some(n) => ActionView::CustomerMoveConfirm(n),
                None => ActionView::Unknown,
            })
    } else {
        None
    }
}

/// Actions named by a prefix of the callback data (rule group 3).
pub open spec fn prefixed_callback_3(data: Seq<char>) -> Option<ActionView> {
    if "move:cancel:"@.is_prefix_of(data) {
        let v = data.skip("move:cancel:"@.len() as int);
        Some(match parsed_i64(v) {
                Some(n) => ActionView::CustomerMoveCancel(n),
                None => ActionView::Unknown,
            })
    } else if "device:label:"@.is_prefix_of(data) {
        let v = data.skip("device:label:"@.len() as int);
        Some(ActionView::DeviceLabelAsk(v))
    } else if "support:take:"@.is_prefix_of(data) {
        let v = data.skip("support:take:"@.len() as int);
        Some(match parsed_i64(v) {
                Some(n) => ActionView::SupportTake(n),
                None => ActionView::Unknown,
            })
    } else if "support:new:"@.is_prefix_of(data) {
        let v = data.skip("support:new:"@.len() as int);
        Some(ActionView::SupportNewCategory(v))
    } else if "support:reply:"@.is_prefix_of(data) {
        let v = data.skip("support:reply:"@.len() as int);
        Some(match parsed_i64(v) {
                Some(n) => ActionView::SupportReply(n),
                None => ActionView::Unknown,
            })
    } else if "support:close:"@.is_prefix_of(data) {
        let v = data.skip("support:close:"@.len() as int);
        Some(match parsed_i64(v) {
                Some(n) => ActionView::SupportClose(n),
                None => ActionView::Unknown,
            })
    } else if "support:priority:"@.is_prefix_of(data) {
        let v = data.skip("support:priority:"@.len() as int);
        Some(support_priority_view(v))
    } else if "support:rate:"@.is_prefix_of(data) {
        let v = data.skip("support:rate:"@.len() as int);
        Some(support_rate_view(v))
    } else if "support:ticket:"@.is_prefix_of(data) {
        let v = data.skip("support:ticket:"@.len() as int);
        Some(match parsed_i64(v) {
                Some(n) => ActionView::SupportTicket(n),
                None => ActionView::Unknown,
            })
    } else if "support:filter:"@.is_prefix_of(data) {
        let v = data.skip("support:filter:"@.len() as int);
        Some(ActionView::SupportFilter(v))
    } else if "client:note:"@.is_prefix_of(data) {
        let v = data.skip("client:note:"@.len() as int);
        Some(ActionView::ClientNoteAsk(v))
    } else if "admin:bulk:"@.is_prefix_of(data) {
        let v = data.skip("admin:bulk:"@.len() as int);
        Some(ActionView::AdminBulk(v))
    } else {
        None
    }
}

/// Actions named by a prefix of the callback data (rule group 4).
pub open spec fn prefixed_callback_4(data: Seq<char>) -> Option<ActionView> {
    if "admin:role:"@.is_prefix_of(data) {
        let v = data.skip("admin:role:"@.len() as int);
        Some(ActionView::AdminRoleAction(v))
    } else if "admin:promo:"@.is_prefix_of(data) {
        let v = data.skip("admin:promo:"@.len() as int);
        Some(ActionView::AdminPromoAction(v))
    } else if "broadcast:audience:"@.is_prefix_of(data) {
        let v = data.skip("broadcast:audience:"@.len() as int);
        Some(ActionView::BroadcastAudience(v))
    } else if "broadcast:retry:"@.is_prefix_of(data) {
        let v = data.skip("broadcast:retry:"@.len() as int);
        Some(match parsed_i64(v) {
                Some(n) => ActionView::BroadcastRetry(n),
                None => ActionView::Unknown,
            })
    } else if "admin:userblock:"@.is_prefix_of(data) {
        let v = data.skip("admin:userblock:"@.len() as int);
        Some(userblock_view(v))
    } else if "admin:userkeys:"@.is_prefix_of(data) {
        let v = data.skip("admin:userkeys:"@.len() as int);
        Some(match parsed_i64(v) {
                Some(n) => ActionView::AdminUserKeys(n),
                None => ActionView::Unknown,
            })
    } else if "admin:userkeys-delete-confirm:"@.is_prefix_of(data) {
        let v = data.skip("admin:userkeys-delete-confirm:"@.len() as int);
        Some(match parsed_i64(v) {
                Some(n) => ActionView::AdminUserDeleteKeysConfirm(n),
                None => ActionView::Unknown,
            })
    } else if "admin:userkeys-delete:"@.is_prefix_of(data) {
        let v = data.skip("admin:userkeys-delete:"@.len() as int);
        Some(match parsed_i64(v) {
                Some(n) => ActionView::AdminUserDeleteKeysAsk(n),
                None => ActionView::Unknown,
            })
    } else if "admin:userpay:"@.is_prefix_of(data) {
        let v = data.skip("admin:userpay:"@.len() as int);
        Some(match parsed_i64(v) {
                Some(n) => ActionView::AdminUserPayments(n),
                None => ActionView::Unknown,
            })
    } else if "admin:userbal:"@.is_prefix_of(data) {
        let v = data.skip("admin:userbal:"@.len() as int);
        Some(match parsed_i64(v) {
                Some(n) => ActionView::AdminUserBalance(n),
                None => ActionView::Unknown,
            })
    } else if "admin:userdiscount:"@.is_prefix_of(data) {
        let v = data.skip("admin:userdiscount:"@.len() as int);
        Some(match parsed_i64(v) {
                Some(n) => ActionView::AdminUserDiscount(n),
                None => ActionView::Unknown,
            })
    } else if "admin:usernote:"@.is_prefix_of(data) {
        let v = data.skip("admin:usernote:"@.len() as int);
        Some(match parsed_i64(v) {
                Some(n) => ActionView::AdminUserNote(n),
                None => ActionView::Unknown,
            })
    } else {
        None
    }
}

/// Actions named by a prefix of the callback data (rule group 5).
pub open spec fn prefixed_callback_5(data: Seq<char>) -> Option<ActionView> {
    if "admin:user:"@.is_prefix_of(data) {
        let v = data.skip("admin:user:"@.len() as int);
        Some(match parsed_i64(v) {
                Some(n) => ActionView::AdminUser(n),
                None => ActionView::Unknown,
            })
    } else if "stats:"@.is_prefix_of(data) {
        let v = data.skip("stats:"@.len() as int);
        Some(ActionView::StatsSection(v))
    } else if "renew:term:"@.is_prefix_of(data) {
        let v = data.skip("renew:term:"@.len() as int);
        Some(renew_term_view(v))
    } else if "legacy:renew:method:"@.is_prefix_of(data) {
        let v = data.skip("legacy:renew:method:"@.len() as int);
        Some(legacy_renew_method_view(v))
    } else if "legacy:renew:"@.is_prefix_of(data) {
        let v = data.skip("legacy:renew:"@.len() as int);
        Some(ActionView::LegacyRenew(v))
    } else if "legacy:req:ok:"@.is_prefix_of(data) {
        let v = data.skip("legacy:req:ok:"@.len() as int);
        Some(match parsed_i64(v) {
                Some(n) => ActionView::LegacyRequestApprove(n),
                None => ActionView::Unknown,
            })
    } else if "legacy:req:no:"@.is_prefix_of(data) {
        let v = data.skip("legacy:req:no:"@.len() as int);
        Some(match parsed_i64(v) {
                Some(n) => ActionView::LegacyRequestReject(n),
                None => ActionView::Unknown,
            })
    } else if "server:maintenance:finish:"@.is_prefix_of(data) {
        let v = data.skip("server:maintenance:finish:"@.len() as int);
        Some(match parsed_i64(v) {
                Some(n) => ActionView::ServerMaintenanceFinish(n),
                None => ActionView::Unknown,
            })
    } else if "server:maintenance:"@.is_prefix_of(data) {
        let v = data.skip("server:maintenance:"@.len() as int);
        Some(match parsed_i64(v) {
                Some(n) => ActionView::ServerMaintenanceAsk(n),
                None => ActionView::Unknown,
            })
    } else if "server:bill:"@.is_prefix_of(data) {
        let v = data.skip("server:bill:"@.len() as int);
        Some(match parsed_i64(v) {
                Some(n) => ActionView::ServerBillingAsk(n),
                None => ActionView::Unknown,
            })
    } else if "server:edit:"@.is_prefix_of(data) {
        let v = data.skip("server:edit:"@.len() as int);
        Some(match parsed_i64(v) {
                Some(n) => ActionView::ServerPassportAsk(n),
                None => ActionView::Unknown,
            })
    } else if "server:enroll:revoke:"@.is_prefix_of(data) {
        let v = data.skip("server:enroll:revoke:"@.len() as int);
        Some(match parsed_i64(v) {
                Some(n) => ActionView::ServerEnrollRevoke(n),
                None => ActionView::Unknown,
            })
    } else {
        None
    }
}

/// Actions named by a prefix of the callback data (rule group 6).
pub open spec fn prefixed_callback_6(data: Seq<char>) -> Option<ActionView> {
    if "server:default:"@.is_prefix_of(data) {
        let v = data.skip("server:default:"@.len() as int);
        Some(match parsed_i64(v) {
                Some(n) => ActionView::ServerSetDefault(n),
                None => ActionView::Unknown,
            })
    } else if "server:deploy:"@.is_prefix_of(data) {
        let v = data.skip("server:deploy:"@.len() as int);
        Some(match parsed_i64(v) {
                Some(n) => ActionView::ServerDeployAsk(n),
                None => ActionView::Unknown,
            })
    } else if "server:check:"@.is_prefix_of(data) {
        let v = data.skip("server:check:"@.len() as int);
        Some(match parsed_i64(v) {
                Some(n) => ActionView::ServerCheck(n),
                None => ActionView::Unknown,
            })
    } else if "server:diagnose:"@.is_prefix_of(data) {
        let v = data.skip("server:diagnose:"@.len() as int);
        Some(match parsed_i64(v) {
                Some(n) => ActionView::ServerDiagnose(n),
                None => ActionView::Unknown,
            })
    } else if "server:probe:"@.is_prefix_of(data) {
        let v = data.skip("server:probe:"@.len() as int);
        Some(match parsed_i64(v) {
                Some(n) => ActionView::ServerProvisioningProbe(n),
                None => ActionView::Unknown,
            })
    } else if "server:panel:sync:"@.is_prefix_of(data) {
        let v = data.skip("server:panel:sync:"@.len() as int);
        Some(match parsed_i64(v) {
                Some(n) => ActionView::ServerPanelSync(n),
                None => ActionView::Unknown,
            })
    } else if "server:panel:audit:"@.is_prefix_of(data) {
        let v = data.skip("server:panel:audit:"@.len() as int);
        Some(match parsed_i64(v) {
                Some(n) => ActionView::ServerPanelAudit(n),
                None => ActionView::Unknown,
            })
    } else if "server:panel:"@.is_prefix_of(data) {
        let v = data.skip("server:panel:"@.len() as int);
        Some(match parsed_i64(v) {
                Some(n) => ActionView::ServerPanelConnect(n),
                None => ActionView::Unknown,
            })
    } else if "server:enroll:"@.is_prefix_of(data) {
        let v = data.skip("server:enroll:"@.len() as int);
        Some(match parsed_i64(v) {
                Some(n) => ActionView::ServerEnroll(n),
                None => ActionView::Unknown,
            })
    } else if "server:"@.is_prefix_of(data) {
        let v = data.skip("server:"@.len() as int);
        Some(match parsed_i64(v) {
                Some(n) => ActionView::ServerCard(n),
                None => ActionView::Unknown,
            })
    } else if "add:server:"@.is_prefix_of(data) {
        let v = data.skip("add:server:"@.len() as int);
        Some(match parsed_i64(v) {
                Some(n) => ActionView::AddServer(n),
                None => ActionView::Unknown,
            })
    } else if "renew:method:"@.is_prefix_of(data) {
        let v = data.skip("renew:method:"@.len() as int);
        Some(renew_method_view(v))
    } else {
        None
    }
}

/// Actions named by a prefix of the callback data (rule group 7).
pub open spec fn prefixed_callback_7(data: Seq<char>) -> Option<ActionView> {
    if "renew:"@.is_prefix_of(data) {
        let v = data.skip("renew:"@.len() as int);
        Some(ActionView::Renew(v))
    } else if "autorenew:"@.is_prefix_of(data) {
        let v = data.skip("autorenew:"@.len() as int);
        Some(autorenew_view(v))
    } else if "g:card:"@.is_prefix_of(data) {
        let v = data.skip("g:card:"@.len() as int);
        Some(match parsed_i64(v) {
                Some(n) => ActionView::GroupCard(n),
                None => ActionView::Unknown,
            })
    } else if "g:ren:"@.is_prefix_of(data) {
        let v = data.skip("g:ren:"@.len() as int);
        Some(match parsed_i64(v) {
                Some(n) => ActionView::GroupRenameAsk(n),
                None => ActionView::Unknown,
            })
    } else if "g:quota:"@.is_prefix_of(data) {
        let v = data.skip("g:quota:"@.len() as int);
        Some(match parsed_i64(v) {
                Some(n) => ActionView::GroupQuotaAsk(n),
                None => ActionView::Unknown,
            })
    } else if "g:admdel:"@.is_prefix_of(data) {
        let v = data.skip("g:admdel:"@.len() as int);
        Some(admdel_view(v))
    } else if "g:admid:"@.is_prefix_of(data) {
        let v = data.skip("g:admid:"@.len() as int);
        Some(match parsed_i64(v) {
                Some(n) => ActionView::GroupAdminById(n),
                None => ActionView::Unknown,
            })
    } else if "g:adm:"@.is_prefix_of(data) {
        let v = data.skip("g:adm:"@.len() as int);
        Some(match parsed_i64(v) {
                Some(n) => ActionView::GroupAdmins(n),
                None => ActionView::Unknown,
            })
    } else if "g:invrev:"@.is_prefix_of(data) {
        let v = data.skip("g:invrev:"@.len() as int);
        Some(match parsed_i64(v) {
                Some(n) => ActionView::GroupInviteRevoke(n),
                None => ActionView::Unknown,
            })
    } else if "g:inv:"@.is_prefix_of(data) {
        let v = data.skip("g:inv:"@.len() as int);
        Some(match parsed_i64(v) {
                Some(n) => ActionView::GroupInvite(n),
                None => ActionView::Unknown,
            })
    } else if "g:delallyes:"@.is_prefix_of(data) {
        let v = data.skip("g:delallyes:"@.len() as int);
        Some(match parsed_i64(v) {
                Some(n) => ActionView::GroupDeleteAllYes(n),
                None => ActionView::Unknown,
            })
    } else if "g:delall:"@.is_prefix_of(data) {
        let v = data.skip("g:delall:"@.len() as int);
        Some(match parsed_i64(v) {
                Some(n) => ActionView::GroupDeleteAllAsk(n),
                None => ActionView::Unknown,
            })
    } else {
        None
    }
}

/// Actions named by a prefix of the callback data (rule group 8).
pub open spec fn prefixed_callback_8(data: Seq<char>) -> Option<ActionView> {
    if "g:deldetach:"@.is_prefix_of(data) {
        let v = data.skip("g:deldetach:"@.len() as int);
        Some(match parsed_i64(v) {
                Some(n) => ActionView::GroupDeleteDetach(n),
                None => ActionView::Unknown,
            })
    } else if "g:del:"@.is_prefix_of(data) {
        let v = data.skip("g:del:"@.len() as int);
        Some(match parsed_i64(v) {
                Some(n) => ActionView::GroupDeleteAsk(n),
                None => ActionView::Unknown,
            })
    } else if "g:regengo:"@.is_prefix_of(data) {
        let v = data.skip("g:regengo:"@.len() as int);
        Some(match parsed_i64(v) {
                Some(n) => ActionView::GroupRegenRun(n),
                None => ActionView::Unknown,
            })
    } else if "g:regen:"@.is_prefix_of(data) {
        let v = data.skip("g:regen:"@.len() as int);
        Some(match parsed_i64(v) {
                Some(n) => ActionView::GroupRegenAsk(n),
                None => ActionView::Unknown,
            })
    } else if "g:sel:"@.is_prefix_of(data) {
        let v = data.skip("g:sel:"@.len() as int);
        Some(match parsed_i64(v) {
                Some(n) => ActionView::GroupSelect(n),
                None => ActionView::Unknown,
            })
    } else if "gmoveto:"@.is_prefix_of(data) {
        let v = data.skip("gmoveto:"@.len() as int);
        Some(gmoveto_view(v))
    } else if "gmove:"@.is_prefix_of(data) {
        let v = data.skip("gmove:"@.len() as int);
        Some(ActionView::MoveClientAsk(v))
    } else if "gscope:"@.is_prefix_of(data) {
        let v = data.skip("gscope:"@.len() as int);
        Some(gscope_view(v))
    } else if "page:"@.is_prefix_of(data) {
        let v = data.skip("page:"@.len() as int);
        Some(match parsed_usize(v) {
                Some(n) => ActionView::Page(n),
                None => ActionView::Unknown,
            })
    } else if "client:"@.is_prefix_of(data) {
        let v = data.skip("client:"@.len() as int);
        Some(ActionView::ShowClient(v))
    } else if "conf:"@.is_prefix_of(data) {
        let v = data.skip("conf:"@.len() as int);
        Some(ActionView::SendConf(v))
    } else if "qr:"@.is_prefix_of(data) {
        let v = data.skip("qr:"@.len() as int);
        Some(ActionView::SendQr(v))
    } else {
        None
    }
}

/// Actions named by a prefix of the callback data (rule group 9).
pub open spec fn prefixed_callback_9(data: Seq<char>) -> Option<ActionView> {
    if "uri:"@.is_prefix_of(data) {
        let v = data.skip("uri:"@.len() as int);
        Some(ActionView::SendLink(v))
    } else if "all:"@.is_prefix_of(data) {
        let v = data.skip("all:"@.len() as int);
        Some(ActionView::SendAll(v))
    } else if "history:"@.is_prefix_of(data) {
        let v = data.skip("history:"@.len() as int);
        Some(ActionView::ClientHistory(v))
    } else if "bulkadd:psk:"@.is_prefix_of(data) {
        let v = data.skip("bulkadd:psk:"@.len() as int);
        Some(ActionView::AddBulkPsk(v == "on"@))
    } else if "bulkserver:"@.is_prefix_of(data) {
        let v = data.skip("bulkserver:"@.len() as int);
        Some(match parsed_i64(v) {
                Some(n) => ActionView::BulkServer(n),
                None => ActionView::Unknown,
            })
    } else if "bulkexp:"@.is_prefix_of(data) {
        let v = data.skip("bulkexp:"@.len() as int);
        Some(ActionView::BulkExpiry(v))
    } else if "bulk:"@.is_prefix_of(data) {
        let v = data.skip("bulk:"@.len() as int);
        Some(match parsed_usize(v) {
                Some(n) => ActionView::AddBulkRun(n),
                None => ActionView::Unknown,
            })
    } else if "delyes:"@.is_prefix_of(data) {
        let v = data.skip("delyes:"@.len() as int);
        Some(ActionView::ConfirmDelete(v))
    } else if "del:"@.is_prefix_of(data) {
        let v = data.skip("del:"@.len() as int);
        Some(ActionView::AskDelete(v))
    } else if "recreate:"@.is_prefix_of(data) {
        let v = data.skip("recreate:"@.len() as int);
        Some(ActionView::Recreate(v))
    } else if "refreshgo:"@.is_prefix_of(data) {
        let v = data.skip("refreshgo:"@.len() as int);
        Some(ActionView::CustomerRefreshRun(v))
    } else if "refresh:"@.is_prefix_of(data) {
        let v = data.skip("refresh:"@.len() as int);
        Some(ActionView::CustomerRefresh(v))
    } else {
        None
    }
}

/// Actions named by a prefix of the callback data (rule group 10).
pub open spec fn prefixed_callback_10(data: Seq<char>) -> Option<ActionView> {
    if "regen:"@.is_prefix_of(data) {
        let v = data.skip("regen:"@.len() as int);
        Some(ActionView::Regen(v))
    } else if "exp:"@.is_prefix_of(data) {
        let v = data.skip("exp:"@.len() as int);
        Some(ActionView::Expiry(v))
    } else if "add:psk:"@.is_prefix_of(data) {
        let v = data.skip("add:psk:"@.len() as int);
        Some(ActionView::AddPsk(v == "on"@))
    } else if "set:lang:"@.is_prefix_of(data) {
        let v = data.skip("set:lang:"@.len() as int);
        Some(ActionView::SetLang(v))
    } else if "set:psk:"@.is_prefix_of(data) {
        let v = data.skip("set:psk:"@.len() as int);
        Some(ActionView::SetPsk(v == "on"@))
    } else if "set:slug:"@.is_prefix_of(data) {
        let v = data.skip("set:slug:"@.len() as int);
        Some(ActionView::SetSlug(v == "on"@))
    } else if "set:conf:"@.is_prefix_of(data) {
        let v = data.skip("set:conf:"@.len() as int);
        Some(ActionView::SetConf(v == "on"@))
    } else if "set:qr:"@.is_prefix_of(data) {
        let v = data.skip("set:qr:"@.len() as int);
        Some(ActionView::SetQr(v == "on"@))
    } else if "set:link:"@.is_prefix_of(data) {
        let v = data.skip("set:link:"@.len() as int);
        Some(ActionView::SetLink(v == "on"@))
    } else if "listfilter:"@.is_prefix_of(data) {
        let v = data.skip("listfilter:"@.len() as int);
        Some(listfilter_view(v))
    } else if "lang:"@.is_prefix_of(data) {
        let v = data.skip("lang:"@.len() as int);
        Some(ActionView::Lang(v))
    } else if "bk:restore_yes:"@.is_prefix_of(data) {
        let v = data.skip("bk:restore_yes:"@.len() as int);
        Some(match parsed_usize(v) {
                Some(n) => ActionView::RestoreYes(n),
                None => ActionView::Unknown,
            })
    } else {
        None
    }
}

/// Actions named by a prefix of the callback data (rule group 11).
pub open spec fn prefixed_callback_11(data: Seq<char>) -> Option<ActionView> {
    if "bk:restore:"@.is_prefix_of(data) {
        let v = data.skip("bk:restore:"@.len() as int);
        Some(match parsed_usize(v) {
                Some(n) => ActionView::Restore(n),
                None => ActionView::Unknown,
            })
    } else if "bk:card:"@.is_prefix_of(data) {
        let v = data.skip("bk:card:"@.len() as int);
        Some(match parsed_usize(v) {
                Some(n) => ActionView::BackupCard(n),
                None => ActionView::Unknown,
            })
    } else if "bk:dl:"@.is_prefix_of(data) {
        let v = data.skip("bk:dl:"@.len() as int);
        Some(match parsed_usize(v) {
                Some(n) => ActionView::BackupDownload(n),
                None => ActionView::Unknown,
            })
    } else if "modparam:"@.is_prefix_of(data) {
        let v = data.skip("modparam:"@.len() as int);
        Some(modparam_view(v))
    } else if "mod:"@.is_prefix_of(data) {
        let v = data.skip("mod:"@.len() as int);
        Some(ActionView::Modify(v))
    } else {
        None
    }
}

/// The action named by callback data: an exact name first, then the first
/// matching prefix rule in order; anything else is `Unknown`.
pub open spec fn callback_action(data: Seq<char>) -> ActionView {
    if exact_callback(data) is Some {
        exact_callback(data)->0
    } else if prefixed_callback_1(data) is Some {
        prefixed_callback_1(data)->0
    } else if prefixed_callback_2(data) is Some {
        prefixed_callback_2(data)->0
    } else if prefixed_callback_3(data) is Some {
        prefixed_callback_3(data)->0
    } else if prefixed_callback_4(data) is Some {
        prefixed_callback_4(data)->0
    } else if prefixed_callback_5(data) is Some {
        prefixed_callback_5(data)->0
    } else if prefixed_callback_6(data) is Some {
        prefixed_callback_6(data)->0
    } else if prefixed_callback_7(data) is Some {
        prefixed_callback_7(data)->0
    } else if prefixed_callback_8(data) is Some {
        prefixed_callback_8(data)->0
    } else if prefixed_callback_9(data) is Some {
        prefixed_callback_9(data)->0
    } else if prefixed_callback_10(data) is Some {
        prefixed_callback_10(data)->0
    } else if prefixed_callback_11(data) is Some {
        prefixed_callback_11(data)->0
    } else {
        ActionView::Unknown
    }
}

fn exact_action(data: &str) -> (r: Option<Action>)
    ensures
        option_view(r) == exact_callback(data@),
{
    if str_eq(data, "admin:dashboard") {
        return Some(Action::AdminDashboard);
    }
    if str_eq(data, "admin:vpn") {
        return Some(Action::AdminVpn);
    }
    if str_eq(data, "admin:servers") {
        return Some(Action::AdminServers);
    }
    if str_eq(data, "migration:local") {
        return Some(Action::LocalMigration);
    }
    if str_eq(data, "migration:preflight") {
        return Some(Action::LocalMigrationPreflight);
    }
    if str_eq(data, "migration:start") {
        return Some(Action::LocalMigrationStart);
    }
    if str_eq(data, "migration:status") {
        return Some(Action::LocalMigrationStatus);
    }
    if str_eq(data, "migration:rollback") {
        return Some(Action::LocalMigrationRollback);
    }
    if str_eq(data, "admin:keys") {
        return Some(Action::AdminKeys);
    }
    if str_eq(data, "admin:users") {
        return Some(Action::AdminUsersHub);
    }
    if str_eq(data, "admin:communication") {
        return Some(Action::AdminCommunication);
    }
    if str_eq(data, "admin:system") {
        return Some(Action::AdminSystem);
    }
    if str_eq(data, "admin:update") {
        return Some(Action::AdminUpdate);
    }
    if str_eq(data, "admin:update:run") {
        return Some(Action::AdminUpdateRun);
    }
    if str_eq(data, "admin:update:status") {
        return Some(Action::AdminUpdateStatus);
    }
    if str_eq(data, "admin:update:rollback") {
        return Some(Action::AdminUpdateRollback);
    }
    if str_eq(data, "server:add") {
        return Some(Action::ServerAdd);
    }
    if str_eq(data, "server:billing") {
        return Some(Action::ServerBilling);
    }
    if str_eq(data, "admin:create") {
        return Some(Action::AdminCreate);
    }
    if str_eq(data, "admin:owners") {
        return Some(Action::AdminOwners);
    }
    if str_eq(data, "admin:finance") {
        return Some(Action::AdminFinance);
    }
    if str_eq(data, "admin:support") {
        return Some(Action::AdminSupport);
    }
    if str_eq(data, "admin:broadcast") {
        return Some(Action::AdminBroadcast);
    }
    if str_eq(data, "admin:broadcast:templates") {
        return Some(Action::AdminBroadcastTemplates);
    }
    if str_eq(data, "admin:help") {
        return Some(Action::AdminHelp);
    }
    if str_eq(data, "admin:search") {
        return Some(Action::AdminSearch);
    }
    if str_eq(data, "admin:roles") {
        return Some(Action::AdminRoles);
    }
    if str_eq(data, "menu") {
        return Some(Action::Menu);
    }
    if str_eq(data, "list") {
        return Some(Action::List);
    }
    if str_eq(data, "add") {
        return Some(Action::Add);
    }
    if str_eq(data, "addbulk") {
        return Some(Action::AddBulk);
    }
    if str_eq(data, "stats") {
        return Some(Action::Stats);
    }
    if str_eq(data, "admin:bulk:confirm") {
        return Some(Action::AdminBulkConfirm);
    }
    if str_eq(data, "settings") {
        return Some(Action::Settings);
    }
    if str_eq(data, "backup") {
        return Some(Action::Backup);
    }
    if str_eq(data, "bk:new") {
        return Some(Action::BackupNew);
    }
    if str_eq(data, "bk:list") {
        return Some(Action::BackupList);
    }
    if str_eq(data, "check") {
        return Some(Action::Check);
    }
    if str_eq(data, "diagnose") {
        return Some(Action::Diagnose);
    }
    if str_eq(data, "regen_all") {
        return Some(Action::RegenAll);
    }
    if str_eq(data, "regen_all_go") {
        return Some(Action::RegenAllRun(false));
    }
    if str_eq(data, "regen_all_routes") {
        return Some(Action::RegenAllRun(true));
    }
    if str_eq(data, "restart") {
        return Some(Action::Restart);
    }
    if str_eq(data, "restart_go") {
        return Some(Action::RestartRun);
    }
    if str_eq(data, "repair") {
        return Some(Action::RepairModule);
    }
    if str_eq(data, "groups") {
        return Some(Action::Groups);
    }
    if str_eq(data, "g:new") {
        return Some(Action::GroupCreate);
    }
    if str_eq(data, "g:selmenu") {
        return Some(Action::GroupSelectMenu);
    }
    if str_eq(data, "gscope") {
        return Some(Action::GroupScopeAsk);
    }
    if str_eq(data, "buy") {
        return Some(Action::Buy);
    }
    if str_eq(data, "mykeys") {
        return Some(Action::MyKeys);
    }
    if str_eq(data, "profile") {
        return Some(Action::Profile);
    }
    if str_eq(data, "portal") {
        return Some(Action::Portal);
    }
    if str_eq(data, "balance") {
        return Some(Action::Balance);
    }
    if str_eq(data, "set:payment") {
        return Some(Action::PaymentInstructionsAsk);
    }
    if str_eq(data, "set:acquiring") {
        return Some(Action::AcquiringUrlAsk);
    }
    if str_eq(data, "finance:export") {
        return Some(Action::FinanceExport);
    }
    if str_eq(data, "admin:promos") {
        return Some(Action::AdminPromos);
    }
    if str_eq(data, "admin:commerce") {
        return Some(Action::AdminCommerce);
    }
    if str_eq(data, "admin:prices:rub") {
        return Some(Action::AdminPricesRub);
    }
    if str_eq(data, "admin:prices:stars") {
        return Some(Action::AdminPricesStars);
    }
    if str_eq(data, "admin:referral") {
        return Some(Action::AdminReferral);
    }
    if str_eq(data, "admin:legacy") {
        return Some(Action::LegacyRestore);
    }
    if str_eq(data, "legacy:request:new") {
        return Some(Action::LegacyRequestNew);
    }
    if str_eq(data, "legacy:promo") {
        return Some(Action::PromoInput);
    }
    if str_eq(data, "legacy:price") {
        return Some(Action::LegacyPriceAsk);
    }
    if str_eq(data, "admin:operations") {
        return Some(Action::AdminOperations);
    }
    if str_eq(data, "admin:operations:refresh") {
        return Some(Action::AdminOperationsRefresh);
    }
    if str_eq(data, "admin:operations:ack") {
        return Some(Action::AdminOperationsAck);
    }
    if str_eq(data, "admin:keys:health") {
        return Some(Action::AdminKeyHealth);
    }
    if str_eq(data, "admin:db-backup") {
        return Some(Action::AdminDbBackup);
    }
    if str_eq(data, "admin:db-backup-audit") {
        return Some(Action::AdminDbBackupAudit);
    }
    None
}

fn prefixed_action_1(data: &str) -> (r: Option<Action>)
    ensures
        option_view(r) == prefixed_callback_1(data@),
{
    if let Some(v) = strip_prefix(data, "guide:") {
        return Some(Action::Guide(v.to_owned()));
    }
    if let Some(v) = strip_prefix(data, "admin:owners:page:") {
        return Some(match parse_usize(v) {
                Some(n) => Action::AdminOwnersPage(n),
                None => Action::Unknown,
            });
    }
    if let Some(v) = strip_prefix(data, "server:migrate:preflight:") {
        return Some(match parse_i64(v) {
                Some(n) => Action::RemoteMigrationPreflight(n),
                None => Action::Unknown,
            });
    }
    if let Some(v) = strip_prefix(data, "server:migrate:status:") {
        return Some(match parse_i64(v) {
                Some(n) => Action::RemoteMigrationStatus(n),
                None => Action::Unknown,
            });
    }
    if let Some(v) = strip_prefix(data, "server:migrate:test:") {
        return Some(match parse_i64(v) {
                Some(n) => Action::RemoteMigrationTest(n),
                None => Action::Unknown,
            });
    }
    if let Some(v) = strip_prefix(data, "server:migrate:approve:") {
        return Some(match parse_i64(v) {
                Some(n) => Action::RemoteMigrationApprove(n),
                None => Action::Unknown,
            });
    }
    if let Some(v) = strip_prefix(data, "server:migrate:ask:") {
        return Some(match parse_i64(v) {
                Some(n) => Action::RemoteMigrationAsk(n),
                None => Action::Unknown,
            });
    }
    if let Some(v) = strip_prefix(data, "server:migrate:run:") {
        return Some(match parse_i64(v) {
                Some(n) => Action::RemoteMigrationRun(n),
                None => Action::Unknown,
            });
    }
    if let Some(v) = strip_prefix(data, "server:migrate:rollback:") {
        return Some(match parse_i64(v) {
                Some(n) => Action::RemoteMigrationRollback(n),
                None => Action::Unknown,
            });
    }
    if let Some(v) = strip_prefix(data, "server:migrate:") {
        return Some(match parse_i64(v) {
                Some(n) => Action::RemoteMigration(n),
                None => Action::Unknown,
            });
    }
    if let Some(v) = strip_prefix(data, "buy:term:") {
        return Some(match parse_i64(v) {
                Some(n) => Action::BuyTerm(n),
                None => Action::Unknown,
            });
    }
    if let Some(v) = strip_prefix(data, "buy:method:") {
        return Some(buy_method_action(v));
    }
    None
}

fn prefixed_action_2(data: &str) -> (r: Option<Action>)
    ensures
        option_view(r) == prefixed_callback_2(data@),
{
    if let Some(v) = strip_prefix(data, "buy:server:") {
        return Some(match parse_i64(v) {
                Some(n) => Action::BuyServer(n),
                None => Action::Unknown,
            });
    }
    if let Some(v) = strip_prefix(data, "buy:paid:") {
        return Some(match parse_i64(v) {
                Some(n) => Action::BuyPaid(n),
                None => Action::Unknown,
            });
    }
    if let Some(v) = strip_prefix(data, "pay:ok:") {
        return Some(match parse_i64(v) {
                Some(n) => Action::PaymentApprove(n),
                None => Action::Unknown,
            });
    }
    if let Some(v) = strip_prefix(data, "pay:no:") {
        return Some(match parse_i64(v) {
                Some(n) => Action::PaymentReject(n),
                None => Action::Unknown,
            });
    }
    if let Some(v) = strip_prefix(data, "owner:assign:") {
        return Some(Action::AssignOwnerAsk(v.to_owned()));
    }
    if let Some(v) = strip_prefix(data, "owner:expiry:") {
        return Some(Action::AdminExpiryAsk(v.to_owned()));
    }
    if let Some(v) = strip_prefix(data, "owner:enable:") {
        return Some(Action::SetClientEnabled(v.to_owned(), true));
    }
    if let Some(v) = strip_prefix(data, "owner:disable:") {
        return Some(Action::SetClientEnabled(v.to_owned(), false));
    }
    if let Some(v) = strip_prefix(data, "mykey:") {
        return Some(Action::CustomerKey(v.to_owned()));
    }
    if let Some(v) = strip_prefix(data, "move:choose:") {
        return Some(Action::CustomerMove(v.to_owned()));
    }
    if let Some(v) = strip_prefix(data, "move:run:") {
        return Some(move_run_action(v));
    }
    if let Some(v) = strip_prefix(data, "move:confirm:") {
        return Some(match parse_i64(v) {
                Some(n) => Action::CustomerMoveConfirm(n),
                None => Action::Unknown,
            });
    }
    None
}

fn prefixed_action_3(data: &str) -> (r: Option<Action>)
    ensures
        option_view(r) == prefixed_callback_3(data@),
{
    if let Some(v) = strip_prefix(data, "move:cancel:") {
        return Some(match parse_i64(v) {
                Some(n) => Action::CustomerMoveCancel(n),
                None => Action::Unknown,
            });
    }
    if let Some(v) = strip_prefix(data, "device:label:") {
        return Some(Action::DeviceLabelAsk(v.to_owned()));
    }
    if let Some(v) = strip_prefix(data, "support:take:") {
        return Some(match parse_i64(v) {
                Some(n) => Action::SupportTake(n),
                None => Action::Unknown,
            });
    }
    if let Some(v) = strip_prefix(data, "support:new:") {
        return Some(Action::SupportNewCategory(v.to_owned()));
    }
    if let Some(v) = strip_prefix(data, "support:reply:") {
        return Some(match parse_i64(v) {
                Some(n) => Action::SupportReply(n),
                None => Action::Unknown,
            });
    }
    if let Some(v) = strip_prefix(data, "support:close:") {
        return Some(match parse_i64(v) {
                Some(n) => Action::SupportClose(n),
                None => Action::Unknown,
            });
    }
    if let Some(v) = strip_prefix(data, "support:priority:") {
        return Some(support_priority_action(v));
    }
    if let Some(v) = strip_prefix(data, "support:rate:") {
        return Some(support_rate_action(v));
    }
    if let Some(v) = strip_prefix(data, "support:ticket:") {
        return Some(match parse_i64(v) {
                Some(n) => Action::SupportTicket(n),
                None => Action::Unknown,
            });
    }
    if let Some(v) = strip_prefix(data, "support:filter:") {
        return Some(Action::SupportFilter(v.to_owned()));
    }
    if let Some(v) = strip_prefix(data, "client:note:") {
        return Some(Action::ClientNoteAsk(v.to_owned()));
    }
    if let Some(v) = strip_prefix(data, "admin:bulk:") {
        return Some(Action::AdminBulk(v.to_owned()));
    }
    None
}

fn prefixed_action_4(data: &str) -> (r: Option<Action>)
    ensures
        option_view(r) == prefixed_callback_4(data@),
{
    if let Some(v) = strip_prefix(data, "admin:role:") {
        return Some(Action::AdminRoleAction(v.to_owned()));
    }
    if let Some(v) = strip_prefix(data, "admin:promo:") {
        return Some(Action::AdminPromoAction(v.to_owned()));
    }
    if let Some(v) = strip_prefix(data, "broadcast:audience:") {
        return Some(Action::BroadcastAudience(v.to_owned()));
    }
    if let Some(v) = strip_prefix(data, "broadcast:retry:") {
        return Some(match parse_i64(v) {
                Some(n) => Action::BroadcastRetry(n),
                None => Action::Unknown,
            });
    }
    if let Some(v) = strip_prefix(data, "admin:userblock:") {
        return Some(userblock_action(v));
    }
    if let Some(v) = strip_prefix(data, "admin:userkeys:") {
        return Some(match parse_i64(v) {
                Some(n) => Action::AdminUserKeys(n),
                None => Action::Unknown,
            });
    }
    if let Some(v) = strip_prefix(data, "admin:userkeys-delete-confirm:") {
        return Some(match parse_i64(v) {
                Some(n) => Action::AdminUserDeleteKeysConfirm(n),
                None => Action::Unknown,
            });
    }
    if let Some(v) = strip_prefix(data, "admin:userkeys-delete:") {
        return Some(match parse_i64(v) {
                Some(n) => Action::AdminUserDeleteKeysAsk(n),
                None => Action::Unknown,
            });
    }
    if let Some(v) = strip_prefix(data, "admin:userpay:") {
        return Some(match parse_i64(v) {
                Some(n) => Action::AdminUserPayments(n),
                None => Action::Unknown,
            });
    }
    if let Some(v) = strip_prefix(data, "admin:userbal:") {
        return Some(match parse_i64(v) {
                Some(n) => Action::AdminUserBalance(n),
                None => Action::Unknown,
            });
    }
    if let Some(v) = strip_prefix(data, "admin:userdiscount:") {
        return Some(match parse_i64(v) {
                Some(n) => Action::AdminUserDiscount(n),
                None => Action::Unknown,
            });
    }
    if let Some(v) = strip_prefix(data, "admin:usernote:") {
        return Some(match parse_i64(v) {
                Some(n) => Action::AdminUserNote(n),
                None => Action::Unknown,
            });
    }
    None
}

fn prefixed_action_5(data: &str) -> (r: Option<Action>)
    ensures
        option_view(r) == prefixed_callback_5(data@),
{
    if let Some(v) = strip_prefix(data, "admin:user:") {
        return Some(match parse_i64(v) {
                Some(n) => Action::AdminUser(n),
                None => Action::Unknown,
            });
    }
    if let Some(v) = strip_prefix(data, "stats:") {
        return Some(Action::StatsSection(v.to_owned()));
    }
    if let Some(v) = strip_prefix(data, "renew:term:") {
        return Some(renew_term_action(v));
    }
    if let Some(v) = strip_prefix(data, "legacy:renew:method:") {
        return Some(legacy_renew_method_action(v));
    }
    if let Some(v) = strip_prefix(data, "legacy:renew:") {
        return Some(Action::LegacyRenew(v.to_owned()));
    }
    if let Some(v) = strip_prefix(data, "legacy:req:ok:") {
        return Some(match parse_i64(v) {
                Some(n) => Action::LegacyRequestApprove(n),
                None => Action::Unknown,
            });
    }
    if let Some(v) = strip_prefix(data, "legacy:req:no:") {
        return Some(match parse_i64(v) {
                Some(n) => Action::LegacyRequestReject(n),
                None => Action::Unknown,
            });
    }
    if let Some(v) = strip_prefix(data, "server:maintenance:finish:") {
        return Some(match parse_i64(v) {
                Some(n) => Action::ServerMaintenanceFinish(n),
                None => Action::Unknown,
            });
    }
    if let Some(v) = strip_prefix(data, "server:maintenance:") {
        return Some(match parse_i64(v) {
                Some(n) => Action::ServerMaintenanceAsk(n),
                None => Action::Unknown,
            });
    }
    if let Some(v) = strip_prefix(data, "server:bill:") {
        return Some(match parse_i64(v) {
                Some(n) => Action::ServerBillingAsk(n),
                None => Action::Unknown,
            });
    }
    if let Some(v) = strip_prefix(data, "server:edit:") {
        return Some(match parse_i64(v) {
                Some(n) => Action::ServerPassportAsk(n),
                None => Action::Unknown,
            });
    }
    if let Some(v) = strip_prefix(data, "server:enroll:revoke:") {
        return Some(match parse_i64(v) {
                Some(n) => Action::ServerEnrollRevoke(n),
                None => Action::Unknown,
            });
    }
    None
}

fn prefixed_action_6(data: &str) -> (r: Option<Action>)
    ensures
        option_view(r) == prefixed_callback_6(data@),
{
    if let Some(v) = strip_prefix(data, "server:default:") {
        return Some(match parse_i64(v) {
                Some(n) => Action::ServerSetDefault(n),
                None => Action::Unknown,
            });
    }
    if let Some(v) = strip_prefix(data, "server:deploy:") {
        return Some(match parse_i64(v) {
                Some(n) => Action::ServerDeployAsk(n),
                None => Action::Unknown,
            });
    }
    if let Some(v) = strip_prefix(data, "server:check:") {
        return Some(match parse_i64(v) {
                Some(n) => Action::ServerCheck(n),
                None => Action::Unknown,
            });
    }
    if let Some(v) = strip_prefix(data, "server:diagnose:") {
        return Some(match parse_i64(v) {
                Some(n) => Action::ServerDiagnose(n),
                None => Action::Unknown,
            });
    }
    if let Some(v) = strip_prefix(data, "server:probe:") {
        return Some(match parse_i64(v) {
                Some(n) => Action::ServerProvisioningProbe(n),
                None => Action::Unknown,
            });
    }
    if let Some(v) = strip_prefix(data, "server:panel:sync:") {
        return Some(match parse_i64(v) {
                Some(n) => Action::ServerPanelSync(n),
                None => Action::Unknown,
            });
    }
    if let Some(v) = strip_prefix(data, "server:panel:audit:") {
        return Some(match parse_i64(v) {
                Some(n) => Action::ServerPanelAudit(n),
                None => Action::Unknown,
            });
    }
    if let Some(v) = strip_prefix(data, "server:panel:") {
        return Some(match parse_i64(v) {
                Some(n) => Action::ServerPanelConnect(n),
                None => Action::Unknown,
            });
    }
    if let Some(v) = strip_prefix(data, "server:enroll:") {
        return Some(match parse_i64(v) {
                Some(n) => Action::ServerEnroll(n),
                None => Action::Unknown,
            });
    }
    if let Some(v) = strip_prefix(data, "server:") {
        return Some(match parse_i64(v) {
                Some(n) => Action::ServerCard(n),
                None => Action::Unknown,
            });
    }
    if let Some(v) = strip_prefix(data, "add:server:") {
        return Some(match parse_i64(v) {
                Some(n) => Action::AddServer(n),
                None => Action::Unknown,
            });
    }
    if let Some(v) = strip_prefix(data, "renew:method:") {
        return Some(renew_method_action(v));
    }
    None
}

fn prefixed_action_7(data: &str) -> (r: Option<Action>)
    ensures
        option_view(r) == prefixed_callback_7(data@),
{
    if let Some(v) = strip_prefix(data, "renew:") {
        return Some(Action::Renew(v.to_owned()));
    }
    if let Some(v) = strip_prefix(data, "autorenew:") {
        return Some(autorenew_action(v));
    }
    if let Some(v) = strip_prefix(data, "g:card:") {
        return Some(match parse_i64(v) {
                Some(n) => Action::GroupCard(n),
                None => Action::Unknown,
            });
    }
    if let Some(v) = strip_prefix(data, "g:ren:") {
        return Some(match parse_i64(v) {
                Some(n) => Action::GroupRenameAsk(n),
                None => Action::Unknown,
            });
    }
    if let Some(v) = strip_prefix(data, "g:quota:") {
        return Some(match parse_i64(v) {
                Some(n) => Action::GroupQuotaAsk(n),
                None => Action::Unknown,
            });
    }
    if let Some(v) = strip_prefix(data, "g:admdel:") {
        return Some(admdel_action(v));
    }
    if let Some(v) = strip_prefix(data, "g:admid:") {
        return Some(match parse_i64(v) {
                Some(n) => Action::GroupAdminById(n),
                None => Action::Unknown,
            });
    }
    if let Some(v) = strip_prefix(data, "g:adm:") {
        return Some(match parse_i64(v) {
                Some(n) => Action::GroupAdmins(n),
                None => Action::Unknown,
            });
    }
    if let Some(v) = strip_prefix(data, "g:invrev:") {
        return Some(match parse_i64(v) {
                Some(n) => Action::GroupInviteRevoke(n),
                None => Action::Unknown,
            });
    }
    if let Some(v) = strip_prefix(data, "g:inv:") {
        return Some(match parse_i64(v) {
                Some(n) => Action::GroupInvite(n),
                None => Action::Unknown,
            });
    }
    if let Some(v) = strip_prefix(data, "g:delallyes:") {
        return Some(match parse_i64(v) {
                Some(n) => Action::GroupDeleteAllYes(n),
                None => Action::Unknown,
            });
    }
    if let Some(v) = strip_prefix(data, "g:delall:") {
        return Some(match parse_i64(v) {
                Some(n) => Action::GroupDeleteAllAsk(n),
                None => Action::Unknown,
            });
    }
    None
}

fn prefixed_action_8(data: &str) -> (r: Option<Action>)
    ensures
        option_view(r) == prefixed_callback_8(data@),
{
    if let Some(v) = strip_prefix(data, "g:deldetach:") {
        return Some(match parse_i64(v) {
                Some(n) => Action::GroupDeleteDetach(n),
                None => Action::Unknown,
            });
    }
    if let Some(v) = strip_prefix(data, "g:del:") {
        return Some(match parse_i64(v) {
                Some(n) => Action::GroupDeleteAsk(n),
                None => Action::Unknown,
            });
    }
    if let Some(v) = strip_prefix(data, "g:regengo:") {
        return Some(match parse_i64(v) {
                Some(n) => Action::GroupRegenRun(n),
                None => Action::Unknown,
            });
    }
    if let Some(v) = strip_prefix(data, "g:regen:") {
        return Some(match parse_i64(v) {
                Some(n) => Action::GroupRegenAsk(n),
                None => Action::Unknown,
            });
    }
    if let Some(v) = strip_prefix(data, "g:sel:") {
        return Some(match parse_i64(v) {
                Some(n) => Action::GroupSelect(n),
                None => Action::Unknown,
            });
    }
    if let Some(v) = strip_prefix(data, "gmoveto:") {
        return Some(gmoveto_action(v));
    }
    if let Some(v) = strip_prefix(data, "gmove:") {
        return Some(Action::MoveClientAsk(v.to_owned()));
    }
    if let Some(v) = strip_prefix(data, "gscope:") {
        return Some(gscope_action(v));
    }
    if let Some(v) = strip_prefix(data, "page:") {
        return Some(match parse_usize(v) {
                Some(n) => Action::Page(n),
                None => Action::Unknown,
            });
    }
    if let Some(v) = strip_prefix(data, "client:") {
        return Some(Action::ShowClient(v.to_owned()));
    }
    if let Some(v) = strip_prefix(data, "conf:") {
        return Some(Action::SendConf(v.to_owned()));
    }
    if let Some(v) = strip_prefix(data, "qr:") {
        return Some(Action::SendQr(v.to_owned()));
    }
    None
}

fn prefixed_action_9(data: &str) -> (r: Option<Action>)
    ensures
        option_view(r) == prefixed_callback_9(data@),
{
    if let Some(v) = strip_prefix(data, "uri:") {
        return Some(Action::SendLink(v.to_owned()));
    }
    if let Some(v) = strip_prefix(data, "all:") {
        return Some(Action::SendAll(v.to_owned()));
    }
    if let Some(v) = strip_prefix(data, "history:") {
        return Some(Action::ClientHistory(v.to_owned()));
    }
    if let Some(v) = strip_prefix(data, "bulkadd:psk:") {
        return Some(Action::AddBulkPsk(str_eq(v, "on")));
    }
    if let Some(v) = strip_prefix(data, "bulkserver:") {
        return Some(match parse_i64(v) {
                Some(n) => Action::BulkServer(n),
                None => Action::Unknown,
            });
    }
    if let Some(v) = strip_prefix(data, "bulkexp:") {
        return Some(Action::BulkExpiry(v.to_owned()));
    }
    if let Some(v) = strip_prefix(data, "bulk:") {
        return Some(match parse_usize(v) {
                Some(n) => Action::AddBulkRun(n),
                None => Action::Unknown,
            });
    }
    if let Some(v) = strip_prefix(data, "delyes:") {
        return Some(Action::ConfirmDelete(v.to_owned()));
    }
    if let Some(v) = strip_prefix(data, "del:") {
        return Some(Action::AskDelete(v.to_owned()));
    }
    if let Some(v) = strip_prefix(data, "recreate:") {
        return Some(Action::Recreate(v.to_owned()));
    }
    if let Some(v) = strip_prefix(data, "refreshgo:") {
        return Some(Action::CustomerRefreshRun(v.to_owned()));
    }
    if let Some(v) = strip_prefix(data, "refresh:") {
        return Some(Action::CustomerRefresh(v.to_owned()));
    }
    None
}

fn prefixed_action_10(data: &str) -> (r: Option<Action>)
    ensures
        option_view(r) == prefixed_callback_10(data@),
{
    if let Some(v) = strip_prefix(data, "regen:") {
        return Some(Action::Regen(v.to_owned()));
    }
    if let Some(v) = strip_prefix(data, "exp:") {
        return Some(Action::Expiry(v.to_owned()));
    }
    if let Some(v) = strip_prefix(data, "add:psk:") {
        return Some(Action::AddPsk(str_eq(v, "on")));
    }
    if let Some(v) = strip_prefix(data, "set:lang:") {
        return Some(Action::SetLang(v.to_owned()));
    }
    if let Some(v) = strip_prefix(data, "set:psk:") {
        return Some(Action::SetPsk(str_eq(v, "on")));
    }
    if let Some(v) = strip_prefix(data, "set:slug:") {
        return Some(Action::SetSlug(str_eq(v, "on")));
    }
    if let Some(v) = strip_prefix(data, "set:conf:") {
        return Some(Action::SetConf(str_eq(v, "on")));
    }
    if let Some(v) = strip_prefix(data, "set:qr:") {
        return Some(Action::SetQr(str_eq(v, "on")));
    }
    if let Some(v) = strip_prefix(data, "set:link:") {
        return Some(Action::SetLink(str_eq(v, "on")));
    }
    if let Some(v) = strip_prefix(data, "listfilter:") {
        return Some(listfilter_action(v));
    }
    if let Some(v) = strip_prefix(data, "lang:") {
        return Some(Action::Lang(v.to_owned()));
    }
    if let Some(v) = strip_prefix(data, "bk:restore_yes:") {
        return Some(match parse_usize(v) {
                Some(n) => Action::RestoreYes(n),
                None => Action::Unknown,
            });
    }
    None
}

fn prefixed_action_11(data: &str) -> (r: Option<Action>)
    ensures
        option_view(r) == prefixed_callback_11(data@),
{
    if let Some(v) = strip_prefix(data, "bk:restore:") {
        return Some(match parse_usize(v) {
                Some(n) => Action::Restore(n),
                None => Action::Unknown,
            });
    }
    if let Some(v) = strip_prefix(data, "bk:card:") {
        return Some(match parse_usize(v) {
                Some(n) => Action::BackupCard(n),
                None => Action::Unknown,
            });
    }
    if let Some(v) = strip_prefix(data, "bk:dl:") {
        return Some(match parse_usize(v) {
                Some(n) => Action::BackupDownload(n),
                None => Action::Unknown,
            });
    }
    if let Some(v) = strip_prefix(data, "modparam:") {
        return Some(modparam_action(v));
    }
    if let Some(v) = strip_prefix(data, "mod:") {
        return Some(Action::Modify(v.to_owned()));
    }
    None
}

/// Decodes the callback data of an inline button.
pub fn parse_callback(data: &str) -> (action: Action)
    ensures
        action@ == callback_action(data@),
{
    if let Some(action) = exact_action(data) {
        return action;
    }
    if let Some(action) = prefixed_action_1(data) {
        return action;
    }
    if let Some(action) = prefixed_action_2(data) {
        return action;
    }
    if let Some(action) = prefixed_action_3(data) {
        return action;
    }
    if let Some(action) = prefixed_action_4(data) {
        return action;
    }
    if let Some(action) = prefixed_action_5(data) {
        return action;
    }
    if let Some(action) = prefixed_action_6(data) {
        return action;
    }
    if let Some(action) = prefixed_action_7(data) {
        return action;
    }
    if let Some(action) = prefixed_action_8(data) {
        return action;
    }
    if let Some(action) = prefixed_action_9(data) {
        return action;
    }
    if let Some(action) = prefixed_action_10(data) {
        return action;
    }
    if let Some(action) = prefixed_action_11(data) {
        return action;
    }
    Action::Unknown
}

} // verus!
