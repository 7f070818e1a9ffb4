//! Access decisions: which role may run which action, and in which group a
//! role works.

use vstd::prelude::*;
use crate::action::{Action, ActionView};
use crate::auth::{contains_id, sees_client, Role, RoleView};
use crate::store::Store;
use crate::text::str_eq;

verus! {

/// Actions every authenticated role may run (customer screens, dialogs that
/// check their own scope, and unknown data, which only earns a reply).
pub open spec fn open_to_all(a: ActionView) -> bool {
    match a {
        ActionView::Menu |
        ActionView::List |
        ActionView::Add |
        ActionView::Stats |
        ActionView::Page(_) |
        ActionView::Expiry(_) |
        ActionView::AddPsk(_) |
        ActionView::AddServer(_) |
        ActionView::AddBulk |
        ActionView::AddBulkRun(_) |
        ActionView::BulkExpiry(_) |
        ActionView::AddBulkPsk(_) |
        ActionView::BulkServer(_) |
        ActionView::Lang(_) |
        ActionView::SetListFilter(_) |
        ActionView::Buy |
        ActionView::BuyServer(_) |
        ActionView::BuyTerm(_) |
        ActionView::BuyMethod(_, _) |
        ActionView::BuyPaid(_) |
        ActionView::MyKeys |
        ActionView::Profile |
        ActionView::Portal |
        ActionView::Balance |
        ActionView::CustomerKey(_) |
        ActionView::CustomerMove(_) |
        ActionView::CustomerMoveServer(_, _) |
        ActionView::CustomerMoveConfirm(_) |
        ActionView::CustomerMoveCancel(_) |
        ActionView::CustomerRefresh(_) |
        ActionView::CustomerRefreshRun(_) |
        ActionView::Renew(_) |
        ActionView::RenewTerm(_, _) |
        ActionView::RenewMethod(_, _, _) |
        ActionView::LegacyRenew(_) |
        ActionView::LegacyRenewMethod(_, _) |
        ActionView::LegacyRequestNew |
        ActionView::PromoInput |
        ActionView::Guide(_) |
        ActionView::AutoRenew(_, _, _) |
        ActionView::DeviceLabelAsk(_) |
        ActionView::SupportRate(_, _) |
        ActionView::Unknown => true,
        _ => false,
    }
}

/// The client an action is about, for actions on one client.
pub open spec fn client_target(a: ActionView) -> Option<Seq<char>> {
    match a {
        ActionView::ShowClient(name) => Some(name),
        ActionView::ClientHistory(name) => Some(name),
        ActionView::SendConf(name) => Some(name),
        ActionView::SendQr(name) => Some(name),
        ActionView::SendLink(name) => Some(name),
        ActionView::SendAll(name) => Some(name),
        ActionView::AskDelete(name) => Some(name),
        ActionView::ConfirmDelete(name) => Some(name),
        ActionView::Recreate(name) => Some(name),
        ActionView::Regen(name) => Some(name),
        _ => None,
    }
}

/// Actions staff with the role `name` may run.
pub open spec fn staff_may(name: Seq<char>, a: ActionView) -> bool {
    if name == "support"@ {
        match a {
            ActionView::AdminSupport |
            ActionView::SupportFilter(_) |
            ActionView::SupportTicket(_) |
            ActionView::SupportTake(_) |
            ActionView::SupportReply(_) |
            ActionView::SupportClose(_) |
            ActionView::SupportPriority(_, _) |
            ActionView::Menu => true,
            _ => false,
        }
    } else if name == "finance"@ {
        match a {
            ActionView::AdminFinance |
            ActionView::FinanceExport |
            ActionView::PaymentApprove(_) |
            ActionView::PaymentReject(_) |
            ActionView::Menu => true,
            _ => false,
        }
    } else if name == "technical"@ {
        match a {
            ActionView::Menu |
            ActionView::List |
            ActionView::Stats |
            ActionView::Page(_) |
            ActionView::ShowClient(_) |
            ActionView::ClientHistory(_) |
            ActionView::SendConf(_) |
            ActionView::SendQr(_) |
            ActionView::SendLink(_) |
            ActionView::SendAll(_) |
            ActionView::Modify(_) |
            ActionView::ModifyParam(_, _) |
            ActionView::Regen(_) |
            ActionView::SetClientEnabled(_, _) => true,
            _ => false,
        }
    } else {
        false
    }
}

/// Who may run `a`: nobody denied; staff only what their role lists; owners and
/// group administrators every action open to all; the group selection only a
/// group administrator (and only their own groups); an action on one client
/// whoever sees that client; everything else only the owner.
pub open spec fn authorized(a: ActionView, role: RoleView, store: &Store) -> bool {
    match role {
        RoleView::Denied => false,
        RoleView::Staff(name) => staff_may(name, a),
        _ => if open_to_all(a) {
            true
        } else if a is GroupSelectMenu {
            role is GroupAdmin
        } else if a is GroupSelect {
            role matches RoleView::GroupAdmin(groups) && groups.contains(a->GroupSelect_0)
        } else if client_target(a) is Some {
            sees_client(role, store.client_group_view(client_target(a)->0))
        } else {
            role is Owner
        },
    }
}

/// A denied user runs no action at all.
pub proof fn law_denied_runs_nothing(a: ActionView, store: &Store)
    ensures
        !authorized(a, RoleView::Denied, store),
{
}

/// The owner runs every action but the group selection, which belongs to
/// group administrators.
pub proof fn law_owner_runs_all_but_group_selection(a: ActionView, store: &Store)
    ensures
        authorized(a, RoleView::Owner, store) <==> !(a is GroupSelectMenu || a is GroupSelect),
{
}

/// Beyond the group selection, a group administrator runs nothing the owner
/// may not.
pub proof fn law_group_admin_within_owner(a: ActionView, groups: Seq<i64>, store: &Store)
    requires
        authorized(a, RoleView::GroupAdmin(groups), store),
        !(a is GroupSelectMenu || a is GroupSelect),
    ensures
        authorized(a, RoleView::Owner, store),
{
}

/// A group administrator acts on a client only when the client belongs to one
/// of their groups; a client without a group is out of their reach.
pub proof fn law_group_admin_client_scope(a: ActionView, groups: Seq<i64>, store: &Store)
    requires
        client_target(a) is Some,
        authorized(a, RoleView::GroupAdmin(groups), store),
    ensures
        store.client_group_view(client_target(a)->0) is Some,
        groups.contains(store.client_group_view(client_target(a)->0)->0),
{
}

/// A group administrator may switch to exactly the groups they administer.
pub proof fn law_group_select_own_groups(group: i64, groups: Seq<i64>, store: &Store)
    ensures
        authorized(ActionView::GroupSelect(group), RoleView::GroupAdmin(groups), store)
            <==> groups.contains(group),
{
}

/// Staff run only what their role lists: an action no staff role lists is
/// refused to every staff member.
pub proof fn law_staff_only_listed(a: ActionView, name: Seq<char>, store: &Store)
    requires
        !staff_may("support"@, a),
        !staff_may("finance"@, a),
        !staff_may("technical"@, a),
    ensures
        !authorized(a, RoleView::Staff(name), store),
{
}

/// Whether `role` may see client `name`.
pub fn client_in_scope(role: &Role, settings: &Store, name: &str) -> (r: bool)
    ensures
        r == sees_client(role@, settings.client_group_view(name@)),
{
    role.can_see_client(settings.client_group(name))
}

/// The single authorization point for callback actions. The match lists every
/// action explicitly, so a new action has to be classified before it builds.
pub fn authorize(action: &Action, role: &Role, settings: &Store) -> (r: bool)
    ensures
        r == authorized(action@, role@, settings),
{
    if let Role::Denied = role {
        return false;
    }
    if let Role::Staff(staff_role) = role {
        let name = staff_role.as_str();
        if str_eq(name, "support") {
            return match action {
                Action::AdminSupport |
                Action::SupportFilter(_) |
                Action::SupportTicket(_) |
                Action::SupportTake(_) |
                Action::SupportReply(_) |
                Action::SupportClose(_) |
                Action::SupportPriority(_, _) |
                Action::Menu => true,
                _ => false,
            };
        } else if str_eq(name, "finance") {
            return match action {
                Action::AdminFinance |
                Action::FinanceExport |
                Action::PaymentApprove(_) |
                Action::PaymentReject(_) |
                Action::Menu => true,
                _ => false,
            };
        } else if str_eq(name, "technical") {
            return match action {
                Action::Menu |
                Action::List |
                Action::Stats |
                Action::Page(_) |
                Action::ShowClient(_) |
                Action::ClientHistory(_) |
                Action::SendConf(_) |
                Action::SendQr(_) |
                Action::SendLink(_) |
                Action::SendAll(_) |
                Action::Modify(_) |
                Action::ModifyParam(_, _) |
                Action::Regen(_) |
                Action::SetClientEnabled(_, _) => true,
                _ => false,
            };
        } else {
            return false;
        }
    }
    match action {
        Action::Menu |
        Action::List |
        Action::Add |
        Action::Stats |
        Action::Page(_) |
        Action::Expiry(_) |
        Action::AddPsk(_) |
        Action::AddServer(_) |
        Action::AddBulk |
        Action::AddBulkRun(_) |
        Action::BulkExpiry(_) |
        Action::AddBulkPsk(_) |
        Action::BulkServer(_) |
        Action::Lang(_) |
        Action::SetListFilter(_) |
        Action::Buy |
        Action::BuyServer(_) |
        Action::BuyTerm(_) |
        Action::BuyMethod(_, _) |
        Action::BuyPaid(_) |
        Action::MyKeys |
        Action::Profile |
        Action::Portal |
        Action::Balance |
        Action::CustomerKey(_) |
        Action::CustomerMove(_) |
        Action::CustomerMoveServer(_, _) |
        Action::CustomerMoveConfirm(_) |
        Action::CustomerMoveCancel(_) |
        Action::CustomerRefresh(_) |
        Action::CustomerRefreshRun(_) |
        Action::Renew(_) |
        Action::RenewTerm(_, _) |
        Action::RenewMethod(_, _, _) |
        Action::LegacyRenew(_) |
        Action::LegacyRenewMethod(_, _) |
        Action::LegacyRequestNew |
        Action::PromoInput |
        Action::Guide(_) |
        Action::AutoRenew(_, _, _) |
        Action::DeviceLabelAsk(_) |
        Action::SupportRate(_, _) |
        Action::Unknown => true,
        Action::GroupSelectMenu => match role {
            Role::GroupAdmin(_) => true,
            _ => false,
        },
        Action::GroupSelect(id) => match role {
            Role::GroupAdmin(groups) => contains_id(groups.as_slice(), *id),
            _ => false,
        },
        Action::ShowClient(name) => client_in_scope(role, settings, name.as_str()),
        Action::ClientHistory(name) => client_in_scope(role, settings, name.as_str()),
        Action::SendConf(name) => client_in_scope(role, settings, name.as_str()),
        Action::SendQr(name) => client_in_scope(role, settings, name.as_str()),
        Action::SendLink(name) => client_in_scope(role, settings, name.as_str()),
        Action::SendAll(name) => client_in_scope(role, settings, name.as_str()),
        Action::AskDelete(name) => client_in_scope(role, settings, name.as_str()),
        Action::ConfirmDelete(name) => client_in_scope(role, settings, name.as_str()),
        Action::Recreate(name) => client_in_scope(role, settings, name.as_str()),
        Action::Regen(name) => client_in_scope(role, settings, name.as_str()),
        Action::RegenAll |
        Action::RegenAllRun(_) |
        Action::Settings |
        Action::SetLang(_) |
        Action::SetPsk(_) |
        Action::SetSlug(_) |
        Action::SetConf(_) |
        Action::SetQr(_) |
        Action::SetLink(_) |
        Action::Modify(_) |
        Action::ModifyParam(_, _) |
        Action::Restart |
        Action::RestartRun |
        Action::RepairModule |
        Action::Backup |
        Action::BackupNew |
        Action::BackupList |
        Action::BackupCard(_) |
        Action::BackupDownload(_) |
        Action::Restore(_) |
        Action::RestoreYes(_) |
        Action::Check |
        Action::Diagnose |
        Action::Groups |
        Action::GroupCreate |
        Action::GroupCard(_) |
        Action::GroupRenameAsk(_) |
        Action::GroupQuotaAsk(_) |
        Action::GroupAdmins(_) |
        Action::GroupAdminRemove(_, _) |
        Action::GroupInvite(_) |
        Action::GroupInviteRevoke(_) |
        Action::GroupAdminById(_) |
        Action::GroupDeleteAsk(_) |
        Action::GroupDeleteDetach(_) |
        Action::GroupDeleteAllAsk(_) |
        Action::GroupDeleteAllYes(_) |
        Action::GroupRegenAsk(_) |
        Action::GroupRegenRun(_) |
        Action::MoveClientAsk(_) |
        Action::MoveClientTo(_, _) |
        Action::GroupScopeAsk |
        Action::GroupScopeSet(_) |
        Action::PaymentApprove(_) |
        Action::PaymentReject(_) |
        Action::AssignOwnerAsk(_) |
        Action::AdminExpiryAsk(_) |
        Action::SetClientEnabled(_, _) |
        Action::SupportTicket(_) |
        Action::SupportNewCategory(_) |
        Action::SupportTake(_) |
        Action::SupportReply(_) |
        Action::SupportClose(_) |
        Action::SupportPriority(_, _) |
        Action::FinanceExport |
        Action::AdminDashboard |
        Action::AdminVpn |
        Action::AdminServers |
        Action::AdminKeys |
        Action::AdminUsersHub |
        Action::AdminCommunication |
        Action::AdminSystem |
        Action::AdminUpdate |
        Action::AdminUpdateRun |
        Action::AdminUpdateStatus |
        Action::AdminUpdateRollback |
        Action::ServerAdd |
        Action::ServerCard(_) |
        Action::RemoteMigration(_) |
        Action::RemoteMigrationPreflight(_) |
        Action::RemoteMigrationStatus(_) |
        Action::RemoteMigrationTest(_) |
        Action::RemoteMigrationApprove(_) |
        Action::RemoteMigrationAsk(_) |
        Action::RemoteMigrationRun(_) |
        Action::RemoteMigrationRollback(_) |
        Action::ServerBilling |
        Action::ServerBillingAsk(_) |
        Action::ServerPassportAsk(_) |
        Action::ServerEnroll(_) |
        Action::ServerEnrollRevoke(_) |
        Action::ServerSetDefault(_) |
        Action::ServerDeployAsk(_) |
        Action::ServerCheck(_) |
        Action::ServerDiagnose(_) |
        Action::ServerProvisioningProbe(_) |
        Action::ServerPanelConnect(_) |
        Action::ServerPanelSync(_) |
        Action::ServerPanelAudit(_) |
        Action::LocalMigration |
        Action::LocalMigrationPreflight |
        Action::LocalMigrationStart |
        Action::LocalMigrationStatus |
        Action::LocalMigrationRollback |
        Action::AdminCreate |
        Action::AdminOwners |
        Action::AdminOwnersPage(_) |
        Action::AdminFinance |
        Action::AdminSupport |
        Action::AdminBroadcast |
        Action::AdminBroadcastTemplates |
        Action::BroadcastAudience(_) |
        Action::BroadcastRetry(_) |
        Action::AdminHelp |
        Action::AdminSearch |
        Action::AdminRoles |
        Action::AdminRoleAction(_) |
        Action::AdminBulk(_) |
        Action::AdminBulkConfirm |
        Action::AdminUser(_) |
        Action::AdminUserKeys(_) |
        Action::AdminUserDeleteKeysAsk(_) |
        Action::AdminUserDeleteKeysConfirm(_) |
        Action::AdminUserPayments(_) |
        Action::AdminUserBalance(_) |
        Action::AdminUserDiscount(_) |
        Action::AdminUserNote(_) |
        Action::AdminUserBlock(_, _) |
        Action::StatsSection(_) |
        Action::SupportFilter(_) |
        Action::AdminPromos |
        Action::AdminCommerce |
        Action::AdminPricesRub |
        Action::AdminPricesStars |
        Action::AdminReferral |
        Action::AdminPromoAction(_) |
        Action::LegacyRestore |
        Action::LegacyRequestApprove(_) |
        Action::LegacyRequestReject(_) |
        Action::LegacyPriceAsk |
        Action::ClientNoteAsk(_) |
        Action::PaymentInstructionsAsk |
        Action::AcquiringUrlAsk |
        Action::AdminOperations |
        Action::AdminOperationsRefresh |
        Action::AdminOperationsAck |
        Action::AdminKeyHealth |
        Action::AdminDbBackup |
        Action::AdminDbBackupAudit |
        Action::ServerMaintenanceAsk(_) |
        Action::ServerMaintenanceFinish(_) => role.is_owner(),
    }
}

} // verus!
