//! Admission of a pressed button: whether its action runs for this user.

use vstd::prelude::*;
use crate::access::{authorize, authorized};
use crate::action::{Action, ActionView};
use crate::auth::{Role, RoleView};
use crate::store::Store;

verus! {

/// Actions of the customer screens, open to users without any role.
pub open spec fn customer_action(a: ActionView) -> bool {
    match a {
        ActionView::Buy |
        ActionView::BuyServer(_) |
        ActionView::BuyTerm(_) |
        ActionView::BuyMethod(_, _) |
        ActionView::BuyPaid(_) |
        ActionView::MyKeys |
        ActionView::Profile |
        ActionView::Portal |
        ActionView::Balance |
        ActionView::CustomerKey(_) |
        ActionView::CustomerMove(_) |
        ActionView::CustomerMoveServer(_, _) |
        ActionView::CustomerMoveConfirm(_) |
        ActionView::CustomerMoveCancel(_) |
        ActionView::CustomerRefresh(_) |
        ActionView::CustomerRefreshRun(_) |
        ActionView::Renew(_) |
        ActionView::RenewTerm(_, _) |
        ActionView::RenewMethod(_, _, _) |
        ActionView::LegacyRenew(_) |
        ActionView::LegacyRenewMethod(_, _) |
        ActionView::LegacyRequestNew |
        ActionView::PromoInput |
        ActionView::Guide(_) |
        ActionView::AutoRenew(_, _, _) |
        ActionView::DeviceLabelAsk(_) |
        ActionView::SupportNewCategory(_) |
        ActionView::SupportRate(_, _) => true,
        _ => false,
    }
}

/// Support stays reachable for blocked users.
pub open spec fn support_action(a: ActionView) -> bool {
    a is SupportNewCategory || a is SupportRate
}

/// What happens to a pressed button.
#[derive(Debug, Clone, Copy, PartialEq, Eq, Structural)]
pub enum Admission {
    /// Run the action.
    Proceed,
    /// Tell the user that their access is suspended.
    Suspended,
    /// Do nothing (the press was already acknowledged).
    Ignore,
}

/// The admission of a pressed button: a blocked user without a role reaches only support; a
/// user without a role reaches only the customer screens; everyone else
/// reaches what their role authorizes.
pub open spec fn admission_spec(a: ActionView, role: RoleView, blocked: bool, store: &Store) -> Admission {
    if role is Denied {
        if blocked && !support_action(a) {
            Admission::Suspended
        } else if customer_action(a) {
            Admission::Proceed
        } else {
            Admission::Ignore
        }
    } else if authorized(a, role, store) {
        Admission::Proceed
    } else {
        Admission::Ignore
    }
}

fn is_customer_action(action: &Action) -> (r: bool)
    ensures
        r == customer_action(action@),
{
    match action {
        Action::Buy | Action::BuyServer(_) | Action::BuyTerm(_) | Action::BuyMethod(_, _)
        | Action::BuyPaid(_) | Action::MyKeys | Action::Profile | Action::Portal | Action::Balance
        | Action::CustomerKey(_) | Action::CustomerMove(_) | Action::CustomerMoveServer(_, _)
        | Action::CustomerMoveConfirm(_) | Action::CustomerMoveCancel(_)
        | Action::CustomerRefresh(_) | Action::CustomerRefreshRun(_) | Action::Renew(_)
        | Action::RenewTerm(_, _) | Action::RenewMethod(_, _, _) | Action::LegacyRenew(_)
        | Action::LegacyRenewMethod(_, _) | Action::LegacyRequestNew | Action::PromoInput
        | Action::Guide(_) | Action::AutoRenew(_, _, _) | Action::DeviceLabelAsk(_)
        | Action::SupportNewCategory(_) | Action::SupportRate(_, _) => true,
        _ => false,
    }
}

/// The admission of a pressed button for a user of `role`, blocked or not.
pub fn admit_callback(action: &Action, role: &Role, blocked: bool, settings: &Store) -> (g: Admission)
    ensures
        g == admission_spec(action@, role@, blocked, settings),
{
    match role {
        Role::Denied => {
            let support = match action {
                Action::SupportNewCategory(_) | Action::SupportRate(_, _) => true,
                _ => false,
            };
            if blocked && !support {
                Admission::Suspended
            } else if is_customer_action(action) {
                Admission::Proceed
            } else {
                Admission::Ignore
            }
        },
        _ => if authorize(action, role, settings) {
            Admission::Proceed
        } else {
            Admission::Ignore
        },
    }
}

/// A user without a role never runs an action beyond the customer screens,
/// and, when blocked, none beyond support.
pub proof fn law_admission_keeps_strangers_out(a: ActionView, blocked: bool, store: &Store)
    ensures
        admission_spec(a, RoleView::Denied, blocked, store) == Admission::Proceed ==> customer_action(a),
        blocked && admission_spec(a, RoleView::Denied, blocked, store) == Admission::Proceed
            ==> support_action(a),
{
}

/// A user with a role runs exactly what the role authorizes; being blocked
/// concerns only users without a role.
pub proof fn law_admission_follows_authorization(a: ActionView, role: RoleView, blocked: bool, store: &Store)
    requires
        !(role is Denied),
    ensures
        (admission_spec(a, role, blocked, store) == Admission::Proceed) == authorized(a, role, store),
        admission_spec(a, role, blocked, store) != Admission::Suspended,
{
}

} // verus!
