//! Which keyboard a screen shows: the home keyboard of each role, and the
//! screen of an empty client list.

use vstd::prelude::*;
use crate::admin_menus::{admin_dashboard_menu, admin_dashboard_spec};
use crate::auth::{Role, RoleView};
use crate::bot_menus::{ga_main_menu, ga_main_spec, main_menu, main_spec};
use crate::client_list::{clients_empty_menu, clients_empty_spec};
use crate::keyboard::{ButtonView, Keyboard};
use crate::model::{ClientFilter, Lang};

verus! {

/// The home keyboard of `role`: the owner's dashboard, a group
/// administrator's menu (switching groups with several), everyone else's
/// main menu.
pub open spec fn home_spec(role: RoleView, lang: Lang) -> Seq<Seq<ButtonView>> {
    match role {
        RoleView::GroupAdmin(groups) => ga_main_spec(lang, groups.len() > 1),
        RoleView::Owner => admin_dashboard_spec(),
        _ => main_spec(lang),
    }
}

pub fn home_menu(role: &Role, lang: Lang) -> (kb: Keyboard)
    ensures
        kb@ == home_spec(role@, lang),
{
    match role {
        Role::GroupAdmin(groups) => ga_main_menu(lang, groups.len() > 1),
        Role::Owner => admin_dashboard_menu(),
        _ => main_menu(lang),
    }
}

/// The message of an empty client list.
#[derive(Debug, Clone, Copy, PartialEq, Eq, Structural)]
pub enum EmptyListText {
    /// There are no clients at all.
    NoClients,
    /// Clients exist, but the filter or scope leaves none.
    Filtered,
}

/// The screen of an empty list of `total` clients in all: with no clients at
/// all, the home keyboard; otherwise the keyboard that changes the filter and
/// scope.
pub fn empty_list_screen(
    lang: Lang,
    total: usize,
    filter: ClientFilter,
    is_owner: bool,
    home: Keyboard,
) -> (r: (EmptyListText, Keyboard))
    ensures
        total == 0 ==> r.0 == EmptyListText::NoClients && r.1 == home,
        total != 0 ==> r.0 == EmptyListText::Filtered && r.1@ == clients_empty_spec(
            lang,
            filter,
            is_owner,
        ),
{
    if total == 0 {
        (EmptyListText::NoClients, home)
    } else {
        (EmptyListText::Filtered, clients_empty_menu(lang, filter, is_owner))
    }
}

} // verus!
