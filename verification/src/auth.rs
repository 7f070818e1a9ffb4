//! Roles. Owners come only from the configured admin ids (never stored, never
//! granted by the bot); staff roles and group administrators come from the
//! store. The role is resolved on every message and callback.

use vstd::prelude::*;
use crate::store::Store;
use crate::text::str_eq;

verus! {

#[derive(Debug, Clone)]
pub enum Role {
    /// Full access: clients, groups, global operations.
    Owner,
    /// Client management only inside the listed groups (ids, ordered by name).
    GroupAdmin(Vec<i64>),
    Staff(String),
    /// Neither an owner nor a group administrator.
    Denied,
}

pub enum RoleView {
    Owner,
    GroupAdmin(Seq<i64>),
    Staff(Seq<char>),
    Denied,
}

impl View for Role {
    type V = RoleView;

    open spec fn view(&self) -> RoleView {
        match self {
            Role::Owner => RoleView::Owner,
            Role::GroupAdmin(groups) => RoleView::GroupAdmin(groups@),
            Role::Staff(role) => RoleView::Staff(role@),
            Role::Denied => RoleView::Denied,
        }
    }
}

/// Who sees a client of `group`: the owner sees every client; a group
/// administrator only clients of their groups (not clients without a group);
/// technical staff every client; nobody else any.
pub open spec fn sees_client(role: RoleView, group: Option<i64>) -> bool {
    match role {
        RoleView::Owner => true,
        RoleView::GroupAdmin(groups) => group is Some && groups.contains(group->0),
        RoleView::Staff(name) => name == "technical"@,
        RoleView::Denied => false,
    }
}

/// The role of `user`: an owner when configured as one; otherwise the staff
/// role the store records; otherwise a group administrator of the groups the
/// store records; otherwise denied.
pub open spec fn resolved_role(user: i64, admin_ids: Seq<i64>, store: &Store) -> RoleView {
    if admin_ids.contains(user) {
        RoleView::Owner
    } else if store.staff_role_view(user) is Some {
        RoleView::Staff(store.staff_role_view(user)->0)
    } else if store.admin_group_ids_view(user).len() == 0 {
        RoleView::Denied
    } else {
        RoleView::GroupAdmin(store.admin_group_ids_view(user))
    }
}

/// A configured owner resolves as the owner, whatever the store records of
/// them.
pub proof fn law_owner_precedes_store(user: i64, admin_ids: Seq<i64>, store: &Store)
    requires
        admin_ids.contains(user),
    ensures
        resolved_role(user, admin_ids, store) == RoleView::Owner,
{
}

/// A user who is not a configured owner and has no staff role, and whom the
/// store records as administrator of an existing group, resolves as a group
/// administrator of (at least) that group.
pub proof fn law_group_admin_resolves(user: i64, admin_ids: Seq<i64>, store: &Store, group: i64)
    requires
        !admin_ids.contains(user),
        store.staff_role_view(user) is None,
        store.is_group(group),
        store.is_group_admin(group, user),
    ensures
        resolved_role(user, admin_ids, store) matches RoleView::GroupAdmin(groups) && groups.contains(
            group,
        ),
{
    store.law_group_admin_reads_back(group, user);
}

/// `x` occurs in `xs`.
pub fn contains_id(xs: &[i64], x: i64) -> (r: bool)
    ensures
        r == xs@.contains(x),
{
    let n = xs.len();
    let mut i: usize = 0;
    while i < n
        invariant
            n == xs@.len(),
            i <= n,
            forall|j: int| 0 <= j < i ==> xs@[j] != x,
        decreases n - i,
    {
        if xs[i] == x {
            assert(xs@[i as int] == x);
            return true;
        }
        i += 1;
    }
    false
}

impl Role {
    pub fn is_owner(&self) -> (r: bool)
        ensures
            r == (self@ is Owner),
    {
        match self {
            Role::Owner => true,
            _ => false,
        }
    }

    /// Whether this role sees a client bound to `group`.
    pub fn can_see_client(&self, group: Option<i64>) -> (r: bool)
        ensures
            r == sees_client(self@, group),
    {
        match self {
            Role::Owner => true,
            Role::GroupAdmin(groups) => match group {
                Some(g) => contains_id(groups.as_slice(), g),
                None => false,
            },
            Role::Staff(role) => str_eq(role.as_str(), "technical"),
            Role::Denied => false,
        }
    }
}

/// Resolves the role of `user_id` from the configured owners and the store.
pub fn resolve_role(user_id: i64, admin_ids: &[i64], store: &Store) -> (role: Role)
    ensures
        role@ == resolved_role(user_id, admin_ids@, store),
{
    if contains_id(admin_ids, user_id) {
        return Role::Owner;
    }
    if let Some(role) = store.staff_role(user_id) {
        return Role::Staff(role);
    }
    let groups = store.admin_group_ids(user_id);
    if groups.len() == 0 {
        Role::Denied
    } else {
        Role::GroupAdmin(groups)
    }
}

} // verus!
