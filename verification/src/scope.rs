//! The group a role works in and the list scope it sees.

use vstd::prelude::*;
use crate::auth::{contains_id, Role, RoleView};
use crate::store::{ListScope, QuotaAssign, Store};

verus! {

/// Working group of a group administrator: the only group, if there is one;
/// otherwise the remembered choice while it is still one of `groups`;
/// otherwise none (the administrator has to choose).
pub open spec fn working_group(settings: &Store, uid: i64, groups: Seq<i64>) -> Option<i64> {
    if groups.len() == 1 {
        Some(groups[0])
    } else {
        match settings.current_group_view(uid) {
            Some(g) => if groups.contains(g) {
                Some(g)
            } else {
                None
            },
            None => None,
        }
    }
}

/// Group a client created by `role` is bound to (`None`: a group has to be
/// chosen first). Recreating keeps the client's binding; a new client goes to a
/// group administrator's working group, to the owner's selected group scope,
/// and otherwise to no group.
pub open spec fn new_client_group(
    role: RoleView,
    settings: &Store,
    uid: i64,
    recreate: bool,
    name: Seq<char>,
) -> Option<Option<i64>> {
    if recreate {
        Some(settings.client_group_view(name))
    } else {
        match role {
            RoleView::GroupAdmin(groups) => match working_group(settings, uid, groups) {
                Some(g) => Some(Some(g)),
                None => None,
            },
            RoleView::Owner => Some(
                match settings.owner_scope_view(uid) {
                    ListScope::Group(id) => Some(id),
                    _ => None,
                },
            ),
            _ => Some(None),
        }
    }
}

/// List scope of a role (`None`: a group administrator has to choose a group).
pub open spec fn role_scope(role: RoleView, settings: &Store, uid: i64) -> Option<ListScope> {
    match role {
        RoleView::GroupAdmin(groups) => match working_group(settings, uid, groups) {
            Some(g) => Some(ListScope::Group(g)),
            None => None,
        },
        RoleView::Staff(_) => Some(ListScope::All),
        _ => Some(settings.owner_scope_view(uid)),
    }
}

/// Working group of a group administrator administering `groups`.
pub fn current_ga_group(settings: &Store, uid: i64, groups: &[i64]) -> (r: Option<i64>)
    ensures
        r == working_group(settings, uid, groups@),
{
    if groups.len() == 1 {
        return Some(groups[0]);
    }
    match settings.current_group(uid) {
        Some(g) => if contains_id(groups, g) {
            Some(g)
        } else {
            None
        },
        None => None,
    }
}

/// Group for a client that `role` adds or recreates.
pub fn group_for_new_client(
    role: &Role,
    settings: &Store,
    uid: i64,
    recreate: bool,
    name: &str,
) -> (r: Option<Option<i64>>)
    ensures
        r == new_client_group(role@, settings, uid, recreate, name@),
{
    if recreate {
        return Some(settings.client_group(name));
    }
    match role {
        Role::GroupAdmin(groups) => match current_ga_group(settings, uid, groups.as_slice()) {
            Some(g) => Some(Some(g)),
            None => None,
        },
        Role::Owner => Some(
            match settings.owner_scope(uid) {
                ListScope::Group(id) => Some(id),
                _ => None,
            },
        ),
        Role::Denied => Some(None),
        Role::Staff(_) => Some(None),
    }
}

/// A new client has to be removed again only when it lost the race for the
/// last place in its group; a recreated client never is.
pub fn add_needs_quota_rollback(recreate: bool, outcome: &QuotaAssign) -> (r: bool)
    ensures
        r == (!recreate && *outcome == QuotaAssign::Full),
{
    !recreate && match outcome {
        QuotaAssign::Full => true,
        _ => false,
    }
}

/// List scope of `role`.
pub fn scope_for(role: &Role, settings: &Store, uid: i64) -> (r: Option<ListScope>)
    ensures
        r == role_scope(role@, settings, uid),
{
    match role {
        Role::GroupAdmin(groups) => match current_ga_group(settings, uid, groups.as_slice()) {
            Some(g) => Some(ListScope::Group(g)),
            None => None,
        },
        Role::Staff(_) => Some(ListScope::All),
        _ => Some(settings.owner_scope(uid)),
    }
}

/// A client of `group` is in `scope`: every client for all, clients
/// without a group for no group, a group's own clients for a group.
pub open spec fn scope_admits(scope: ListScope, group: Option<i64>) -> bool {
    match scope {
        ListScope::All => true,
        ListScope::NoGroup => group is None,
        ListScope::Group(id) => group == Some(id),
    }
}

/// Whether a client of `group` is in `scope`.
pub fn admits(scope: ListScope, group: Option<i64>) -> (r: bool)
    ensures
        r == scope_admits(scope, group),
{
    match scope {
        ListScope::All => true,
        ListScope::NoGroup => group.is_none(),
        ListScope::Group(id) => match group {
            Some(g) => g == id,
            None => false,
        },
    }
}

/// The clients of `names` in `scope`, in order.
pub open spec fn in_scope(names: Seq<Seq<char>>, scope: ListScope, settings: &Store) -> Seq<
    Seq<char>,
> {
    names.filter(|n: Seq<char>| scope_admits(scope, settings.client_group_view(n)))
}

/// The clients of `names` that `scope` shows, in order.
pub fn scoped_clients(names: &[String], scope: ListScope, settings: &Store) -> (r: Vec<String>)
    ensures
        r@.map_values(|s: String| s@) == in_scope(names@.map_values(|s: String| s@), scope, settings),
{
    let mut r: Vec<String> = Vec::new();
    let n = names.len();
    let mut i: usize = 0;
    while i < n
        invariant
            n == names@.len(),
            i <= n,
            r@.map_values(|s: String| s@) == in_scope(
                names@.map_values(|s: String| s@).take(i as int),
                scope,
                settings,
            ),
        decreases n - i,
    {
        let ghost all = names@.map_values(|s: String| s@);
        proof {
            assert(all.take(i + 1).drop_last() =~= all.take(i as int));
            assert(all.take(i + 1).last() == names@[i as int]@);
            reveal(Seq::filter);
        }
        let ghost before = r@;
        if admits(scope, settings.client_group(names[i].as_str())) {
            r.push(names[i].clone());
            assert(r@.map_values(|s: String| s@) =~= before.map_values(|s: String| s@).push(
                names@[i as int]@,
            ));
        }
        i += 1;
    }
    assert(names@.map_values(|s: String| s@).take(n as int) =~= names@.map_values(|s: String| s@));
    r
}

} // verus!
