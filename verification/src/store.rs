//! In-memory store of the facts that access decisions read: client groups,
//! group administrators, staff roles, and each user's selected group scope.

use vstd::prelude::*;
use vstd::string::*;

verus! {

/// Which clients a list shows: all, those without a group, or one group's.
#[derive(Debug, Clone, Copy, PartialEq, Eq, Structural)]
pub enum ListScope {
    All,
    NoGroup,
    Group(i64),
}

/// A client group: delegated management with a quota of clients.
#[derive(Debug, Clone)]
pub struct GroupRow {
    pub id: i64,
    pub name: String,
    /// Quota of clients; none means unlimited.
    pub max_clients: Option<i64>,
    pub created_at: i64,
}

/// Outcome of binding a new client to a group under the group's quota.
#[derive(Debug, Clone, Copy, PartialEq, Eq, Structural)]
pub enum QuotaAssign {
    Assigned,
    /// The group was already full.
    Full,
    /// The store failed; the client stays without a group.
    Db,
}

#[derive(Debug, Clone, Copy, PartialEq, Eq, Structural)]
pub enum StoreError {
    /// No identifier is left for a new group.
    IdsExhausted,
}

pub struct Store {
    /// Ordered by name, then by id.
    groups: Vec<GroupRow>,
    /// (group id, user id) pairs.
    group_admins: Vec<(i64, i64)>,
    /// (user id, role); the latest entry for a user wins.
    staff: Vec<(i64, String)>,
    /// (client name, group or none); the latest entry for a client wins.
    client_groups: Vec<(String, Option<i64>)>,
    /// (user id, group); the latest entry for a user wins.
    current_groups: Vec<(i64, i64)>,
    /// (user id, scope); the latest entry for a user wins.
    owner_scopes: Vec<(i64, ListScope)>,
    next_group_id: i64,
}

// ---------------------------------------------------------------------------
// Name order
// ---------------------------------------------------------------------------

/// Lexicographic order of names by code point (the byte order of UTF-8).
pub open spec fn name_lt(a: Seq<char>, b: Seq<char>) -> bool
    decreases a.len(),
{
    if b.len() == 0 {
        false
    } else if a.len() == 0 {
        true
    } else if a[0] != b[0] {
        (a[0] as int) < (b[0] as int)
    } else {
        name_lt(a.drop_first(), b.drop_first())
    }
}

proof fn lemma_name_lt_irreflexive(a: Seq<char>)
    ensures
        !name_lt(a, a),
    decreases a.len(),
{
    if a.len() > 0 {
        lemma_name_lt_irreflexive(a.drop_first());
    }
}

proof fn lemma_name_lt_total(a: Seq<char>, b: Seq<char>)
    ensures
        name_lt(a, b) || a == b || name_lt(b, a),
    decreases a.len(),
{
    if a.len() > 0 && b.len() > 0 && a[0] == b[0] {
        lemma_name_lt_total(a.drop_first(), b.drop_first());
        if a.drop_first() == b.drop_first() {
            assert(a =~= seq![a[0]] + a.drop_first());
            assert(b =~= seq![b[0]] + b.drop_first());
        }
    } else if a.len() == 0 && b.len() == 0 {
        assert(a =~= b);
    }
}

proof fn lemma_name_lt_transitive(a: Seq<char>, b: Seq<char>, c: Seq<char>)
    requires
        name_lt(a, b),
        name_lt(b, c),
    ensures
        name_lt(a, c),
    decreases a.len(),
{
    if a.len() > 0 && b.len() > 0 && c.len() > 0 && a[0] == b[0] && b[0] == c[0] {
        lemma_name_lt_transitive(a.drop_first(), b.drop_first(), c.drop_first());
    }
}

/// `a` is listed before `b`: by name, then by id.
pub open spec fn group_before(a: GroupRow, b: GroupRow) -> bool {
    name_lt(a.name@, b.name@) || (a.name@ == b.name@ && a.id < b.id)
}

proof fn lemma_group_before_transitive(a: GroupRow, b: GroupRow, c: GroupRow)
    requires
        group_before(a, b),
        group_before(b, c),
    ensures
        group_before(a, c),
{
    if name_lt(a.name@, b.name@) && name_lt(b.name@, c.name@) {
        lemma_name_lt_transitive(a.name@, b.name@, c.name@);
    }
}

/// `a` before `b` by name.
fn name_less(a: &str, b: &str) -> (lt: bool)
    ensures
        lt == name_lt(a@, b@),
{
    let n = a.unicode_len();
    let m = b.unicode_len();
    let mut i: usize = 0;
    assert(a@.skip(0) =~= a@);
    assert(b@.skip(0) =~= b@);
    while i < n && i < m
        invariant
            n == a@.len(),
            m == b@.len(),
            i <= n,
            i <= m,
            forall|j: int| 0 <= j < i ==> a@[j] == b@[j],
            name_lt(a@, b@) == name_lt(a@.skip(i as int), b@.skip(i as int)),
        decreases n - i,
    {
        let x = a.get_char(i);
        let y = b.get_char(i);
        assert(a@.skip(i as int)[0] == x);
        assert(b@.skip(i as int)[0] == y);
        if x != y {
            return (x as u32) < (y as u32);
        }
        assert(a@.skip(i as int).drop_first() =~= a@.skip(i + 1));
        assert(b@.skip(i as int).drop_first() =~= b@.skip(i + 1));
        i += 1;
    }
    i < m
}

// ---------------------------------------------------------------------------
// Latest-entry lookups
// ---------------------------------------------------------------------------

pub open spec fn latest_i64<V>(entries: Seq<(i64, V)>, key: i64) -> Option<V>
    decreases entries.len(),
{
    if entries.len() == 0 {
        None
    } else if entries.last().0 == key {
        Some(entries.last().1)
    } else {
        latest_i64(entries.drop_last(), key)
    }
}

pub open spec fn latest_role(entries: Seq<(i64, String)>, key: i64) -> Option<Seq<char>>
    decreases entries.len(),
{
    if entries.len() == 0 {
        None
    } else if entries.last().0 == key {
        Some(entries.last().1@)
    } else {
        latest_role(entries.drop_last(), key)
    }
}

pub open spec fn latest_client_group(entries: Seq<(String, Option<i64>)>, name: Seq<char>) -> Option<
    Option<i64>,
>
    decreases entries.len(),
{
    if entries.len() == 0 {
        None
    } else if entries.last().0@ == name {
        Some(entries.last().1)
    } else {
        latest_client_group(entries.drop_last(), name)
    }
}

/// Ids of the listed groups that satisfy `administered`, in list order.
pub open spec fn administered_ids(groups: Seq<GroupRow>, administered: spec_fn(i64) -> bool) -> Seq<
    i64,
>
    decreases groups.len(),
{
    if groups.len() == 0 {
        Seq::empty()
    } else {
        let rest = administered_ids(groups.drop_last(), administered);
        if administered(groups.last().id) {
            rest.push(groups.last().id)
        } else {
            rest
        }
    }
}

/// An id is among the administered ids exactly when a listed group has it and
/// it is administered.
pub proof fn lemma_administered_ids_contains(
    groups: Seq<GroupRow>,
    administered: spec_fn(i64) -> bool,
    id: i64,
)
    ensures
        administered_ids(groups, administered).contains(id) <==> (administered(id) && exists|i: int|
            0 <= i < groups.len() && #[trigger] groups[i].id == id),
    decreases groups.len(),
{
    if groups.len() == 0 {
        assert(administered_ids(groups, administered) =~= Seq::<i64>::empty());
    } else {
        let init = groups.drop_last();
        let last = groups.last();
        lemma_administered_ids_contains(init, administered, id);
        let rest = administered_ids(init, administered);
        let all = administered_ids(groups, administered);
        if all.contains(id) {
            if rest.contains(id) {
                let i = choose|i: int| 0 <= i < init.len() && #[trigger] init[i].id == id;
                assert(groups[i].id == id);
            } else {
                assert(administered(last.id) && all == rest.push(last.id));
                let k = choose|k: int| 0 <= k < all.len() && all[k] == id;
                if k < rest.len() {
                    assert(rest[k] == id);
                }
                assert(groups[groups.len() - 1].id == id);
            }
        }
        if administered(id) && exists|i: int| 0 <= i < groups.len() && #[trigger] groups[i].id == id {
            let i = choose|i: int| 0 <= i < groups.len() && #[trigger] groups[i].id == id;
            if i < groups.len() - 1 {
                assert(init[i].id == id);
                assert(rest.contains(id));
                let k = choose|k: int| 0 <= k < rest.len() && rest[k] == id;
                if administered(last.id) {
                    assert(rest.push(last.id)[k] == id);
                }
            } else {
                assert(last.id == id);
                assert(all == rest.push(id));
                assert(all[rest.len() as int] == id);
            }
        }
    }
}

fn find_latest<V: Copy>(entries: &Vec<(i64, V)>, key: i64) -> (r: Option<V>)
    ensures
        r == latest_i64(entries@, key),
{
    let mut i = entries.len();
    assert(entries@.take(i as int) =~= entries@);
    while i > 0
        invariant
            i <= entries@.len(),
            latest_i64(entries@, key) == latest_i64(entries@.take(i as int), key),
        decreases i,
    {
        let entry = entries[i - 1];
        assert(entries@.take(i as int).drop_last() =~= entries@.take(i - 1));
        if entry.0 == key {
            return Some(entry.1);
        }
        i -= 1;
    }
    None
}

impl Store {
    // -- model ------------------------------------------------------------

    /// The id the next created group will get.
    pub closed spec fn next_group_id_view(&self) -> i64 {
        self.next_group_id
    }

    pub closed spec fn groups_view(&self) -> Seq<GroupRow> {
        self.groups@
    }

    pub closed spec fn is_group(&self, id: i64) -> bool {
        exists|i: int| 0 <= i < self.groups@.len() && self.groups@[i].id == id
    }

    pub closed spec fn is_group_admin(&self, group: i64, user: i64) -> bool {
        self.group_admins@.contains((group, user))
    }

    pub closed spec fn staff_role_view(&self, user: i64) -> Option<Seq<char>> {
        latest_role(self.staff@, user)
    }

    /// Ids of the groups `user` administers, ordered by group name.
    pub open spec fn admin_group_ids_view(&self, user: i64) -> Seq<i64> {
        administered_ids(self.groups_view(), |g: i64| self.is_group_admin(g, user))
    }

    pub closed spec fn client_group_view(&self, name: Seq<char>) -> Option<i64> {
        match latest_client_group(self.client_groups@, name) {
            Some(group) => group,
            None => None,
        }
    }

    pub closed spec fn current_group_view(&self, user: i64) -> Option<i64> {
        latest_i64(self.current_groups@, user)
    }

    pub closed spec fn owner_scope_view(&self, user: i64) -> ListScope {
        match latest_i64(self.owner_scopes@, user) {
            Some(scope) => scope,
            None => ListScope::All,
        }
    }

    /// Groups are ordered by name then id, and every id is below the next one.
    pub closed spec fn wf(&self) -> bool {
        &&& forall|i: int, j: int|
            0 <= i < j < self.groups@.len() ==> group_before(
                #[trigger] self.groups@[i],
                #[trigger] self.groups@[j],
            )
        &&& forall|i: int|
            0 <= i < self.groups@.len() ==> #[trigger] self.groups@[i].id < self.next_group_id
        &&& self.next_group_id >= 1
    }

    /// Everything but the groups and their administrators is unchanged.
    pub open spec fn same_assignments(&self, other: &Store) -> bool {
        &&& forall|u: i64| #[trigger] self.staff_role_view(u) == other.staff_role_view(u)
        &&& forall|n: Seq<char>| #[trigger] self.client_group_view(n) == other.client_group_view(n)
        &&& forall|u: i64| #[trigger] self.current_group_view(u) == other.current_group_view(u)
        &&& forall|u: i64| #[trigger] self.owner_scope_view(u) == other.owner_scope_view(u)
    }

    /// What the store records of a group administrator reads back: a user who
    /// administers an existing group finds that group among their group ids.
    pub proof fn law_group_admin_reads_back(&self, group: i64, user: i64)
        requires
            self.is_group(group),
            self.is_group_admin(group, user),
        ensures
            self.admin_group_ids_view(user).contains(group),
    {
        let i = choose|i: int| 0 <= i < self.groups@.len() && self.groups@[i].id == group;
        assert(self.groups_view()[i].id == group);
        lemma_administered_ids_contains(
            self.groups_view(),
            |g: i64| self.is_group_admin(g, user),
            group,
        );
    }

    // -- construction -----------------------------------------------------

    /// An empty store.
    pub fn open_in_memory() -> (store: Store)
        ensures
            store.wf(),
            store.next_group_id_view() == 1,
            store.groups_view().len() == 0,
            forall|g: i64, u: i64| !#[trigger] store.is_group_admin(g, u),
            forall|u: i64| #[trigger] store.staff_role_view(u) is None,
            forall|u: i64| #[trigger] store.admin_group_ids_view(u) == Seq::<i64>::empty(),
            forall|n: Seq<char>| #[trigger] store.client_group_view(n) is None,
            forall|u: i64| #[trigger] store.current_group_view(u) is None,
            forall|u: i64| #[trigger] store.owner_scope_view(u) == ListScope::All,
    {
        Store {
            groups: Vec::new(),
            group_admins: Vec::new(),
            staff: Vec::new(),
            client_groups: Vec::new(),
            current_groups: Vec::new(),
            owner_scopes: Vec::new(),
            next_group_id: 1,
        }
    }

    // -- groups -------------------------------------------------------------

    /// Creates a group without a quota at time `now` and returns its fresh id.
    pub fn create_group(&mut self, name: &str, now: i64) -> (r: Result<i64, StoreError>)
        requires
            old(self).wf(),
        ensures
            final(self).wf(),
            final(self).same_assignments(old(self)),
            forall|g: i64, u: i64| #[trigger]
                final(self).is_group_admin(g, u) == old(self).is_group_admin(g, u),
            r is Err <==> old(self).next_group_id_view() == i64::MAX,
            match r {
                Ok(id) => {
                    &&& id == old(self).next_group_id_view()
                    &&& final(self).next_group_id_view() == id + 1
                    &&& !old(self).is_group(id)
                    &&& final(self).is_group(id)
                    &&& exists|p: int|
                        0 <= p < final(self).groups_view().len()
                            && #[trigger] final(self).groups_view()[p].id == id
                            && final(self).groups_view().remove(p) == old(self).groups_view()
                    &&& forall|g: i64| #[trigger]
                        final(self).is_group(g) == (old(self).is_group(g) || g == id)
                    &&& exists|i: int|
                        0 <= i < final(self).groups_view().len()
                            && #[trigger] final(self).groups_view()[i].id == id
                            && final(self).groups_view()[i].name@ == name@
                            && final(self).groups_view()[i].max_clients is None
                            && final(self).groups_view()[i].created_at == now
                },
                Err(e) => e == StoreError::IdsExhausted && *final(self) == *old(self),
            },
    {
        if self.next_group_id == i64::MAX {
            return Err(StoreError::IdsExhausted);
        }
        let id = self.next_group_id;
        let row = GroupRow { id, name: name.to_owned(), max_clients: None, created_at: now };
        let n = self.groups.len();
        let mut p: usize = 0;
        while p < n
            invariant
                n == self.groups@.len(),
                p <= n,
                forall|j: int| 0 <= j < p ==> !name_lt(name@, #[trigger] self.groups@[j].name@),
            ensures
                p <= n,
                forall|j: int| 0 <= j < p ==> !name_lt(name@, #[trigger] self.groups@[j].name@),
                p == n || name_lt(name@, self.groups@[p as int].name@),
            decreases n - p,
        {
            if name_less(name, self.groups[p].name.as_str()) {
                break;
            }
            p += 1;
        }
        let ghost before = self.groups@;
        assert(!self.is_group(id)) by {
            if self.is_group(id) {
                let i = choose|i: int| 0 <= i < self.groups@.len() && self.groups@[i].id == id;
                assert(self.groups@[i].id < self.next_group_id);
            }
        }
        proof {
            // Every group from `p` on sorts after the new name.
            assert forall|j: int| p <= j < n implies name_lt(name@, #[trigger] before[j].name@) by {
                if j > p {
                    assert(group_before(before[p as int], before[j]));
                    lemma_name_lt_total(before[p as int].name@, before[j].name@);
                    if name_lt(before[p as int].name@, before[j].name@) {
                        lemma_name_lt_transitive(name@, before[p as int].name@, before[j].name@);
                    }
                }
            }
            assert forall|j: int| 0 <= j < p implies group_before(#[trigger] before[j], row) by {
                lemma_name_lt_total(name@, before[j].name@);
            }
        }
        self.groups.insert(p, row);
        self.next_group_id = id + 1;
        proof {
            let after = self.groups@;
            assert(after[p as int] == row);
            assert forall|j: int| 0 <= j < p implies after[j] == before[j] by {}
            assert forall|j: int| p < j < after.len() implies after[j] == before[j - 1] by {}
            assert forall|i: int, j: int|
                0 <= i < j < after.len() implies group_before(
                #[trigger] after[i],
                #[trigger] after[j],
            ) by {
                if j == p {
                } else if i == p {
                    assert(name_lt(name@, before[j - 1].name@));
                } else if i < p && j > p {
                    assert(group_before(before[i], row));
                    assert(name_lt(name@, before[j - 1].name@));
                    lemma_group_before_transitive(before[i], row, before[j - 1]);
                } else if j < p {
                } else {
                    assert(group_before(before[i - 1], before[j - 1]));
                }
            }
            assert forall|g: i64| #[trigger] self.is_group(g) == (old(self).is_group(g) || g == id) by {
                if old(self).is_group(g) {
                    let i = choose|i: int| 0 <= i < before.len() && before[i].id == g;
                    if i < p {
                        assert(after[i].id == g);
                    } else {
                        assert(after[i + 1].id == g);
                    }
                }
                if self.is_group(g) {
                    let i = choose|i: int| 0 <= i < after.len() && after[i].id == g;
                    if i < p {
                        assert(before[i].id == g);
                    } else if i > p {
                        assert(before[i - 1].id == g);
                    }
                }
            }
            assert(self.groups_view()[p as int].id == id);
            assert(self.groups_view().remove(p as int) =~= before);
            assert(self.groups_view()[p as int].name@ == name@);
            assert(self.groups_view()[p as int].max_clients is None);
            assert(self.is_group(id));
        }
        Ok(id)
    }

    /// Records `user` as an administrator of `group` (a no-op for an unknown
    /// group).
    pub fn add_group_admin(&mut self, group: i64, user: i64, added_by: i64, now: i64)
        requires
            old(self).wf(),
        ensures
            final(self).wf(),
            final(self).same_assignments(old(self)),
            final(self).groups_view() == old(self).groups_view(),
            forall|g: i64| #[trigger] final(self).is_group(g) == old(self).is_group(g),
            forall|g: i64, u: i64| #[trigger]
                final(self).is_group_admin(g, u) == (old(self).is_group_admin(g, u) || (g == group
                    && u == user && old(self).is_group(group))),
    {
        let _ = (added_by, now);
        let n = self.groups.len();
        let mut i: usize = 0;
        let mut known = false;
        while i < n
            invariant
                n == self.groups@.len(),
                i <= n,
                known == exists|j: int| 0 <= j < i && #[trigger] self.groups@[j].id == group,
            decreases n - i,
        {
            if self.groups[i].id == group {
                known = true;
            }
            i += 1;
        }
        if known {
            self.group_admins.push((group, user));
            proof {
                assert forall|g: i64, u: i64| #[trigger]
                    self.is_group_admin(g, u) == (old(self).is_group_admin(g, u) || (g == group
                        && u == user)) by {
                    if old(self).group_admins@.contains((g, u)) {
                        let k = choose|k: int|
                            0 <= k < old(self).group_admins@.len() && old(self).group_admins@[k]
                                == (g, u);
                        assert(self.group_admins@[k] == (g, u));
                    }
                    if g == group && u == user {
                        assert(self.group_admins@[self.group_admins@.len() - 1] == (g, u));
                    }
                    if self.group_admins@.contains((g, u)) {
                        let k = choose|k: int|
                            0 <= k < self.group_admins@.len() && self.group_admins@[k] == (g, u);
                        if k < old(self).group_admins@.len() {
                            assert(old(self).group_admins@[k] == (g, u));
                        }
                    }
                }
            }
        }
    }

    // -- staff --------------------------------------------------------------

    /// Gives `user` the staff role `role`.
    pub fn set_staff_role(&mut self, user: i64, role: &str)
        requires
            old(self).wf(),
        ensures
            final(self).wf(),
            final(self).groups_view() == old(self).groups_view(),
            forall|g: i64, u: i64| #[trigger]
                final(self).is_group_admin(g, u) == old(self).is_group_admin(g, u),
            forall|u: i64| #[trigger]
                final(self).staff_role_view(u) == if u == user {
                    Some(role@)
                } else {
                    old(self).staff_role_view(u)
                },
            forall|n: Seq<char>| #[trigger]
                final(self).client_group_view(n) == old(self).client_group_view(n),
            forall|u: i64| #[trigger]
                final(self).current_group_view(u) == old(self).current_group_view(u),
            forall|u: i64| #[trigger] final(self).owner_scope_view(u) == old(self).owner_scope_view(u),
    {
        self.staff.push((user, role.to_owned()));
        proof {
            assert(self.staff@.drop_last() =~= old(self).staff@);
        }
    }

    /// Staff role of `user`, if any.
    pub fn staff_role(&self, user: i64) -> (role: Option<String>)
        ensures
            match role {
                Some(r) => self.staff_role_view(user) == Some(r@),
                None => self.staff_role_view(user) is None,
            },
    {
        let mut i = self.staff.len();
        assert(self.staff@.take(i as int) =~= self.staff@);
        while i > 0
            invariant
                i <= self.staff@.len(),
                latest_role(self.staff@, user) == latest_role(self.staff@.take(i as int), user),
            decreases i,
        {
            assert(self.staff@.take(i as int).drop_last() =~= self.staff@.take(i - 1));
            if self.staff[i - 1].0 == user {
                return Some(self.staff[i - 1].1.clone());
            }
            i -= 1;
        }
        None
    }

    /// Ids of the groups `user` administers, ordered by group name.
    pub fn admin_group_ids(&self, user: i64) -> (ids: Vec<i64>)
        ensures
            ids@ == self.admin_group_ids_view(user),
    {
        let mut ids: Vec<i64> = Vec::new();
        let n = self.groups.len();
        let mut i: usize = 0;
        while i < n
            invariant
                n == self.groups@.len(),
                i <= n,
                ids@ == administered_ids(
                    self.groups@.take(i as int),
                    |g: i64| self.is_group_admin(g, user),
                ),
            decreases n - i,
        {
            let id = self.groups[i].id;
            assert(self.groups@.take(i + 1).drop_last() =~= self.groups@.take(i as int));
            if self.is_admin_pair(id, user) {
                ids.push(id);
            }
            i += 1;
        }
        assert(self.groups@.take(n as int) =~= self.groups@);
        ids
    }

    fn is_admin_pair(&self, group: i64, user: i64) -> (r: bool)
        ensures
            r == self.group_admins@.contains((group, user)),
    {
        let n = self.group_admins.len();
        let mut i: usize = 0;
        while i < n
            invariant
                n == self.group_admins@.len(),
                i <= n,
                forall|j: int| 0 <= j < i ==> self.group_admins@[j] != (group, user),
            decreases n - i,
        {
            let pair = self.group_admins[i];
            if pair.0 == group && pair.1 == user {
                assert(self.group_admins@[i as int] == (group, user));
                return true;
            }
            i += 1;
        }
        false
    }

    // -- clients ------------------------------------------------------------

    /// Binds client `name` to `group` (or to none).
    pub fn assign_client_group(&mut self, name: &str, group: Option<i64>, now: i64)
        requires
            old(self).wf(),
        ensures
            final(self).wf(),
            final(self).groups_view() == old(self).groups_view(),
            forall|g: i64, u: i64| #[trigger]
                final(self).is_group_admin(g, u) == old(self).is_group_admin(g, u),
            forall|u: i64| #[trigger] final(self).staff_role_view(u) == old(self).staff_role_view(u),
            forall|n: Seq<char>| #[trigger]
                final(self).client_group_view(n) == if n == name@ {
                    group
                } else {
                    old(self).client_group_view(n)
                },
            forall|u: i64| #[trigger]
                final(self).current_group_view(u) == old(self).current_group_view(u),
            forall|u: i64| #[trigger] final(self).owner_scope_view(u) == old(self).owner_scope_view(u),
    {
        let _ = now;
        self.client_groups.push((name.to_owned(), group));
        proof {
            assert(self.client_groups@.drop_last() =~= old(self).client_groups@);
        }
    }

    /// Group of client `name`, if it has one.
    pub fn client_group(&self, name: &str) -> (group: Option<i64>)
        ensures
            group == self.client_group_view(name@),
    {
        let mut i = self.client_groups.len();
        assert(self.client_groups@.take(i as int) =~= self.client_groups@);
        while i > 0
            invariant
                i <= self.client_groups@.len(),
                latest_client_group(self.client_groups@, name@) == latest_client_group(
                    self.client_groups@.take(i as int),
                    name@,
                ),
            decreases i,
        {
            assert(self.client_groups@.take(i as int).drop_last() =~= self.client_groups@.take(
                i - 1,
            ));
            if crate::text::str_eq(self.client_groups[i - 1].0.as_str(), name) {
                return self.client_groups[i - 1].1;
            }
            i -= 1;
        }
        None
    }

    // -- per-user selections ------------------------------------------------

    /// Remembers the group a group administrator works in.
    pub fn set_current_group(&mut self, user: i64, group: i64)
        requires
            old(self).wf(),
        ensures
            final(self).wf(),
            final(self).groups_view() == old(self).groups_view(),
            forall|g: i64, u: i64| #[trigger]
                final(self).is_group_admin(g, u) == old(self).is_group_admin(g, u),
            forall|u: i64| #[trigger] final(self).staff_role_view(u) == old(self).staff_role_view(u),
            forall|n: Seq<char>| #[trigger]
                final(self).client_group_view(n) == old(self).client_group_view(n),
            forall|u: i64| #[trigger]
                final(self).current_group_view(u) == if u == user {
                    Some(group)
                } else {
                    old(self).current_group_view(u)
                },
            forall|u: i64| #[trigger] final(self).owner_scope_view(u) == old(self).owner_scope_view(u),
    {
        self.current_groups.push((user, group));
        proof {
            assert(self.current_groups@.drop_last() =~= old(self).current_groups@);
        }
    }

    /// The group a group administrator last selected.
    pub fn current_group(&self, user: i64) -> (group: Option<i64>)
        ensures
            group == self.current_group_view(user),
    {
        find_latest(&self.current_groups, user)
    }

    /// Remembers an owner's list scope.
    pub fn set_owner_scope(&mut self, user: i64, scope: ListScope)
        requires
            old(self).wf(),
        ensures
            final(self).wf(),
            final(self).groups_view() == old(self).groups_view(),
            forall|g: i64, u: i64| #[trigger]
                final(self).is_group_admin(g, u) == old(self).is_group_admin(g, u),
            forall|u: i64| #[trigger] final(self).staff_role_view(u) == old(self).staff_role_view(u),
            forall|n: Seq<char>| #[trigger]
                final(self).client_group_view(n) == old(self).client_group_view(n),
            forall|u: i64| #[trigger]
                final(self).current_group_view(u) == old(self).current_group_view(u),
            forall|u: i64| #[trigger]
                final(self).owner_scope_view(u) == if u == user {
                    scope
                } else {
                    old(self).owner_scope_view(u)
                },
    {
        self.owner_scopes.push((user, scope));
        proof {
            assert(self.owner_scopes@.drop_last() =~= old(self).owner_scopes@);
        }
    }

    /// An owner's list scope (all clients unless chosen otherwise).
    pub fn owner_scope(&self, user: i64) -> (scope: ListScope)
        ensures
            scope == self.owner_scope_view(user),
    {
        match find_latest(&self.owner_scopes, user) {
            Some(scope) => scope,
            None => ListScope::All,
        }
    }
}

} // verus!
