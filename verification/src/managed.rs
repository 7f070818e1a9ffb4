//! The list of all managed clients: the clients the database knows, updated
//! by what the local VPN service reports, ordered by name.

use vstd::prelude::*;
use vstd::string::*;
use crate::text::str_eq;

verus! {

/// A client in the managed list: its name and what else is known of it.
pub struct ManagedClient<T> {
    pub name: String,
    pub data: T,
}

/// `a` comes no later than `b` in the order of names: lexicographic by
/// character code, which orders as the UTF-8 bytes of `String`'s `Ord` do.
pub open spec fn name_le(a: Seq<char>, b: Seq<char>) -> bool
    decreases a.len(),
{
    if a.len() == 0 {
        true
    } else if b.len() == 0 {
        false
    } else if a[0] < b[0] {
        true
    } else if a[0] > b[0] {
        false
    } else {
        name_le(a.drop_first(), b.drop_first())
    }
}

pub proof fn lemma_name_le_reflexive(a: Seq<char>)
    ensures
        name_le(a, a),
    decreases a.len(),
{
    if a.len() > 0 {
        lemma_name_le_reflexive(a.drop_first());
    }
}

pub proof fn lemma_name_le_total(a: Seq<char>, b: Seq<char>)
    ensures
        name_le(a, b) || name_le(b, a),
    decreases a.len(),
{
    if a.len() > 0 && b.len() > 0 && a[0] == b[0] {
        lemma_name_le_total(a.drop_first(), b.drop_first());
    }
}

pub proof fn lemma_name_le_antisymmetric(a: Seq<char>, b: Seq<char>)
    requires
        name_le(a, b),
        name_le(b, a),
    ensures
        a == b,
    decreases a.len(),
{
    if a.len() > 0 && b.len() > 0 {
        lemma_name_le_antisymmetric(a.drop_first(), b.drop_first());
        assert(a =~= seq![a[0]] + a.drop_first());
        assert(b =~= seq![b[0]] + b.drop_first());
    }
}

pub proof fn lemma_name_le_transitive(a: Seq<char>, b: Seq<char>, c: Seq<char>)
    requires
        name_le(a, b),
        name_le(b, c),
    ensures
        name_le(a, c),
    decreases a.len(),
{
    if a.len() > 0 && b.len() > 0 && c.len() > 0 && a[0] == b[0] && b[0] == c[0] {
        lemma_name_le_transitive(a.drop_first(), b.drop_first(), c.drop_first());
    }
}

/// Whether `a` comes no later than `b` in the order of names.
pub fn names_in_order(a: &str, b: &str) -> (r: bool)
    ensures
        r == name_le(a@, b@),
{
    let n = a.unicode_len();
    let m = b.unicode_len();
    let mut i: usize = 0;
    assert(a@.skip(0) =~= a@ && b@.skip(0) =~= b@);
    while i < n && i < m
        invariant
            n == a@.len(),
            m == b@.len(),
            i <= n,
            i <= m,
            name_le(a@, b@) == name_le(a@.skip(i as int), b@.skip(i as int)),
        decreases n - i,
    {
        let x = a.get_char(i);
        let y = b.get_char(i);
        assert(a@.skip(i as int)[0] == x && b@.skip(i as int)[0] == y);
        if x < y {
            return true;
        }
        if x > y {
            return false;
        }
        assert(a@.skip(i as int).drop_first() =~= a@.skip(i + 1));
        assert(b@.skip(i as int).drop_first() =~= b@.skip(i + 1));
        i += 1;
    }
    i == n
}

/// The position of the first client named `name`, if any.
pub open spec fn first_named<T>(s: Seq<ManagedClient<T>>, name: Seq<char>) -> Option<int>
    decreases s.len(),
{
    if s.len() == 0 {
        None
    } else {
        match first_named(s.drop_last(), name) {
            Some(i) => Some(i),
            None => if s.last().name@ == name {
                Some(s.len() - 1)
            } else {
                None
            },
        }
    }
}

proof fn lemma_first_named<T>(s: Seq<ManagedClient<T>>, name: Seq<char>)
    ensures
        match first_named(s, name) {
            Some(i) => 0 <= i < s.len() && s[i].name@ == name && forall|j: int|
                0 <= j < i ==> #[trigger] s[j].name@ != name,
            None => forall|j: int| 0 <= j < s.len() ==> #[trigger] s[j].name@ != name,
        },
    decreases s.len(),
{
    if s.len() > 0 {
        lemma_first_named(s.drop_last(), name);
        assert forall|j: int| 0 <= j < s.len() - 1 implies s[j] == s.drop_last()[j] by {}
    }
}

/// `s` with `c` in place of the first client of the same name, or with `c`
/// added at the end when there is none.
pub open spec fn upsert<T>(s: Seq<ManagedClient<T>>, c: ManagedClient<T>) -> Seq<ManagedClient<T>> {
    match first_named(s, c.name@) {
        Some(i) => s.update(i, c),
        None => s.push(c),
    }
}

/// The registered clients updated, in order, by each local one.
pub open spec fn merged<T>(registered: Seq<ManagedClient<T>>, local: Seq<ManagedClient<T>>) -> Seq<
    ManagedClient<T>,
>
    decreases local.len(),
{
    if local.len() == 0 {
        registered
    } else {
        upsert(merged(registered, local.drop_last()), local.last())
    }
}

/// The clients of `s` named `name`, in order.
pub open spec fn with_name<T>(s: Seq<ManagedClient<T>>, name: Seq<char>) -> Seq<ManagedClient<T>> {
    s.filter(|c: ManagedClient<T>| c.name@ == name)
}

pub open spec fn sorted_by_name<T>(s: Seq<ManagedClient<T>>) -> bool {
    forall|i: int, j: int| 0 <= i < j < s.len() ==> name_le(#[trigger] s[i].name@, #[trigger] s[j].name@)
}

/// Inserting `x` after every client whose name comes no later than its own
/// keeps `s` ordered, and adds `x` at the end of the clients of its name.
proof fn lemma_insert_in_order<T>(s: Seq<ManagedClient<T>>, p: int, x: ManagedClient<T>)
    requires
        sorted_by_name(s),
        0 <= p <= s.len(),
        forall|j: int| 0 <= j < p ==> name_le(#[trigger] s[j].name@, x.name@),
        p < s.len() ==> !name_le(s[p].name@, x.name@),
    ensures
        sorted_by_name(s.insert(p, x)),
        forall|name: Seq<char>|
            #[trigger] with_name(s.insert(p, x), name) == if x.name@ == name {
                with_name(s, name).push(x)
            } else {
                with_name(s, name)
            },
{
    let t = s.insert(p, x);
    assert forall|j: int| p <= j < s.len() implies !name_le(#[trigger] s[j].name@, x.name@) && name_le(
        x.name@,
        s[j].name@,
    ) by {
        lemma_name_le_total(s[p].name@, x.name@);
        if j > p {
            lemma_name_le_transitive(x.name@, s[p].name@, s[j].name@);
        }
        if name_le(s[j].name@, x.name@) {
            lemma_name_le_antisymmetric(s[j].name@, x.name@);
            lemma_name_le_reflexive(x.name@);
            if j > p {
                lemma_name_le_antisymmetric(s[p].name@, s[j].name@);
            }
        }
    }
    assert forall|i: int, j: int| 0 <= i < j < t.len() implies name_le(
        #[trigger] t[i].name@,
        #[trigger] t[j].name@,
    ) by {
        if j < p {
            assert(t[i] == s[i] && t[j] == s[j]);
        } else if j == p {
            assert(t[i] == s[i] && t[j] == x);
        } else if i < p {
            assert(t[i] == s[i] && t[j] == s[j - 1]);
            lemma_name_le_transitive(s[i].name@, x.name@, s[j - 1].name@);
        } else if i == p {
            assert(t[i] == x && t[j] == s[j - 1]);
        } else {
            assert(t[i] == s[i - 1] && t[j] == s[j - 1]);
        }
    }
    assert forall|name: Seq<char>| #[trigger] with_name(t, name) == if x.name@ == name {
        with_name(s, name).push(x)
    } else {
        with_name(s, name)
    } by {
        let pred = |c: ManagedClient<T>| c.name@ == name;
        let front = s.take(p);
        let back = s.skip(p);
        assert(t =~= front + seq![x] + back);
        assert(s =~= front + back);
        Seq::filter_distributes_over_add(front + seq![x], back, pred);
        Seq::filter_distributes_over_add(front, seq![x], pred);
        Seq::filter_distributes_over_add(front, back, pred);
        if x.name@ == name {
            assert forall|j: int| 0 <= j < back.len() implies !pred(#[trigger] back[j]) by {
                assert(back[j] == s[p + j]);
            }
            back.lemma_all_neg_filter_empty(pred);
            assert(back.filter(pred) =~= Seq::<ManagedClient<T>>::empty());
            reveal_with_fuel(Seq::filter, 2);
            assert(seq![x].filter(pred) =~= seq![x]);
            assert(front.filter(pred) + seq![x] + Seq::<ManagedClient<T>>::empty() =~= (front.filter(pred)
                + Seq::<ManagedClient<T>>::empty()).push(x));
        } else {
            reveal_with_fuel(Seq::filter, 2);
            assert(seq![x].filter(pred) =~= Seq::<ManagedClient<T>>::empty());
            assert(front.filter(pred) + Seq::<ManagedClient<T>>::empty() + back.filter(pred)
                =~= front.filter(pred) + back.filter(pred));
        }
    }
}

/// The managed list: the registered clients, each replaced by the local
/// client of the same name and followed by the local clients the database
/// does not know; ordered by name, clients of one name in their merged
/// order (as a stable sort leaves them).
pub fn merge_managed_clients<T>(
    registered: Vec<ManagedClient<T>>,
    local: Vec<ManagedClient<T>>,
) -> (r: Vec<ManagedClient<T>>)
    ensures
        sorted_by_name(r@),
        forall|name: Seq<char>|
            #[trigger] with_name(r@, name) == with_name(merged(registered@, local@), name),
{
    let ghost local0 = local@;
    let mut acc = registered;
    let mut rest = local;
    let mut k: usize = 0;
    let total = rest.len();
    while rest.len() > 0
        invariant
            total == local0.len(),
            k + rest@.len() == total,
            rest@ == local0.skip(k as int),
            acc@ == merged(registered@, local0.take(k as int)),
        decreases rest@.len(),
    {
        let c = rest.remove(0);
        proof {
            assert(c == local0[k as int]);
            assert(local0.take(k + 1).drop_last() =~= local0.take(k as int));
            assert(local0.take(k + 1).last() == c);
            assert(rest@ =~= local0.skip(k + 1));
            lemma_first_named(acc@, c.name@);
        }
        let n = acc.len();
        let mut j: usize = 0;
        while j < n && !str_eq(acc[j].name.as_str(), c.name.as_str())
            invariant
                n == acc@.len(),
                j <= n,
                forall|i: int| 0 <= i < j ==> #[trigger] acc@[i].name@ != c.name@,
            decreases n - j,
        {
            j += 1;
        }
        if j < n {
            proof {
                assert(first_named(acc@, c.name@) == Some(j as int));
            }
            acc.set(j, c);
        } else {
            proof {
                assert(first_named(acc@, c.name@) is None);
            }
            acc.push(c);
        }
        k += 1;
    }
    proof {
        assert(local0.take(total as int) =~= local0);
    }
    let ghost all = acc@;
    let mut pending = acc;
    let mut out: Vec<ManagedClient<T>> = Vec::new();
    let mut k: usize = 0;
    let total = pending.len();
    assert forall|name: Seq<char>| #[trigger] with_name(out@, name) == with_name(all.take(0), name) by {
        assert(out@ =~= all.take(0));
    }
    while pending.len() > 0
        invariant
            total == all.len(),
            k + pending@.len() == total,
            pending@ == all.skip(k as int),
            sorted_by_name(out@),
            forall|name: Seq<char>|
                #[trigger] with_name(out@, name) == with_name(all.take(k as int), name),
        decreases pending@.len(),
    {
        let x = pending.remove(0);
        proof {
            assert(x == all[k as int]);
            assert(pending@ =~= all.skip(k + 1));
            assert(all.take(k + 1) =~= all.take(k as int).push(x));
        }
        let n = out.len();
        let mut p: usize = 0;
        while p < n && names_in_order(out[p].name.as_str(), x.name.as_str())
            invariant
                n == out@.len(),
                p <= n,
                forall|j: int| 0 <= j < p ==> name_le(#[trigger] out@[j].name@, x.name@),
            decreases n - p,
        {
            p += 1;
        }
        proof {
            lemma_insert_in_order(out@, p as int, x);
            assert forall|name: Seq<char>| #[trigger] with_name(out@.insert(p as int, x), name)
                == with_name(all.take(k + 1), name) by {
                let pred = |c: ManagedClient<T>| c.name@ == name;
                all.take(k as int).lemma_filter_push(x, pred);
            }
        }
        out.insert(p, x);
        k += 1;
    }
    proof {
        assert(all.take(total as int) =~= all);
    }
    out
}

} // verus!
