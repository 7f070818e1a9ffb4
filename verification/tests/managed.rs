use awgram::managed::{merge_managed_clients, names_in_order, ManagedClient};

fn client(name: &str, data: u32) -> ManagedClient<u32> {
    ManagedClient { name: name.to_string(), data }
}

fn as_pairs(v: &[ManagedClient<u32>]) -> Vec<(String, u32)> {
    v.iter().map(|c| (c.name.clone(), c.data)).collect()
}

fn reference(registered: &[(&str, u32)], local: &[(&str, u32)]) -> Vec<(String, u32)> {
    let mut clients: Vec<(String, u32)> =
        registered.iter().map(|(n, d)| (n.to_string(), *d)).collect();
    for (name, data) in local {
        if let Some(existing) = clients.iter_mut().find(|item| item.0 == *name) {
            *existing = (name.to_string(), *data);
        } else {
            clients.push((name.to_string(), *data));
        }
    }
    clients.sort_by(|left, right| left.0.cmp(&right.0));
    clients
}

#[test]
fn local_clients_replace_and_extend_registered_ones() {
    let registered = vec![client("nl-2", 1), client("de-1", 2), client("nl-1", 3)];
    let local = vec![client("nl-1", 30), client("at-9", 40), client("zz", 50)];
    let merged = merge_managed_clients(registered, local);
    assert_eq!(
        as_pairs(&merged),
        vec![
            ("at-9".to_string(), 40),
            ("de-1".to_string(), 2),
            ("nl-1".to_string(), 30),
            ("nl-2".to_string(), 1),
            ("zz".to_string(), 50),
        ]
    );
}

#[test]
fn merge_matches_a_stable_sort() {
    let cases: Vec<(Vec<(&str, u32)>, Vec<(&str, u32)>)> = vec![
        (vec![], vec![]),
        (vec![("b", 1), ("a", 2), ("b", 3)], vec![("b", 9)]),
        (vec![("ключ", 1), ("key", 2), ("Key", 3)], vec![("ключ", 4), ("k", 5), ("", 6)]),
        (vec![], vec![("x", 1), ("x", 2), ("a", 3)]),
    ];
    for (registered, local) in cases {
        let expected = reference(&registered, &local);
        let got = merge_managed_clients(
            registered.iter().map(|(n, d)| client(n, *d)).collect(),
            local.iter().map(|(n, d)| client(n, *d)).collect(),
        );
        assert_eq!(as_pairs(&got), expected);
    }
}

#[test]
fn names_order_like_strings() {
    for (a, b) in [("a", "b"), ("b", "a"), ("ab", "a"), ("", "x"), ("ключ", "key"), ("same", "same")] {
        assert_eq!(names_in_order(a, b), a <= b, "{a} {b}");
    }
}
