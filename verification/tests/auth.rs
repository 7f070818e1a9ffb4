use awgram::auth::{resolve_role, Role};
use awgram::store::Store;

#[test]
fn owner_from_config_wins() {
    let mut store = Store::open_in_memory();
    assert!(matches!(
        resolve_role(111, &[111, 222], &store),
        Role::Owner
    ));
}

#[test]
fn group_admin_from_db() {
    let mut store = Store::open_in_memory();
    let g = store.create_group("g", 0).unwrap();
    store.add_group_admin(g, 42, 1, 10);
    match resolve_role(42, &[111], &store) {
        Role::GroupAdmin(groups) => assert_eq!(groups, vec![g]),
        other => panic!("ожидался GroupAdmin, получен {other:?}"),
    }
}

#[test]
fn stranger_denied() {
    let mut store = Store::open_in_memory();
    assert!(matches!(resolve_role(999, &[111], &store), Role::Denied));
}

#[test]
fn owner_precedes_group_admin() {
    // Владелец, даже будучи записан админом группы, остаётся Owner.
    let mut store = Store::open_in_memory();
    let g = store.create_group("g", 0).unwrap();
    store.add_group_admin(g, 111, 1, 10);
    assert!(matches!(resolve_role(111, &[111], &store), Role::Owner));
}

#[test]
fn scope_checks() {
    assert!(Role::Owner.can_see_client(None));
    assert!(Role::Owner.can_see_client(Some(5)));
    let ga = Role::GroupAdmin(vec![1, 2]);
    assert!(ga.can_see_client(Some(1)));
    assert!(!ga.can_see_client(Some(3)));
    assert!(!ga.can_see_client(None)); // клиенты без группы админу не видны
    assert!(!Role::Denied.can_see_client(None));
}
