use awgram::auth::Role;
use awgram::handlers::{
    edit_follow_up, is_customer_navigation, truncate_for_message, EditFollowUp, EditOutcome,
};
use awgram::scope::{add_needs_quota_rollback, group_for_new_client};
use awgram::store::{ListScope, QuotaAssign, Store};

#[test]
fn customer_navigation_cancels_promo_input() {
    for text in [
        "/start",
        "/start ref_42",
        "🏠 Кабинет",
        "🔑 Мои ключи",
        "➕ Купить ключ",
        "➕ Пополнить",
        "📖 Инструкция",
        "🆘 Поддержка",
        "🎟 Промокод",
    ] {
        assert!(is_customer_navigation(text), "{text}");
    }
    assert!(!is_customer_navigation("FRIEND25"));
}

#[test]
fn group_for_new_client_recreate_preserves_binding() {
    // Recreate не трогает привязку: владелец не отвязывает клиента от его
    // группы, групповой админ не переносит клиента в свою текущую группу.
    let mut store = Store::open_in_memory();
    let a = store.create_group("a", 0).unwrap();
    let b = store.create_group("b", 0).unwrap();
    store.assign_client_group("alice", Some(a), 10);
    assert_eq!(
        group_for_new_client(&Role::Owner, &store, 1, true, "alice"),
        Some(Some(a))
    );
    store.add_group_admin(a, 42, 1, 0);
    store.add_group_admin(b, 42, 1, 0);
    store.set_current_group(42, b);
    let ga = Role::GroupAdmin(vec![a, b]);
    assert_eq!(
        group_for_new_client(&ga, &store, 42, true, "alice"),
        Some(Some(a))
    );
    // Клиент без группы у владельца остаётся без группы.
    assert_eq!(
        group_for_new_client(&Role::Owner, &store, 1, true, "nogroup"),
        Some(None)
    );
}

#[test]
fn group_for_new_client_new_client_by_role() {
    // Новый клиент: групповому админу — его текущая группа (нет текущей →
    // None: нужен экран выбора), владельцу — без группы.
    let mut store = Store::open_in_memory();
    let a = store.create_group("a", 0).unwrap();
    let b = store.create_group("b", 0).unwrap();
    store.set_current_group(42, b);
    let ga = Role::GroupAdmin(vec![a, b]);
    assert_eq!(
        group_for_new_client(&ga, &store, 42, false, "bob"),
        Some(Some(b))
    );
    assert_eq!(
        group_for_new_client(&Role::Owner, &store, 1, false, "bob"),
        Some(None)
    );
    store.set_owner_scope(1, ListScope::Group(a));
    assert_eq!(
        group_for_new_client(&Role::Owner, &store, 1, false, "bob"),
        Some(Some(a))
    );
    // Сохранённая текущая группа отозвана → выбор группы.
    let ga_only_a = Role::GroupAdmin(vec![a, b]);
    store.set_current_group(43, 999);
    assert_eq!(
        group_for_new_client(&ga_only_a, &store, 43, false, "bob"),
        None
    );
}

#[test]
fn add_rollback_only_for_new_client_full() {
    // Откат (удалить созданного клиента) — только когда НОВЫЙ клиент
    // проиграл гонку квоты. Recreate квоту не проверяет, Db — деградация
    // без отката (клиент остаётся без группы, как раньше).
    assert!(add_needs_quota_rollback(false, &QuotaAssign::Full));
    assert!(!add_needs_quota_rollback(true, &QuotaAssign::Full));
    assert!(!add_needs_quota_rollback(false, &QuotaAssign::Assigned));
    assert!(!add_needs_quota_rollback(false, &QuotaAssign::Db));
}

#[test]
fn truncate_for_message_respects_char_boundary() {
    // Трёхбайтовый символ: 3500 не кратно 3 → индекс попадает внутрь
    // символа, обрезка должна откатиться к границе, а не паниковать.
    let long = "€".repeat(1500); // 4500 байт
    let cut = truncate_for_message(long);
    assert!(cut.ends_with('…'));
    assert!(cut.len() <= 3504); // ≤3500 (до границы символа) + "\n…" (4 байта)
    let short = "ok".to_string();
    assert_eq!(truncate_for_message(short), "ok");
}

#[test]
fn only_a_failed_edit_sends_a_new_message() {
    assert_eq!(edit_follow_up(EditOutcome::Edited), EditFollowUp::Nothing);
    assert_eq!(edit_follow_up(EditOutcome::NotModified), EditFollowUp::Nothing);
    assert_eq!(edit_follow_up(EditOutcome::Failed), EditFollowUp::ClearAndSend);
}
