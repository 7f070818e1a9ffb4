use awgram::overview::{
    dashboard_counts, expires_within_week, key_state, key_title, panel_figures, subscription_figures,
    tariff_counts, users_page, KeyHealth, PanelClient, Subscription,
};
use awgram::scope::{admits, scoped_clients};
use awgram::store::{ListScope, Store};

#[test]
fn expiring_means_within_the_coming_week() {
    assert!(expires_within_week(Some(1_000 + 7 * 86_400), 1_000));
    assert!(!expires_within_week(Some(1_001 + 7 * 86_400), 1_000));
    assert!(!expires_within_week(Some(1_000), 1_000));
    assert!(!expires_within_week(None, 1_000));
    assert!(expires_within_week(Some(i64::MAX), i64::MAX - 1));
}

#[test]
fn dashboard_figures() {
    let keys = [
        KeyHealth { online: true, expiry: None },
        KeyHealth { online: true, expiry: Some(500) },
        KeyHealth { online: true, expiry: Some(2_000) },
        KeyHealth { online: false, expiry: Some(2_000) },
    ];
    assert_eq!(dashboard_counts(&keys, 1_000), (2, 1, 2));
    assert_eq!(dashboard_counts(&[], 1_000), (0, 0, 0));
}

#[test]
fn key_states_and_titles() {
    assert_eq!(key_state(false, true), ("❌", "НЕ РАБОТАЕТ — требуется замена"));
    assert_eq!(key_state(true, true), ("⏸", "отключён"));
    assert_eq!(key_state(true, false), ("✅", "работает"));
    assert_eq!(key_title("✅", "phone", "alice"), "✅ phone · alice");
    let long = "x".repeat(80);
    let title = key_title("✅", &long, "alice");
    assert_eq!(title.chars().count(), 60);
    assert!(title.starts_with("✅ xxx"));
}

#[test]
fn user_pages_clamp_to_the_last() {
    assert_eq!(users_page(0, 3), (0, 1, 0, 0));
    assert_eq!(users_page(25, 1), (1, 3, 10, 20));
    assert_eq!(users_page(25, 9), (2, 3, 20, 25));
    assert_eq!(users_page(20, 5), (1, 2, 10, 20));
}

#[test]
fn list_scope_admits_clients() {
    assert!(admits(ListScope::All, Some(3)));
    assert!(admits(ListScope::NoGroup, None));
    assert!(!admits(ListScope::NoGroup, Some(3)));
    assert!(admits(ListScope::Group(3), Some(3)));
    assert!(!admits(ListScope::Group(3), None));
    let mut store = Store::open_in_memory();
    let g = store.create_group("a", 0).unwrap();
    store.assign_client_group("mine", Some(g), 1);
    let names = vec!["mine".to_string(), "free".to_string()];
    assert_eq!(scoped_clients(&names, ListScope::Group(g), &store), vec!["mine".to_string()]);
    assert_eq!(scoped_clients(&names, ListScope::NoGroup, &store), vec!["free".to_string()]);
    assert_eq!(scoped_clients(&names, ListScope::All, &store).len(), 2);
}

#[test]
fn subscription_statistics() {
    let now = 1_000_000;
    let keys = [
        Subscription { disabled: false, expiry: None },
        Subscription { disabled: false, expiry: Some(now + 86_400) },
        Subscription { disabled: true, expiry: Some(now + 86_400) },
        Subscription { disabled: false, expiry: Some(now - 1) },
        Subscription { disabled: false, expiry: Some(now + 30 * 86_400) },
    ];
    assert_eq!(subscription_figures(&keys, now), (3, 2, 1, 5));
    assert_eq!(subscription_figures(&[], now), (0, 0, 0, 0));
}

#[test]
fn tariff_popularity() {
    let purchases = [(true, 1), (true, 1), (false, 1), (true, 3), (true, 12), (true, 0), (true, 6), (true, 2)];
    assert_eq!(tariff_counts(&purchases), [2, 1, 1, 1]);
}

#[test]
fn panel_statistics() {
    let now = 10_000;
    let clients = [
        PanelClient { last_handshake: Some(now - 100), rx: 10, tx: 5 },
        PanelClient { last_handshake: Some(now - 180), rx: 1, tx: 1 },
        PanelClient { last_handshake: None, rx: 0, tx: 0 },
        PanelClient { last_handshake: Some(i64::MIN), rx: 0, tx: 0 },
    ];
    assert_eq!(panel_figures(&clients, now, 180), (1, 17));
    let huge = [
        PanelClient { last_handshake: Some(now), rx: u64::MAX, tx: 1 },
        PanelClient { last_handshake: Some(now), rx: 5, tx: 0 },
    ];
    assert_eq!(panel_figures(&huge, now, 180), (2, u64::MAX));
}
