use awgram::auth::Role;
use awgram::bot_menus::day_label;
use awgram::client_list::{clients_list, nav_row, pages_for, ClientEntry};
use awgram::entry_menus::{
    add_server_menu, admin_users_menu, buy_servers_menu, buy_terms_menu, bulk_servers_menu,
    customer_move_servers_menu, legacy_admin_menu, renew_terms_menu, servers_menu,
    support_tickets_menu, KeyRequestEntry, ServerEntry, TicketEntry, UserEntry,
};
use awgram::keyboard::{Keyboard, Label};
use awgram::list_menus::{customer_keys_menu, support_rating_menu};
use awgram::model::{filter_label_name, ClientFilter, Lang};
use awgram::reply_keyboards::{admin_keyboard, customer_keyboard};
use awgram::screens::home_menu;

fn data(kb: &Keyboard) -> Vec<String> {
    kb.rows.iter().flatten().map(|b| b.data.clone()).collect()
}

fn texts(kb: &Keyboard) -> Vec<String> {
    kb.rows
        .iter()
        .flatten()
        .filter_map(|b| match &b.label {
            Label::Text(t) => Some(t.clone()),
            _ => None,
        })
        .collect()
}

fn server(id: i64, status: &str, local: bool, protocol: &str) -> ServerEntry {
    ServerEntry {
        id,
        name: format!("s{id}"),
        location: "Рига".into(),
        status: status.into(),
        is_local: local,
        protocol: protocol.into(),
        capacity: 10,
    }
}

#[test]
fn server_lists_show_state_and_generation() {
    let servers = vec![server(1, "online", true, "amneziawg"), server(2, "down", false, "amneziawg-2")];
    let kb = servers_menu(&servers);
    assert_eq!(texts(&kb)[0], "🟢 🏠 s1 · Рига");
    assert_eq!(texts(&kb)[1], "⚪ s2 · Рига");
    assert_eq!(data(&kb)[..2], ["server:1".to_string(), "server:2".to_string()]);
    assert_eq!(texts(&bulk_servers_menu(&servers))[1], "📍 Рига · AWG 2.0");
    assert_eq!(data(&add_server_menu(&servers))[0], "add:server:1");
    let buy = buy_servers_menu(&servers, &[3, 12]);
    assert_eq!(texts(&buy)[0], "📍 Рига · AWG 1.0 · стабильно · свободно 7");
    assert_eq!(texts(&buy)[1], "📍 Рига · AWG 2.0 · тестовый · свободно -2");
    let moving = customer_move_servers_menu("alice", &servers, &[3, 4]);
    assert_eq!(texts(&moving)[0], "📍 Рига · amneziawg (3/10)");
    assert_eq!(data(&moving)[0], "move:run:alice:1");
    assert_eq!(data(&moving)[2], "mykey:alice");
}

#[test]
fn user_list_pages() {
    let users = vec![
        UserEntry { user_id: 5, username: Some("bob".into()), display_name: "Bob".into() },
        UserEntry { user_id: 6, username: None, display_name: "Eve".into() },
    ];
    let kb = admin_users_menu(&users, 1, 3);
    assert_eq!(texts(&kb)[..2], ["@bob".to_string(), "Eve · 6".to_string()]);
    assert_eq!(
        data(&kb)[2..5],
        ["admin:owners:page:0".to_string(), "noop".to_string(), "admin:owners:page:2".to_string()]
    );
    let single = admin_users_menu(&users, 0, 1);
    assert!(!data(&single).contains(&"noop".to_string()));
}

#[test]
fn tickets_and_requests() {
    let tickets = vec![TicketEntry {
        id: 9,
        category: "bug".into(),
        priority: "high".into(),
        status: "open".into(),
    }];
    let kb = support_tickets_menu(&tickets);
    assert_eq!(texts(&kb), vec!["#9 · bug · high · open".to_string()]);
    assert_eq!(data(&kb), vec!["support:ticket:9".to_string()]);
    let requests = vec![KeyRequestEntry { id: 3, user_id: 77, requested_name: "old".into() }];
    let kb = legacy_admin_menu(&requests);
    assert_eq!(data(&kb)[..3], ["admin:user:77".to_string(), "legacy:req:ok:3".to_string(), "legacy:req:no:3".to_string()]);
    assert_eq!(texts(&kb)[0], "#3 · user 77 · old");
}

#[test]
fn price_lists_show_whole_rubles() {
    let kb = buy_terms_menu([19_999, 50_000, 90_050, -150]);
    assert_eq!(
        texts(&kb),
        vec![
            "1 месяц — 199 ₽".to_string(),
            "3 месяца — 500 ₽".to_string(),
            "6 месяцев — 900 ₽".to_string(),
            "12 месяцев — -1 ₽".to_string(),
        ]
    );
    assert_eq!(data(&renew_terms_menu("alice", [1, 2, 3, 4]))[3], "renew:term:alice:12");
}

#[test]
fn rating_and_keys() {
    assert_eq!(
        data(&support_rating_menu(4)),
        (1..=5).map(|v| format!("support:rate:4:{v}")).collect::<Vec<_>>()
    );
    assert_eq!(texts(&support_rating_menu(4))[0], "1⭐");
    let keys = customer_keys_menu(&[("alice".to_string(), "✅ phone · alice".to_string())]);
    assert_eq!(data(&keys), vec!["mykey:alice".to_string()]);
}

#[test]
fn client_list_pages_and_navigation() {
    assert_eq!(pages_for(0, 8), 1);
    assert_eq!(pages_for(8, 8), 1);
    assert_eq!(pages_for(9, 8), 2);
    let nav: Vec<String> = nav_row(1, 3).iter().map(|b| b.data.clone()).collect();
    assert_eq!(nav, vec!["page:0", "page:1", "page:2"]);
    let clients: Vec<ClientEntry> =
        (0..10).map(|i| ClientEntry { name: format!("c{i}"), mark: "🟢".to_string(), state: "онлайн".to_string(), handshake: "2 мин".to_string() }).collect();
    let last = clients_list(Lang::Ru, &clients, &[], 1, 8, ClientFilter::All, false);
    assert_eq!(data(&last)[..2], ["client:c8".to_string(), "client:c9".to_string()]);
    let beyond = clients_list(Lang::Ru, &clients, &[], 5, 8, ClientFilter::All, false);
    assert!(!data(&beyond).iter().any(|d| d.starts_with("client:")));
}

#[test]
fn day_labels_follow_the_language() {
    assert_eq!(day_label(Lang::Ru, 30), "30д");
    assert_eq!(day_label(Lang::En, 7), "7d");
}

#[test]
fn reply_keyboards() {
    let open = customer_keyboard(1_700_000_000);
    assert_eq!(open.rows.len(), 5);
    assert_eq!(open.rows[4], vec!["♻️ Восстановить ключи".to_string()]);
    let closed = customer_keyboard(1_900_000_000);
    assert_eq!(closed.rows.len(), 4);
    assert!(closed.resize && closed.persistent);
    assert_eq!(admin_keyboard().rows[5], vec!["👤 Кабинет".to_string()]);
}

#[test]
fn home_keyboard_by_role() {
    assert!(data(&home_menu(&Role::Owner, Lang::Ru)).contains(&"admin:servers".to_string()));
    assert!(data(&home_menu(&Role::GroupAdmin(vec![1, 2]), Lang::Ru)).contains(&"g:selmenu".to_string()));
    assert!(!data(&home_menu(&Role::GroupAdmin(vec![1]), Lang::Ru)).contains(&"g:selmenu".to_string()));
    assert!(data(&home_menu(&Role::Denied, Lang::Ru)).contains(&"settings".to_string()));
}

#[test]
fn filter_captions_in_both_languages() {
    assert_eq!(filter_label_name(Lang::Ru, ClientFilter::All), "Все");
    assert_eq!(filter_label_name(Lang::En, ClientFilter::Online), "Online");
    assert_eq!(filter_label_name(Lang::Ru, ClientFilter::Offline), "Оффлайн");
    assert_eq!(filter_label_name(Lang::En, ClientFilter::Never), "Never");
}

#[test]
fn client_labels_carry_the_badge_of_their_place_in_the_list() {
    let clients: Vec<ClientEntry> = (0..10)
        .map(|i| ClientEntry {
            name: format!("c{i}"),
            mark: "🟢".to_string(),
            state: "онлайн".to_string(),
            handshake: "2 мин".to_string(),
        })
        .collect();
    let mut badges: Vec<Option<String>> = vec![None; 10];
    badges[9] = Some("⏳ 3 дн".to_string());
    let kb = clients_list(Lang::Ru, &clients, &badges, 1, 8, ClientFilter::All, false);
    let label = |row: usize| match &kb.rows[row][0].label {
        awgram::keyboard::Label::Text(t) => t.clone(),
        _ => panic!("a client button has a text label"),
    };
    assert_eq!(label(0), "🟢 c8 · онлайн · 2 мин");
    assert_eq!(label(1), "🟢 c9 · онлайн · 2 мин ⏳ 3 дн");
}
