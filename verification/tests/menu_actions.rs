use awgram::action::{parse_callback, Action};
use awgram::admin_menus::{
    admin_communication_hub, admin_create_menu, admin_dashboard_menu, admin_keys_hub,
    admin_promos_menu, admin_roles_menu, admin_system_hub, admin_user_menu, admin_users_hub,
    broadcast_audience_menu, bulk_manage_menu, legacy_request_admin_menu, remote_migration_menu,
    server_card_menu, statistics_menu, support_ticket_menu, vpn_service_menu,
};
use awgram::bot_menus::{
    backup_card, backup_menu, bulk_count_menu, bulk_expiry_menu, client_card,
    confirm_group_delete_clients_menu, confirm_group_regen_menu, confirm_delete,
    confirm_recreate, confirm_restart_menu, confirm_restore, expiry_menu, ga_main_menu,
    group_card_menu, group_delete_choice_menu, language_select, main_menu, modify_param_menu,
    psk_step, settings_menu,
};
use awgram::client_list::{clients_empty_menu, clients_list, ClientEntry};
use awgram::customer_menus::{
    customer_key_menu, customer_refresh_confirm_menu, legacy_renew_method_menu,
    legacy_restore_menu,
};
use awgram::entry_menus::{legacy_admin_menu, servers_menu, support_filters_menu};
use awgram::keyboard::Keyboard;
use awgram::list_menus::{
    backups_list, group_admins_menu, group_scope_menu, group_select_menu, groups_menu,
    move_client_menu, support_rating_menu,
};
use awgram::model::{ClientFilter, Lang};
use awgram::screens::{empty_list_screen, EmptyListText};
use awgram::store::GroupRow;

fn all_callback_data(kb: &Keyboard) -> Vec<String> {
    kb.rows.iter().flatten().map(|b| b.data.clone()).collect()
}

fn sample_group() -> GroupRow {
    GroupRow { id: 1, name: "family".into(), max_clients: None, created_at: 0 }
}

#[test]
fn all_menu_callback_data_parse_to_known_actions() {
    let sample_client = ClientEntry { name: "alice".into(), mark: "🟢".to_string(), state: "онлайн".to_string(), handshake: "2 мин".to_string() };
    let keyboards = vec![
        main_menu(Lang::Ru),
        admin_dashboard_menu(),
        admin_keys_hub(),
        admin_users_hub(),
        admin_communication_hub(),
        admin_system_hub(),
        servers_menu(&[]),
        server_card_menu(1),
        remote_migration_menu(1),
        vpn_service_menu(),
        admin_create_menu(),
        admin_roles_menu(),
        admin_promos_menu(),
        bulk_manage_menu(),
        statistics_menu(),
        admin_user_menu(42, false),
        broadcast_audience_menu(),
        support_filters_menu(&[]),
        awgram::customer_menus::support_category_menu(),
        support_ticket_menu(1),
        support_rating_menu(1),
        customer_key_menu("alice"),
        customer_refresh_confirm_menu("alice"),
        legacy_renew_method_menu("old_alice"),
        legacy_restore_menu(false),
        legacy_restore_menu(true),
        legacy_request_admin_menu(1),
        legacy_admin_menu(&[]),
        expiry_menu(Lang::Ru),
        client_card(Lang::Ru, "alice", true),
        confirm_delete(Lang::Ru, "bob"),
        confirm_recreate(Lang::Ru, "alice"),
        clients_list(Lang::Ru, &[sample_client], &[], 0, 8, ClientFilter::All, true),
        language_select(),
        settings_menu(Lang::Ru, false, false, false, false, false),
        settings_menu(Lang::Ru, true, true, true, true, true),
        bulk_count_menu(Lang::Ru),
        bulk_expiry_menu(Lang::Ru),
        psk_step(Lang::Ru, false),
        psk_step(Lang::Ru, true),
        backup_menu(Lang::Ru),
        backups_list(Lang::Ru, &["awg_backup_x.tar.gz".to_string()]),
        backup_card(Lang::Ru, 0),
        confirm_restore(Lang::Ru, 0),
        modify_param_menu(Lang::Ru, "alice"),
        confirm_restart_menu(Lang::Ru),
        groups_menu(Lang::Ru, &[(sample_group(), 2)]),
        group_card_menu(Lang::Ru, 1, true),
        group_card_menu(Lang::Ru, 1, false),
        group_admins_menu(Lang::Ru, 1, &[42]),
        group_delete_choice_menu(Lang::Ru, 1),
        confirm_group_delete_clients_menu(Lang::Ru, 1),
        confirm_group_regen_menu(Lang::Ru, 1),
        group_select_menu(Lang::Ru, &[sample_group()]),
        ga_main_menu(Lang::Ru, true),
        move_client_menu(Lang::Ru, "alice", &[sample_group()]),
        group_scope_menu(Lang::Ru, &[sample_group()]),
        clients_empty_menu(Lang::Ru, ClientFilter::All, true),
    ];
    for kb in &keyboards {
        for data in all_callback_data(kb) {
            assert_ne!(
                parse_callback(&data),
                Action::Unknown,
                "callback data {data:?} did not parse to a known Action"
            );
        }
    }
}

#[test]
fn empty_list_screen_no_clients_keeps_home_menu() {
    let home = main_menu(Lang::Ru);
    let (text, kb) = empty_list_screen(Lang::Ru, 0, ClientFilter::All, true, home.clone());
    assert_eq!(text, EmptyListText::NoClients);
    assert_eq!(kb, home);
}

#[test]
fn empty_list_screen_filtered_keeps_filter_controls() {
    let (text, kb) = empty_list_screen(Lang::Ru, 3, ClientFilter::All, true, main_menu(Lang::Ru));
    assert_eq!(text, EmptyListText::Filtered);
    let dbg = format!("{kb:?}");
    assert!(dbg.contains("\"gscope\""));
    assert!(dbg.contains("listfilter:all"));
}
