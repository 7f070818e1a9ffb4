use awgram::admin_menus::{
    admin_create_menu, admin_dashboard_menu, finance_menu, local_migration_menu,
    remote_migration_menu, server_card_menu, server_setup_method_menu, vpn_service_menu,
};
use awgram::bot_menus::{
    backup_card, backup_menu, bulk_count_menu, bulk_expiry_menu, bulk_psk_step, client_card,
    confirm_delete, confirm_recreate, confirm_regen_all, confirm_restart_menu, confirm_restore,
    expiry_menu, ga_main_menu, group_card_menu, language_select, main_menu, modify_param_menu,
    psk_step, settings_menu,
};
use awgram::client_list::{clients_empty_menu, clients_list, ClientEntry};
use awgram::customer_menus::{
    buy_balance_confirm_menu, customer_key_menu, customer_refresh_confirm_menu,
    notification_settings_menu, renew_balance_confirm_menu,
};
use awgram::keyboard::{Keyboard, Label};
use awgram::list_menus::{
    admin_operations_menu, admin_user_keys_menu, backups_list, group_scope_menu, groups_menu,
    move_client_menu,
};
use awgram::model::{ClientFilter, Lang};
use awgram::store::GroupRow;

fn all_callback_data(kb: &Keyboard) -> Vec<String> {
    kb.rows.iter().flatten().map(|b| b.data.clone()).collect()
}

fn client(name: &str) -> ClientEntry {
    ClientEntry { name: name.to_string(), mark: "🟢".to_string(), state: "онлайн".to_string(), handshake: "2 мин".to_string() }
}

fn g(id: i64, name: &str) -> GroupRow {
    GroupRow { id, name: name.into(), max_clients: None, created_at: 0 }
}

#[test]
fn main_menu_has_expected_actions() {
    let data = all_callback_data(&main_menu(Lang::Ru));
    for expected in [
        "list", "add", "addbulk", "stats", "backup", "check", "diagnose", "restart", "repair",
        "settings",
    ] {
        assert!(data.contains(&expected.to_string()), "missing {expected}");
    }
}

#[test]
fn bulk_psk_step_emits_bulkadd_callbacks() {
    let data = all_callback_data(&bulk_psk_step(Lang::Ru, true));
    assert!(data.contains(&"bulkadd:psk:on".to_string()));
    assert!(!data.iter().any(|d| d.starts_with("add:psk:")));
}

#[test]
fn main_menu_has_restart_and_repair() {
    let data = all_callback_data(&main_menu(Lang::Ru));
    assert!(data.contains(&"restart".to_string()));
    assert!(data.contains(&"repair".to_string()));
}

#[test]
fn client_card_has_modify_button() {
    let data = all_callback_data(&client_card(Lang::Ru, "alice", true));
    assert!(data.contains(&"mod:alice".to_string()));
}

#[test]
fn customer_can_confirm_self_refresh() {
    let card = all_callback_data(&customer_key_menu("alice"));
    assert!(card.contains(&"refresh:alice".to_string()));
    let confirm = all_callback_data(&customer_refresh_confirm_menu("alice"));
    assert!(confirm.contains(&"refreshgo:alice".to_string()));
    assert!(confirm.contains(&"mykey:alice".to_string()));
}

#[test]
fn balance_purchase_and_renewal_require_explicit_confirmation() {
    let purchase = all_callback_data(&buy_balance_confirm_menu(12, 42));
    assert!(purchase.contains(&"buy:method:12:balance-go-42".to_string()));
    assert!(!purchase.contains(&"buy:method:12:balance".to_string()));

    let renewal = all_callback_data(&renew_balance_confirm_menu("alice", 3, 1_700_000_000));
    assert!(renewal.contains(&"renew:method:alice:3:balance-go-1700000000".to_string()));
    assert!(renewal.contains(&"mykey:alice".to_string()));
}

#[test]
fn notification_menu_toggles_each_optional_category() {
    let enabled = all_callback_data(&notification_settings_menu(true, true));
    assert!(enabled.contains(&"guide:notify-expiry-off".to_string()));
    assert!(enabled.contains(&"guide:notify-maintenance-off".to_string()));

    let disabled = all_callback_data(&notification_settings_menu(false, false));
    assert!(disabled.contains(&"guide:notify-expiry-on".to_string()));
    assert!(disabled.contains(&"guide:notify-maintenance-on".to_string()));
}

#[test]
fn modify_param_menu_has_four_params_and_back() {
    let data = all_callback_data(&modify_param_menu(Lang::Ru, "alice"));
    assert!(data.contains(&"modparam:alice:keepalive".to_string()));
    assert!(data.contains(&"modparam:alice:dns".to_string()));
    assert!(data.contains(&"modparam:alice:allowedips".to_string()));
    assert!(data.contains(&"modparam:alice:endpoint".to_string()));
    assert!(data.contains(&"menu".to_string()));
}

#[test]
fn confirm_restart_menu_has_go_and_back() {
    let data = all_callback_data(&confirm_restart_menu(Lang::Ru));
    assert!(data.contains(&"restart_go".to_string()));
    assert!(data.contains(&"menu".to_string()));
}

#[test]
fn expiry_menu_has_custom_and_presets() {
    let data = all_callback_data(&expiry_menu(Lang::Ru));
    assert!(data.contains(&"exp:none".to_string()));
    assert!(data.contains(&"exp:30d".to_string()));
    assert!(data.contains(&"exp:custom".to_string()));
}

#[test]
fn client_card_encodes_name() {
    let data = all_callback_data(&client_card(Lang::Ru, "alice", false));
    assert!(data.contains(&"conf:alice".to_string()));
    assert!(data.contains(&"regen:alice".to_string()));
}

#[test]
fn confirm_delete_encodes_name() {
    let data = all_callback_data(&confirm_delete(Lang::Ru, "bob"));
    assert!(data.contains(&"delyes:bob".to_string()));
}

#[test]
fn confirm_recreate_encodes_name() {
    let data = all_callback_data(&confirm_recreate(Lang::Ru, "bob"));
    assert!(data.contains(&"recreate:bob".to_string()));
    assert!(data.contains(&"menu".to_string()));
}

#[test]
fn clients_list_has_regen_all_button() {
    let clients = vec![client("a")];
    let data = all_callback_data(&clients_list(Lang::Ru, &clients, &[], 0, 10, ClientFilter::All, true));
    assert!(data.contains(&"regen_all".to_string()));
}

#[test]
fn clients_list_has_refresh_button() {
    let clients = vec![client("a")];
    let data = all_callback_data(&clients_list(Lang::Ru, &clients, &[], 0, 10, ClientFilter::All, true));
    assert!(data.contains(&"page:0".to_string()));
}

#[test]
fn clients_list_refresh_between_pagination() {
    let clients: Vec<ClientEntry> = (0..20).map(|i| client(&format!("c{i}"))).collect();
    let kb = clients_list(Lang::Ru, &clients, &[], 0, 8, ClientFilter::All, false);
    let data: Vec<&str> = kb.rows[8].iter().map(|b| b.data.as_str()).collect();
    assert_eq!(data, vec!["page:0", "page:1"]);
}

#[test]
fn clients_list_refresh_preserves_page() {
    let clients: Vec<ClientEntry> = (0..24).map(|i| client(&format!("c{i}"))).collect();
    let kb = clients_list(Lang::Ru, &clients, &[], 2, 8, ClientFilter::All, false);
    let data: Vec<&str> = kb.rows[8].iter().map(|b| b.data.as_str()).collect();
    assert_eq!(data, vec!["page:1", "page:2"]);
}

#[test]
fn confirm_regen_all_has_three_actions() {
    let data = all_callback_data(&confirm_regen_all(Lang::Ru));
    assert!(data.contains(&"regen_all_go".to_string()));
    assert!(data.contains(&"regen_all_routes".to_string()));
    assert!(data.contains(&"menu".to_string()));
}

#[test]
fn clients_list_one_button_per_client() {
    let clients = vec![client("a"), client("b")];
    let data = all_callback_data(&clients_list(Lang::Ru, &clients, &[], 0, 10, ClientFilter::All, false));
    assert!(data.contains(&"client:a".to_string()));
    assert!(data.contains(&"client:b".to_string()));
}

#[test]
fn clients_list_zero_per_page_no_panic() {
    let empty_clients: Vec<ClientEntry> = vec![];
    let kb_empty = clients_list(Lang::Ru, &empty_clients, &[], 0, 0, ClientFilter::All, false);
    assert_eq!(
        all_callback_data(&kb_empty),
        vec!["menu"],
        "empty clients with per_page=0 should have only menu callback"
    );
    let clients = vec![client("a"), client("b")];
    let kb_filled = clients_list(Lang::Ru, &clients, &[], 0, 0, ClientFilter::All, false);
    assert_eq!(
        all_callback_data(&kb_filled),
        vec!["menu"],
        "non-empty clients with per_page=0 should have only menu callback"
    );
}

#[test]
fn clients_list_has_filter_row_with_four_buttons() {
    let clients = vec![client("a")];
    let data = all_callback_data(&clients_list(Lang::Ru, &clients, &[], 0, 10, ClientFilter::All, false));
    assert!(data.contains(&"listfilter:all".to_string()));
    assert!(data.contains(&"listfilter:online".to_string()));
    assert!(data.contains(&"listfilter:offline".to_string()));
    assert!(data.contains(&"listfilter:never".to_string()));
}

#[test]
fn clients_list_marks_active_filter_with_checkmark() {
    let clients = vec![client("a")];
    let kb = clients_list(Lang::Ru, &clients, &[], 0, 10, ClientFilter::Online, false);
    let labels: Vec<&Label> = kb.rows.iter().flatten().map(|b| &b.label).collect();
    assert!(labels.iter().any(|l| matches!(l, Label::Filter { filter: ClientFilter::Online, active: true })));
    assert!(labels
        .iter()
        .filter(|l| matches!(l, Label::Filter { filter: ClientFilter::Offline, .. }))
        .all(|l| matches!(l, Label::Filter { active: false, .. })));
}

#[test]
fn clients_list_scope_button_gated_by_can_scope() {
    let clients = vec![client("a")];
    let with_scope = all_callback_data(&clients_list(Lang::Ru, &clients, &[], 0, 10, ClientFilter::All, true));
    assert!(with_scope.contains(&"gscope".to_string()));
    let without_scope =
        all_callback_data(&clients_list(Lang::Ru, &clients, &[], 0, 10, ClientFilter::All, false));
    assert!(!without_scope.contains(&"gscope".to_string()));
}

#[test]
fn clients_list_regen_all_only_for_owner() {
    let clients = vec![client("a")];
    let owner = all_callback_data(&clients_list(Lang::Ru, &clients, &[], 0, 10, ClientFilter::All, true));
    assert!(owner.contains(&"regen_all".to_string()));
    let ga = all_callback_data(&clients_list(Lang::Ru, &clients, &[], 0, 10, ClientFilter::All, false));
    assert!(!ga.contains(&"regen_all".to_string()));
}

#[test]
fn client_card_modify_and_move_only_for_owner() {
    let owner = all_callback_data(&client_card(Lang::Ru, "alice", true));
    assert!(owner.contains(&"mod:alice".to_string()));
    assert!(owner.contains(&"gmove:alice".to_string()));
    let ga = all_callback_data(&client_card(Lang::Ru, "alice", false));
    assert!(!ga.contains(&"mod:alice".to_string()));
    assert!(!ga.contains(&"gmove:alice".to_string()));
}

#[test]
fn group_scope_menu_encodes_all_none_and_groups() {
    let data = all_callback_data(&group_scope_menu(Lang::Ru, &[g(5, "family")]));
    assert!(data.contains(&"gscope:all".to_string()));
    assert!(data.contains(&"gscope:none".to_string()));
    assert!(data.contains(&"gscope:5".to_string()));
    assert!(data.contains(&"list".to_string()));
}

#[test]
fn language_select_has_both_langs() {
    let data = all_callback_data(&language_select());
    assert!(data.contains(&"lang:ru".to_string()));
    assert!(data.contains(&"lang:en".to_string()));
}

#[test]
fn settings_menu_toggles_psk_data_by_current_value() {
    let data_off = all_callback_data(&settings_menu(Lang::Ru, false, false, true, true, true));
    assert!(data_off.contains(&"set:psk:on".to_string()));
    assert!(!data_off.contains(&"set:psk:off".to_string()));
    let data_on = all_callback_data(&settings_menu(Lang::Ru, true, false, true, true, true));
    assert!(data_on.contains(&"set:psk:off".to_string()));
    assert!(data_on.contains(&"set:lang:ru".to_string()));
    assert!(data_on.contains(&"set:lang:en".to_string()));
    assert!(data_on.contains(&"admin:dashboard".to_string()));
}

#[test]
fn client_card_has_four_artifact_buttons() {
    let data = all_callback_data(&client_card(Lang::Ru, "alice", false));
    assert!(data.contains(&"conf:alice".to_string()));
    assert!(data.contains(&"qr:alice".to_string()));
    assert!(data.contains(&"uri:alice".to_string()));
    assert!(data.contains(&"all:alice".to_string()));
    assert!(data.contains(&"del:alice".to_string()));
}

#[test]
fn bulk_count_menu_has_presets_and_back() {
    let data = all_callback_data(&bulk_count_menu(Lang::Ru));
    for expected in ["bulk:1", "bulk:3", "bulk:5", "bulk:10", "bulk:20", "bulk:50", "bulk:99", "menu"] {
        assert!(data.contains(&expected.to_string()), "missing {expected}");
    }
}

#[test]
fn settings_menu_has_deliver_toggles() {
    let data = all_callback_data(&settings_menu(Lang::Ru, true, false, true, false, true));
    assert!(data.contains(&"set:conf:off".to_string()));
    assert!(!data.contains(&"set:conf:on".to_string()));
    assert!(data.contains(&"set:qr:on".to_string()));
    assert!(data.contains(&"set:link:off".to_string()));
}

#[test]
fn admin_dashboard_reaches_every_primary_section() {
    let data = all_callback_data(&admin_dashboard_menu());
    for expected in [
        "admin:servers",
        "admin:keys",
        "admin:users",
        "admin:finance",
        "stats",
        "admin:communication",
        "admin:system",
        "portal",
        "admin:search",
    ] {
        assert!(data.iter().any(|value| value == expected), "missing {expected}");
    }
    let create = all_callback_data(&admin_create_menu());
    assert!(create.contains(&"add".to_string()));
    assert!(create.contains(&"addbulk".to_string()));
    let vpn = all_callback_data(&vpn_service_menu());
    for expected in ["check", "diagnose", "restart", "repair", "migration:local", "admin:dashboard"] {
        assert!(vpn.contains(&expected.to_string()), "missing {expected}");
    }
    let migration = all_callback_data(&local_migration_menu());
    for expected in ["migration:preflight", "migration:start", "migration:status", "migration:rollback"] {
        assert!(migration.contains(&expected.to_string()), "missing {expected}");
    }
    assert!(all_callback_data(&finance_menu()).contains(&"admin:dashboard".to_string()));
    assert!(all_callback_data(&settings_menu(Lang::Ru, false, false, true, true, true))
        .contains(&"admin:dashboard".to_string()));
}

#[test]
fn server_card_exposes_remote_install_and_health_actions() {
    let data = all_callback_data(&server_card_menu(42));
    for expected in [
        "server:deploy:42",
        "server:check:42",
        "server:diagnose:42",
        "server:maintenance:42",
        "server:maintenance:finish:42",
        "server:panel:42",
        "server:panel:sync:42",
        "server:default:42",
    ] {
        assert!(data.contains(&expected.to_string()), "missing {expected}");
    }
}

#[test]
fn server_setup_wizard_offers_all_connection_methods() {
    let data = all_callback_data(&server_setup_method_menu(42));
    for expected in ["server:deploy:42", "server:panel:42", "server:enroll:42", "server:42"] {
        assert!(data.contains(&expected.to_string()), "missing {expected}");
    }
}

#[test]
fn operations_menu_offers_refresh_and_affected_servers() {
    let data = all_callback_data(&admin_operations_menu(&[2, 7], true));
    assert!(data.contains(&"admin:operations:refresh".to_string()));
    assert!(data.contains(&"admin:operations:ack".to_string()));
    assert!(data.contains(&"server:2".to_string()));
    assert!(data.contains(&"server:7".to_string()));
}

#[test]
fn admin_user_keys_offer_open_delete_and_back() {
    let data = all_callback_data(&admin_user_keys_menu(7, &["alice-phone".into()]));
    assert!(data.contains(&"show:alice-phone".to_string()));
    assert!(data.contains(&"del:alice-phone".to_string()));
    assert!(data.contains(&"admin:user:7".to_string()));
}

#[test]
fn remote_migration_requires_test_before_manual_enablement() {
    let data = all_callback_data(&remote_migration_menu(42));
    for expected in ["server:migrate:test:42", "server:migrate:approve:42", "server:migrate:rollback:42"] {
        assert!(data.contains(&expected.to_string()), "missing {expected}");
    }
}

#[test]
fn psk_step_has_both_options_and_back() {
    let data = all_callback_data(&psk_step(Lang::Ru, false));
    assert!(data.contains(&"add:psk:on".to_string()));
    assert!(data.contains(&"add:psk:off".to_string()));
    assert!(data.contains(&"menu".to_string()));
}

#[test]
fn bulk_expiry_menu_uses_bulkexp_prefix() {
    let data = all_callback_data(&bulk_expiry_menu(Lang::Ru));
    assert!(data.contains(&"bulkexp:none".to_string()));
    assert!(data.contains(&"bulkexp:1d".to_string()));
    assert!(data.contains(&"bulkexp:30d".to_string()));
    assert!(data.contains(&"bulkexp:365d".to_string()));
    assert!(data.contains(&"bulkexp:custom".to_string()));
    assert!(!data.iter().any(|d| d.starts_with("exp:")));
}

#[test]
fn backup_menu_has_new_list_and_back() {
    let data = all_callback_data(&backup_menu(Lang::Ru));
    assert!(data.contains(&"bk:new".to_string()));
    assert!(data.contains(&"bk:list".to_string()));
    assert!(data.contains(&"menu".to_string()));
}

#[test]
fn backups_list_one_button_per_backup_by_index() {
    let backups = vec!["a.tar.gz".to_string(), "b.tar.gz".to_string()];
    let data = all_callback_data(&backups_list(Lang::Ru, &backups));
    assert!(data.contains(&"bk:card:0".to_string()));
    assert!(data.contains(&"bk:card:1".to_string()));
    assert!(data.contains(&"menu".to_string()));
}

#[test]
fn backup_card_encodes_index() {
    let data = all_callback_data(&backup_card(Lang::Ru, 2));
    assert!(data.contains(&"bk:dl:2".to_string()));
    assert!(data.contains(&"bk:restore:2".to_string()));
    assert!(data.contains(&"menu".to_string()));
}

#[test]
fn confirm_restore_encodes_index() {
    let data = all_callback_data(&confirm_restore(Lang::Ru, 3));
    assert!(data.contains(&"bk:restore_yes:3".to_string()));
    assert!(data.contains(&"menu".to_string()));
}

#[test]
fn group_keyboards_emit_expected_callbacks() {
    let kb = groups_menu(Lang::Ru, &[(g(1, "family"), 3)]);
    let data = all_callback_data(&kb);
    assert!(data.contains(&"g:card:1".to_string()));
    assert!(data.contains(&"g:new".to_string()));

    let card = group_card_menu(Lang::Ru, 7, true);
    let card_data = all_callback_data(&card);
    for expected in ["g:ren:7", "g:quota:7", "g:adm:7", "g:invrev:7", "g:del:7", "g:regen:7"] {
        assert!(card_data.contains(&expected.to_string()), "missing {expected}");
    }
    let card2 = group_card_menu(Lang::Ru, 7, false);
    let d2 = format!("{card2:?}");
    assert!(d2.contains("g:inv:7"));

    let mv = move_client_menu(Lang::Ru, "alice", &[g(1, "family")]);
    let mv_dbg = format!("{mv:?}");
    assert!(mv_dbg.contains("gmoveto:1:alice"));
    assert!(mv_dbg.contains("gmoveto:none:alice"));
}

#[test]
fn main_menu_has_groups_button() {
    let dbg = format!("{:?}", main_menu(Lang::Ru));
    assert!(dbg.contains("\"groups\""));
}

#[test]
fn ga_menu_switch_only_when_multi() {
    assert!(format!("{:?}", ga_main_menu(Lang::Ru, true)).contains("g:selmenu"));
    assert!(!format!("{:?}", ga_main_menu(Lang::Ru, false)).contains("g:selmenu"));
}

#[test]
fn psk_step_default_option_listed_first() {
    let kb_off = psk_step(Lang::Ru, false);
    assert_eq!(kb_off.rows[0][0].data, "add:psk:off");
    let kb_on = psk_step(Lang::Ru, true);
    assert_eq!(kb_on.rows[0][0].data, "add:psk:on");
}

#[test]
fn clients_empty_menu_keeps_filter_and_scope_controls() {
    let data = all_callback_data(&clients_empty_menu(Lang::Ru, ClientFilter::All, true));
    assert!(data.contains(&"gscope".to_string()));
    assert!(data.contains(&"listfilter:all".to_string()));
    assert!(data.contains(&"menu".to_string()));
}

#[test]
fn clients_empty_menu_hides_scope_for_group_admin() {
    let data = all_callback_data(&clients_empty_menu(Lang::Ru, ClientFilter::All, false));
    assert!(!data.contains(&"gscope".to_string()));
    assert!(data.contains(&"listfilter:all".to_string()));
}

#[test]
fn group_card_menu_has_group_clients_button() {
    let data = all_callback_data(&group_card_menu(Lang::Ru, 7, false));
    assert!(data.contains(&"gscope:7".to_string()));
}
