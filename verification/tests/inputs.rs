use awgram::inputs::{
    bounded_text, bulk_command, expiry_input, ExpiryInput, decline_reason, note_input, GROUP_NAME_LIMIT, SERVER_NAME_LIMIT, key_request, names_with_prefix, promo_input, prices_in_kopecks, referral_percent, reply_target,
    invite_link, referral_link, role_command, split_words, staff_change, start_invite, start_referrer, tariff_prices,
    topup_rubles,
};

#[test]
fn words_split_at_any_whitespace() {
    assert_eq!(split_words("  a bb\tccc\n d  "), vec!["a", "bb", "ccc", "d"]);
    assert_eq!(split_words(""), Vec::<&str>::new());
    assert_eq!(split_words("\u{3000}x\u{a0}y"), vec!["x", "y"]);
    let text = "one  two three";
    assert_eq!(split_words(text), text.split_whitespace().collect::<Vec<_>>());
}

#[test]
fn start_parameters() {
    assert_eq!(start_referrer("/start ref_42"), Some(42));
    assert_eq!(start_referrer("/start ref_ 42 "), Some(42));
    assert_eq!(start_referrer("/start ref_x"), None);
    assert_eq!(start_referrer("/start"), None);
    assert_eq!(start_invite("/start inv_abc "), Some("abc"));
    assert_eq!(start_invite("/start ref_1"), None);
}

#[test]
fn owner_commands() {
    assert_eq!(reply_target("/reply_17"), Some(17));
    assert_eq!(reply_target("/reply_ 17"), None);
    assert_eq!(role_command("/role 5 support"), Some((5, "support")));
    assert_eq!(role_command("/role 5"), None);
    assert_eq!(role_command("/role x support"), None);
    assert_eq!(bulk_command("/bulk_extend client 30d"), Some(("extend", "client", Some("30d"))));
    assert_eq!(bulk_command("/bulk_disable client"), Some(("disable", "client", None)));
    assert_eq!(bulk_command("/bulk_disable"), None);
}

#[test]
fn dialog_values() {
    assert_eq!(topup_rubles(" 500 "), Some(500));
    assert_eq!(topup_rubles("99"), None);
    assert_eq!(topup_rubles("100001"), None);
    assert_eq!(tariff_prices("200 600 1000 2000"), Some([200, 600, 1000, 2000]));
    assert_eq!(tariff_prices("200 x 600 1000 2000"), Some([200, 600, 1000, 2000]));
    assert_eq!(tariff_prices("200 600 1000"), None);
    assert_eq!(tariff_prices("0 600 1000 2000"), None);
    assert_eq!(prices_in_kopecks([200, 600, 1000, 2000]), [20_000, 60_000, 100_000, 200_000]);
    assert_eq!(referral_percent(" 15 "), Some(15));
    assert_eq!(referral_percent("101"), None);
    assert_eq!(staff_change("42 finance", false), Some((42, "finance")));
    assert_eq!(staff_change("42", true), Some((42, "remove")));
    assert_eq!(staff_change("42", false), None);
}

#[test]
fn prefix_selection_keeps_order_and_limit() {
    let names: Vec<String> = vec!["client1".into(), "other".into(), "client2".into()];
    assert_eq!(names_with_prefix(&names, "client"), vec!["client1".to_string(), "client2".to_string()]);
    let many: Vec<String> = (0..150).map(|i| format!("k{i}")).collect();
    assert_eq!(names_with_prefix(&many, "k").len(), 100);
}

#[test]
fn key_request_splits_name_and_comment() {
    assert_eq!(key_request("  old-key  bought in May "), ("old-key", Some("bought in May")));
    assert_eq!(key_request("old-key"), ("old-key", None));
    assert_eq!(key_request("old-key   "), ("old-key", None));
    assert_eq!(key_request("   "), ("", None));
}

#[test]
fn decline_reason_is_bounded() {
    assert_eq!(decline_reason("  too late  "), Some("too late"));
    assert_eq!(decline_reason("   "), None);
    let long = "я".repeat(500);
    assert_eq!(decline_reason(&long), Some(long.as_str()));
    let longer = "я".repeat(501);
    assert_eq!(decline_reason(&longer), None);
}

#[test]
fn promo_input_reads_both_forms() {
    assert_eq!(promo_input("SALE 15 100", false), ("SALE", 15, Some(100)));
    assert_eq!(promo_input("SALE x", false), ("SALE", 0, None));
    assert_eq!(promo_input("SALE", false), ("SALE", 0, None));
    assert_eq!(promo_input("OLD 3", true), ("OLD", 0, Some(3)));
    assert_eq!(promo_input("OLD", true), ("OLD", 0, None));
    assert_eq!(promo_input("", true), ("", 0, None));
}

#[test]
fn names_are_bounded() {
    assert_eq!(bounded_text(" Family ", GROUP_NAME_LIMIT), Some("Family"));
    assert_eq!(bounded_text("  ", GROUP_NAME_LIMIT), None);
    let name = "g".repeat(32);
    assert_eq!(bounded_text(&name, GROUP_NAME_LIMIT), Some(name.as_str()));
    assert_eq!(bounded_text(&"g".repeat(33), GROUP_NAME_LIMIT), None);
    assert_eq!(bounded_text(&"s".repeat(64), SERVER_NAME_LIMIT).map(|s| s.len()), Some(64));
    assert_eq!(bounded_text(&"s".repeat(65), SERVER_NAME_LIMIT), None);
}

#[test]
fn notes_clear_or_replace() {
    assert_eq!(note_input(" CLEAR "), Some(None));
    assert_eq!(note_input("clear"), Some(None));
    assert_eq!(note_input(" pays by card "), Some(Some("pays by card")));
    assert_eq!(note_input(""), Some(Some("")));
    assert_eq!(note_input(&"n".repeat(501)), None);
    assert_eq!(note_input(&"n".repeat(500)).map(|n| n.map(|t| t.len())), Some(Some(500)));
}

#[test]
fn owner_expiry_input() {
    assert_eq!(expiry_input(" None "), ExpiryInput::Forever);
    assert_eq!(expiry_input("без срока"), ExpiryInput::Forever);
    assert_eq!(expiry_input("бессрочно"), ExpiryInput::Forever);
    assert_eq!(expiry_input("12h"), ExpiryInput::Seconds(43_200));
    assert_eq!(expiry_input("7D"), ExpiryInput::Seconds(604_800));
    assert_eq!(expiry_input("10y"), ExpiryInput::Seconds(315_360_000));
    assert_eq!(expiry_input("11y"), ExpiryInput::Invalid);
    assert_eq!(expiry_input("0d"), ExpiryInput::Invalid);
    assert_eq!(expiry_input("d"), ExpiryInput::Invalid);
    assert_eq!(expiry_input(""), ExpiryInput::Invalid);
    assert_eq!(expiry_input("5x"), ExpiryInput::Invalid);
}

#[test]
fn referral_link_reads_back() {
    assert_eq!(referral_link("awgram_bot", 42), "https://t.me/awgram_bot?start=ref_42");
    for user in [0i64, 7, 123_456_789, i64::MAX, -5] {
        let link = referral_link("b", user);
        let parameter = link.split("?start=").nth(1).unwrap();
        assert_eq!(start_referrer(&format!("/start {parameter}")), Some(user));
    }
}

#[test]
fn invite_link_reads_back() {
    let link = invite_link("awgram_bot", "Ab3_x");
    assert_eq!(link, "https://t.me/awgram_bot?start=inv_Ab3_x");
    let parameter = link.split("?start=").nth(1).unwrap();
    assert_eq!(start_invite(&format!("/start {parameter}")), Some("Ab3_x"));
}
