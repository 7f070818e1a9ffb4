use awgram::owner_inputs::{
    admin_id_input, billing_input, instructions_input, credentials, deploy_password, discount_input, panel_credentials,
    passport_fields, pipe_fields, quota_input, server_details, BillingInput,
};

#[test]
fn fields_split_like_str_split() {
    for text in ["a|b", " a | b |", "|", "", "one", "x||y", " a |b| c |d|e "] {
        let expected: Vec<&str> = text.split('|').map(str::trim).collect();
        assert_eq!(pipe_fields(text), expected, "{text:?}");
    }
}

#[test]
fn server_details_need_two_fields() {
    assert_eq!(server_details("Amsterdam | Hoster"), Some(("Amsterdam", "Hoster")));
    assert_eq!(server_details("Amsterdam |  "), None);
    assert_eq!(server_details("Amsterdam"), None);
    assert_eq!(server_details("a | b | c"), None);
}

#[test]
fn passport_needs_seven_fields() {
    let typed = "nl-1 | vpn.example.org | 203.0.113.5 | Hoster | Amsterdam | amneziawg-1 | 2025-01-01";
    assert_eq!(
        passport_fields(typed),
        Some(vec![
            "nl-1",
            "vpn.example.org",
            "203.0.113.5",
            "Hoster",
            "Amsterdam",
            "amneziawg-1",
            "2025-01-01"
        ])
    );
    assert_eq!(passport_fields("a | b"), None);
}

#[test]
fn billing_reads_months_cost_and_renewal() {
    assert_eq!(
        billing_input("2026-09-15 | 1 | 6.00 | EUR | да"),
        Some(BillingInput {
            paid_until: "2026-09-15",
            period_months: 1,
            cost_minor: 600,
            currency: "EUR",
            auto_renew: true,
        })
    );
    assert_eq!(
        billing_input("2026-09-15 | 12 | 6,5 | USD | No").map(|b| (b.cost_minor, b.auto_renew)),
        Some((650, false))
    );
    assert_eq!(billing_input("2026-09-15 | x | 6.00 | EUR | yes"), None);
    assert_eq!(billing_input("2026-09-15 | 1 | 6.00 | EUR"), None);
    assert_eq!(billing_input("d | 1 | 1 | E | YES").map(|b| b.auto_renew), Some(true));
}

#[test]
fn credentials_are_split_once() {
    assert_eq!(credentials(" https://panel | se|cret "), ("https://panel", "se|cret"));
    assert_eq!(credentials("https://panel"), ("https://panel", ""));
    assert_eq!(panel_credentials("https://panel | pw"), Some(("https://panel", "pw")));
    assert_eq!(panel_credentials("https://panel |"), None);
    assert_eq!(panel_credentials(" | pw"), None);
    assert_eq!(deploy_password("root | pw"), Some("pw"));
    assert_eq!(deploy_password("admin | pw"), None);
    assert_eq!(deploy_password("root |"), None);
}

#[test]
fn group_quota_and_admin_id() {
    assert_eq!(quota_input(" 0 "), Some(None));
    assert_eq!(quota_input("25"), Some(Some(25)));
    assert_eq!(quota_input("100000"), Some(Some(100_000)));
    assert_eq!(quota_input("100001"), None);
    assert_eq!(quota_input("-1"), None);
    assert_eq!(quota_input("ten"), None);
    assert_eq!(admin_id_input(" 42 "), Some(42));
    assert_eq!(admin_id_input("0"), None);
    assert_eq!(admin_id_input("@user"), None);
}

#[test]
fn personal_discount_input() {
    assert_eq!(discount_input(" Clear "), Some((None, None)));
    assert_eq!(discount_input("25"), Some((Some(25), None)));
    assert_eq!(discount_input("25 2027-12-31"), Some((Some(25), Some("2027-12-31"))));
    assert_eq!(discount_input("101"), None);
    assert_eq!(discount_input("-5"), None);
    assert_eq!(discount_input(""), None);
    assert_eq!(discount_input("half"), None);
}

#[test]
fn payment_instructions_are_bounded_in_bytes() {
    assert_eq!(instructions_input("  Card 1234  "), Some("Card 1234"));
    assert_eq!(instructions_input("   "), None);
    let ascii = "a".repeat(1000);
    assert_eq!(instructions_input(&ascii), Some(ascii.as_str()));
    assert_eq!(instructions_input(&"a".repeat(1001)), None);
    let cyrillic = "я".repeat(500);
    assert_eq!(instructions_input(&cyrillic), Some(cyrillic.as_str()));
    assert_eq!(instructions_input(&"я".repeat(501)), None);
}
