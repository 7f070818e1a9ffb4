use awgram::handlers::star_order_id;
use awgram::overview::{server_figures, ServerHealth};
use awgram::payments::{
    approval, referral_reward, Approval, ApprovalFacts, checkout_valid, discounted_amount, fulfilment, Fulfilment, invoice_item_text, payment_link, invoice_payload, invoice_start_parameter, invoice_title,
    StarOrder,
};
use awgram::release::{release_info, update_line};

#[test]
fn invoice_payload_reads_back() {
    assert_eq!(invoice_payload(42), "awgram-stars:42");
    assert_eq!(star_order_id(&invoice_payload(42)), Some(42));
    assert_eq!(star_order_id(&invoice_payload(-7)), Some(-7));
    assert_eq!(invoice_start_parameter(42), "stars_42");
    assert_eq!(invoice_item_text("renew"), "Продление VPN");
    assert_eq!(invoice_item_text("purchase"), "Подписка VPN");
    assert_eq!(invoice_title("renew", 3), "Продление VPN на 3 мес.");
}

#[test]
fn checkout_accepts_only_the_pending_order_of_the_payer() {
    let order = StarOrder { status: "pending".into(), user_id: 5, stars: 250 };
    assert!(checkout_valid(Some(&order), 5, "XTR", 250));
    assert!(!checkout_valid(Some(&order), 6, "XTR", 250));
    assert!(!checkout_valid(Some(&order), 5, "USD", 250));
    assert!(!checkout_valid(Some(&order), 5, "XTR", 249));
    let paid = StarOrder { status: "paid".into(), user_id: 5, stars: 250 };
    assert!(!checkout_valid(Some(&paid), 5, "XTR", 250));
    assert!(!checkout_valid(None, 5, "XTR", 250));
}

#[test]
fn release_details_and_update_line() {
    let r = release_info(Some("v1.2.0"), None, None).unwrap();
    assert_eq!(r.0, "v1.2.0");
    assert_eq!(r.1, "Список изменений не опубликован.");
    assert_eq!(r.2, "https://github.com/stevefoxru/awgram/releases/latest");
    let long = "я".repeat(2000);
    let r = release_info(Some("v2"), Some(&long), Some("https://x")).unwrap();
    assert_eq!(r.1.chars().count(), 1800);
    assert_eq!(r.2, "https://x");
    assert!(release_info(None, Some("notes"), None).is_none());
    assert_eq!(update_line("v1.0", Some("v1.0")), "✅ Установлена актуальная версия v1.0");
    assert_eq!(update_line("v1.0", Some("v1.1")), "⬆️ Доступно обновление: v1.0 → v1.1");
    assert_eq!(update_line("v1.0", None), "Текущая версия: v1.0\nНе удалось проверить GitHub.");
}

#[test]
fn server_overview_figures() {
    let servers = [
        ServerHealth { status: "online".into(), is_local: true, paid_until: None },
        ServerHealth { status: "warning".into(), is_local: false, paid_until: None },
        ServerHealth { status: "online".into(), is_local: false, paid_until: Some(1_000 + 86_400) },
        ServerHealth { status: "maintenance".into(), is_local: false, paid_until: Some(1_000 + 30 * 86_400) },
    ];
    assert_eq!(server_figures(&servers, 1_000), (2, 1, 2));
}

#[test]
fn discounts_round_toward_zero() {
    assert_eq!(discounted_amount(100_000, 25), 75_000);
    assert_eq!(discounted_amount(100_000, 0), 100_000);
    assert_eq!(discounted_amount(100_000, -5), 100_000);
    assert_eq!(discounted_amount(100_000, 150), 0);
    assert_eq!(discounted_amount(999, 50), 499);
    assert_eq!(discounted_amount(-999, 50), -499);
    assert_eq!(discounted_amount(i64::MAX, 0), i64::MAX / 100);
    for (base, d) in [(12_345i64, 17i64), (1, 99), (0, 10), (-77, 3)] {
        assert_eq!(discounted_amount(base, d), base.saturating_mul(100 - d.clamp(0, 100)) / 100);
    }
}

#[test]
fn payment_link_fills_placeholders() {
    assert_eq!(
        payment_link("https://pay.example/?o={order_id}&a={amount}&u={user_id}&o2={order_id}", 7, 45_000, 42),
        "https://pay.example/?o=7&a=45000&u=42&o2=7"
    );
    assert_eq!(payment_link("https://pay.example/fixed", 7, 1, 2), "https://pay.example/fixed");
    let template = "{order_id}{{amount}}{user_id";
    let expected = template
        .replace("{order_id}", "-3")
        .replace("{amount}", "0")
        .replace("{user_id}", "9");
    assert_eq!(payment_link(template, -3, 0, 9), expected);
}

#[test]
fn paid_orders_issue_or_extend() {
    assert_eq!(fulfilment("purchase", 1, Some(3), None), Fulfilment::Issue { server_id: 3 });
    assert_eq!(fulfilment("purchase", 12, None, None), Fulfilment::NoLocation);
    assert_eq!(
        fulfilment("renew", 1, None, Some("key-1")),
        Fulfilment::Extend { name: "key-1".to_string(), seconds: 30 * 86_400 }
    );
    assert_eq!(
        fulfilment("renew", 12, Some(9), Some("key-1")),
        Fulfilment::Extend { name: "key-1".to_string(), seconds: 365 * 86_400 }
    );
    assert_eq!(
        fulfilment("renew", 2, None, None),
        Fulfilment::Extend { name: String::new(), seconds: 0 }
    );
}

fn facts(method: &str, name: Option<&str>) -> ApprovalFacts {
    ApprovalFacts {
        pending: true,
        method: method.to_string(),
        client_name: name.map(str::to_string),
        owner_matches: true,
        legacy_client: true,
        months: 1,
        server: Some(4),
    }
}

#[test]
fn approving_payment_requests() {
    assert_eq!(approval(None), Approval::Ignore);
    let mut decided = facts("topup", None);
    decided.pending = false;
    assert_eq!(approval(Some(&decided)), Approval::Ignore);
    assert_eq!(approval(Some(&facts("topup", None))), Approval::CreditTopup);
    let mut moved = facts("manual", Some("k"));
    moved.owner_matches = false;
    assert_eq!(approval(Some(&moved)), Approval::OwnerChanged);
    let mut dropped = facts("legacy_manual", Some("k"));
    dropped.legacy_client = false;
    assert_eq!(approval(Some(&dropped)), Approval::NotLegacy);
    assert_eq!(approval(Some(&facts("legacy_manual", Some("k")))), Approval::RenewLegacy { name: "k".into() });
    assert_eq!(
        approval(Some(&facts("manual", Some("k")))),
        Approval::Extend { name: "k".into(), seconds: 30 * 86_400 }
    );
    assert_eq!(approval(Some(&facts("manual", None))), Approval::Provision { server_id: 4 });
    let mut nowhere = facts("manual", None);
    nowhere.server = None;
    assert_eq!(approval(Some(&nowhere)), Approval::NoLocation);
}

#[test]
fn referral_rewards_round_toward_zero() {
    assert_eq!(referral_reward(45_000, 10), 4_500);
    assert_eq!(referral_reward(999, 15), 149);
    assert_eq!(referral_reward(-999, 15), -149);
    assert_eq!(referral_reward(12_345, 0), 0);
}
