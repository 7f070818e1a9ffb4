//! Telegram Stars invoices: what an invoice for an order carries, and which
//! payment the bot accepts at checkout.

use vstd::prelude::*;
use vstd::string::*;
use crate::handlers::{duration_seconds, duration_value, order_id_of, tariff_days, tariff_duration};
use crate::numbers::{decimal, format_i64, law_decimal_round_trip};
use crate::text::{replace_all, replaced, str_eq};

verus! {

/// The payload of the invoice for Stars order `id`.
pub open spec fn invoice_payload_spec(id: i64) -> Seq<char> {
    "awgram-stars:"@ + decimal(id as int)
}

pub fn invoice_payload(id: i64) -> (s: String)
    ensures
        s@ == invoice_payload_spec(id),
{
    let mut s = "awgram-stars:".to_string();
    let n = format_i64(id);
    s.append(n.as_str());
    s
}

/// The start parameter of the invoice for Stars order `id`.
pub fn invoice_start_parameter(id: i64) -> (s: String)
    ensures
        s@ == "stars_"@ + decimal(id as int),
{
    let mut s = "stars_".to_string();
    let n = format_i64(id);
    s.append(n.as_str());
    s
}

/// What an invoice of an order of `kind` pays for: a renewal, or otherwise
/// a subscription.
pub open spec fn invoice_item(kind: Seq<char>) -> Seq<char> {
    if kind == "renew"@ {
        "Продление VPN"@
    } else {
        "Подписка VPN"@
    }
}

pub fn invoice_item_text(kind: &str) -> (s: &'static str)
    ensures
        s@ == invoice_item(kind@),
{
    if str_eq(kind, "renew") {
        "Продление VPN"
    } else {
        "Подписка VPN"
    }
}

/// The invoice's title: the item and the number of months.
pub fn invoice_title(kind: &str, months: i64) -> (s: String)
    ensures
        s@ == invoice_item(kind@) + " на "@ + decimal(months as int) + " мес."@,
{
    let mut s = invoice_item_text(kind).to_string();
    s.append(" на ");
    let n = format_i64(months);
    s.append(n.as_str());
    s.append(" мес.");
    s
}

/// The invoice payload of an order reads back as the order's id.
pub proof fn law_invoice_payload_round_trip(id: i64)
    ensures
        order_id_of(invoice_payload_spec(id)) == Some(id),
{
    reveal_strlit("awgram-stars:");
    let p = invoice_payload_spec(id);
    assert("awgram-stars:"@.is_prefix_of(p)) by {
        assert(p.subrange(0, "awgram-stars:"@.len() as int) =~= "awgram-stars:"@);
    }
    assert(p.skip("awgram-stars:"@.len() as int) =~= decimal(id as int));
    law_decimal_round_trip(id);
}

/// What the bot knows of a Stars order at checkout.
pub struct StarOrder {
    pub status: String,
    pub user_id: i64,
    pub stars: i64,
}

/// A checkout is accepted only for a pending order of the paying user, in
/// Stars (`XTR`), for the order's amount.
pub open spec fn checkout_accepted(
    order: Option<(Seq<char>, i64, i64)>,
    payer: i64,
    currency: Seq<char>,
    total: u32,
) -> bool {
    match order {
        Some((status, user, stars)) => status == "pending"@ && user == payer && currency == "XTR"@
            && stars == total as i64,
        None => false,
    }
}

pub fn checkout_valid(order: Option<&StarOrder>, payer: i64, currency: &str, total: u32) -> (r: bool)
    ensures
        r == checkout_accepted(
            match order {
                Some(o) => Some((o.status@, o.user_id, o.stars)),
                None => None,
            },
            payer,
            currency@,
            total,
        ),
{
    match order {
        Some(o) => str_eq(o.status.as_str(), "pending") && o.user_id == payer && str_eq(
            currency,
            "XTR",
        ) && o.stars == total as i64,
        None => false,
    }
}

} // verus!

verus! {

/// `a / 100` rounded toward zero, as Rust's integer division does.
pub open spec fn hundredth(a: int) -> int {
    if a >= 0 {
        a / 100
    } else {
        -((-a) / 100)
    }
}

/// `v` held within `i64`, as the saturating operations do.
pub open spec fn held(v: int) -> int {
    if v > i64::MAX {
        i64::MAX as int
    } else if v < i64::MIN {
        i64::MIN as int
    } else {
        v
    }
}

/// The price of a purchase after a discount of `discount` percent (held
/// between 0 and 100), rounded toward zero.
pub open spec fn discounted_spec(base: i64, discount: i64) -> int {
    let d: int = if discount < 0 {
        0
    } else if discount > 100 {
        100
    } else {
        discount as int
    };
    hundredth(held(base * (100 - d)))
}

pub fn discounted_amount(base: i64, discount: i64) -> (r: i64)
    ensures
        r == discounted_spec(base, discount),
{
    let d: i128 = if discount < 0 {
        0
    } else if discount > 100 {
        100
    } else {
        discount as i128
    };
    assert(i64::MIN * 100 <= base * (100 - d) <= i64::MAX * 100) by (nonlinear_arith)
        requires
            0 <= d <= 100,
            i64::MIN <= base <= i64::MAX,
    ;
    let product: i128 = (base as i128) * (100 - d);
    let h: i128 = if product > i64::MAX as i128 {
        i64::MAX as i128
    } else if product < i64::MIN as i128 {
        i64::MIN as i128
    } else {
        product
    };
    let q: i128 = if h >= 0 {
        h / 100
    } else {
        -((-h) / 100)
    };
    q as i64
}

/// A discount never raises a price nor takes it below zero, and no discount
/// leaves the price as it is (where a hundred times the price fits in `i64`).
pub proof fn law_discount_within_price(base: i64, discount: i64)
    requires
        base >= 0,
    ensures
        0 <= discounted_spec(base, discount) <= base,
        discount <= 0 && base * 100 <= i64::MAX ==> discounted_spec(base, discount) == base,
{
    let d: int = if discount < 0 {
        0
    } else if discount > 100 {
        100
    } else {
        discount as int
    };
    assert(0 <= base * (100 - d) <= base * 100) by (nonlinear_arith)
        requires
            0 <= d <= 100,
            base >= 0,
    ;
    assert((base * 100) / 100 == base) by (nonlinear_arith);
}

/// The acquiring link for order `order_id`: the owner's template with
/// `{order_id}`, `{amount}` and `{user_id}` filled in, in that order.
pub open spec fn payment_link_spec(template: Seq<char>, order_id: i64, amount: i64, user_id: i64) -> Seq<char> {
    replaced(
        replaced(
            replaced(template, "{order_id}"@, decimal(order_id as int)),
            "{amount}"@,
            decimal(amount as int),
        ),
        "{user_id}"@,
        decimal(user_id as int),
    )
}

pub fn payment_link(template: &str, order_id: i64, amount: i64, user_id: i64) -> (url: String)
    ensures
        url@ == payment_link_spec(template@, order_id, amount, user_id),
{
    proof {
        reveal_strlit("{order_id}");
        reveal_strlit("{amount}");
        reveal_strlit("{user_id}");
    }
    let id = format_i64(order_id);
    let step = replace_all(template, "{order_id}", id.as_str());
    let sum = format_i64(amount);
    let step = replace_all(step.as_str(), "{amount}", sum.as_str());
    let user = format_i64(user_id);
    replace_all(step.as_str(), "{user_id}", user.as_str())
}

} // verus!

verus! {

/// What a paid Stars order asks the bot to do.
#[derive(Debug, Clone, PartialEq, Eq)]
pub enum Fulfilment {
    /// Issue a new key on this server.
    Issue { server_id: i64 },
    /// A purchase whose location was not recorded: nothing can be issued.
    NoLocation,
    /// Extend key `name` by this many seconds (zero for a term the tariffs
    /// do not sell).
    Extend { name: String, seconds: i64 },
}

pub enum FulfilmentView {
    Issue { server_id: i64 },
    NoLocation,
    Extend { name: Seq<char>, seconds: i64 },
}

pub open spec fn fulfilment_view(f: Fulfilment) -> FulfilmentView {
    match f {
        Fulfilment::Issue { server_id } => FulfilmentView::Issue { server_id },
        Fulfilment::NoLocation => FulfilmentView::NoLocation,
        Fulfilment::Extend { name, seconds } => FulfilmentView::Extend { name: name@, seconds },
    }
}

/// A purchase issues a key on the order's server; any other order extends
/// its key by the term of its tariff.
pub open spec fn fulfilment_spec(
    kind: Seq<char>,
    months: i64,
    server_id: Option<i64>,
    client_name: Option<Seq<char>>,
) -> FulfilmentView {
    if kind == "purchase"@ {
        match server_id {
            Some(id) => FulfilmentView::Issue { server_id: id },
            None => FulfilmentView::NoLocation,
        }
    } else {
        FulfilmentView::Extend {
            name: match client_name {
                Some(n) => n,
                None => Seq::empty(),
            },
            seconds: match tariff_days(months) {
                Some(d) => match duration_value(d) {
                    Some(v) => v,
                    None => 0,
                },
                None => 0,
            },
        }
    }
}

pub fn fulfilment(kind: &str, months: i64, server_id: Option<i64>, client_name: Option<&str>) -> (f:
    Fulfilment)
    ensures
        fulfilment_view(f) == fulfilment_spec(
            kind@,
            months,
            server_id,
            match client_name {
                Some(n) => Some(n@),
                None => None,
            },
        ),
{
    if str_eq(kind, "purchase") {
        match server_id {
            Some(id) => Fulfilment::Issue { server_id: id },
            None => Fulfilment::NoLocation,
        }
    } else {
        let name = match client_name {
            Some(n) => n.to_string(),
            None => String::new(),
        };
        let seconds = match tariff_duration(months) {
            Some(d) => {
                proof {
                    reveal_strlit("30d");
                    reveal_strlit("90d");
                    reveal_strlit("180d");
                    reveal_strlit("365d");
                }
                match duration_seconds(d) {
                    Some(v) => v,
                    None => 0,
                }
            },
            None => 0,
        };
        Fulfilment::Extend { name, seconds }
    }
}

} // verus!

verus! {

/// What the bot knows of a payment request an owner approves.
pub struct ApprovalFacts {
    /// The request is still pending.
    pub pending: bool,
    /// The method: `topup`, `legacy_manual`, or a purchase or renewal.
    pub method: String,
    /// The key a renewal is for.
    pub client_name: Option<String>,
    /// The key still belongs to the requesting user.
    pub owner_matches: bool,
    /// The key is on the old-key tariff for that user.
    pub legacy_client: bool,
    pub months: i64,
    /// The location the request names, or else the user's chosen one.
    pub server: Option<i64>,
}

/// What approving a payment request does.
#[derive(Debug, Clone, PartialEq, Eq)]
pub enum Approval {
    /// Nothing: the request is gone or already decided.
    Ignore,
    /// Mark the top-up approved and credit the user's balance.
    CreditTopup,
    /// The key changed owners; the request cannot be approved.
    OwnerChanged,
    /// The key is no longer on the old-key tariff.
    NotLegacy,
    /// Renew the old key to the end of its year, then mark the request approved.
    RenewLegacy { name: String },
    /// Extend the key by this many seconds, then approve (and reward the referrer).
    Extend { name: String, seconds: i64 },
    /// Issue a key on this server for the tariff's months, then approve.
    Provision { server_id: i64 },
    /// The request names no location.
    NoLocation,
}

pub enum ApprovalView {
    Ignore,
    CreditTopup,
    OwnerChanged,
    NotLegacy,
    RenewLegacy { name: Seq<char> },
    Extend { name: Seq<char>, seconds: i64 },
    Provision { server_id: i64 },
    NoLocation,
}

pub open spec fn approval_view(a: Approval) -> ApprovalView {
    match a {
        Approval::Ignore => ApprovalView::Ignore,
        Approval::CreditTopup => ApprovalView::CreditTopup,
        Approval::OwnerChanged => ApprovalView::OwnerChanged,
        Approval::NotLegacy => ApprovalView::NotLegacy,
        Approval::RenewLegacy { name } => ApprovalView::RenewLegacy { name: name@ },
        Approval::Extend { name, seconds } => ApprovalView::Extend { name: name@, seconds },
        Approval::Provision { server_id } => ApprovalView::Provision { server_id },
        Approval::NoLocation => ApprovalView::NoLocation,
    }
}

/// The seconds a renewal of `months` months adds (zero for a term the
/// tariffs do not sell).
pub open spec fn renewal_seconds(months: i64) -> i64 {
    match tariff_days(months) {
        Some(d) => match duration_value(d) {
            Some(v) => v,
            None => 0,
        },
        None => 0,
    }
}

/// Approving a request: only a pending one; a top-up credits the balance;
/// a renewal needs the key to still belong to the user (and, for the
/// old-key tariff, to still be on it); a purchase needs a location.
pub open spec fn approval_spec(
    found: bool,
    pending: bool,
    method: Seq<char>,
    client_name: Option<Seq<char>>,
    owner_matches: bool,
    legacy_client: bool,
    months: i64,
    server: Option<i64>,
) -> ApprovalView {
    if !found || !pending {
        ApprovalView::Ignore
    } else if method == "topup"@ {
        ApprovalView::CreditTopup
    } else {
        match client_name {
            Some(name) => if !owner_matches {
                ApprovalView::OwnerChanged
            } else if method == "legacy_manual"@ {
                if !legacy_client {
                    ApprovalView::NotLegacy
                } else {
                    ApprovalView::RenewLegacy { name }
                }
            } else {
                ApprovalView::Extend { name, seconds: renewal_seconds(months) }
            },
            None => match server {
                Some(id) => ApprovalView::Provision { server_id: id },
                None => ApprovalView::NoLocation,
            },
        }
    }
}

/// What approving the request (`None`: not found) does.
pub fn approval(request: Option<&ApprovalFacts>) -> (a: Approval)
    ensures
        approval_view(a) == match request {
            Some(r) => approval_spec(
                true,
                r.pending,
                r.method@,
                match &r.client_name {
                    Some(n) => Some(n@),
                    None => None,
                },
                r.owner_matches,
                r.legacy_client,
                r.months,
                r.server,
            ),
            None => approval_spec(false, false, Seq::empty(), None, false, false, 0, None),
        },
{
    let r = match request {
        Some(r) => r,
        None => return Approval::Ignore,
    };
    if !r.pending {
        return Approval::Ignore;
    }
    if str_eq(r.method.as_str(), "topup") {
        return Approval::CreditTopup;
    }
    match &r.client_name {
        Some(name) => {
            if !r.owner_matches {
                Approval::OwnerChanged
            } else if str_eq(r.method.as_str(), "legacy_manual") {
                if !r.legacy_client {
                    Approval::NotLegacy
                } else {
                    Approval::RenewLegacy { name: name.as_str().to_string() }
                }
            } else {
                let seconds = match tariff_duration(r.months) {
                    Some(d) => {
                        proof {
                            reveal_strlit("30d");
                            reveal_strlit("90d");
                            reveal_strlit("180d");
                            reveal_strlit("365d");
                        }
                        match duration_seconds(d) {
                            Some(v) => v,
                            None => 0,
                        }
                    },
                    None => 0,
                };
                Approval::Extend { name: name.as_str().to_string(), seconds }
            }
        },
        None => match r.server {
            Some(id) => Approval::Provision { server_id: id },
            None => Approval::NoLocation,
        },
    }
}

/// The referrer's reward for a payment of `amount` minor units at
/// `percent` percent, rounded toward zero.
pub open spec fn referral_reward_spec(amount: i64, percent: u8) -> int {
    hundredth(amount * percent)
}

pub fn referral_reward(amount: i64, percent: u8) -> (r: i64)
    requires
        i64::MIN <= amount * percent <= i64::MAX,
    ensures
        r == referral_reward_spec(amount, percent),
{
    let product: i64 = amount * (percent as i64);
    if product >= 0 {
        product / 100
    } else {
        -((-(product as i128)) / 100) as i64
    }
}

/// A refused approval changes nothing: no balance, key or request is
/// touched unless the request is pending and its checks pass.
pub proof fn law_approval_only_when_pending(
    pending: bool,
    method: Seq<char>,
    client_name: Option<Seq<char>>,
    owner_matches: bool,
    legacy_client: bool,
    months: i64,
    server: Option<i64>,
)
    ensures
        !pending ==> approval_spec(true, pending, method, client_name, owner_matches, legacy_client, months, server)
            == ApprovalView::Ignore,
        (client_name is Some && !owner_matches && method != "topup"@) ==> approval_spec(
            true,
            true,
            method,
            client_name,
            owner_matches,
            legacy_client,
            months,
            server,
        ) == ApprovalView::OwnerChanged,
{
}

} // verus!
