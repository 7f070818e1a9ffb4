//! Keyboards of the customer screens: profile, purchase, renewal, guides.

use vstd::prelude::*;
use vstd::string::*;
use crate::keyboard::{no_rows, plain, push_row, row1, row2, with_id, with_name, Button, ButtonView, Keyboard, Label, LabelView};
use crate::numbers::{decimal, format_i64, format_u64};
use crate::action::{callback_action, ActionView};
use crate::callback_laws::{law_customer_key_round_trip, law_customer_refresh_run_round_trip};

verus! {

/// The customer's home: the web portal when enabled, keys, balance, purchase, promo codes, notifications.
pub open spec fn profile_spec(portal_enabled: bool) -> Seq<Seq<ButtonView>> {
    (if portal_enabled { seq![seq![(LabelView::Text("🌐 Открыть веб-кабинет"@), "portal"@)]] } else { Seq::<Seq<ButtonView>>::empty() })
    + seq![
        seq![(LabelView::Text("🔑 Мои ключи"@), "mykeys"@), (LabelView::Text("💰 Баланс"@), "balance"@)],
        seq![(LabelView::Text("➕ Купить ключ"@), "buy"@), (LabelView::Text("🎟 Промокод"@), "legacy:promo"@)],
        seq![(LabelView::Text("🔔 Уведомления"@), "guide:notifications"@)],
    ]
}

pub fn profile_menu(portal_enabled: bool) -> (kb: Keyboard)
    ensures
        kb@ == profile_spec(portal_enabled),
{
    let mut rows = no_rows();
    if portal_enabled {
        push_row(&mut rows, row1(
            Button { label: Label::Text("🌐 Открыть веб-кабинет".to_string()), data: plain("portal") },
        ));
    }
    push_row(&mut rows, row2(
        Button { label: Label::Text("🔑 Мои ключи".to_string()), data: plain("mykeys") },
        Button { label: Label::Text("💰 Баланс".to_string()), data: plain("balance") },
    ));
    push_row(&mut rows, row2(
        Button { label: Label::Text("➕ Купить ключ".to_string()), data: plain("buy") },
        Button { label: Label::Text("🎟 Промокод".to_string()), data: plain("legacy:promo") },
    ));
    push_row(&mut rows, row1(
        Button { label: Label::Text("🔔 Уведомления".to_string()), data: plain("guide:notifications") },
    ));
    let kb = Keyboard { rows };
    assert(kb@ =~= profile_spec(portal_enabled));
    kb
}

/// Notification settings: each button switches its category to the other state.
pub open spec fn notification_settings_spec(expiry: bool, maintenance: bool) -> Seq<Seq<ButtonView>> {
    seq![
        seq![(if expiry { (LabelView::Text("✅ Срок действия: включены"@), "guide:notify-expiry-off"@) } else { (LabelView::Text("❌ Срок действия: выключены"@), "guide:notify-expiry-on"@) })],
        seq![(if maintenance { (LabelView::Text("✅ Технические работы: включены"@), "guide:notify-maintenance-off"@) } else { (LabelView::Text("❌ Технические работы: выключены"@), "guide:notify-maintenance-on"@) })],
        seq![(LabelView::Text("⬅️ Профиль"@), "profile"@)],
    ]
}

pub fn notification_settings_menu(expiry: bool, maintenance: bool) -> (kb: Keyboard)
    ensures
        kb@ == notification_settings_spec(expiry, maintenance),
{
    let mut rows = no_rows();
    push_row(&mut rows, row1(
        if expiry { Button { label: Label::Text("✅ Срок действия: включены".to_string()), data: plain("guide:notify-expiry-off") } } else { Button { label: Label::Text("❌ Срок действия: выключены".to_string()), data: plain("guide:notify-expiry-on") } },
    ));
    push_row(&mut rows, row1(
        if maintenance { Button { label: Label::Text("✅ Технические работы: включены".to_string()), data: plain("guide:notify-maintenance-off") } } else { Button { label: Label::Text("❌ Технические работы: выключены".to_string()), data: plain("guide:notify-maintenance-on") } },
    ));
    push_row(&mut rows, row1(
        Button { label: Label::Text("⬅️ Профиль".to_string()), data: plain("profile") },
    ));
    let kb = Keyboard { rows };
    assert(kb@ =~= notification_settings_spec(expiry, maintenance));
    kb
}

/// Restoring old keys: a request when eligible, otherwise a promo code.
pub open spec fn legacy_restore_spec(eligible: bool) -> Seq<Seq<ButtonView>> {
    seq![
        seq![(if eligible { (LabelView::Text("➕ Подать заявку на ключ"@), "legacy:request:new"@) } else { (LabelView::Text("🎟 Активировать промокод"@), "legacy:promo"@) })],
        seq![(LabelView::Text("⬅️ Кабинет"@), "profile"@)],
    ]
}

pub fn legacy_restore_menu(eligible: bool) -> (kb: Keyboard)
    ensures
        kb@ == legacy_restore_spec(eligible),
{
    let mut rows = no_rows();
    push_row(&mut rows, row1(
        if eligible { Button { label: Label::Text("➕ Подать заявку на ключ".to_string()), data: plain("legacy:request:new") } } else { Button { label: Label::Text("🎟 Активировать промокод".to_string()), data: plain("legacy:promo") } },
    ));
    push_row(&mut rows, row1(
        Button { label: Label::Text("⬅️ Кабинет".to_string()), data: plain("profile") },
    ));
    let kb = Keyboard { rows };
    assert(kb@ =~= legacy_restore_spec(eligible));
    kb
}

/// Confirming a purchase paid from the balance; the nonce makes the confirmation single-use.
pub open spec fn buy_balance_confirm_spec(months: i64, nonce: u64) -> Seq<Seq<ButtonView>> {
    seq![
        seq![(LabelView::Text("✅ Списать баланс и создать ключ"@), "buy:method:"@ + decimal(months as int) + ":balance-go-"@ + decimal(nonce as int))],
        seq![(LabelView::Text("Отмена"@), "buy"@)],
    ]
}

pub fn buy_balance_confirm_menu(months: i64, nonce: u64) -> (kb: Keyboard)
    ensures
        kb@ == buy_balance_confirm_spec(months, nonce),
{
    let mut rows = no_rows();
    push_row(&mut rows, row1(
        Button { label: Label::Text("✅ Списать баланс и создать ключ".to_string()), data: { let mut s = String::from_str("buy:method:"); let t = format_i64(months); s.append(t.as_str()); s.append(":balance-go-"); let t = format_u64(nonce); s.append(t.as_str()); assert(s@ =~= "buy:method:"@ + decimal(months as int) + ":balance-go-"@ + decimal(nonce as int)); s } },
    ));
    push_row(&mut rows, row1(
        Button { label: Label::Text("Отмена".to_string()), data: plain("buy") },
    ));
    let kb = Keyboard { rows };
    assert(kb@ =~= buy_balance_confirm_spec(months, nonce));
    kb
}

/// Confirming a renewal paid from the balance, bound to the expiry it was offered for.
pub open spec fn renew_balance_confirm_spec(name: Seq<char>, months: i64, expected_expiry: i64) -> Seq<Seq<ButtonView>> {
    seq![
        seq![(LabelView::Text("✅ Списать баланс и продлить"@), "renew:method:"@ + name + ":"@ + decimal(months as int) + ":balance-go-"@ + decimal(expected_expiry as int))],
        seq![(LabelView::Text("Отмена"@), "mykey:"@ + name)],
    ]
}

pub fn renew_balance_confirm_menu(name: &str, months: i64, expected_expiry: i64) -> (kb: Keyboard)
    ensures
        kb@ == renew_balance_confirm_spec(name@, months, expected_expiry),
{
    let mut rows = no_rows();
    push_row(&mut rows, row1(
        Button { label: Label::Text("✅ Списать баланс и продлить".to_string()), data: { let mut s = String::from_str("renew:method:"); s.append(name); s.append(":"); let t = format_i64(months); s.append(t.as_str()); s.append(":balance-go-"); let t = format_i64(expected_expiry); s.append(t.as_str()); assert(s@ =~= "renew:method:"@ + name@ + ":"@ + decimal(months as int) + ":balance-go-"@ + decimal(expected_expiry as int)); s } },
    ));
    push_row(&mut rows, row1(
        Button { label: Label::Text("Отмена".to_string()), data: with_name("mykey:", name) },
    ));
    let kb = Keyboard { rows };
    assert(kb@ =~= renew_balance_confirm_spec(name@, months, expected_expiry));
    kb
}

/// How to pay for a key of `months` months; online payment first when enabled.
pub open spec fn buy_method_spec(months: i64, acquiring: bool) -> Seq<Seq<ButtonView>> {
    (if acquiring { seq![seq![(LabelView::Text("🏦 Оплатить онлайн"@), "buy:method:"@ + decimal(months as int) + ":acquiring"@)]] } else { Seq::<Seq<ButtonView>>::empty() })
    + seq![
        seq![(LabelView::Text("💳 Перевод"@), "buy:method:"@ + decimal(months as int) + ":manual"@)],
        seq![(LabelView::Text("💰 Внутренний баланс"@), "buy:method:"@ + decimal(months as int) + ":balance"@)],
        seq![(LabelView::Text("⭐ Telegram Stars"@), "buy:method:"@ + decimal(months as int) + ":stars"@)],
    ]
}

pub fn buy_method_menu(months: i64, acquiring: bool) -> (kb: Keyboard)
    ensures
        kb@ == buy_method_spec(months, acquiring),
{
    let mut rows = no_rows();
    if acquiring {
        push_row(&mut rows, row1(
            Button { label: Label::Text("🏦 Оплатить онлайн".to_string()), data: { let mut s = String::from_str("buy:method:"); let t = format_i64(months); s.append(t.as_str()); s.append(":acquiring"); assert(s@ =~= "buy:method:"@ + decimal(months as int) + ":acquiring"@); s } },
        ));
    }
    push_row(&mut rows, row1(
        Button { label: Label::Text("💳 Перевод".to_string()), data: { let mut s = String::from_str("buy:method:"); let t = format_i64(months); s.append(t.as_str()); s.append(":manual"); assert(s@ =~= "buy:method:"@ + decimal(months as int) + ":manual"@); s } },
    ));
    push_row(&mut rows, row1(
        Button { label: Label::Text("💰 Внутренний баланс".to_string()), data: { let mut s = String::from_str("buy:method:"); let t = format_i64(months); s.append(t.as_str()); s.append(":balance"); assert(s@ =~= "buy:method:"@ + decimal(months as int) + ":balance"@); s } },
    ));
    push_row(&mut rows, row1(
        Button { label: Label::Text("⭐ Telegram Stars".to_string()), data: { let mut s = String::from_str("buy:method:"); let t = format_i64(months); s.append(t.as_str()); s.append(":stars"); assert(s@ =~= "buy:method:"@ + decimal(months as int) + ":stars"@); s } },
    ));
    let kb = Keyboard { rows };
    assert(kb@ =~= buy_method_spec(months, acquiring));
    kb
}

/// Reporting payment `id` as paid.
pub open spec fn payment_paid_spec(id: i64) -> Seq<Seq<ButtonView>> {
    seq![
        seq![(LabelView::Text("✅ Я оплатил"@), "buy:paid:"@ + decimal(id as int))],
    ]
}

pub fn payment_paid_menu(id: i64) -> (kb: Keyboard)
    ensures
        kb@ == payment_paid_spec(id),
{
    let mut rows = no_rows();
    push_row(&mut rows, row1(
        Button { label: Label::Text("✅ Я оплатил".to_string()), data: with_id("buy:paid:", id) },
    ));
    let kb = Keyboard { rows };
    assert(kb@ =~= payment_paid_spec(id));
    kb
}

/// The category of a new support ticket.
pub open spec fn support_category_spec() -> Seq<Seq<ButtonView>> {
    seq![
        seq![(LabelView::Text("🔌 Подключение"@), "support:new:connection"@), (LabelView::Text("💳 Оплата"@), "support:new:payment"@)],
        seq![(LabelView::Text("🐞 Ошибка"@), "support:new:bug"@), (LabelView::Text("💬 Другой вопрос"@), "support:new:general"@)],
    ]
}

pub fn support_category_menu() -> (kb: Keyboard)
    ensures
        kb@ == support_category_spec(),
{
    let mut rows = no_rows();
    push_row(&mut rows, row2(
        Button { label: Label::Text("🔌 Подключение".to_string()), data: plain("support:new:connection") },
        Button { label: Label::Text("💳 Оплата".to_string()), data: plain("support:new:payment") },
    ));
    push_row(&mut rows, row2(
        Button { label: Label::Text("🐞 Ошибка".to_string()), data: plain("support:new:bug") },
        Button { label: Label::Text("💬 Другой вопрос".to_string()), data: plain("support:new:general") },
    ));
    let kb = Keyboard { rows };
    assert(kb@ =~= support_category_spec());
    kb
}

/// A customer's key `name`.
pub open spec fn customer_key_spec(name: Seq<char>) -> Seq<Seq<ButtonView>> {
    seq![
        seq![(LabelView::Text("📲 Получить конфигурацию и QR"@), "refresh:"@ + name)],
        seq![(LabelView::Text("📖 Как установить"@), "guide:install:"@ + name)],
        seq![(LabelView::Text("🩺 Не подключается"@), "guide:trouble:"@ + name)],
        seq![(LabelView::Text("📅 Продлить"@), "renew:"@ + name), (LabelView::Text("✏️ Устройство"@), "device:label:"@ + name)],
        seq![(LabelView::Text("🛟 Замена при недоступном сервере"@), "move:choose:"@ + name)],
        seq![(LabelView::Text("⬅️ Мои ключи"@), "mykeys"@)],
    ]
}

pub fn customer_key_menu(name: &str) -> (kb: Keyboard)
    ensures
        kb@ == customer_key_spec(name@),
{
    let mut rows = no_rows();
    push_row(&mut rows, row1(
        Button { label: Label::Text("📲 Получить конфигурацию и QR".to_string()), data: with_name("refresh:", name) },
    ));
    push_row(&mut rows, row1(
        Button { label: Label::Text("📖 Как установить".to_string()), data: with_name("guide:install:", name) },
    ));
    push_row(&mut rows, row1(
        Button { label: Label::Text("🩺 Не подключается".to_string()), data: with_name("guide:trouble:", name) },
    ));
    push_row(&mut rows, row2(
        Button { label: Label::Text("📅 Продлить".to_string()), data: with_name("renew:", name) },
        Button { label: Label::Text("✏️ Устройство".to_string()), data: with_name("device:label:", name) },
    ));
    push_row(&mut rows, row1(
        Button { label: Label::Text("🛟 Замена при недоступном сервере".to_string()), data: with_name("move:choose:", name) },
    ));
    push_row(&mut rows, row1(
        Button { label: Label::Text("⬅️ Мои ключи".to_string()), data: plain("mykeys") },
    ));
    let kb = Keyboard { rows };
    assert(kb@ =~= customer_key_spec(name@));
    kb
}

/// An expired key `name`.
pub open spec fn expired_subscription_spec(name: Seq<char>) -> Seq<Seq<ButtonView>> {
    seq![
        seq![(LabelView::Text("🚀 ВОЗОБНОВИТЬ ТАРИФ"@), "renew:"@ + name)],
        seq![(LabelView::Text("🆘 Нужна помощь"@), "support:new:connection"@)],
        seq![(LabelView::Text("⬅️ Мои ключи"@), "mykeys"@)],
    ]
}

pub fn expired_subscription_menu(name: &str) -> (kb: Keyboard)
    ensures
        kb@ == expired_subscription_spec(name@),
{
    let mut rows = no_rows();
    push_row(&mut rows, row1(
        Button { label: Label::Text("🚀 ВОЗОБНОВИТЬ ТАРИФ".to_string()), data: with_name("renew:", name) },
    ));
    push_row(&mut rows, row1(
        Button { label: Label::Text("🆘 Нужна помощь".to_string()), data: plain("support:new:connection") },
    ));
    push_row(&mut rows, row1(
        Button { label: Label::Text("⬅️ Мои ключи".to_string()), data: plain("mykeys") },
    ));
    let kb = Keyboard { rows };
    assert(kb@ =~= expired_subscription_spec(name@));
    kb
}

/// Installation guides.
pub open spec fn instructions_spec() -> Seq<Seq<ButtonView>> {
    seq![
        seq![(LabelView::Text("📱 AmneziaVPN"@), "guide:amnezia"@)],
        seq![(LabelView::Text("🛡 AmneziaWG"@), "guide:awg"@)],
        seq![(LabelView::Text("🩺 Не подключается"@), "guide:trouble"@)],
        seq![(LabelView::Text("🆘 Поддержка"@), "support:new:connection"@)],
    ]
}

pub fn instructions_menu() -> (kb: Keyboard)
    ensures
        kb@ == instructions_spec(),
{
    let mut rows = no_rows();
    push_row(&mut rows, row1(
        Button { label: Label::Text("📱 AmneziaVPN".to_string()), data: plain("guide:amnezia") },
    ));
    push_row(&mut rows, row1(
        Button { label: Label::Text("🛡 AmneziaWG".to_string()), data: plain("guide:awg") },
    ));
    push_row(&mut rows, row1(
        Button { label: Label::Text("🩺 Не подключается".to_string()), data: plain("guide:trouble") },
    ));
    push_row(&mut rows, row1(
        Button { label: Label::Text("🆘 Поддержка".to_string()), data: plain("support:new:connection") },
    ));
    let kb = Keyboard { rows };
    assert(kb@ =~= instructions_spec());
    kb
}

/// Choosing the platform to install key `name` on.
pub open spec fn installation_platform_spec(name: Seq<char>) -> Seq<Seq<ButtonView>> {
    seq![
        seq![(LabelView::Text("🤖 Android"@), "guide:android:"@ + name), (LabelView::Text("🍎 iPhone/iPad"@), "guide:ios:"@ + name)],
        seq![(LabelView::Text("🪟 Windows"@), "guide:windows:"@ + name), (LabelView::Text("💻 macOS"@), "guide:macos:"@ + name)],
        seq![(LabelView::Text("⬅️ К ключу"@), "mykey:"@ + name)],
    ]
}

pub fn installation_platform_menu(name: &str) -> (kb: Keyboard)
    ensures
        kb@ == installation_platform_spec(name@),
{
    let mut rows = no_rows();
    push_row(&mut rows, row2(
        Button { label: Label::Text("🤖 Android".to_string()), data: with_name("guide:android:", name) },
        Button { label: Label::Text("🍎 iPhone/iPad".to_string()), data: with_name("guide:ios:", name) },
    ));
    push_row(&mut rows, row2(
        Button { label: Label::Text("🪟 Windows".to_string()), data: with_name("guide:windows:", name) },
        Button { label: Label::Text("💻 macOS".to_string()), data: with_name("guide:macos:", name) },
    ));
    push_row(&mut rows, row1(
        Button { label: Label::Text("⬅️ К ключу".to_string()), data: with_name("mykey:", name) },
    ));
    let kb = Keyboard { rows };
    assert(kb@ =~= installation_platform_spec(name@));
    kb
}

/// Troubleshooting key `name`.
pub open spec fn troubleshooting_spec(name: Seq<char>) -> Seq<Seq<ButtonView>> {
    seq![
        seq![(LabelView::Text("1️⃣ Проверить сеть"@), "guide:check-network:"@ + name)],
        seq![(LabelView::Text("2️⃣ Проверить приложение"@), "guide:check-app:"@ + name)],
        seq![(LabelView::Text("3️⃣ Получить свежий конфиг"@), "refresh:"@ + name)],
        seq![(LabelView::Text("🆘 Отправить диагностику"@), "support:diagnostic:"@ + name)],
        seq![(LabelView::Text("⬅️ К ключу"@), "mykey:"@ + name)],
    ]
}

pub fn troubleshooting_menu(name: &str) -> (kb: Keyboard)
    ensures
        kb@ == troubleshooting_spec(name@),
{
    let mut rows = no_rows();
    push_row(&mut rows, row1(
        Button { label: Label::Text("1️⃣ Проверить сеть".to_string()), data: with_name("guide:check-network:", name) },
    ));
    push_row(&mut rows, row1(
        Button { label: Label::Text("2️⃣ Проверить приложение".to_string()), data: with_name("guide:check-app:", name) },
    ));
    push_row(&mut rows, row1(
        Button { label: Label::Text("3️⃣ Получить свежий конфиг".to_string()), data: with_name("refresh:", name) },
    ));
    push_row(&mut rows, row1(
        Button { label: Label::Text("🆘 Отправить диагностику".to_string()), data: with_name("support:diagnostic:", name) },
    ));
    push_row(&mut rows, row1(
        Button { label: Label::Text("⬅️ К ключу".to_string()), data: with_name("mykey:", name) },
    ));
    let kb = Keyboard { rows };
    assert(kb@ =~= troubleshooting_spec(name@));
    kb
}

/// Confirming a fresh configuration for key `name`.
pub open spec fn customer_refresh_confirm_spec(name: Seq<char>) -> Seq<Seq<ButtonView>> {
    seq![
        seq![(LabelView::Text("✅ Создать свежую конфигурацию"@), "refreshgo:"@ + name)],
        seq![(LabelView::Text("⬅️ Назад к ключу"@), "mykey:"@ + name)],
    ]
}

pub fn customer_refresh_confirm_menu(name: &str) -> (kb: Keyboard)
    ensures
        kb@ == customer_refresh_confirm_spec(name@),
{
    let mut rows = no_rows();
    push_row(&mut rows, row1(
        Button { label: Label::Text("✅ Создать свежую конфигурацию".to_string()), data: with_name("refreshgo:", name) },
    ));
    push_row(&mut rows, row1(
        Button { label: Label::Text("⬅️ Назад к ключу".to_string()), data: with_name("mykey:", name) },
    ));
    let kb = Keyboard { rows };
    assert(kb@ =~= customer_refresh_confirm_spec(name@));
    kb
}

/// Confirming or cancelling replacement `id`.
pub open spec fn replacement_confirm_spec(id: i64) -> Seq<Seq<ButtonView>> {
    seq![
        seq![(LabelView::Text("✅ Новый ключ работает"@), "move:confirm:"@ + decimal(id as int))],
        seq![(LabelView::Text("❌ Не подключается"@), "move:cancel:"@ + decimal(id as int))],
        seq![(LabelView::Text("📖 Как установить"@), "guide:awg"@)],
    ]
}

pub fn replacement_confirm_menu(id: i64) -> (kb: Keyboard)
    ensures
        kb@ == replacement_confirm_spec(id),
{
    let mut rows = no_rows();
    push_row(&mut rows, row1(
        Button { label: Label::Text("✅ Новый ключ работает".to_string()), data: with_id("move:confirm:", id) },
    ));
    push_row(&mut rows, row1(
        Button { label: Label::Text("❌ Не подключается".to_string()), data: with_id("move:cancel:", id) },
    ));
    push_row(&mut rows, row1(
        Button { label: Label::Text("📖 Как установить".to_string()), data: plain("guide:awg") },
    ));
    let kb = Keyboard { rows };
    assert(kb@ =~= replacement_confirm_spec(id));
    kb
}

/// Automatic renewal of key `name`.
pub open spec fn auto_renew_spec(name: Seq<char>) -> Seq<Seq<ButtonView>> {
    seq![
        seq![(LabelView::Text("✅ Авто: 1 месяц"@), "autorenew:"@ + name + ":1:on"@), (LabelView::Text("✅ Авто: 3 месяца"@), "autorenew:"@ + name + ":3:on"@)],
        seq![(LabelView::Text("✅ Авто: 6 месяцев"@), "autorenew:"@ + name + ":6:on"@), (LabelView::Text("✅ Авто: 12 месяцев"@), "autorenew:"@ + name + ":12:on"@)],
        seq![(LabelView::Text("❌ Выключить автопродление"@), "autorenew:"@ + name + ":1:off"@)],
    ]
}

pub fn auto_renew_menu(name: &str) -> (kb: Keyboard)
    ensures
        kb@ == auto_renew_spec(name@),
{
    let mut rows = no_rows();
    push_row(&mut rows, row2(
        Button { label: Label::Text("✅ Авто: 1 месяц".to_string()), data: { let mut s = String::from_str("autorenew:"); s.append(name); s.append(":1:on"); assert(s@ =~= "autorenew:"@ + name@ + ":1:on"@); s } },
        Button { label: Label::Text("✅ Авто: 3 месяца".to_string()), data: { let mut s = String::from_str("autorenew:"); s.append(name); s.append(":3:on"); assert(s@ =~= "autorenew:"@ + name@ + ":3:on"@); s } },
    ));
    push_row(&mut rows, row2(
        Button { label: Label::Text("✅ Авто: 6 месяцев".to_string()), data: { let mut s = String::from_str("autorenew:"); s.append(name); s.append(":6:on"); assert(s@ =~= "autorenew:"@ + name@ + ":6:on"@); s } },
        Button { label: Label::Text("✅ Авто: 12 месяцев".to_string()), data: { let mut s = String::from_str("autorenew:"); s.append(name); s.append(":12:on"); assert(s@ =~= "autorenew:"@ + name@ + ":12:on"@); s } },
    ));
    push_row(&mut rows, row1(
        Button { label: Label::Text("❌ Выключить автопродление".to_string()), data: { let mut s = String::from_str("autorenew:"); s.append(name); s.append(":1:off"); assert(s@ =~= "autorenew:"@ + name@ + ":1:off"@); s } },
    ));
    let kb = Keyboard { rows };
    assert(kb@ =~= auto_renew_spec(name@));
    kb
}

/// How to pay for renewing key `name` by `months` months.
pub open spec fn renew_method_spec(name: Seq<char>, months: i64) -> Seq<Seq<ButtonView>> {
    seq![
        seq![(LabelView::Text("💳 Перевод"@), "renew:method:"@ + name + ":"@ + decimal(months as int) + ":manual"@)],
        seq![(LabelView::Text("💰 Внутренний баланс"@), "renew:method:"@ + name + ":"@ + decimal(months as int) + ":balance"@)],
        seq![(LabelView::Text("⭐ Telegram Stars"@), "renew:method:"@ + name + ":"@ + decimal(months as int) + ":stars"@)],
    ]
}

pub fn renew_method_menu(name: &str, months: i64) -> (kb: Keyboard)
    ensures
        kb@ == renew_method_spec(name@, months),
{
    let mut rows = no_rows();
    push_row(&mut rows, row1(
        Button { label: Label::Text("💳 Перевод".to_string()), data: { let mut s = String::from_str("renew:method:"); s.append(name); s.append(":"); let t = format_i64(months); s.append(t.as_str()); s.append(":manual"); assert(s@ =~= "renew:method:"@ + name@ + ":"@ + decimal(months as int) + ":manual"@); s } },
    ));
    push_row(&mut rows, row1(
        Button { label: Label::Text("💰 Внутренний баланс".to_string()), data: { let mut s = String::from_str("renew:method:"); s.append(name); s.append(":"); let t = format_i64(months); s.append(t.as_str()); s.append(":balance"); assert(s@ =~= "renew:method:"@ + name@ + ":"@ + decimal(months as int) + ":balance"@); s } },
    ));
    push_row(&mut rows, row1(
        Button { label: Label::Text("⭐ Telegram Stars".to_string()), data: { let mut s = String::from_str("renew:method:"); s.append(name); s.append(":"); let t = format_i64(months); s.append(t.as_str()); s.append(":stars"); assert(s@ =~= "renew:method:"@ + name@ + ":"@ + decimal(months as int) + ":stars"@); s } },
    ));
    let kb = Keyboard { rows };
    assert(kb@ =~= renew_method_spec(name@, months));
    kb
}

/// How to pay for renewing the old key `name`.
pub open spec fn legacy_renew_method_spec(name: Seq<char>) -> Seq<Seq<ButtonView>> {
    seq![
        seq![(LabelView::Text("💳 Перевод"@), "legacy:renew:method:"@ + name + ":manual"@)],
        seq![(LabelView::Text("💰 Внутренний баланс"@), "legacy:renew:method:"@ + name + ":balance"@)],
        seq![(LabelView::Text("⬅️ Назад"@), "legacy:renew:"@ + name)],
    ]
}

pub fn legacy_renew_method_menu(name: &str) -> (kb: Keyboard)
    ensures
        kb@ == legacy_renew_method_spec(name@),
{
    let mut rows = no_rows();
    push_row(&mut rows, row1(
        Button { label: Label::Text("💳 Перевод".to_string()), data: { let mut s = String::from_str("legacy:renew:method:"); s.append(name); s.append(":manual"); assert(s@ =~= "legacy:renew:method:"@ + name@ + ":manual"@); s } },
    ));
    push_row(&mut rows, row1(
        Button { label: Label::Text("💰 Внутренний баланс".to_string()), data: { let mut s = String::from_str("legacy:renew:method:"); s.append(name); s.append(":balance"); assert(s@ =~= "legacy:renew:method:"@ + name@ + ":balance"@); s } },
    ));
    push_row(&mut rows, row1(
        Button { label: Label::Text("⬅️ Назад".to_string()), data: with_name("legacy:renew:", name) },
    ));
    let kb = Keyboard { rows };
    assert(kb@ =~= legacy_renew_method_spec(name@));
    kb
}

/// Every button of a key's refresh confirmation reads back as a known
/// action: the refresh itself, or the key's card.
pub proof fn law_refresh_confirm_buttons_known(name: Seq<char>)
    requires
        !name.contains(':'),
    ensures
        forall|r: int, c: int|
            0 <= r < customer_refresh_confirm_spec(name).len() && 0 <= c < customer_refresh_confirm_spec(
                name,
            )[r].len() ==> !(callback_action(#[trigger] customer_refresh_confirm_spec(name)[r][c].1) is Unknown),
{
    law_customer_refresh_run_round_trip(name);
    law_customer_key_round_trip(name);
    let kb = customer_refresh_confirm_spec(name);
    assert forall|r: int, c: int| 0 <= r < kb.len() && 0 <= c < kb[r].len() implies !(callback_action(
        #[trigger] kb[r][c].1,
    ) is Unknown) by {
        if r == 0 {
            assert(kb[r][c].1 == "refreshgo:"@ + name);
        } else {
            assert(kb[r][c].1 == "mykey:"@ + name);
        }
    }
}

} // verus!
