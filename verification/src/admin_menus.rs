//! Keyboards of the admin screens: servers, keys, users, support, finance.

use vstd::prelude::*;
use vstd::string::*;
use crate::keyboard::{no_rows, plain, push_row, row1, row2, row3, with_id, Button, ButtonView, Keyboard, Label, LabelView};
use crate::numbers::{decimal, format_i64};

verus! {

/// Approving or declining the key request `id`.
pub open spec fn legacy_request_admin_spec(id: i64) -> Seq<Seq<ButtonView>> {
    seq![
        seq![(LabelView::Text("✅ Одобрить и создать"@), "legacy:req:ok:"@ + decimal(id as int)), (LabelView::Text("❌ Отклонить"@), "legacy:req:no:"@ + decimal(id as int))],
        seq![(LabelView::Text("♻️ Все заявки"@), "admin:legacy"@)],
    ]
}

pub fn legacy_request_admin_menu(id: i64) -> (kb: Keyboard)
    ensures
        kb@ == legacy_request_admin_spec(id),
{
    let mut rows = no_rows();
    push_row(&mut rows, row2(
        Button { label: Label::Text("✅ Одобрить и создать".to_string()), data: with_id("legacy:req:ok:", id) },
        Button { label: Label::Text("❌ Отклонить".to_string()), data: with_id("legacy:req:no:", id) },
    ));
    push_row(&mut rows, row1(
        Button { label: Label::Text("♻️ Все заявки".to_string()), data: plain("admin:legacy") },
    ));
    let kb = Keyboard { rows };
    assert(kb@ =~= legacy_request_admin_spec(id));
    kb
}

/// The admin dashboard: one entry per section.
pub open spec fn admin_dashboard_spec() -> Seq<Seq<ButtonView>> {
    seq![
        seq![(LabelView::Text("🖥 Серверы"@), "admin:servers"@), (LabelView::Text("🔑 Ключи"@), "admin:keys"@)],
        seq![(LabelView::Text("👥 Пользователи"@), "admin:users"@), (LabelView::Text("💳 Финансы"@), "admin:finance"@)],
        seq![(LabelView::Text("🏷 Цены и промокоды"@), "admin:commerce"@)],
        seq![(LabelView::Text("📊 Аналитика"@), "stats"@), (LabelView::Text("💬 Связь"@), "admin:communication"@)],
        seq![(LabelView::Text("🔄 Операции"@), "admin:operations"@)],
        seq![(LabelView::Text("⚙️ Система"@), "admin:system"@), (LabelView::Text("🌐 Веб-кабинет"@), "portal"@)],
        seq![(LabelView::Text("🔎 Поиск"@), "admin:search"@), (LabelView::Text("🔄 Обновить"@), "admin:dashboard"@)],
    ]
}

pub fn admin_dashboard_menu() -> (kb: Keyboard)
    ensures
        kb@ == admin_dashboard_spec(),
{
    let mut rows = no_rows();
    push_row(&mut rows, row2(
        Button { label: Label::Text("🖥 Серверы".to_string()), data: plain("admin:servers") },
        Button { label: Label::Text("🔑 Ключи".to_string()), data: plain("admin:keys") },
    ));
    push_row(&mut rows, row2(
        Button { label: Label::Text("👥 Пользователи".to_string()), data: plain("admin:users") },
        Button { label: Label::Text("💳 Финансы".to_string()), data: plain("admin:finance") },
    ));
    push_row(&mut rows, row1(
        Button { label: Label::Text("🏷 Цены и промокоды".to_string()), data: plain("admin:commerce") },
    ));
    push_row(&mut rows, row2(
        Button { label: Label::Text("📊 Аналитика".to_string()), data: plain("stats") },
        Button { label: Label::Text("💬 Связь".to_string()), data: plain("admin:communication") },
    ));
    push_row(&mut rows, row1(
        Button { label: Label::Text("🔄 Операции".to_string()), data: plain("admin:operations") },
    ));
    push_row(&mut rows, row2(
        Button { label: Label::Text("⚙️ Система".to_string()), data: plain("admin:system") },
        Button { label: Label::Text("🌐 Веб-кабинет".to_string()), data: plain("portal") },
    ));
    push_row(&mut rows, row2(
        Button { label: Label::Text("🔎 Поиск".to_string()), data: plain("admin:search") },
        Button { label: Label::Text("🔄 Обновить".to_string()), data: plain("admin:dashboard") },
    ));
    let kb = Keyboard { rows };
    assert(kb@ =~= admin_dashboard_spec());
    kb
}

/// The keys section.
pub open spec fn admin_keys_hub_spec() -> Seq<Seq<ButtonView>> {
    seq![
        seq![(LabelView::Text("➕ Создание ключей"@), "admin:create"@), (LabelView::Text("📋 Все ключи"@), "list"@)],
        seq![(LabelView::Text("🗂 Группы"@), "groups"@), (LabelView::Text("🔗 Владельцы"@), "admin:owners"@)],
        seq![(LabelView::Text("🧰 Массовые операции"@), "admin:bulk:menu"@)],
        seq![(LabelView::Text("🩺 Здоровье ключей"@), "admin:keys:health"@)],
        seq![(LabelView::Text("♻️ Восстановление старых"@), "admin:legacy"@)],
        seq![(LabelView::Text("⬅️ Админ-панель"@), "admin:dashboard"@)],
    ]
}

pub fn admin_keys_hub() -> (kb: Keyboard)
    ensures
        kb@ == admin_keys_hub_spec(),
{
    let mut rows = no_rows();
    push_row(&mut rows, row2(
        Button { label: Label::Text("➕ Создание ключей".to_string()), data: plain("admin:create") },
        Button { label: Label::Text("📋 Все ключи".to_string()), data: plain("list") },
    ));
    push_row(&mut rows, row2(
        Button { label: Label::Text("🗂 Группы".to_string()), data: plain("groups") },
        Button { label: Label::Text("🔗 Владельцы".to_string()), data: plain("admin:owners") },
    ));
    push_row(&mut rows, row1(
        Button { label: Label::Text("🧰 Массовые операции".to_string()), data: plain("admin:bulk:menu") },
    ));
    push_row(&mut rows, row1(
        Button { label: Label::Text("🩺 Здоровье ключей".to_string()), data: plain("admin:keys:health") },
    ));
    push_row(&mut rows, row1(
        Button { label: Label::Text("♻️ Восстановление старых".to_string()), data: plain("admin:legacy") },
    ));
    push_row(&mut rows, row1(
        Button { label: Label::Text("⬅️ Админ-панель".to_string()), data: plain("admin:dashboard") },
    ));
    let kb = Keyboard { rows };
    assert(kb@ =~= admin_keys_hub_spec());
    kb
}

/// Key health: refresh, the inactive and never-connected lists.
pub open spec fn admin_key_health_spec() -> Seq<Seq<ButtonView>> {
    seq![
        seq![(LabelView::Text("🔄 Обновить"@), "admin:keys:health"@)],
        seq![(LabelView::Text("🔴 Неактивные"@), "listfilter:offline"@), (LabelView::Text("🟡 Не подключались"@), "listfilter:never"@)],
        seq![(LabelView::Text("📋 Все ключи"@), "list"@)],
        seq![(LabelView::Text("⬅️ К ключам"@), "admin:keys"@)],
    ]
}

pub fn admin_key_health_menu() -> (kb: Keyboard)
    ensures
        kb@ == admin_key_health_spec(),
{
    let mut rows = no_rows();
    push_row(&mut rows, row1(
        Button { label: Label::Text("🔄 Обновить".to_string()), data: plain("admin:keys:health") },
    ));
    push_row(&mut rows, row2(
        Button { label: Label::Text("🔴 Неактивные".to_string()), data: plain("listfilter:offline") },
        Button { label: Label::Text("🟡 Не подключались".to_string()), data: plain("listfilter:never") },
    ));
    push_row(&mut rows, row1(
        Button { label: Label::Text("📋 Все ключи".to_string()), data: plain("list") },
    ));
    push_row(&mut rows, row1(
        Button { label: Label::Text("⬅️ К ключам".to_string()), data: plain("admin:keys") },
    ));
    let kb = Keyboard { rows };
    assert(kb@ =~= admin_key_health_spec());
    kb
}

/// The users section.
pub open spec fn admin_users_hub_spec() -> Seq<Seq<ButtonView>> {
    seq![
        seq![(LabelView::Text("📋 Все пользователи"@), "admin:owners"@), (LabelView::Text("🔎 Поиск"@), "admin:search"@)],
        seq![(LabelView::Text("🧑‍💼 Роли сотрудников"@), "admin:roles"@)],
        seq![(LabelView::Text("⬅️ Админ-панель"@), "admin:dashboard"@)],
    ]
}

pub fn admin_users_hub() -> (kb: Keyboard)
    ensures
        kb@ == admin_users_hub_spec(),
{
    let mut rows = no_rows();
    push_row(&mut rows, row2(
        Button { label: Label::Text("📋 Все пользователи".to_string()), data: plain("admin:owners") },
        Button { label: Label::Text("🔎 Поиск".to_string()), data: plain("admin:search") },
    ));
    push_row(&mut rows, row1(
        Button { label: Label::Text("🧑‍💼 Роли сотрудников".to_string()), data: plain("admin:roles") },
    ));
    push_row(&mut rows, row1(
        Button { label: Label::Text("⬅️ Админ-панель".to_string()), data: plain("admin:dashboard") },
    ));
    let kb = Keyboard { rows };
    assert(kb@ =~= admin_users_hub_spec());
    kb
}

/// Support and broadcasts.
pub open spec fn admin_communication_hub_spec() -> Seq<Seq<ButtonView>> {
    seq![
        seq![(LabelView::Text("🆘 Поддержка"@), "admin:support"@), (LabelView::Text("📣 Рассылка"@), "admin:broadcast"@)],
        seq![(LabelView::Text("📝 Шаблоны рассылок"@), "admin:broadcast:templates"@)],
        seq![(LabelView::Text("⬅️ Админ-панель"@), "admin:dashboard"@)],
    ]
}

pub fn admin_communication_hub() -> (kb: Keyboard)
    ensures
        kb@ == admin_communication_hub_spec(),
{
    let mut rows = no_rows();
    push_row(&mut rows, row2(
        Button { label: Label::Text("🆘 Поддержка".to_string()), data: plain("admin:support") },
        Button { label: Label::Text("📣 Рассылка".to_string()), data: plain("admin:broadcast") },
    ));
    push_row(&mut rows, row1(
        Button { label: Label::Text("📝 Шаблоны рассылок".to_string()), data: plain("admin:broadcast:templates") },
    ));
    push_row(&mut rows, row1(
        Button { label: Label::Text("⬅️ Админ-панель".to_string()), data: plain("admin:dashboard") },
    ));
    let kb = Keyboard { rows };
    assert(kb@ =~= admin_communication_hub_spec());
    kb
}

/// Broadcast templates.
pub open spec fn broadcast_templates_spec() -> Seq<Seq<ButtonView>> {
    seq![
        seq![(LabelView::Text("📣 Создать рассылку"@), "admin:broadcast"@)],
        seq![(LabelView::Text("⬅️ Связь"@), "admin:communication"@)],
    ]
}

pub fn broadcast_templates_menu() -> (kb: Keyboard)
    ensures
        kb@ == broadcast_templates_spec(),
{
    let mut rows = no_rows();
    push_row(&mut rows, row1(
        Button { label: Label::Text("📣 Создать рассылку".to_string()), data: plain("admin:broadcast") },
    ));
    push_row(&mut rows, row1(
        Button { label: Label::Text("⬅️ Связь".to_string()), data: plain("admin:communication") },
    ));
    let kb = Keyboard { rows };
    assert(kb@ =~= broadcast_templates_spec());
    kb
}

/// A broadcast report; retrying the failed deliveries when possible.
pub open spec fn broadcast_report_spec(id: i64, can_retry: bool) -> Seq<Seq<ButtonView>> {
    (if can_retry { seq![seq![(LabelView::Text("🔁 Повторить только ошибки"@), "broadcast:retry:"@ + decimal(id as int))]] } else { Seq::<Seq<ButtonView>>::empty() })
    + seq![
        seq![(LabelView::Text("⬅️ Связь"@), "admin:communication"@)],
    ]
}

pub fn broadcast_report_menu(id: i64, can_retry: bool) -> (kb: Keyboard)
    ensures
        kb@ == broadcast_report_spec(id, can_retry),
{
    let mut rows = no_rows();
    if can_retry {
        push_row(&mut rows, row1(
            Button { label: Label::Text("🔁 Повторить только ошибки".to_string()), data: with_id("broadcast:retry:", id) },
        ));
    }
    push_row(&mut rows, row1(
        Button { label: Label::Text("⬅️ Связь".to_string()), data: plain("admin:communication") },
    ));
    let kb = Keyboard { rows };
    assert(kb@ =~= broadcast_report_spec(id, can_retry));
    kb
}

/// The system section.
pub open spec fn admin_system_hub_spec() -> Seq<Seq<ButtonView>> {
    seq![
        seq![(LabelView::Text("⚙️ Настройки"@), "settings"@), (LabelView::Text("💾 Резервные копии"@), "backup"@)],
        seq![(LabelView::Text("🗄 Копия БД сейчас"@), "admin:db-backup"@), (LabelView::Text("🔍 Проверить архив БД"@), "admin:db-backup-audit"@)],
        seq![(LabelView::Text("🛡 VPN-служба"@), "admin:vpn"@), (LabelView::Text("ℹ️ Справка"@), "admin:help"@)],
        seq![(LabelView::Text("⬆️ Обновить бота"@), "admin:update"@)],
        seq![(LabelView::Text("🧪 Проверить систему сейчас"@), "admin:operations:refresh"@)],
        seq![(LabelView::Text("📋 Журнал обновления"@), "admin:update:status"@)],
        seq![(LabelView::Text("⬅️ Админ-панель"@), "admin:dashboard"@)],
    ]
}

pub fn admin_system_hub() -> (kb: Keyboard)
    ensures
        kb@ == admin_system_hub_spec(),
{
    let mut rows = no_rows();
    push_row(&mut rows, row2(
        Button { label: Label::Text("⚙️ Настройки".to_string()), data: plain("settings") },
        Button { label: Label::Text("💾 Резервные копии".to_string()), data: plain("backup") },
    ));
    push_row(&mut rows, row2(
        Button { label: Label::Text("🗄 Копия БД сейчас".to_string()), data: plain("admin:db-backup") },
        Button { label: Label::Text("🔍 Проверить архив БД".to_string()), data: plain("admin:db-backup-audit") },
    ));
    push_row(&mut rows, row2(
        Button { label: Label::Text("🛡 VPN-служба".to_string()), data: plain("admin:vpn") },
        Button { label: Label::Text("ℹ️ Справка".to_string()), data: plain("admin:help") },
    ));
    push_row(&mut rows, row1(
        Button { label: Label::Text("⬆️ Обновить бота".to_string()), data: plain("admin:update") },
    ));
    push_row(&mut rows, row1(
        Button { label: Label::Text("🧪 Проверить систему сейчас".to_string()), data: plain("admin:operations:refresh") },
    ));
    push_row(&mut rows, row1(
        Button { label: Label::Text("📋 Журнал обновления".to_string()), data: plain("admin:update:status") },
    ));
    push_row(&mut rows, row1(
        Button { label: Label::Text("⬅️ Админ-панель".to_string()), data: plain("admin:dashboard") },
    ));
    let kb = Keyboard { rows };
    assert(kb@ =~= admin_system_hub_spec());
    kb
}

/// Confirming a bot update.
pub open spec fn bot_update_confirm_spec() -> Seq<Seq<ButtonView>> {
    seq![
        seq![(LabelView::Text("⬆️ Установить обновление"@), "admin:update:run"@)],
        seq![(LabelView::Text("❌ Отмена"@), "admin:system"@)],
    ]
}

pub fn bot_update_confirm_menu() -> (kb: Keyboard)
    ensures
        kb@ == bot_update_confirm_spec(),
{
    let mut rows = no_rows();
    push_row(&mut rows, row1(
        Button { label: Label::Text("⬆️ Установить обновление".to_string()), data: plain("admin:update:run") },
    ));
    push_row(&mut rows, row1(
        Button { label: Label::Text("❌ Отмена".to_string()), data: plain("admin:system") },
    ));
    let kb = Keyboard { rows };
    assert(kb@ =~= bot_update_confirm_spec());
    kb
}

/// The update log.
pub open spec fn bot_update_status_spec() -> Seq<Seq<ButtonView>> {
    seq![
        seq![(LabelView::Text("🔄 Обновить журнал"@), "admin:update:status"@)],
        seq![(LabelView::Text("↩️ Откатить бинарник"@), "admin:update:rollback"@)],
        seq![(LabelView::Text("⬅️ Система"@), "admin:system"@)],
    ]
}

pub fn bot_update_status_menu() -> (kb: Keyboard)
    ensures
        kb@ == bot_update_status_spec(),
{
    let mut rows = no_rows();
    push_row(&mut rows, row1(
        Button { label: Label::Text("🔄 Обновить журнал".to_string()), data: plain("admin:update:status") },
    ));
    push_row(&mut rows, row1(
        Button { label: Label::Text("↩️ Откатить бинарник".to_string()), data: plain("admin:update:rollback") },
    ));
    push_row(&mut rows, row1(
        Button { label: Label::Text("⬅️ Система".to_string()), data: plain("admin:system") },
    ));
    let kb = Keyboard { rows };
    assert(kb@ =~= bot_update_status_spec());
    kb
}

/// The ways to set up server `id`.
pub open spec fn server_setup_method_spec(id: i64) -> Seq<Seq<ButtonView>> {
    seq![
        seq![(LabelView::Text("🚀 Установить AWG 1.0 автоматически"@), "server:deploy:"@ + decimal(id as int))],
        seq![(LabelView::Text("🔐 Подключить существующую панель"@), "server:panel:"@ + decimal(id as int))],
        seq![(LabelView::Text("🔗 Подключить bootstrap-командой"@), "server:enroll:"@ + decimal(id as int))],
        seq![(LabelView::Text("⏭ Настроить позже"@), "server:"@ + decimal(id as int))],
    ]
}

pub fn server_setup_method_menu(id: i64) -> (kb: Keyboard)
    ensures
        kb@ == server_setup_method_spec(id),
{
    let mut rows = no_rows();
    push_row(&mut rows, row1(
        Button { label: Label::Text("🚀 Установить AWG 1.0 автоматически".to_string()), data: with_id("server:deploy:", id) },
    ));
    push_row(&mut rows, row1(
        Button { label: Label::Text("🔐 Подключить существующую панель".to_string()), data: with_id("server:panel:", id) },
    ));
    push_row(&mut rows, row1(
        Button { label: Label::Text("🔗 Подключить bootstrap-командой".to_string()), data: with_id("server:enroll:", id) },
    ));
    push_row(&mut rows, row1(
        Button { label: Label::Text("⏭ Настроить позже".to_string()), data: with_id("server:", id) },
    ));
    let kb = Keyboard { rows };
    assert(kb@ =~= server_setup_method_spec(id));
    kb
}

/// The server card's keyboard: key management, health and setup of server `id`.
pub open spec fn server_card_spec(id: i64) -> Seq<Seq<ButtonView>> {
    seq![
        seq![(LabelView::Text("— КЛЮЧИ —"@), "server:"@ + decimal(id as int))],
        seq![(LabelView::Text("🎯 Новые ключи и замена"@), "server:default:"@ + decimal(id as int))],
        seq![(LabelView::Text("🔄 Синхронизировать панель"@), "server:panel:sync:"@ + decimal(id as int))],
        seq![(LabelView::Text("🧾 Сверить ключи с базой"@), "server:panel:audit:"@ + decimal(id as int))],
        seq![(LabelView::Text("📣 Владельцам ключей"@), "broadcast:audience:server:"@ + decimal(id as int))],
        seq![(LabelView::Text("— СОСТОЯНИЕ —"@), "server:"@ + decimal(id as int))],
        seq![(LabelView::Text("🩺 Проверить ключи"@), "server:check:"@ + decimal(id as int)), (LabelView::Text("🔬 Диагностика"@), "server:diagnose:"@ + decimal(id as int))],
        seq![(LabelView::Text("🧬 Проверить API панели"@), "server:diagnose:"@ + decimal(id as int))],
        seq![(LabelView::Text("🚧 Начать обслуживание"@), "server:maintenance:"@ + decimal(id as int)), (LabelView::Text("✅ Завершить обслуживание"@), "server:maintenance:finish:"@ + decimal(id as int))],
        seq![(LabelView::Text("🧪 Тестовая выдача ключа"@), "server:probe:"@ + decimal(id as int))],
        seq![(LabelView::Text("— НАСТРОЙКА VPS —"@), "server:"@ + decimal(id as int))],
        seq![(LabelView::Text("✏️ Паспорт"@), "server:edit:"@ + decimal(id as int)), (LabelView::Text("💳 Оплата"@), "server:bill:"@ + decimal(id as int))],
        seq![(LabelView::Text("🔗 Подключить VPS"@), "server:enroll:"@ + decimal(id as int)), (LabelView::Text("🚫 Отозвать подключение"@), "server:enroll:revoke:"@ + decimal(id as int))],
        seq![(LabelView::Text("🚀 Установить VPN на VPS"@), "server:deploy:"@ + decimal(id as int))],
        seq![(LabelView::Text("🔐 Подключить / сменить панель"@), "server:panel:"@ + decimal(id as int))],
        seq![(LabelView::Text("🔀 Перевести AWG 2.0 → 1.0"@), "server:migrate:"@ + decimal(id as int))],
        seq![(LabelView::Text("🛡 Управление VPN"@), "admin:vpn"@)],
        seq![(LabelView::Text("⬅️ Все серверы"@), "admin:servers"@), (LabelView::Text("🏠 Админ-панель"@), "admin:dashboard"@)],
    ]
}

pub fn server_card_menu(id: i64) -> (kb: Keyboard)
    ensures
        kb@ == server_card_spec(id),
{
    let mut rows = no_rows();
    push_row(&mut rows, row1(
        Button { label: Label::Text("— КЛЮЧИ —".to_string()), data: with_id("server:", id) },
    ));
    push_row(&mut rows, row1(
        Button { label: Label::Text("🎯 Новые ключи и замена".to_string()), data: with_id("server:default:", id) },
    ));
    push_row(&mut rows, row1(
        Button { label: Label::Text("🔄 Синхронизировать панель".to_string()), data: with_id("server:panel:sync:", id) },
    ));
    push_row(&mut rows, row1(
        Button { label: Label::Text("🧾 Сверить ключи с базой".to_string()), data: with_id("server:panel:audit:", id) },
    ));
    push_row(&mut rows, row1(
        Button { label: Label::Text("📣 Владельцам ключей".to_string()), data: with_id("broadcast:audience:server:", id) },
    ));
    push_row(&mut rows, row1(
        Button { label: Label::Text("— СОСТОЯНИЕ —".to_string()), data: with_id("server:", id) },
    ));
    push_row(&mut rows, row2(
        Button { label: Label::Text("🩺 Проверить ключи".to_string()), data: with_id("server:check:", id) },
        Button { label: Label::Text("🔬 Диагностика".to_string()), data: with_id("server:diagnose:", id) },
    ));
    push_row(&mut rows, row1(
        Button { label: Label::Text("🧬 Проверить API панели".to_string()), data: with_id("server:diagnose:", id) },
    ));
    push_row(&mut rows, row2(
        Button { label: Label::Text("🚧 Начать обслуживание".to_string()), data: with_id("server:maintenance:", id) },
        Button { label: Label::Text("✅ Завершить обслуживание".to_string()), data: with_id("server:maintenance:finish:", id) },
    ));
    push_row(&mut rows, row1(
        Button { label: Label::Text("🧪 Тестовая выдача ключа".to_string()), data: with_id("server:probe:", id) },
    ));
    push_row(&mut rows, row1(
        Button { label: Label::Text("— НАСТРОЙКА VPS —".to_string()), data: with_id("server:", id) },
    ));
    push_row(&mut rows, row2(
        Button { label: Label::Text("✏️ Паспорт".to_string()), data: with_id("server:edit:", id) },
        Button { label: Label::Text("💳 Оплата".to_string()), data: with_id("server:bill:", id) },
    ));
    push_row(&mut rows, row2(
        Button { label: Label::Text("🔗 Подключить VPS".to_string()), data: with_id("server:enroll:", id) },
        Button { label: Label::Text("🚫 Отозвать подключение".to_string()), data: with_id("server:enroll:revoke:", id) },
    ));
    push_row(&mut rows, row1(
        Button { label: Label::Text("🚀 Установить VPN на VPS".to_string()), data: with_id("server:deploy:", id) },
    ));
    push_row(&mut rows, row1(
        Button { label: Label::Text("🔐 Подключить / сменить панель".to_string()), data: with_id("server:panel:", id) },
    ));
    push_row(&mut rows, row1(
        Button { label: Label::Text("🔀 Перевести AWG 2.0 → 1.0".to_string()), data: with_id("server:migrate:", id) },
    ));
    push_row(&mut rows, row1(
        Button { label: Label::Text("🛡 Управление VPN".to_string()), data: plain("admin:vpn") },
    ));
    push_row(&mut rows, row2(
        Button { label: Label::Text("⬅️ Все серверы".to_string()), data: plain("admin:servers") },
        Button { label: Label::Text("🏠 Админ-панель".to_string()), data: plain("admin:dashboard") },
    ));
    let kb = Keyboard { rows };
    assert(kb@ =~= server_card_spec(id));
    kb
}

/// After comparing a server's keys with the store: a fix for each kind of mismatch found.
pub open spec fn server_inventory_spec(id: i64, panel_only: bool, database_only: bool, wrong_server: bool) -> Seq<Seq<ButtonView>> {
    (if panel_only { seq![seq![(LabelView::Text("📥 Импортировать ключи панели"@), "server:panel:sync:"@ + decimal(id as int))]] } else { Seq::<Seq<ButtonView>>::empty() })
    + (if database_only { seq![seq![(LabelView::Text("🗄 Архивировать отсутствующие"@), "server:panel:archive:"@ + decimal(id as int))]] } else { Seq::<Seq<ButtonView>>::empty() })
    + (if wrong_server { seq![seq![(LabelView::Text("📍 Исправить привязку"@), "server:panel:rebind:"@ + decimal(id as int))]] } else { Seq::<Seq<ButtonView>>::empty() })
    + seq![
        seq![(LabelView::Text("🔄 Проверить ещё раз"@), "server:panel:audit:"@ + decimal(id as int))],
        seq![(LabelView::Text("⬅️ К серверу"@), "server:"@ + decimal(id as int))],
    ]
}

pub fn server_inventory_menu(id: i64, panel_only: bool, database_only: bool, wrong_server: bool) -> (kb: Keyboard)
    ensures
        kb@ == server_inventory_spec(id, panel_only, database_only, wrong_server),
{
    let mut rows = no_rows();
    if panel_only {
        push_row(&mut rows, row1(
            Button { label: Label::Text("📥 Импортировать ключи панели".to_string()), data: with_id("server:panel:sync:", id) },
        ));
    }
    if database_only {
        push_row(&mut rows, row1(
            Button { label: Label::Text("🗄 Архивировать отсутствующие".to_string()), data: with_id("server:panel:archive:", id) },
        ));
    }
    if wrong_server {
        push_row(&mut rows, row1(
            Button { label: Label::Text("📍 Исправить привязку".to_string()), data: with_id("server:panel:rebind:", id) },
        ));
    }
    push_row(&mut rows, row1(
        Button { label: Label::Text("🔄 Проверить ещё раз".to_string()), data: with_id("server:panel:audit:", id) },
    ));
    push_row(&mut rows, row1(
        Button { label: Label::Text("⬅️ К серверу".to_string()), data: with_id("server:", id) },
    ));
    let kb = Keyboard { rows };
    assert(kb@ =~= server_inventory_spec(id, panel_only, database_only, wrong_server));
    kb
}

/// Confirming the inventory fix `operation` on server `id`.
pub open spec fn server_inventory_confirm_spec(id: i64, operation: Seq<char>) -> Seq<Seq<ButtonView>> {
    seq![
        seq![(LabelView::Text("✅ Подтвердить"@), "server:panel:"@ + operation + ":confirm:"@ + decimal(id as int))],
        seq![(LabelView::Text("↩️ Отмена"@), "server:panel:audit:"@ + decimal(id as int))],
    ]
}

pub fn server_inventory_confirm_menu(id: i64, operation: &str) -> (kb: Keyboard)
    ensures
        kb@ == server_inventory_confirm_spec(id, operation@),
{
    let mut rows = no_rows();
    push_row(&mut rows, row1(
        Button { label: Label::Text("✅ Подтвердить".to_string()), data: { let mut s = String::from_str("server:panel:"); s.append(operation); s.append(":confirm:"); let t = format_i64(id); s.append(t.as_str()); assert(s@ =~= "server:panel:"@ + operation@ + ":confirm:"@ + decimal(id as int)); s } },
    ));
    push_row(&mut rows, row1(
        Button { label: Label::Text("↩️ Отмена".to_string()), data: with_id("server:panel:audit:", id) },
    ));
    let kb = Keyboard { rows };
    assert(kb@ =~= server_inventory_confirm_spec(id, operation@));
    kb
}

/// Starting maintenance of server `id`, with or without notice.
pub open spec fn server_maintenance_confirm_spec(id: i64) -> Seq<Seq<ButtonView>> {
    seq![
        seq![(LabelView::Text("📣 Уведомить владельцев и начать"@), "server:maintenance:notify:"@ + decimal(id as int))],
        seq![(LabelView::Text("🔕 Начать без рассылки"@), "server:maintenance:start:"@ + decimal(id as int))],
        seq![(LabelView::Text("❌ Отмена"@), "server:"@ + decimal(id as int))],
    ]
}

pub fn server_maintenance_confirm_menu(id: i64) -> (kb: Keyboard)
    ensures
        kb@ == server_maintenance_confirm_spec(id),
{
    let mut rows = no_rows();
    push_row(&mut rows, row1(
        Button { label: Label::Text("📣 Уведомить владельцев и начать".to_string()), data: with_id("server:maintenance:notify:", id) },
    ));
    push_row(&mut rows, row1(
        Button { label: Label::Text("🔕 Начать без рассылки".to_string()), data: with_id("server:maintenance:start:", id) },
    ));
    push_row(&mut rows, row1(
        Button { label: Label::Text("❌ Отмена".to_string()), data: with_id("server:", id) },
    ));
    let kb = Keyboard { rows };
    assert(kb@ =~= server_maintenance_confirm_spec(id));
    kb
}

/// Migrating server `id`: checks, a test configuration, then the switch.
pub open spec fn remote_migration_spec(id: i64) -> Seq<Seq<ButtonView>> {
    seq![
        seq![(LabelView::Text("🧪 Предварительная проверка"@), "server:migrate:preflight:"@ + decimal(id as int))],
        seq![(LabelView::Text("📍 Статус"@), "server:migrate:status:"@ + decimal(id as int))],
        seq![(LabelView::Text("🧪 Получить тестовый конфиг"@), "server:migrate:test:"@ + decimal(id as int))],
        seq![(LabelView::Text("✅ Тест работает — включить"@), "server:migrate:approve:"@ + decimal(id as int))],
        seq![(LabelView::Text("🚨 Начать миграцию"@), "server:migrate:ask:"@ + decimal(id as int))],
        seq![(LabelView::Text("↩️ Аварийный откат"@), "server:migrate:rollback:"@ + decimal(id as int))],
        seq![(LabelView::Text("⬅️ Карточка сервера"@), "server:"@ + decimal(id as int))],
    ]
}

pub fn remote_migration_menu(id: i64) -> (kb: Keyboard)
    ensures
        kb@ == remote_migration_spec(id),
{
    let mut rows = no_rows();
    push_row(&mut rows, row1(
        Button { label: Label::Text("🧪 Предварительная проверка".to_string()), data: with_id("server:migrate:preflight:", id) },
    ));
    push_row(&mut rows, row1(
        Button { label: Label::Text("📍 Статус".to_string()), data: with_id("server:migrate:status:", id) },
    ));
    push_row(&mut rows, row1(
        Button { label: Label::Text("🧪 Получить тестовый конфиг".to_string()), data: with_id("server:migrate:test:", id) },
    ));
    push_row(&mut rows, row1(
        Button { label: Label::Text("✅ Тест работает — включить".to_string()), data: with_id("server:migrate:approve:", id) },
    ));
    push_row(&mut rows, row1(
        Button { label: Label::Text("🚨 Начать миграцию".to_string()), data: with_id("server:migrate:ask:", id) },
    ));
    push_row(&mut rows, row1(
        Button { label: Label::Text("↩️ Аварийный откат".to_string()), data: with_id("server:migrate:rollback:", id) },
    ));
    push_row(&mut rows, row1(
        Button { label: Label::Text("⬅️ Карточка сервера".to_string()), data: with_id("server:", id) },
    ));
    let kb = Keyboard { rows };
    assert(kb@ =~= remote_migration_spec(id));
    kb
}

/// The last confirmation of a migration.
pub open spec fn remote_migration_confirm_spec(id: i64) -> Seq<Seq<ButtonView>> {
    seq![
        seq![(LabelView::Text("🚨 ДА, ЗАПУСТИТЬ"@), "server:migrate:run:"@ + decimal(id as int))],
        seq![(LabelView::Text("❌ Отмена"@), "server:migrate:"@ + decimal(id as int))],
    ]
}

pub fn remote_migration_confirm_menu(id: i64) -> (kb: Keyboard)
    ensures
        kb@ == remote_migration_confirm_spec(id),
{
    let mut rows = no_rows();
    push_row(&mut rows, row1(
        Button { label: Label::Text("🚨 ДА, ЗАПУСТИТЬ".to_string()), data: with_id("server:migrate:run:", id) },
    ));
    push_row(&mut rows, row1(
        Button { label: Label::Text("❌ Отмена".to_string()), data: with_id("server:migrate:", id) },
    ));
    let kb = Keyboard { rows };
    assert(kb@ =~= remote_migration_confirm_spec(id));
    kb
}

/// The local VPN service.
pub open spec fn vpn_service_spec() -> Seq<Seq<ButtonView>> {
    seq![
        seq![(LabelView::Text("🩺 Проверить состояние"@), "check"@)],
        seq![(LabelView::Text("🔬 Подробная диагностика"@), "diagnose"@)],
        seq![(LabelView::Text("🔁 Перезапустить VPN"@), "restart"@)],
        seq![(LabelView::Text("🧰 Восстановить модуль"@), "repair"@)],
        seq![(LabelView::Text("🔀 Переход локального сервера на AWG 1.0"@), "migration:local"@)],
        seq![(LabelView::Text("⬅️ Админ-панель"@), "admin:dashboard"@)],
    ]
}

pub fn vpn_service_menu() -> (kb: Keyboard)
    ensures
        kb@ == vpn_service_spec(),
{
    let mut rows = no_rows();
    push_row(&mut rows, row1(
        Button { label: Label::Text("🩺 Проверить состояние".to_string()), data: plain("check") },
    ));
    push_row(&mut rows, row1(
        Button { label: Label::Text("🔬 Подробная диагностика".to_string()), data: plain("diagnose") },
    ));
    push_row(&mut rows, row1(
        Button { label: Label::Text("🔁 Перезапустить VPN".to_string()), data: plain("restart") },
    ));
    push_row(&mut rows, row1(
        Button { label: Label::Text("🧰 Восстановить модуль".to_string()), data: plain("repair") },
    ));
    push_row(&mut rows, row1(
        Button { label: Label::Text("🔀 Переход локального сервера на AWG 1.0".to_string()), data: plain("migration:local") },
    ));
    push_row(&mut rows, row1(
        Button { label: Label::Text("⬅️ Админ-панель".to_string()), data: plain("admin:dashboard") },
    ));
    let kb = Keyboard { rows };
    assert(kb@ =~= vpn_service_spec());
    kb
}

/// Migrating the local server.
pub open spec fn local_migration_spec() -> Seq<Seq<ButtonView>> {
    seq![
        seq![(LabelView::Text("🧪 Предварительная проверка"@), "migration:preflight"@)],
        seq![(LabelView::Text("🚨 Начать миграцию"@), "migration:start"@)],
        seq![(LabelView::Text("📍 Статус миграции"@), "migration:status"@)],
        seq![(LabelView::Text("↩️ Аварийный откат к AWG 2.0"@), "migration:rollback"@)],
        seq![(LabelView::Text("⬅️ Управление VPN"@), "admin:vpn"@)],
    ]
}

pub fn local_migration_menu() -> (kb: Keyboard)
    ensures
        kb@ == local_migration_spec(),
{
    let mut rows = no_rows();
    push_row(&mut rows, row1(
        Button { label: Label::Text("🧪 Предварительная проверка".to_string()), data: plain("migration:preflight") },
    ));
    push_row(&mut rows, row1(
        Button { label: Label::Text("🚨 Начать миграцию".to_string()), data: plain("migration:start") },
    ));
    push_row(&mut rows, row1(
        Button { label: Label::Text("📍 Статус миграции".to_string()), data: plain("migration:status") },
    ));
    push_row(&mut rows, row1(
        Button { label: Label::Text("↩️ Аварийный откат к AWG 2.0".to_string()), data: plain("migration:rollback") },
    ));
    push_row(&mut rows, row1(
        Button { label: Label::Text("⬅️ Управление VPN".to_string()), data: plain("admin:vpn") },
    ));
    let kb = Keyboard { rows };
    assert(kb@ =~= local_migration_spec());
    kb
}

/// Creating keys.
pub open spec fn admin_create_spec() -> Seq<Seq<ButtonView>> {
    seq![
        seq![(LabelView::Text("➕ Создать один"@), "add"@), (LabelView::Text("📦 Создать оптом"@), "addbulk"@)],
        seq![(LabelView::Text("👤 Пользователи"@), "admin:owners"@), (LabelView::Text("🗂 Группы"@), "groups"@)],
        seq![(LabelView::Text("⬅️ Админ-панель"@), "admin:dashboard"@)],
    ]
}

pub fn admin_create_menu() -> (kb: Keyboard)
    ensures
        kb@ == admin_create_spec(),
{
    let mut rows = no_rows();
    push_row(&mut rows, row2(
        Button { label: Label::Text("➕ Создать один".to_string()), data: plain("add") },
        Button { label: Label::Text("📦 Создать оптом".to_string()), data: plain("addbulk") },
    ));
    push_row(&mut rows, row2(
        Button { label: Label::Text("👤 Пользователи".to_string()), data: plain("admin:owners") },
        Button { label: Label::Text("🗂 Группы".to_string()), data: plain("groups") },
    ));
    push_row(&mut rows, row1(
        Button { label: Label::Text("⬅️ Админ-панель".to_string()), data: plain("admin:dashboard") },
    ));
    let kb = Keyboard { rows };
    assert(kb@ =~= admin_create_spec());
    kb
}

/// Staff roles.
pub open spec fn admin_roles_spec() -> Seq<Seq<ButtonView>> {
    seq![
        seq![(LabelView::Text("➕ Добавить сотрудника"@), "admin:role:add"@)],
        seq![(LabelView::Text("➖ Убрать сотрудника"@), "admin:role:remove"@)],
        seq![(LabelView::Text("⬅️ Админ-панель"@), "admin:dashboard"@)],
    ]
}

pub fn admin_roles_menu() -> (kb: Keyboard)
    ensures
        kb@ == admin_roles_spec(),
{
    let mut rows = no_rows();
    push_row(&mut rows, row1(
        Button { label: Label::Text("➕ Добавить сотрудника".to_string()), data: plain("admin:role:add") },
    ));
    push_row(&mut rows, row1(
        Button { label: Label::Text("➖ Убрать сотрудника".to_string()), data: plain("admin:role:remove") },
    ));
    push_row(&mut rows, row1(
        Button { label: Label::Text("⬅️ Админ-панель".to_string()), data: plain("admin:dashboard") },
    ));
    let kb = Keyboard { rows };
    assert(kb@ =~= admin_roles_spec());
    kb
}

/// Promo codes.
pub open spec fn admin_promos_spec() -> Seq<Seq<ButtonView>> {
    seq![
        seq![(LabelView::Text("🎟 Создать скидочный"@), "admin:promo:discount"@)],
        seq![(LabelView::Text("♻️ Создать Legacy"@), "admin:promo:legacy"@)],
        seq![(LabelView::Text("♻️ Legacy-заявки"@), "admin:legacy"@)],
        seq![(LabelView::Text("⬅️ Цены и промокоды"@), "admin:commerce"@)],
    ]
}

pub fn admin_promos_menu() -> (kb: Keyboard)
    ensures
        kb@ == admin_promos_spec(),
{
    let mut rows = no_rows();
    push_row(&mut rows, row1(
        Button { label: Label::Text("🎟 Создать скидочный".to_string()), data: plain("admin:promo:discount") },
    ));
    push_row(&mut rows, row1(
        Button { label: Label::Text("♻️ Создать Legacy".to_string()), data: plain("admin:promo:legacy") },
    ));
    push_row(&mut rows, row1(
        Button { label: Label::Text("♻️ Legacy-заявки".to_string()), data: plain("admin:legacy") },
    ));
    push_row(&mut rows, row1(
        Button { label: Label::Text("⬅️ Цены и промокоды".to_string()), data: plain("admin:commerce") },
    ));
    let kb = Keyboard { rows };
    assert(kb@ =~= admin_promos_spec());
    kb
}

/// Prices and promotions.
pub open spec fn admin_commerce_spec() -> Seq<Seq<ButtonView>> {
    seq![
        seq![(LabelView::Text("₽ Тарифы"@), "admin:prices:rub"@), (LabelView::Text("⭐ Stars"@), "admin:prices:stars"@)],
        seq![(LabelView::Text("🎟 Промокоды"@), "admin:promos"@), (LabelView::Text("🤝 Реферальный %"@), "admin:referral"@)],
        seq![(LabelView::Text("♻️ Legacy-тариф"@), "legacy:price"@), (LabelView::Text("💳 Реквизиты"@), "set:payment"@)],
        seq![(LabelView::Text("🏦 Эквайринг / Т-Банк"@), "set:acquiring"@)],
        seq![(LabelView::Text("⬅️ Админ-панель"@), "admin:dashboard"@)],
    ]
}

pub fn admin_commerce_menu() -> (kb: Keyboard)
    ensures
        kb@ == admin_commerce_spec(),
{
    let mut rows = no_rows();
    push_row(&mut rows, row2(
        Button { label: Label::Text("₽ Тарифы".to_string()), data: plain("admin:prices:rub") },
        Button { label: Label::Text("⭐ Stars".to_string()), data: plain("admin:prices:stars") },
    ));
    push_row(&mut rows, row2(
        Button { label: Label::Text("🎟 Промокоды".to_string()), data: plain("admin:promos") },
        Button { label: Label::Text("🤝 Реферальный %".to_string()), data: plain("admin:referral") },
    ));
    push_row(&mut rows, row2(
        Button { label: Label::Text("♻️ Legacy-тариф".to_string()), data: plain("legacy:price") },
        Button { label: Label::Text("💳 Реквизиты".to_string()), data: plain("set:payment") },
    ));
    push_row(&mut rows, row1(
        Button { label: Label::Text("🏦 Эквайринг / Т-Банк".to_string()), data: plain("set:acquiring") },
    ));
    push_row(&mut rows, row1(
        Button { label: Label::Text("⬅️ Админ-панель".to_string()), data: plain("admin:dashboard") },
    ));
    let kb = Keyboard { rows };
    assert(kb@ =~= admin_commerce_spec());
    kb
}

/// Operations on all keys with a prefix.
pub open spec fn bulk_manage_spec() -> Seq<Seq<ButtonView>> {
    seq![
        seq![(LabelView::Text("⏸ Отключить по префиксу"@), "admin:bulk:disable"@)],
        seq![(LabelView::Text("▶️ Включить по префиксу"@), "admin:bulk:enable"@)],
        seq![(LabelView::Text("📅 Продлить по префиксу"@), "admin:bulk:extend"@)],
        seq![(LabelView::Text("⬅️ Админ-панель"@), "admin:dashboard"@)],
    ]
}

pub fn bulk_manage_menu() -> (kb: Keyboard)
    ensures
        kb@ == bulk_manage_spec(),
{
    let mut rows = no_rows();
    push_row(&mut rows, row1(
        Button { label: Label::Text("⏸ Отключить по префиксу".to_string()), data: plain("admin:bulk:disable") },
    ));
    push_row(&mut rows, row1(
        Button { label: Label::Text("▶️ Включить по префиксу".to_string()), data: plain("admin:bulk:enable") },
    ));
    push_row(&mut rows, row1(
        Button { label: Label::Text("📅 Продлить по префиксу".to_string()), data: plain("admin:bulk:extend") },
    ));
    push_row(&mut rows, row1(
        Button { label: Label::Text("⬅️ Админ-панель".to_string()), data: plain("admin:dashboard") },
    ));
    let kb = Keyboard { rows };
    assert(kb@ =~= bulk_manage_spec());
    kb
}

/// Confirming a prefix operation.
pub open spec fn bulk_confirm_spec() -> Seq<Seq<ButtonView>> {
    seq![
        seq![(LabelView::Text("✅ Подтвердить операцию"@), "admin:bulk:confirm"@)],
        seq![(LabelView::Text("❌ Отмена"@), "admin:bulk:menu"@)],
    ]
}

pub fn bulk_confirm_menu() -> (kb: Keyboard)
    ensures
        kb@ == bulk_confirm_spec(),
{
    let mut rows = no_rows();
    push_row(&mut rows, row1(
        Button { label: Label::Text("✅ Подтвердить операцию".to_string()), data: plain("admin:bulk:confirm") },
    ));
    push_row(&mut rows, row1(
        Button { label: Label::Text("❌ Отмена".to_string()), data: plain("admin:bulk:menu") },
    ));
    let kb = Keyboard { rows };
    assert(kb@ =~= bulk_confirm_spec());
    kb
}

/// Statistics.
pub open spec fn statistics_spec() -> Seq<Seq<ButtonView>> {
    seq![
        seq![(LabelView::Text("📊 Общая сводка"@), "stats"@)],
        seq![(LabelView::Text("📶 Подключения"@), "stats:traffic"@), (LabelView::Text("🖥 Серверы"@), "stats:servers"@)],
        seq![(LabelView::Text("👤 Пользователи"@), "stats:users"@), (LabelView::Text("💳 Подписки"@), "stats:subscriptions"@)],
        seq![(LabelView::Text("📈 Тарифы"@), "stats:tariffs"@), (LabelView::Text("💰 Доходы"@), "stats:finance"@)],
        seq![(LabelView::Text("🔑 Открыть ключи"@), "list"@), (LabelView::Text("🗂 Группы"@), "groups"@)],
    ]
}

pub fn statistics_menu() -> (kb: Keyboard)
    ensures
        kb@ == statistics_spec(),
{
    let mut rows = no_rows();
    push_row(&mut rows, row1(
        Button { label: Label::Text("📊 Общая сводка".to_string()), data: plain("stats") },
    ));
    push_row(&mut rows, row2(
        Button { label: Label::Text("📶 Подключения".to_string()), data: plain("stats:traffic") },
        Button { label: Label::Text("🖥 Серверы".to_string()), data: plain("stats:servers") },
    ));
    push_row(&mut rows, row2(
        Button { label: Label::Text("👤 Пользователи".to_string()), data: plain("stats:users") },
        Button { label: Label::Text("💳 Подписки".to_string()), data: plain("stats:subscriptions") },
    ));
    push_row(&mut rows, row2(
        Button { label: Label::Text("📈 Тарифы".to_string()), data: plain("stats:tariffs") },
        Button { label: Label::Text("💰 Доходы".to_string()), data: plain("stats:finance") },
    ));
    push_row(&mut rows, row2(
        Button { label: Label::Text("🔑 Открыть ключи".to_string()), data: plain("list") },
        Button { label: Label::Text("🗂 Группы".to_string()), data: plain("groups") },
    ));
    let kb = Keyboard { rows };
    assert(kb@ =~= statistics_spec());
    kb
}

/// A user's card: keys, payments, balance, note, discount, blocking.
pub open spec fn admin_user_spec(user_id: i64, blocked: bool) -> Seq<Seq<ButtonView>> {
    seq![
        seq![(LabelView::Text("🔑 Ключи"@), "admin:userkeys:"@ + decimal(user_id as int)), (LabelView::Text("💳 Платежи"@), "admin:userpay:"@ + decimal(user_id as int))],
        seq![(LabelView::Text("➕ Баланс"@), "admin:userbal:"@ + decimal(user_id as int)), (LabelView::Text("📝 Заметка"@), "admin:usernote:"@ + decimal(user_id as int))],
        seq![(LabelView::Text("🏷 Индивидуальная скидка"@), "admin:userdiscount:"@ + decimal(user_id as int))],
        seq![(if blocked { (LabelView::Text("✅ Разблокировать"@), "admin:userblock:"@ + decimal(user_id as int) + ":off"@) } else { (LabelView::Text("⛔ Заблокировать"@), "admin:userblock:"@ + decimal(user_id as int) + ":on"@) })],
        seq![(LabelView::Text("⬅️ Пользователи"@), "admin:owners"@)],
    ]
}

pub fn admin_user_menu(user_id: i64, blocked: bool) -> (kb: Keyboard)
    ensures
        kb@ == admin_user_spec(user_id, blocked),
{
    let mut rows = no_rows();
    push_row(&mut rows, row2(
        Button { label: Label::Text("🔑 Ключи".to_string()), data: with_id("admin:userkeys:", user_id) },
        Button { label: Label::Text("💳 Платежи".to_string()), data: with_id("admin:userpay:", user_id) },
    ));
    push_row(&mut rows, row2(
        Button { label: Label::Text("➕ Баланс".to_string()), data: with_id("admin:userbal:", user_id) },
        Button { label: Label::Text("📝 Заметка".to_string()), data: with_id("admin:usernote:", user_id) },
    ));
    push_row(&mut rows, row1(
        Button { label: Label::Text("🏷 Индивидуальная скидка".to_string()), data: with_id("admin:userdiscount:", user_id) },
    ));
    push_row(&mut rows, row1(
        if blocked { Button { label: Label::Text("✅ Разблокировать".to_string()), data: { let mut s = String::from_str("admin:userblock:"); let t = format_i64(user_id); s.append(t.as_str()); s.append(":off"); assert(s@ =~= "admin:userblock:"@ + decimal(user_id as int) + ":off"@); s } } } else { Button { label: Label::Text("⛔ Заблокировать".to_string()), data: { let mut s = String::from_str("admin:userblock:"); let t = format_i64(user_id); s.append(t.as_str()); s.append(":on"); assert(s@ =~= "admin:userblock:"@ + decimal(user_id as int) + ":on"@); s } } },
    ));
    push_row(&mut rows, row1(
        Button { label: Label::Text("⬅️ Пользователи".to_string()), data: plain("admin:owners") },
    ));
    let kb = Keyboard { rows };
    assert(kb@ =~= admin_user_spec(user_id, blocked));
    kb
}

/// Confirming the removal of all of a user's keys.
pub open spec fn admin_user_delete_keys_confirm_spec(user_id: i64) -> Seq<Seq<ButtonView>> {
    seq![
        seq![(LabelView::Text("🚨 Да, удалить все ключи"@), "admin:userkeys-delete-confirm:"@ + decimal(user_id as int))],
        seq![(LabelView::Text("Отмена"@), "admin:userkeys:"@ + decimal(user_id as int))],
    ]
}

pub fn admin_user_delete_keys_confirm_menu(user_id: i64) -> (kb: Keyboard)
    ensures
        kb@ == admin_user_delete_keys_confirm_spec(user_id),
{
    let mut rows = no_rows();
    push_row(&mut rows, row1(
        Button { label: Label::Text("🚨 Да, удалить все ключи".to_string()), data: with_id("admin:userkeys-delete-confirm:", user_id) },
    ));
    push_row(&mut rows, row1(
        Button { label: Label::Text("Отмена".to_string()), data: with_id("admin:userkeys:", user_id) },
    ));
    let kb = Keyboard { rows };
    assert(kb@ =~= admin_user_delete_keys_confirm_spec(user_id));
    kb
}

/// Approving or rejecting payment `id`.
pub open spec fn payment_admin_spec(id: i64) -> Seq<Seq<ButtonView>> {
    seq![
        seq![(LabelView::Text("✅ Одобрить"@), "pay:ok:"@ + decimal(id as int)), (LabelView::Text("❌ Отклонить"@), "pay:no:"@ + decimal(id as int))],
    ]
}

pub fn payment_admin_menu(id: i64) -> (kb: Keyboard)
    ensures
        kb@ == payment_admin_spec(id),
{
    let mut rows = no_rows();
    push_row(&mut rows, row2(
        Button { label: Label::Text("✅ Одобрить".to_string()), data: with_id("pay:ok:", id) },
        Button { label: Label::Text("❌ Отклонить".to_string()), data: with_id("pay:no:", id) },
    ));
    let kb = Keyboard { rows };
    assert(kb@ =~= payment_admin_spec(id));
    kb
}

/// Working on support ticket `id`.
pub open spec fn support_ticket_spec(id: i64) -> Seq<Seq<ButtonView>> {
    seq![
        seq![(LabelView::Text("🙋 Взять в работу"@), "support:take:"@ + decimal(id as int))],
        seq![(LabelView::Text("✉️ Ответить"@), "support:reply:"@ + decimal(id as int)), (LabelView::Text("✅ Закрыть"@), "support:close:"@ + decimal(id as int))],
        seq![(LabelView::Text("Обычный"@), "support:priority:"@ + decimal(id as int) + ":normal"@), (LabelView::Text("Высокий"@), "support:priority:"@ + decimal(id as int) + ":high"@), (LabelView::Text("Срочный"@), "support:priority:"@ + decimal(id as int) + ":urgent"@)],
        seq![(LabelView::Text("⬅️ Обращения"@), "admin:support"@)],
    ]
}

pub fn support_ticket_menu(id: i64) -> (kb: Keyboard)
    ensures
        kb@ == support_ticket_spec(id),
{
    let mut rows = no_rows();
    push_row(&mut rows, row1(
        Button { label: Label::Text("🙋 Взять в работу".to_string()), data: with_id("support:take:", id) },
    ));
    push_row(&mut rows, row2(
        Button { label: Label::Text("✉️ Ответить".to_string()), data: with_id("support:reply:", id) },
        Button { label: Label::Text("✅ Закрыть".to_string()), data: with_id("support:close:", id) },
    ));
    push_row(&mut rows, row3(
        Button { label: Label::Text("Обычный".to_string()), data: { let mut s = String::from_str("support:priority:"); let t = format_i64(id); s.append(t.as_str()); s.append(":normal"); assert(s@ =~= "support:priority:"@ + decimal(id as int) + ":normal"@); s } },
        Button { label: Label::Text("Высокий".to_string()), data: { let mut s = String::from_str("support:priority:"); let t = format_i64(id); s.append(t.as_str()); s.append(":high"); assert(s@ =~= "support:priority:"@ + decimal(id as int) + ":high"@); s } },
        Button { label: Label::Text("Срочный".to_string()), data: { let mut s = String::from_str("support:priority:"); let t = format_i64(id); s.append(t.as_str()); s.append(":urgent"); assert(s@ =~= "support:priority:"@ + decimal(id as int) + ":urgent"@); s } },
    ));
    push_row(&mut rows, row1(
        Button { label: Label::Text("⬅️ Обращения".to_string()), data: plain("admin:support") },
    ));
    let kb = Keyboard { rows };
    assert(kb@ =~= support_ticket_spec(id));
    kb
}

/// Finance.
pub open spec fn finance_spec() -> Seq<Seq<ButtonView>> {
    seq![
        seq![(LabelView::Text("📥 Скачать CSV"@), "finance:export"@)],
        seq![(LabelView::Text("⬅️ Админ-панель"@), "admin:dashboard"@)],
    ]
}

pub fn finance_menu() -> (kb: Keyboard)
    ensures
        kb@ == finance_spec(),
{
    let mut rows = no_rows();
    push_row(&mut rows, row1(
        Button { label: Label::Text("📥 Скачать CSV".to_string()), data: plain("finance:export") },
    ));
    push_row(&mut rows, row1(
        Button { label: Label::Text("⬅️ Админ-панель".to_string()), data: plain("admin:dashboard") },
    ));
    let kb = Keyboard { rows };
    assert(kb@ =~= finance_spec());
    kb
}

/// Choosing who a broadcast reaches.
pub open spec fn broadcast_audience_spec() -> Seq<Seq<ButtonView>> {
    seq![
        seq![(LabelView::Text("👥 Все"@), "broadcast:audience:all"@), (LabelView::Text("✅ С активными ключами"@), "broadcast:audience:active"@)],
        seq![(LabelView::Text("⏳ Истекают за 7 дней"@), "broadcast:audience:expiring"@), (LabelView::Text("🆕 Без ключей"@), "broadcast:audience:nokeys"@)],
        seq![(LabelView::Text("⬅️ Админ-панель"@), "admin:dashboard"@)],
    ]
}

pub fn broadcast_audience_menu() -> (kb: Keyboard)
    ensures
        kb@ == broadcast_audience_spec(),
{
    let mut rows = no_rows();
    push_row(&mut rows, row2(
        Button { label: Label::Text("👥 Все".to_string()), data: plain("broadcast:audience:all") },
        Button { label: Label::Text("✅ С активными ключами".to_string()), data: plain("broadcast:audience:active") },
    ));
    push_row(&mut rows, row2(
        Button { label: Label::Text("⏳ Истекают за 7 дней".to_string()), data: plain("broadcast:audience:expiring") },
        Button { label: Label::Text("🆕 Без ключей".to_string()), data: plain("broadcast:audience:nokeys") },
    ));
    push_row(&mut rows, row1(
        Button { label: Label::Text("⬅️ Админ-панель".to_string()), data: plain("admin:dashboard") },
    ));
    let kb = Keyboard { rows };
    assert(kb@ =~= broadcast_audience_spec());
    kb
}

} // verus!
