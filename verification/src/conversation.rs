//! What the bot does with a pressed button and with a typed message, before
//! and around the work on the store and the VPN service: the checks that
//! come first, the replies it owes, the dialog it opens or leaves, and the
//! commands the caller performs.

use vstd::prelude::*;
use vstd::string::*;
use crate::action::{Action, ActionView};
use crate::admission::{admission_spec, admit_callback, Admission};
use crate::auth::{Role, RoleView};
use crate::handlers::{is_customer_navigation, is_navigation, trim, trimmed};
use crate::inputs::{
    invite_of, referrer_of, reply_target, reply_target_of, role_command, role_command_of,
    start_invite, start_referrer, topup_of, topup_rubles,
};
use crate::inputs::{
    bounded_of, bounded_text, decline_reason, note_input, note_of, GROUP_NAME_LIMIT, REASON_LIMIT,
};
use crate::owner_inputs::{
    admin_id_input, admin_id_of, instructions_input, instructions_of, quota_input, quota_of,
};
use crate::routes::{
    customer_screen, customer_screen_of, owner_screen, owner_screen_of, staff_screen,
    staff_screen_of, CustomerScreen, OwnerScreen, StaffScreen,
};
use crate::state::{State, StateView};
use crate::store::Store;
use crate::text::str_eq;
use crate::customer_menus::{
    customer_refresh_confirm_menu, customer_refresh_confirm_spec, instructions_menu, instructions_spec,
    renew_method_menu, renew_method_spec,
};
use crate::handlers::{tariff_days, tariff_duration};
use crate::keyboard::{ButtonView, Keyboard};
use crate::numbers::{decimal, format_i64};
use crate::admin_menus::{
    server_card_menu, server_card_spec,
    admin_communication_hub, admin_communication_hub_spec, admin_create_menu, admin_create_spec, admin_dashboard_menu, admin_dashboard_spec, admin_keys_hub, admin_keys_hub_spec, admin_promos_menu, admin_promos_spec, admin_roles_menu, admin_roles_spec, admin_users_hub, admin_users_hub_spec, admin_system_hub, admin_system_hub_spec, bulk_manage_menu, bulk_manage_spec, broadcast_audience_menu, broadcast_audience_spec, broadcast_templates_menu, broadcast_templates_spec, local_migration_menu, local_migration_spec, vpn_service_menu, vpn_service_spec,
};

verus! {

/// A message the bot sends; the caller renders it in the user's language.
#[derive(Debug, Clone, Copy, PartialEq, Eq, Structural)]
pub enum Notice {
    /// The bot works only in private chats.
    PrivateOnly,
    /// "⛔ Доступ к боту приостановлен. Обратитесь в поддержку."
    Suspended,
    /// The reply to a button the bot does not know.
    UnknownAction,
    AskGroupName,
    AskGroupQuota,
    AskAdminId,
    /// "Введите технический промокод:"
    AskCustomerPromo,
    /// "Введите сумму от 100 до 100000 рублей."
    TopupRange,
    BadGroupQuota,
    BadAdminId,
    /// The right to restore old keys was confirmed.
    LegacyPromoConfirmed,
    /// A discount promo code of this many percent was activated.
    PromoActivated(i64),
    /// The promo code is unknown, expired, used up or used before.
    PromoNotFound,
    /// A note may hold at most 500 characters.
    NoteTooLong,
    /// A reason must hold 1 to 500 characters.
    ReasonLength,
    /// Payment instructions must hold 1 to 1000 bytes.
    InstructionsLength,
    /// A group name must hold 1 to 32 characters.
    BadGroupName,
}

/// A command for the caller, which performs it (sending, the store, the VPN
/// service) and, where stated, reports the outcome back.
pub enum BotCommand {
    /// Acknowledge the pressed button.
    AnswerCallback,
    /// Send `text` (as HTML when `html`), with `keyboard` under it.
    Say { text: String, keyboard: Option<Keyboard>, html: bool },
    /// Record the user and their name; with the user a `/start ref_<id>`
    /// names as inviter (kept by the store only for a registered user).
    RecordUser { referrer: Option<i64> },
    Send(Notice),
    /// Set the chat's dialog state.
    SetDialog(State),
    /// Carry out the admitted action on the store and the VPN service.
    Perform(Action),
    /// Join the group this invite token opens.
    UseInvite(String),
    /// Set (or, with `None`, remove) the staff role of `user`.
    SetStaffRole { user: i64, role: Option<String> },
    /// Start answering the support request of `user`.
    StartReply(i64),
    OpenOwner(OwnerScreen),
    OpenStaff(StaffScreen),
    OpenCustomer(CustomerScreen),
    /// Try the text as a promo code; `promo_outcome` says what to answer.
    ActivatePromo(String),
    /// Create a top-up request of this many rubles; when it is created the
    /// caller shows it and returns the dialog to `Idle`.
    CreateTopup(i64),
    /// Set a group's quota (`None`: no limit) and tell whether it changed.
    SetGroupQuota { id: i64, quota: Option<i64> },
    /// Make `user` an administrator of group `id` and tell whether they were
    /// added or already were one.
    AddGroupAdmin { id: i64, user: i64 },
    /// Save (or, with `None`, clear) the owner's note on a user; the dialog
    /// ends when it was saved.
    SaveUserNote { user_id: i64, note: Option<String> },
    /// Decline request `id` for old keys with `reason`, telling its user.
    RejectLegacyRequest { id: i64, reason: String },
    SetPaymentInstructions(String),
    /// Create a group of this name (the dialog ends unless the name is taken).
    CreateGroup(String),
    RenameGroup { id: i64, name: String },
    /// Ask the store; the answer comes back as `ActionEvent::Checked`.
    Check(StoreCheck),
    /// Make this server the source of new keys.
    SetDefaultServer(i64),
    /// Assign support request `id` to the user who pressed the button.
    AssignTicket(i64),
    /// Run a job of the VPN service; its output or error comes back as
    /// `ActionEvent::Ran`.
    RunVpn(VpnJob),
    /// Read a number from the store; it comes back as `ActionEvent::Found`.
    Look(StoreLookup),
    /// Save the four tariff prices (kopecks, or Telegram Stars).
    SetTariffPrices { stars: bool, prices: [i64; 4] },
    /// Save the referral reward in percent.
    SetReferralPercent(u8),
    /// Save (or, with `None`, clear) the note on a key; the store answers
    /// whether it changed, as `DialogEvent::Saved`.
    SaveClientNote { name: String, note: Option<String> },
    /// Forget that the users were told of the local migration.
    ResetMigrationNotice,
    /// Record the local migration (`start`) or its rollback in the event log.
    LogLocalMigration { start: bool },
    /// Record in the event log that `user` was given `role` ("remove": none).
    LogRoleChange { user: i64, role: String },
    /// Create a promo code (an old-key code when `legacy`); the store answers
    /// whether it was created, as `DialogEvent::Saved`.
    CreatePromo { legacy: bool, code: String, percent: i64, max_uses: Option<i64> },
    /// The dialog in this state takes the message: the caller handles it.
    Continue,
    /// Show the start menu (the language choice first, where none was made).
    ShowMenu,
}

/// A question to the store, answered yes or no.
#[derive(Debug, Clone, Copy, PartialEq, Eq, Structural)]
pub enum StoreCheck {
    /// The server exists.
    ServerExists(i64),
    /// Revoke the server's open enrollment invitations: whether one was open.
    RevokeEnrollments(i64),
    /// The server is online and enabled for new keys.
    ServerReady(i64),
    /// The payment request is the user's own and still pending.
    OwnPendingPayment(i64),
    /// The key that the action names belongs to the user.
    CallerOwnsKey,
}

/// A number the store is asked for.
#[derive(Debug, Clone, Copy, PartialEq, Eq, Structural)]
pub enum StoreLookup {
    /// The user who opened support request `id`, if it exists.
    TicketUser(i64),
    /// The referral reward in percent.
    ReferralPercent,
}

/// A job of the VPN service that an action starts.
#[derive(Debug, Clone, Copy, PartialEq, Eq, Structural)]
pub enum VpnJob {
    /// Check that the local server can be migrated.
    LocalMigrationPreflight,
    /// Read the state of the local migration.
    LocalMigrationStatus,
    /// Go back to the previous bot binary.
    UpdateRollback,
    /// Schedule the bot's self-update.
    ScheduleUpdate,
    /// Start the local migration.
    LocalMigrationStart,
    /// Roll the local migration back.
    LocalMigrationRollback,
}

pub enum CommandView {
    AnswerCallback,
    Say { text: Seq<char>, keyboard: Option<Seq<Seq<ButtonView>>>, html: bool },
    RecordUser { referrer: Option<i64> },
    Send(Notice),
    SetDialog(StateView),
    Perform(ActionView),
    UseInvite(Seq<char>),
    SetStaffRole { user: i64, role: Option<Seq<char>> },
    StartReply(i64),
    OpenOwner(OwnerScreen),
    OpenStaff(StaffScreen),
    OpenCustomer(CustomerScreen),
    ActivatePromo(Seq<char>),
    CreateTopup(i64),
    SetGroupQuota { id: i64, quota: Option<i64> },
    AddGroupAdmin { id: i64, user: i64 },
    SaveUserNote { user_id: i64, note: Option<Seq<char>> },
    RejectLegacyRequest { id: i64, reason: Seq<char> },
    SetPaymentInstructions(Seq<char>),
    CreateGroup(Seq<char>),
    RenameGroup { id: i64, name: Seq<char> },
    Check(StoreCheck),
    SetDefaultServer(i64),
    AssignTicket(i64),
    RunVpn(VpnJob),
    Look(StoreLookup),
    SetTariffPrices { stars: bool, prices: Seq<int> },
    SetReferralPercent(u8),
    SaveClientNote { name: Seq<char>, note: Option<Seq<char>> },
    ResetMigrationNotice,
    LogLocalMigration { start: bool },
    LogRoleChange { user: i64, role: Seq<char> },
    CreatePromo { legacy: bool, code: Seq<char>, percent: i64, max_uses: Option<i64> },
    Continue,
    ShowMenu,
}

pub open spec fn command_view(c: BotCommand) -> CommandView {
    match c {
        BotCommand::AnswerCallback => CommandView::AnswerCallback,
        BotCommand::Say { text, keyboard, html } => CommandView::Say {
            text: text@,
            keyboard: match keyboard {
                Some(kb) => Some(kb@),
                None => None,
            },
            html,
        },
        BotCommand::RecordUser { referrer } => CommandView::RecordUser { referrer },
        BotCommand::Send(n) => CommandView::Send(n),
        BotCommand::SetDialog(s) => CommandView::SetDialog(s@),
        BotCommand::Perform(a) => CommandView::Perform(a@),
        BotCommand::UseInvite(t) => CommandView::UseInvite(t@),
        BotCommand::SetStaffRole { user, role } => CommandView::SetStaffRole {
            user,
            role: match role {
                Some(r) => Some(r@),
                None => None,
            },
        },
        BotCommand::StartReply(u) => CommandView::StartReply(u),
        BotCommand::OpenOwner(s) => CommandView::OpenOwner(s),
        BotCommand::OpenStaff(s) => CommandView::OpenStaff(s),
        BotCommand::OpenCustomer(s) => CommandView::OpenCustomer(s),
        BotCommand::ActivatePromo(t) => CommandView::ActivatePromo(t@),
        BotCommand::CreateTopup(r) => CommandView::CreateTopup(r),
        BotCommand::SetGroupQuota { id, quota } => CommandView::SetGroupQuota { id, quota },
        BotCommand::AddGroupAdmin { id, user } => CommandView::AddGroupAdmin { id, user },
        BotCommand::SaveUserNote { user_id, note } => CommandView::SaveUserNote {
            user_id,
            note: match note {
                Some(n) => Some(n@),
                None => None,
            },
        },
        BotCommand::RejectLegacyRequest { id, reason } => CommandView::RejectLegacyRequest {
            id,
            reason: reason@,
        },
        BotCommand::SetPaymentInstructions(t) => CommandView::SetPaymentInstructions(t@),
        BotCommand::CreateGroup(n) => CommandView::CreateGroup(n@),
        BotCommand::RenameGroup { id, name } => CommandView::RenameGroup { id, name: name@ },
        BotCommand::Check(c) => CommandView::Check(c),
        BotCommand::SetDefaultServer(id) => CommandView::SetDefaultServer(id),
        BotCommand::AssignTicket(id) => CommandView::AssignTicket(id),
        BotCommand::RunVpn(job) => CommandView::RunVpn(job),
        BotCommand::Look(l) => CommandView::Look(l),
        BotCommand::SetTariffPrices { stars, prices } => CommandView::SetTariffPrices {
            stars,
            prices: prices@.map_values(|v: i64| v as int),
        },
        BotCommand::SetReferralPercent(p) => CommandView::SetReferralPercent(p),
        BotCommand::SaveClientNote { name, note } => CommandView::SaveClientNote {
            name: name@,
            note: match note {
                Some(n) => Some(n@),
                None => None,
            },
        },
        BotCommand::ResetMigrationNotice => CommandView::ResetMigrationNotice,
        BotCommand::LogLocalMigration { start } => CommandView::LogLocalMigration { start },
        BotCommand::LogRoleChange { user, role } => CommandView::LogRoleChange { user, role: role@ },
        BotCommand::CreatePromo { legacy, code, percent, max_uses } => CommandView::CreatePromo {
            legacy,
            code: code@,
            percent,
            max_uses,
        },
        BotCommand::Continue => CommandView::Continue,
        BotCommand::ShowMenu => CommandView::ShowMenu,
    }
}

pub open spec fn commands_view(v: Seq<BotCommand>) -> Seq<CommandView> {
    v.map_values(|c: BotCommand| command_view(c))
}

proof fn lemma_commands_view_push(v: Seq<BotCommand>, c: BotCommand)
    ensures
        commands_view(v.push(c)) == commands_view(v).push(command_view(c)),
{
    assert(commands_view(v.push(c)) =~= commands_view(v).push(command_view(c)));
}

pub(crate) fn push_command(out: &mut Vec<BotCommand>, c: BotCommand)
    ensures
        commands_view(final(out)@) == commands_view(old(out)@).push(command_view(c)),
{
    proof {
        lemma_commands_view_push(out@, c);
    }
    out.push(c);
}

// ---------------------------------------------------------------------------
// A pressed button
// ---------------------------------------------------------------------------

/// What arrives with a pressed button.
#[derive(Debug, Clone, Copy, PartialEq, Eq, Structural)]
pub struct Press {
    /// The button still belongs to a message.
    pub has_message: bool,
    /// That message is in a private chat.
    pub private: bool,
    /// The user is blocked.
    pub blocked: bool,
}

/// What an admitted action does at once: the buttons that ask for input
/// open their dialog with its question; an unknown button is answered as
/// such; every other action is carried out by the caller.
#[verifier::opaque]
pub open spec fn action_commands(a: ActionView) -> Seq<CommandView> {
    match a {
        ActionView::Unknown => seq![CommandView::Send(Notice::UnknownAction)],
        ActionView::PromoInput => seq![
            CommandView::Send(Notice::AskCustomerPromo),
            CommandView::SetDialog(StateView::AwaitingCustomerPromo),
        ],
        ActionView::GroupCreate => seq![
            CommandView::Send(Notice::AskGroupName),
            CommandView::SetDialog(StateView::AwaitingGroupName),
        ],
        ActionView::GroupRenameAsk(id) => seq![
            CommandView::Send(Notice::AskGroupName),
            CommandView::SetDialog(StateView::AwaitingGroupRename { id }),
        ],
        ActionView::GroupQuotaAsk(id) => seq![
            CommandView::Send(Notice::AskGroupQuota),
            CommandView::SetDialog(StateView::AwaitingGroupQuota { id }),
        ],
        ActionView::GroupAdminById(id) => seq![
            CommandView::Send(Notice::AskAdminId),
            CommandView::SetDialog(StateView::AwaitingGroupAdminId { id }),
        ],
        _ => match action_reply(a) {
            Some(commands) => commands,
            None => seq![CommandView::Perform(a)],
        },
    }
}

/// The reply of the buttons that only show a section or ask for input: the
/// text, its keyboard, and the dialog they open. `None` for the others.
#[verifier::opaque]
pub open spec fn action_reply(a: ActionView) -> Option<Seq<CommandView>> {
    match a {
        ActionView::AdminVpn => Some(seq![CommandView::Say { text: "🛡 Управление VPN-службой\n\nПроверка показывает состояние systemd-юнита, интерфейса, порта, маршрутизации, firewall и клиентов. Диагностика формирует подробный технический отчёт.\n\nПерезапуск кратковременно разорвёт активные VPN-соединения и требует подтверждения."@, keyboard: Some(vpn_service_spec()), html: false }]),
        ActionView::AdminKeys => Some(seq![CommandView::Say { text: "🔑 Ключи\n\nСоздание, владельцы, группы, восстановление и массовое управление."@, keyboard: Some(admin_keys_hub_spec()), html: false }]),
        ActionView::AdminUsersHub => Some(seq![CommandView::Say { text: "👥 Пользователи\n\nCRM-карточки, поиск и роли сотрудников."@, keyboard: Some(admin_users_hub_spec()), html: false }]),
        ActionView::AdminCommunication => Some(seq![CommandView::Say { text: "💬 Связь\n\nТехническая поддержка и рассылки пользователям."@, keyboard: Some(admin_communication_hub_spec()), html: false }]),
        ActionView::ServerAdd => Some(seq![CommandView::Say { text: "🧭 Мастер подключения нового сервера\n\nШаг 1 из 3. Отправьте понятное название сервера, например: Netherlands 3.0\n\nПосле создания мастер предложит автоматическую установку AWG 1.0, подключение панели или безопасную bootstrap-команду."@, keyboard: None, html: false }, CommandView::SetDialog(StateView::AwaitingServerWizardName)]),
        ActionView::LocalMigration => Some(seq![CommandView::Say { text: "🔀 Миграция локального сервера: AWG 2.0 → AWG 1.0\n\nОперация перевыпустит все VPN-конфигурации, временно остановит VPN и дважды перезагрузит сервер. Владельцы, группы и сроки сохраняются по прежним именам ключей. Старые пользовательские конфигурации перестанут работать.\n\nСначала обязательно выполните предварительную проверку."@, keyboard: Some(local_migration_spec()), html: false }]),
        ActionView::AdminCreate => Some(seq![CommandView::Say { text: "➕ Создание ключей\n\nВыберите одиночное создание или пакет. После создания ключ можно привязать к пользователю и группе из его карточки."@, keyboard: Some(admin_create_spec()), html: false }]),
        ActionView::AdminBroadcast => Some(seq![CommandView::Say { text: "Выберите получателей рассылки:"@, keyboard: Some(broadcast_audience_spec()), html: false }]),
        ActionView::AdminBroadcastTemplates => Some(seq![CommandView::Say { text: "📝 Шаблоны рассылок\n\nНажмите на текст сообщения, чтобы быстро выделить и скопировать. Перед отправкой замените значения в {фигурных скобках}.\n\n<pre>⚠️ Технические работы\n\n{дата} с {начало} до {конец} возможны перерывы подключения на сервере {страна}. После завершения ничего переустанавливать не нужно.</pre>\n\n<pre>🔑 Требуется замена ключа\n\nВаш старый ключ на сервере {страна} больше не работает. Откройте «Мои ключи», выберите его и нажмите «Заменить нерабочий ключ».</pre>\n\n<pre>✅ Новый сервер доступен\n\nДобавлена локация {страна} на AWG 1.0. Приобрести подключение можно в разделе «Купить ключ».</pre>\n\n<pre>💳 Напоминание об оплате\n\nСрок ключа {ключ} истекает {дата}. Продлить его можно из карточки ключа.</pre>"@, keyboard: Some(broadcast_templates_spec()), html: true }]),
        ActionView::AdminHelp => Some(seq![CommandView::Say { text: "ℹ️ Навигация\n\n➕ Создать ключ — один новый клиент\n📦 Создать оптом — пакет последовательных ключей\n📊 Статистика — трафик, активность, лидеры и подразделы\n🔎 Поиск — ключи и владельцы\n🧰 Массовое управление — включение, отключение и продление по префиксу\n🧑‍💼 Роли — назначение сотрудников\n\nВсе основные действия выполняются кнопками; текстовые команды оставлены только для совместимости."@, keyboard: Some(admin_dashboard_spec()), html: false }]),
        ActionView::AdminPromos => Some(seq![CommandView::Say { text: "🎟 Управление промокодами\n\nСкидочный код уменьшает цену одной следующей покупки. Legacy-код подтверждает право пользователя подавать неограниченное количество заявок на ранее купленные лично у администратора ключи до 01.12.2026."@, keyboard: Some(admin_promos_spec()), html: false }]),
        ActionView::AdminPricesRub => Some(seq![CommandView::Say { text: "Введите четыре цены в рублях для 1 / 3 / 6 / 12 месяцев через пробел.\nНапример: 200 600 1000 2000"@, keyboard: None, html: false }, CommandView::SetDialog(StateView::AwaitingTariffPricesRub)]),
        ActionView::AdminPricesStars => Some(seq![CommandView::Say { text: "Введите четыре цены в Telegram Stars для 1 / 3 / 6 / 12 месяцев через пробел.\nНапример: 100 250 450 800\n\nДо сохранения оплата Stars недоступна."@, keyboard: None, html: false }, CommandView::SetDialog(StateView::AwaitingTariffPricesStars)]),
        ActionView::AdminSearch => Some(seq![CommandView::Say { text: "Введите имя ключа, устройство, Telegram ID или username владельца:"@, keyboard: None, html: false }, CommandView::SetDialog(StateView::AwaitingAdminSearch)]),
        ActionView::AdminRoles => Some(seq![CommandView::Say { text: "🧑‍💼 Управление ролями\nВыберите действие:"@, keyboard: Some(admin_roles_spec()), html: false }]),
        ActionView::AdminUserBalance(user_id) => Some(seq![CommandView::Say { text: "Введите сумму и причину.\nПополнение: 500 Бонус за перенос\nСписание: -200 Возврат ошибочного начисления"@, keyboard: None, html: false }, CommandView::SetDialog(StateView::AwaitingUserBalance { user_id })]),
        ActionView::AdminUserDiscount(user_id) => Some(seq![CommandView::Say { text: "Введите скидку в процентах: 25 — бессрочно; 25 2027-12-31 — до даты; clear — удалить."@, keyboard: None, html: false }, CommandView::SetDialog(StateView::AwaitingUserDiscount { user_id })]),
        ActionView::AdminUserNote(user_id) => Some(seq![CommandView::Say { text: "Введите внутреннюю заметку (до 500 символов). Для удаления отправьте clear."@, keyboard: None, html: false }, CommandView::SetDialog(StateView::AwaitingUserNote { user_id })]),
        _ => step_reply(a),
    }
}

/// The reply of the buttons that answer with a numbered text or ask the
/// store first.
#[verifier::opaque]
pub open spec fn step_reply(a: ActionView) -> Option<Seq<CommandView>> {
    match a {
        ActionView::SupportTake(id) => Some(seq![
            CommandView::AssignTicket(id),
            CommandView::Say {
                text: "✅ Обращение #"@ + decimal(id as int) + " назначено вам."@,
                keyboard: None,
                html: false,
            },
        ]),
        ActionView::ServerBillingAsk(id) => Some(seq![CommandView::Check(StoreCheck::ServerExists(id))]),
        ActionView::ServerEnrollRevoke(id) => Some(seq![CommandView::Check(StoreCheck::RevokeEnrollments(id))]),
        ActionView::ServerSetDefault(id) => Some(seq![CommandView::Check(StoreCheck::ServerReady(id))]),
        ActionView::BuyPaid(id) => Some(seq![CommandView::Check(StoreCheck::OwnPendingPayment(id))]),
        ActionView::PaymentReject(id) => Some(seq![
            CommandView::Say {
                text: "Укажите причину отказа по заявке #"@ + decimal(id as int) + ":"@,
                keyboard: None,
                html: false,
            },
            CommandView::SetDialog(StateView::AwaitingPaymentReject { id }),
        ]),
        ActionView::LegacyRequestReject(id) => Some(seq![
            CommandView::Say {
                text: "Введите причину отказа по заявке #"@ + decimal(id as int) + ":"@,
                keyboard: None,
                html: false,
            },
            CommandView::SetDialog(StateView::AwaitingLegacyReject { id }),
        ]),

        _ => more_reply(a),
    }
}

/// The reply of the buttons that open a screen, read the store or start a
/// job of the VPN service.
#[verifier::opaque]
pub open spec fn start_reply(a: ActionView) -> Option<Seq<CommandView>> {
    match a {
        ActionView::AdminDashboard => Some(seq![CommandView::OpenOwner(OwnerScreen::Dashboard)]),
        ActionView::AdminFinance => Some(seq![CommandView::OpenOwner(OwnerScreen::Finance)]),
        ActionView::AdminOwners => Some(seq![CommandView::OpenOwner(OwnerScreen::Owners)]),
        ActionView::AdminSupport => Some(seq![CommandView::OpenOwner(OwnerScreen::Support)]),
        ActionView::SupportReply(id) => Some(seq![CommandView::Look(StoreLookup::TicketUser(id))]),
        ActionView::AdminReferral => Some(seq![CommandView::Look(StoreLookup::ReferralPercent)]),
        ActionView::LocalMigrationPreflight => Some(seq![CommandView::RunVpn(VpnJob::LocalMigrationPreflight)]),
        ActionView::LocalMigrationStatus => Some(seq![CommandView::RunVpn(VpnJob::LocalMigrationStatus)]),
        ActionView::AdminUpdateRollback => Some(seq![CommandView::RunVpn(VpnJob::UpdateRollback)]),
        ActionView::AdminUpdateRun => Some(seq![
            CommandView::Say { text: "⏳ Обновление запущено. Бот вернётся после автоматического перезапуска. Статус: systemctl status awgram-self-update"@, keyboard: None, html: false },
            CommandView::RunVpn(VpnJob::ScheduleUpdate),
        ]),
        ActionView::DeviceLabelAsk(_) | ActionView::CustomerRefresh(_) | ActionView::RenewTerm(_, _) => Some(seq![CommandView::Check(StoreCheck::CallerOwnsKey)]),

        _ => None,
    }
}

/// The reply of the buttons that ask for a named input, show a guide or
/// start a job of the VPN service.
#[verifier::opaque]
pub open spec fn more_reply(a: ActionView) -> Option<Seq<CommandView>> {
    match a {
        ActionView::Guide(kind) => Some(seq![CommandView::Say { text: guide_text(kind), keyboard: Some(instructions_spec()), html: false }]),
        ActionView::AdminPromoAction(kind) => Some(if kind == "discount"@ || kind == "legacy"@ {
            seq![
                CommandView::Say { text: if kind == "legacy"@ { "Введите CODE [MAX_USES].\nПример: RESTORE2026 50"@ } else { "Введите CODE PERCENT [MAX_USES].\nПример: FRIEND25 25 100"@ }, keyboard: None, html: false },
                CommandView::SetDialog(StateView::AwaitingPromoCode { kind }),
            ]
        } else {
            Seq::empty()
        }),
        ActionView::AdminRoleAction(operation) => Some(if operation == "add"@ || operation == "remove"@ {
            seq![
                CommandView::Say { text: if operation == "add"@ { "Введите Telegram ID и роль: technical, support или finance.\nПример: 123456789 support"@ } else { "Введите Telegram ID сотрудника, у которого нужно убрать роль."@ }, keyboard: None, html: false },
                CommandView::SetDialog(StateView::AwaitingStaffRole { operation }),
            ]
        } else {
            Seq::empty()
        }),
        ActionView::AdminBulk(operation) => Some(if operation == "menu"@ {
            seq![CommandView::Say { text: "🧰 Массовое управление ключами\nВыберите операцию:"@, keyboard: Some(bulk_manage_spec()), html: false }]
        } else if operation == "disable"@ || operation == "enable"@ || operation == "extend"@ {
            seq![
                CommandView::Say { text: if operation == "extend"@ { "Введите префикс и срок, например: client 30d"@ } else { "Введите префикс имён ключей, например: client"@ }, keyboard: None, html: false },
                CommandView::SetDialog(StateView::AwaitingBulkManage { operation }),
            ]
        } else {
            Seq::empty()
        }),
        ActionView::ClientNoteAsk(name) => Some(seq![
            CommandView::Say { text: "Введите внутреннюю заметку для ключа "@ + name + ". Для удаления отправьте clear."@, keyboard: None, html: false },
            CommandView::SetDialog(StateView::AwaitingClientNote { name }),
        ]),
        ActionView::AssignOwnerAsk(name) => Some(seq![
            CommandView::Say { text: "Введите Telegram ID или @username владельца ключа "@ + name + ":"@, keyboard: None, html: false },
            CommandView::SetDialog(StateView::AwaitingClientOwner { name }),
        ]),
        ActionView::LocalMigrationStart => Some(seq![
            CommandView::Say { text: "🚨 Последнее предупреждение\n\nБудет создан системный backup, затем действующая AWG 2.0 остановится. Сервер перезагрузится до двух раз, а все пользователи должны будут получить новые конфигурации.\n\nДля запуска отправьте отдельным сообщением точно:\nMIGRATE AWG1"@, keyboard: None, html: false },
            CommandView::SetDialog(StateView::AwaitingLocalMigrationConfirm { operation: "start"@ }),
        ]),
        ActionView::LocalMigrationRollback => Some(seq![
            CommandView::Say { text: "↩️ Аварийный откат остановит текущую AWG 1.0 и восстановит сохранённые каталоги AWG 2.0. Используйте его только если миграция завершилась ошибкой.\n\nДля отката отправьте точно:\nROLLBACK AWG2"@, keyboard: None, html: false },
            CommandView::SetDialog(StateView::AwaitingLocalMigrationConfirm { operation: "rollback"@ }),
        ]),
        _ => start_reply(a),
    }
}

/// The guide text for `kind`.
pub open spec fn guide_text(kind: Seq<char>) -> Seq<char> {
    if kind == "amnezia"@ {
        "📱 AmneziaVPN\n\n1. Установите и откройте AmneziaVPN.\n2. Нажмите «+» и выберите импорт подключения.\n3. Импортируйте присланный ботом файл .conf или VPN-ссылку.\n4. Сохраните подключение и включите VPN.\n\nНе добавляйте один ключ одновременно на несколько устройств."@
    } else if kind == "awg"@ {
        "🛡 AmneziaWG\n\n1. Откройте AmneziaWG и нажмите «+».\n2. Выберите импорт туннеля из файла.\n3. Укажите присланный ботом файл .conf.\n4. Разрешите создание VPN-подключения и включите туннель.\n\nДля второго устройства приобретите отдельный ключ."@
    } else if kind == "trouble"@ {
        "🩺 Если VPN не подключается\n\n1. Выключите и снова включите туннель.\n2. Переключитесь между Wi‑Fi и мобильной сетью.\n3. Проверьте, что на другом устройстве этот ключ выключен.\n4. Откройте «Мои ключи» → нужный ключ → «Обновить подключение».\n5. Если проблема осталась, создайте обращение в поддержку."@
    } else {
        "Инструкция не найдена."@
    }
}

fn guide_text_of(kind: &str) -> (t: String)
    ensures
        t@ == guide_text(kind@),
{
    if str_eq(kind, "amnezia") {
        "📱 AmneziaVPN\n\n1. Установите и откройте AmneziaVPN.\n2. Нажмите «+» и выберите импорт подключения.\n3. Импортируйте присланный ботом файл .conf или VPN-ссылку.\n4. Сохраните подключение и включите VPN.\n\nНе добавляйте один ключ одновременно на несколько устройств.".to_string()
    } else if str_eq(kind, "awg") {
        "🛡 AmneziaWG\n\n1. Откройте AmneziaWG и нажмите «+».\n2. Выберите импорт туннеля из файла.\n3. Укажите присланный ботом файл .conf.\n4. Разрешите создание VPN-подключения и включите туннель.\n\nДля второго устройства приобретите отдельный ключ.".to_string()
    } else if str_eq(kind, "trouble") {
        "🩺 Если VPN не подключается\n\n1. Выключите и снова включите туннель.\n2. Переключитесь между Wi‑Fi и мобильной сетью.\n3. Проверьте, что на другом устройстве этот ключ выключен.\n4. Откройте «Мои ключи» → нужный ключ → «Обновить подключение».\n5. Если проблема осталась, создайте обращение в поддержку.".to_string()
    } else {
        "Инструкция не найдена.".to_string()
    }
}

fn numbered_prompt(prefix: &str, id: i64) -> (s: String)
    ensures
        s@ == prefix@ + decimal(id as int) + ":"@,
{
    let mut s = prefix.to_string();
    let n = format_i64(id);
    s.append(n.as_str());
    s.append(":");
    s
}

/// Pushes the reply of `step_reply`; `false` (and nothing pushed) where it
/// has none.
#[verifier::rlimit(30)]
fn push_step_reply(out: &mut Vec<BotCommand>, action: &Action) -> (handled: bool)
    ensures
        handled == step_reply(action@) is Some,
        handled ==> commands_view(final(out)@) == commands_view(old(out)@) + step_reply(action@)->0,
        !handled ==> final(out)@ == old(out)@,
{
    proof {
        reveal(step_reply);
    }
    let ghost before = commands_view(out@);
    let handled = match action {
        Action::SupportTake(id) => {
            push_command(out, BotCommand::AssignTicket(*id));
            let mut text = "✅ Обращение #".to_string();
            let n = format_i64(*id);
            text.append(n.as_str());
            text.append(" назначено вам.");
            push_command(out, BotCommand::Say { text, keyboard: None, html: false });
            true
        },
        Action::ServerBillingAsk(id) => {
            push_command(out, BotCommand::Check(StoreCheck::ServerExists(*id)));
            true
        },
        Action::ServerEnrollRevoke(id) => {
            push_command(out, BotCommand::Check(StoreCheck::RevokeEnrollments(*id)));
            true
        },
        Action::ServerSetDefault(id) => {
            push_command(out, BotCommand::Check(StoreCheck::ServerReady(*id)));
            true
        },
        Action::BuyPaid(id) => {
            push_command(out, BotCommand::Check(StoreCheck::OwnPendingPayment(*id)));
            true
        },
        Action::PaymentReject(id) => {
            let text = numbered_prompt("Укажите причину отказа по заявке #", *id);
            push_command(out, BotCommand::Say { text, keyboard: None, html: false });
            push_command(out, BotCommand::SetDialog(State::AwaitingPaymentReject { id: *id }));
            true
        },
        Action::LegacyRequestReject(id) => {
            let text = numbered_prompt("Введите причину отказа по заявке #", *id);
            push_command(out, BotCommand::Say { text, keyboard: None, html: false });
            push_command(out, BotCommand::SetDialog(State::AwaitingLegacyReject { id: *id }));
            true
        },

        _ => push_more_reply(out, action),
    };
    proof {
        if handled {
            assert(commands_view(out@) =~= before + step_reply(action@)->0);
        }
    }
    handled
}

/// Pushes the reply of `start_reply`; `false` (and nothing pushed) where it
/// has none.
#[verifier::rlimit(30)]
fn push_start_reply(out: &mut Vec<BotCommand>, action: &Action) -> (handled: bool)
    ensures
        handled == start_reply(action@) is Some,
        handled ==> commands_view(final(out)@) == commands_view(old(out)@) + start_reply(action@)->0,
        !handled ==> final(out)@ == old(out)@,
{
    proof {
        reveal(start_reply);
    }
    let ghost before = commands_view(out@);
    let handled = match action {
        Action::AdminDashboard => {
            push_command(out, BotCommand::OpenOwner(OwnerScreen::Dashboard));
            true
        },
        Action::AdminFinance => {
            push_command(out, BotCommand::OpenOwner(OwnerScreen::Finance));
            true
        },
        Action::AdminOwners => {
            push_command(out, BotCommand::OpenOwner(OwnerScreen::Owners));
            true
        },
        Action::AdminSupport => {
            push_command(out, BotCommand::OpenOwner(OwnerScreen::Support));
            true
        },
        Action::SupportReply(id) => {
            push_command(out, BotCommand::Look(StoreLookup::TicketUser(*id)));
            true
        },
        Action::AdminReferral => {
            push_command(out, BotCommand::Look(StoreLookup::ReferralPercent));
            true
        },
        Action::LocalMigrationPreflight => {
            push_command(out, BotCommand::RunVpn(VpnJob::LocalMigrationPreflight));
            true
        },
        Action::LocalMigrationStatus => {
            push_command(out, BotCommand::RunVpn(VpnJob::LocalMigrationStatus));
            true
        },
        Action::AdminUpdateRollback => {
            push_command(out, BotCommand::RunVpn(VpnJob::UpdateRollback));
            true
        },
        Action::AdminUpdateRun => {
            push_command(out, BotCommand::Say { text: "⏳ Обновление запущено. Бот вернётся после автоматического перезапуска. Статус: systemctl status awgram-self-update".to_string(), keyboard: None, html: false });
            push_command(out, BotCommand::RunVpn(VpnJob::ScheduleUpdate));
            true
        },
        Action::DeviceLabelAsk(_) | Action::CustomerRefresh(_) | Action::RenewTerm(_, _) => {
            push_command(out, BotCommand::Check(StoreCheck::CallerOwnsKey));
            true
        },

        _ => false,
    };
    proof {
        if handled {
            assert(commands_view(out@) =~= before + start_reply(action@)->0);
        }
    }
    handled
}

/// Pushes the reply of `more_reply`; `false` (and nothing pushed) where it
/// has none.
#[verifier::rlimit(30)]
fn push_more_reply(out: &mut Vec<BotCommand>, action: &Action) -> (handled: bool)
    ensures
        handled == more_reply(action@) is Some,
        handled ==> commands_view(final(out)@) == commands_view(old(out)@) + more_reply(action@)->0,
        !handled ==> final(out)@ == old(out)@,
{
    proof {
        reveal(more_reply);
    }
    let ghost before = commands_view(out@);
    let handled = match action {
        Action::Guide(kind) => {
            let text = guide_text_of(kind.as_str());
            push_command(out, BotCommand::Say { text, keyboard: Some(instructions_menu()), html: false });
            true
        },
        Action::AdminPromoAction(kind) => {
            let legacy = str_eq(kind.as_str(), "legacy");
            if legacy || str_eq(kind.as_str(), "discount") {
                let text = if legacy { "Введите CODE [MAX_USES].\nПример: RESTORE2026 50".to_string() } else { "Введите CODE PERCENT [MAX_USES].\nПример: FRIEND25 25 100".to_string() };
                push_command(out, BotCommand::Say { text, keyboard: None, html: false });
                push_command(out, BotCommand::SetDialog(State::AwaitingPromoCode { kind: kind.clone() }));
            }
            true
        },
        Action::AdminRoleAction(operation) => {
            let add = str_eq(operation.as_str(), "add");
            if add || str_eq(operation.as_str(), "remove") {
                let text = if add { "Введите Telegram ID и роль: technical, support или finance.\nПример: 123456789 support".to_string() } else { "Введите Telegram ID сотрудника, у которого нужно убрать роль.".to_string() };
                push_command(out, BotCommand::Say { text, keyboard: None, html: false });
                push_command(out, BotCommand::SetDialog(State::AwaitingStaffRole { operation: operation.clone() }));
            }
            true
        },
        Action::AdminBulk(operation) => {
            let op = operation.as_str();
            if str_eq(op, "menu") {
                push_command(out, BotCommand::Say { text: "🧰 Массовое управление ключами\nВыберите операцию:".to_string(), keyboard: Some(bulk_manage_menu()), html: false });
            } else {
                let extend = str_eq(op, "extend");
                if extend || str_eq(op, "disable") || str_eq(op, "enable") {
                    let text = if extend { "Введите префикс и срок, например: client 30d".to_string() } else { "Введите префикс имён ключей, например: client".to_string() };
                    push_command(out, BotCommand::Say { text, keyboard: None, html: false });
                    push_command(out, BotCommand::SetDialog(State::AwaitingBulkManage { operation: operation.clone() }));
                }
            }
            true
        },
        Action::ClientNoteAsk(name) => {
            let mut text = "Введите внутреннюю заметку для ключа ".to_string();
            text.append(name.as_str());
            text.append(". Для удаления отправьте clear.");
            push_command(out, BotCommand::Say { text, keyboard: None, html: false });
            push_command(out, BotCommand::SetDialog(State::AwaitingClientNote { name: name.clone() }));
            true
        },
        Action::AssignOwnerAsk(name) => {
            let mut text = "Введите Telegram ID или @username владельца ключа ".to_string();
            text.append(name.as_str());
            text.append(":");
            push_command(out, BotCommand::Say { text, keyboard: None, html: false });
            push_command(out, BotCommand::SetDialog(State::AwaitingClientOwner { name: name.clone() }));
            true
        },
        Action::LocalMigrationStart => {
            push_command(out, BotCommand::Say { text: "🚨 Последнее предупреждение\n\nБудет создан системный backup, затем действующая AWG 2.0 остановится. Сервер перезагрузится до двух раз, а все пользователи должны будут получить новые конфигурации.\n\nДля запуска отправьте отдельным сообщением точно:\nMIGRATE AWG1".to_string(), keyboard: None, html: false });
            push_command(out, BotCommand::SetDialog(State::AwaitingLocalMigrationConfirm { operation: "start".to_string() }));
            true
        },
        Action::LocalMigrationRollback => {
            push_command(out, BotCommand::Say { text: "↩️ Аварийный откат остановит текущую AWG 1.0 и восстановит сохранённые каталоги AWG 2.0. Используйте его только если миграция завершилась ошибкой.\n\nДля отката отправьте точно:\nROLLBACK AWG2".to_string(), keyboard: None, html: false });
            push_command(out, BotCommand::SetDialog(State::AwaitingLocalMigrationConfirm { operation: "rollback".to_string() }));
            true
        },
        _ => push_start_reply(out, action),
    };
    proof {
        if handled {
            assert(commands_view(out@) =~= before + more_reply(action@)->0);
        }
    }
    handled
}

/// Pushes the reply of an action that only shows a section or asks for
/// input; `false` (and nothing pushed) for any other action.
#[verifier::rlimit(30)]
fn push_action_reply(out: &mut Vec<BotCommand>, action: &Action) -> (handled: bool)
    ensures
        handled == action_reply(action@) is Some,
        handled ==> commands_view(final(out)@) == commands_view(old(out)@) + action_reply(action@)->0,
        !handled ==> final(out)@ == old(out)@,
{
    proof {
        reveal(action_reply);
    }
    let ghost before = commands_view(out@);
    let handled = match action {
        Action::AdminVpn => {
            push_command(out, BotCommand::Say { text: "🛡 Управление VPN-службой\n\nПроверка показывает состояние systemd-юнита, интерфейса, порта, маршрутизации, firewall и клиентов. Диагностика формирует подробный технический отчёт.\n\nПерезапуск кратковременно разорвёт активные VPN-соединения и требует подтверждения.".to_string(), keyboard: Some(vpn_service_menu()), html: false });
            true
        },
        Action::AdminKeys => {
            push_command(out, BotCommand::Say { text: "🔑 Ключи\n\nСоздание, владельцы, группы, восстановление и массовое управление.".to_string(), keyboard: Some(admin_keys_hub()), html: false });
            true
        },
        Action::AdminUsersHub => {
            push_command(out, BotCommand::Say { text: "👥 Пользователи\n\nCRM-карточки, поиск и роли сотрудников.".to_string(), keyboard: Some(admin_users_hub()), html: false });
            true
        },
        Action::AdminCommunication => {
            push_command(out, BotCommand::Say { text: "💬 Связь\n\nТехническая поддержка и рассылки пользователям.".to_string(), keyboard: Some(admin_communication_hub()), html: false });
            true
        },
        Action::ServerAdd => {
            push_command(out, BotCommand::Say { text: "🧭 Мастер подключения нового сервера\n\nШаг 1 из 3. Отправьте понятное название сервера, например: Netherlands 3.0\n\nПосле создания мастер предложит автоматическую установку AWG 1.0, подключение панели или безопасную bootstrap-команду.".to_string(), keyboard: None, html: false });
            push_command(out, BotCommand::SetDialog(State::AwaitingServerWizardName));
            true
        },
        Action::LocalMigration => {
            push_command(out, BotCommand::Say { text: "🔀 Миграция локального сервера: AWG 2.0 → AWG 1.0\n\nОперация перевыпустит все VPN-конфигурации, временно остановит VPN и дважды перезагрузит сервер. Владельцы, группы и сроки сохраняются по прежним именам ключей. Старые пользовательские конфигурации перестанут работать.\n\nСначала обязательно выполните предварительную проверку.".to_string(), keyboard: Some(local_migration_menu()), html: false });
            true
        },
        Action::AdminCreate => {
            push_command(out, BotCommand::Say { text: "➕ Создание ключей\n\nВыберите одиночное создание или пакет. После создания ключ можно привязать к пользователю и группе из его карточки.".to_string(), keyboard: Some(admin_create_menu()), html: false });
            true
        },
        Action::AdminBroadcast => {
            push_command(out, BotCommand::Say { text: "Выберите получателей рассылки:".to_string(), keyboard: Some(broadcast_audience_menu()), html: false });
            true
        },
        Action::AdminBroadcastTemplates => {
            push_command(out, BotCommand::Say { text: "📝 Шаблоны рассылок\n\nНажмите на текст сообщения, чтобы быстро выделить и скопировать. Перед отправкой замените значения в {фигурных скобках}.\n\n<pre>⚠️ Технические работы\n\n{дата} с {начало} до {конец} возможны перерывы подключения на сервере {страна}. После завершения ничего переустанавливать не нужно.</pre>\n\n<pre>🔑 Требуется замена ключа\n\nВаш старый ключ на сервере {страна} больше не работает. Откройте «Мои ключи», выберите его и нажмите «Заменить нерабочий ключ».</pre>\n\n<pre>✅ Новый сервер доступен\n\nДобавлена локация {страна} на AWG 1.0. Приобрести подключение можно в разделе «Купить ключ».</pre>\n\n<pre>💳 Напоминание об оплате\n\nСрок ключа {ключ} истекает {дата}. Продлить его можно из карточки ключа.</pre>".to_string(), keyboard: Some(broadcast_templates_menu()), html: true });
            true
        },
        Action::AdminHelp => {
            push_command(out, BotCommand::Say { text: "ℹ️ Навигация\n\n➕ Создать ключ — один новый клиент\n📦 Создать оптом — пакет последовательных ключей\n📊 Статистика — трафик, активность, лидеры и подразделы\n🔎 Поиск — ключи и владельцы\n🧰 Массовое управление — включение, отключение и продление по префиксу\n🧑‍💼 Роли — назначение сотрудников\n\nВсе основные действия выполняются кнопками; текстовые команды оставлены только для совместимости.".to_string(), keyboard: Some(admin_dashboard_menu()), html: false });
            true
        },
        Action::AdminPromos => {
            push_command(out, BotCommand::Say { text: "🎟 Управление промокодами\n\nСкидочный код уменьшает цену одной следующей покупки. Legacy-код подтверждает право пользователя подавать неограниченное количество заявок на ранее купленные лично у администратора ключи до 01.12.2026.".to_string(), keyboard: Some(admin_promos_menu()), html: false });
            true
        },
        Action::AdminPricesRub => {
            push_command(out, BotCommand::Say { text: "Введите четыре цены в рублях для 1 / 3 / 6 / 12 месяцев через пробел.\nНапример: 200 600 1000 2000".to_string(), keyboard: None, html: false });
            push_command(out, BotCommand::SetDialog(State::AwaitingTariffPricesRub));
            true
        },
        Action::AdminPricesStars => {
            push_command(out, BotCommand::Say { text: "Введите четыре цены в Telegram Stars для 1 / 3 / 6 / 12 месяцев через пробел.\nНапример: 100 250 450 800\n\nДо сохранения оплата Stars недоступна.".to_string(), keyboard: None, html: false });
            push_command(out, BotCommand::SetDialog(State::AwaitingTariffPricesStars));
            true
        },
        Action::AdminSearch => {
            push_command(out, BotCommand::Say { text: "Введите имя ключа, устройство, Telegram ID или username владельца:".to_string(), keyboard: None, html: false });
            push_command(out, BotCommand::SetDialog(State::AwaitingAdminSearch));
            true
        },
        Action::AdminRoles => {
            push_command(out, BotCommand::Say { text: "🧑‍💼 Управление ролями\nВыберите действие:".to_string(), keyboard: Some(admin_roles_menu()), html: false });
            true
        },
        Action::AdminUserBalance(user_id) => {
            let user_id = *user_id;
            push_command(out, BotCommand::Say { text: "Введите сумму и причину.\nПополнение: 500 Бонус за перенос\nСписание: -200 Возврат ошибочного начисления".to_string(), keyboard: None, html: false });
            push_command(out, BotCommand::SetDialog(State::AwaitingUserBalance { user_id }));
            true
        },
        Action::AdminUserDiscount(user_id) => {
            let user_id = *user_id;
            push_command(out, BotCommand::Say { text: "Введите скидку в процентах: 25 — бессрочно; 25 2027-12-31 — до даты; clear — удалить.".to_string(), keyboard: None, html: false });
            push_command(out, BotCommand::SetDialog(State::AwaitingUserDiscount { user_id }));
            true
        },
        Action::AdminUserNote(user_id) => {
            let user_id = *user_id;
            push_command(out, BotCommand::Say { text: "Введите внутреннюю заметку (до 500 символов). Для удаления отправьте clear.".to_string(), keyboard: None, html: false });
            push_command(out, BotCommand::SetDialog(State::AwaitingUserNote { user_id }));
            true
        },
        _ => push_step_reply(out, action),
    };
    proof {
        if handled {
            assert(commands_view(out@) =~= before + action_reply(action@)->0);
        }
    }
    handled
}

/// A pressed button: it is always acknowledged; a button without a message
/// or outside a private chat does nothing more (secrets are sent to the
/// chat); otherwise the user is recorded and the admission decides: the
/// suspension notice, nothing, or the action.
pub open spec fn callback_transition(role: RoleView, a: ActionView, press: Press, store: &Store) -> Seq<
    CommandView,
> {
    seq![CommandView::AnswerCallback] + if !press.has_message || !press.private {
        Seq::empty()
    } else {
        seq![CommandView::RecordUser { referrer: None }] + match admission_spec(
            a,
            role,
            press.blocked,
            store,
        ) {
            Admission::Suspended => seq![CommandView::Send(Notice::Suspended)],
            Admission::Ignore => Seq::empty(),
            Admission::Proceed => action_commands(a),
        }
    }
}

fn perform_action(out: &mut Vec<BotCommand>, action: Action)
    ensures
        commands_view(final(out)@) == commands_view(old(out)@) + action_commands(action@),
{
    proof {
        reveal(action_commands);
    }
    let ghost before = commands_view(out@);
    let ghost a = action@;
    match action {
        Action::Unknown => {
            push_command(out, BotCommand::Send(Notice::UnknownAction));
        },
        Action::PromoInput => {
            push_command(out, BotCommand::Send(Notice::AskCustomerPromo));
            push_command(out, BotCommand::SetDialog(State::AwaitingCustomerPromo));
        },
        Action::GroupCreate => {
            push_command(out, BotCommand::Send(Notice::AskGroupName));
            push_command(out, BotCommand::SetDialog(State::AwaitingGroupName));
        },
        Action::GroupRenameAsk(id) => {
            push_command(out, BotCommand::Send(Notice::AskGroupName));
            push_command(out, BotCommand::SetDialog(State::AwaitingGroupRename { id }));
        },
        Action::GroupQuotaAsk(id) => {
            push_command(out, BotCommand::Send(Notice::AskGroupQuota));
            push_command(out, BotCommand::SetDialog(State::AwaitingGroupQuota { id }));
        },
        Action::GroupAdminById(id) => {
            push_command(out, BotCommand::Send(Notice::AskAdminId));
            push_command(out, BotCommand::SetDialog(State::AwaitingGroupAdminId { id }));
        },
        other => {
            if !push_action_reply(out, &other) {
                push_command(out, BotCommand::Perform(other));
            }
        },
    }
    assert(commands_view(out@) =~= before + action_commands(a));
}

/// What the bot does with a pressed button of `action` for a user of `role`.
pub fn callback_step(role: &Role, action: Action, press: Press, settings: &Store) -> (r: Vec<
    BotCommand,
>)
    ensures
        commands_view(r@) == callback_transition(role@, action@, press, settings),
{
    let mut out: Vec<BotCommand> = Vec::new();
    push_command(&mut out, BotCommand::AnswerCallback);
    if !press.has_message || !press.private {
        assert(commands_view(out@) =~= callback_transition(role@, action@, press, settings));
        return out;
    }
    push_command(&mut out, BotCommand::RecordUser { referrer: None });
    let ghost a = action@;
    match admit_callback(&action, role, press.blocked, settings) {
        Admission::Suspended => {
            push_command(&mut out, BotCommand::Send(Notice::Suspended));
        },
        Admission::Ignore => {},
        Admission::Proceed => {
            perform_action(&mut out, action);
        },
    }
    assert(commands_view(out@) =~= callback_transition(role@, a, press, settings));
    out
}

// ---------------------------------------------------------------------------
// A typed message
// ---------------------------------------------------------------------------

/// What arrives with a message besides its text.
#[derive(Debug, Clone, Copy, PartialEq, Eq, Structural)]
pub struct Arrival {
    /// The message is in a private chat.
    pub private: bool,
    /// The message reports a Stars payment (the caller handles it with the
    /// order's fulfilment).
    pub paid: bool,
    /// The user is blocked.
    pub blocked: bool,
    pub now: i64,
}

/// Dialogs whose messages are taken before any command of the owner: the
/// support request, the support reply and a broadcast.
pub open spec fn taken_first(d: State) -> bool {
    d is AwaitingSupportMessage || d is AwaitingSupportReply || d is AwaitingBroadcast
        || d is AwaitingBroadcastConfirm
}

/// The other dialogs that take a message before a customer's menu; the
/// caller handles them.
pub open spec fn taken_by_caller(d: State) -> bool {
    d is AwaitingAdminSearch || d is AwaitingPaymentReject || d is AwaitingPaymentProof
        || d is AwaitingPaymentInstructions || d is AwaitingAcquiringUrl
        || d is AwaitingTariffPricesRub || d is AwaitingTariffPricesStars
        || d is AwaitingReferralPercent || d is AwaitingAdminExpiry || d is AwaitingDeviceLabel
        || d is AwaitingStaffRole || d is AwaitingBulkManage
        || d is AwaitingUserBalance || d is AwaitingUserDiscount || d is AwaitingUserNote
        || d is AwaitingClientNote || d is AwaitingLegacyRequest || d is AwaitingPromoCode
        || d is AwaitingLegacyReject || d is AwaitingLegacyPrice || d is AwaitingServerWizardName
        || d is AwaitingServerWizardAddress || d is AwaitingServerWizardDetails
        || d is AwaitingServerAdd || d is AwaitingServerBilling || d is AwaitingServerPassport
        || d is AwaitingPanelCredentials || d is AwaitingServerDeployCredentials
        || d is AwaitingLocalMigrationConfirm
}

/// The dialogs only the owner may answer: anyone else's message in one of
/// them ends the dialog.
pub open spec fn owner_only(d: State) -> bool {
    d is AwaitingAdminSearch || d is AwaitingPaymentReject || d is AwaitingAdminExpiry
        || d is AwaitingStaffRole || d is AwaitingBulkManage || d is AwaitingUserBalance
        || d is AwaitingUserDiscount || d is AwaitingUserNote || d is AwaitingClientNote
        || d is AwaitingPromoCode || d is AwaitingLegacyReject || d is AwaitingLegacyPrice
        || d is AwaitingServerWizardName || d is AwaitingServerWizardAddress
        || d is AwaitingServerWizardDetails || d is AwaitingServerAdd || d is AwaitingServerBilling
        || d is AwaitingServerPassport || d is AwaitingPanelCredentials
        || d is AwaitingServerDeployCredentials || d is AwaitingLocalMigrationConfirm
        || d is AwaitingGroupName || d is AwaitingGroupRename || d is AwaitingGroupQuota
        || d is AwaitingGroupAdminId
}

/// A dialog the caller continues, read before the customers' menu: the
/// owner's dialogs end for anyone else; the note, reason and instruction
/// dialogs read their answer here.
pub open spec fn caller_dialog(role: RoleView, dialog: State, text: Seq<char>) -> Seq<CommandView> {
    if owner_only(dialog) && !(role is Owner) {
        seq![CommandView::SetDialog(StateView::Idle)]
    } else {
        match dialog {
            State::AwaitingUserNote { user_id } => match note_of(text) {
                Some(note) => seq![CommandView::SaveUserNote { user_id, note }],
                None => seq![CommandView::Send(Notice::NoteTooLong)],
            },
            State::AwaitingLegacyReject { id } => match bounded_of(text, REASON_LIMIT) {
                Some(reason) => seq![CommandView::RejectLegacyRequest { id, reason }],
                None => seq![CommandView::Send(Notice::ReasonLength)],
            },
            State::AwaitingPaymentInstructions => match instructions_of(text) {
                Some(v) => seq![
                    CommandView::SetPaymentInstructions(v),
                    CommandView::SetDialog(StateView::Idle),
                ],
                None => seq![CommandView::Send(Notice::InstructionsLength)],
            },
            _ => seq![CommandView::Continue],
        }
    }
}

/// The dialogs of staff and owners that the caller handles after the
/// customer's menu.
pub open spec fn taken_late(d: State) -> bool {
    d is AwaitingName || d is AwaitingCustomExpiry || d is AwaitingModifyValue
        || d is AwaitingModifyParam || d is AwaitingBulkPrefix || d is AwaitingBulkCustomExpiry
        || d is AwaitingGroupName || d is AwaitingGroupRename || d is AwaitingClientOwner
}

/// A `/role` command's role: `remove` takes the role away.
pub open spec fn role_change(r: Seq<char>) -> Option<Seq<char>> {
    if r == "remove"@ {
        None
    } else {
        Some(r)
    }
}

/// What an owner's text commands: a `/role` change, the start of a support
/// reply, or one of the owner's screens.
pub open spec fn owner_command(text: Seq<char>) -> Option<CommandView> {
    match role_command_of(text) {
        Some((user, r)) => Some(CommandView::SetStaffRole { user, role: role_change(r) }),
        None => match reply_target_of(text) {
            Some(t) => Some(CommandView::StartReply(t)),
            None => match owner_screen_of(text) {
                Some(screen) => Some(CommandView::OpenOwner(screen)),
                None => None,
            },
        },
    }
}

/// After the customers' checks: a user without a role gets their screen;
/// the owner's group dialogs read their answer; other dialogs the caller
/// continues; anything else shows the start menu and ends the dialog.
pub open spec fn after_customers(role: RoleView, dialog: State, text: Seq<char>, arrival: Arrival) -> Seq<
    CommandView,
> {
    if role is Denied {
        seq![CommandView::OpenCustomer(customer_screen_of(text, arrival.now, arrival.blocked))]
    } else {
        match dialog {
            State::AwaitingGroupQuota { id } => if !(role is Owner) {
                seq![CommandView::SetDialog(StateView::Idle)]
            } else {
                match quota_of(text) {
                    Some(quota) => seq![
                        CommandView::SetGroupQuota { id, quota },
                        CommandView::SetDialog(StateView::Idle),
                    ],
                    None => seq![CommandView::Send(Notice::BadGroupQuota)],
                }
            },
            State::AwaitingGroupAdminId { id } => if !(role is Owner) {
                seq![CommandView::SetDialog(StateView::Idle)]
            } else {
                match admin_id_of(text) {
                    Some(user) => seq![
                        CommandView::AddGroupAdmin { id, user },
                        CommandView::SetDialog(StateView::Idle),
                    ],
                    None => seq![CommandView::Send(Notice::BadAdminId)],
                }
            },
            State::AwaitingGroupName => if !(role is Owner) {
                seq![CommandView::SetDialog(StateView::Idle)]
            } else {
                match bounded_of(text, GROUP_NAME_LIMIT) {
                    Some(name) => seq![CommandView::CreateGroup(name)],
                    None => seq![CommandView::Send(Notice::BadGroupName)],
                }
            },
            State::AwaitingGroupRename { id } => if !(role is Owner) {
                seq![CommandView::SetDialog(StateView::Idle)]
            } else {
                match bounded_of(text, GROUP_NAME_LIMIT) {
                    Some(name) => seq![CommandView::RenameGroup { id, name }],
                    None => seq![CommandView::Send(Notice::BadGroupName)],
                }
            },
            _ => if taken_late(dialog) {
                seq![CommandView::Continue]
            } else {
                seq![CommandView::ShowMenu, CommandView::SetDialog(StateView::Idle)]
            },
        }
    }
}

/// What follows the recording of the user, in the order the checks come.
pub open spec fn message_body(role: RoleView, dialog: State, text: Seq<char>, arrival: Arrival) -> Seq<
    CommandView,
> {
    if arrival.paid {
        seq![CommandView::Continue]
    } else if invite_of(text) is Some {
        seq![CommandView::UseInvite(invite_of(text)->0)]
    } else if taken_first(dialog) {
        seq![CommandView::Continue]
    } else if role is Owner && owner_command(text) is Some {
        seq![owner_command(text)->0]
    } else if role is Staff && staff_screen_of(text, role->Staff_0) is Some {
        seq![CommandView::OpenStaff(staff_screen_of(text, role->Staff_0)->0)]
    } else if dialog is AwaitingTopupAmount {
        match topup_of(text) {
            Some(rubles) => seq![CommandView::CreateTopup(rubles)],
            None => seq![CommandView::Send(Notice::TopupRange)],
        }
    } else if dialog is AwaitingCustomerPromo {
        if !is_navigation(trimmed(text)) {
            seq![
                CommandView::SetDialog(StateView::Idle),
                CommandView::ActivatePromo(trimmed(text)),
            ]
        } else {
            seq![CommandView::SetDialog(StateView::Idle)] + after_customers(role, dialog, text, arrival)
        }
    } else if taken_by_caller(dialog) {
        caller_dialog(role, dialog, text)
    } else {
        after_customers(role, dialog, text, arrival)
    }
}

/// A message with text `text` (empty for a message without text) in dialog
/// `dialog`: outside a private chat the bot only says it works in private
/// chats; otherwise it records the user and goes on as `message_body` says.
pub open spec fn message_transition(role: RoleView, dialog: State, text: Seq<char>, arrival: Arrival) -> Seq<
    CommandView,
> {
    if !arrival.private {
        seq![CommandView::Send(Notice::PrivateOnly)]
    } else {
        seq![CommandView::RecordUser { referrer: referrer_of(text) }] + message_body(
            role,
            dialog,
            text,
            arrival,
        )
    }
}

fn is_taken_first(d: &State) -> (r: bool)
    ensures
        r == taken_first(*d),
{
    match d {
        State::AwaitingSupportMessage { .. } | State::AwaitingSupportReply { .. }
        | State::AwaitingBroadcast { .. } | State::AwaitingBroadcastConfirm { .. } => true,
        _ => false,
    }
}

fn is_taken_by_caller(d: &State) -> (r: bool)
    ensures
        r == taken_by_caller(*d),
{
    match d {
        State::AwaitingAdminSearch { .. } | State::AwaitingPaymentReject { .. }
        | State::AwaitingPaymentProof { .. } | State::AwaitingPaymentInstructions { .. }
        | State::AwaitingAcquiringUrl { .. } | State::AwaitingTariffPricesRub { .. }
        | State::AwaitingTariffPricesStars { .. } | State::AwaitingReferralPercent { .. }
        | State::AwaitingAdminExpiry { .. } | State::AwaitingDeviceLabel { .. }
        | State::AwaitingStaffRole { .. } | State::AwaitingBulkManage { .. }
        | State::AwaitingUserBalance { .. }
        | State::AwaitingUserDiscount { .. } | State::AwaitingUserNote { .. }
        | State::AwaitingClientNote { .. } | State::AwaitingLegacyRequest { .. }
        | State::AwaitingPromoCode { .. } | State::AwaitingLegacyReject { .. }
        | State::AwaitingLegacyPrice { .. } | State::AwaitingServerWizardName { .. }
        | State::AwaitingServerWizardAddress { .. } | State::AwaitingServerWizardDetails { .. }
        | State::AwaitingServerAdd { .. } | State::AwaitingServerBilling { .. }
        | State::AwaitingServerPassport { .. } | State::AwaitingPanelCredentials { .. }
        | State::AwaitingServerDeployCredentials { .. } | State::AwaitingLocalMigrationConfirm { .. } => true,
        _ => false,
    }
}

fn is_taken_late(d: &State) -> (r: bool)
    ensures
        r == taken_late(*d),
{
    match d {
        State::AwaitingName { .. } | State::AwaitingCustomExpiry { .. } | State::AwaitingModifyValue { .. }
        | State::AwaitingModifyParam { .. } | State::AwaitingBulkPrefix { .. }
        | State::AwaitingBulkCustomExpiry { .. } | State::AwaitingGroupName { .. }
        | State::AwaitingGroupRename { .. } | State::AwaitingClientOwner { .. } => true,
        _ => false,
    }
}

fn push_after_customers(out: &mut Vec<BotCommand>, role: &Role, dialog: &State, text: &str, arrival: Arrival)
    ensures
        commands_view(final(out)@) == commands_view(old(out)@) + after_customers(role@, *dialog, text@, arrival),
{
    let ghost before = commands_view(out@);
    if let Role::Denied = role {
        push_command(out, BotCommand::OpenCustomer(customer_screen(text, arrival.now, arrival.blocked)));
    } else {
        match dialog {
            State::AwaitingGroupQuota { id } => {
                if !role.is_owner() {
                    push_command(out, BotCommand::SetDialog(State::Idle));
                } else {
                    match quota_input(text) {
                        Some(quota) => {
                            push_command(out, BotCommand::SetGroupQuota { id: *id, quota });
                            push_command(out, BotCommand::SetDialog(State::Idle));
                        },
                        None => {
                            push_command(out, BotCommand::Send(Notice::BadGroupQuota));
                        },
                    }
                }
            },
            State::AwaitingGroupAdminId { id } => {
                if !role.is_owner() {
                    push_command(out, BotCommand::SetDialog(State::Idle));
                } else {
                    match admin_id_input(text) {
                        Some(user) => {
                            push_command(out, BotCommand::AddGroupAdmin { id: *id, user });
                            push_command(out, BotCommand::SetDialog(State::Idle));
                        },
                        None => {
                            push_command(out, BotCommand::Send(Notice::BadAdminId));
                        },
                    }
                }
            },
            State::AwaitingGroupName => {
                if !role.is_owner() {
                    push_command(out, BotCommand::SetDialog(State::Idle));
                } else {
                    match bounded_text(text, GROUP_NAME_LIMIT) {
                        Some(name) => push_command(out, BotCommand::CreateGroup(name.to_string())),
                        None => push_command(out, BotCommand::Send(Notice::BadGroupName)),
                    }
                }
            },
            State::AwaitingGroupRename { id } => {
                if !role.is_owner() {
                    push_command(out, BotCommand::SetDialog(State::Idle));
                } else {
                    match bounded_text(text, GROUP_NAME_LIMIT) {
                        Some(name) => push_command(
                            out,
                            BotCommand::RenameGroup { id: *id, name: name.to_string() },
                        ),
                        None => push_command(out, BotCommand::Send(Notice::BadGroupName)),
                    }
                }
            },
            _ => {
                if is_taken_late(dialog) {
                    push_command(out, BotCommand::Continue);
                } else {
                    push_command(out, BotCommand::ShowMenu);
                    push_command(out, BotCommand::SetDialog(State::Idle));
                }
            },
        }
    }
    assert(commands_view(out@) =~= before + after_customers(role@, *dialog, text@, arrival));
}

fn is_owner_only(d: &State) -> (r: bool)
    ensures
        r == owner_only(*d),
{
    match d {
        State::AwaitingAdminSearch { .. } | State::AwaitingPaymentReject { .. }
        | State::AwaitingAdminExpiry { .. } | State::AwaitingStaffRole { .. }
        | State::AwaitingBulkManage { .. } | State::AwaitingUserBalance { .. }
        | State::AwaitingUserDiscount { .. } | State::AwaitingUserNote { .. }
        | State::AwaitingClientNote { .. } | State::AwaitingPromoCode { .. }
        | State::AwaitingLegacyReject { .. } | State::AwaitingLegacyPrice { .. }
        | State::AwaitingServerWizardName { .. } | State::AwaitingServerWizardAddress { .. }
        | State::AwaitingServerWizardDetails { .. } | State::AwaitingServerAdd { .. }
        | State::AwaitingServerBilling { .. } | State::AwaitingServerPassport { .. }
        | State::AwaitingPanelCredentials { .. } | State::AwaitingServerDeployCredentials { .. }
        | State::AwaitingLocalMigrationConfirm { .. } | State::AwaitingGroupName { .. }
        | State::AwaitingGroupRename { .. } | State::AwaitingGroupQuota { .. }
        | State::AwaitingGroupAdminId { .. } => true,
        _ => false,
    }
}

fn push_caller_dialog(out: &mut Vec<BotCommand>, role: &Role, dialog: &State, text: &str)
    ensures
        commands_view(final(out)@) == commands_view(old(out)@) + caller_dialog(role@, *dialog, text@),
{
    let ghost before = commands_view(out@);
    if is_owner_only(dialog) && !role.is_owner() {
        push_command(out, BotCommand::SetDialog(State::Idle));
    } else {
        match dialog {
            State::AwaitingUserNote { user_id } => match note_input(text) {
                Some(note) => {
                    let kept = match note {
                        Some(n) => Some(n.to_string()),
                        None => None,
                    };
                    push_command(out, BotCommand::SaveUserNote { user_id: *user_id, note: kept });
                },
                None => push_command(out, BotCommand::Send(Notice::NoteTooLong)),
            },
            State::AwaitingLegacyReject { id } => match decline_reason(text) {
                Some(reason) => push_command(
                    out,
                    BotCommand::RejectLegacyRequest { id: *id, reason: reason.to_string() },
                ),
                None => push_command(out, BotCommand::Send(Notice::ReasonLength)),
            },
            State::AwaitingPaymentInstructions => match instructions_input(text) {
                Some(v) => {
                    push_command(out, BotCommand::SetPaymentInstructions(v.to_string()));
                    push_command(out, BotCommand::SetDialog(State::Idle));
                },
                None => push_command(out, BotCommand::Send(Notice::InstructionsLength)),
            },
            _ => push_command(out, BotCommand::Continue),
        }
    }
    assert(commands_view(out@) =~= before + caller_dialog(role@, *dialog, text@));
}

/// What the bot does with a message of text `text` in dialog `dialog` from a
/// user of `role`.
pub fn message_step(role: &Role, dialog: &State, text: &str, arrival: Arrival) -> (r: Vec<BotCommand>)
    ensures
        commands_view(r@) == message_transition(role@, *dialog, text@, arrival),
{
    let mut out: Vec<BotCommand> = Vec::new();
    if !arrival.private {
        push_command(&mut out, BotCommand::Send(Notice::PrivateOnly));
        assert(commands_view(out@) =~= message_transition(role@, *dialog, text@, arrival));
        return out;
    }
    push_command(&mut out, BotCommand::RecordUser { referrer: start_referrer(text) });
    let ghost first = commands_view(out@);
    assert(first =~= seq![CommandView::RecordUser { referrer: referrer_of(text@) }]);
    let owner = role.is_owner();
    if arrival.paid {
        push_command(&mut out, BotCommand::Continue);
    } else if let Some(token) = start_invite(text) {
        push_command(&mut out, BotCommand::UseInvite(token.to_string()));
    } else if is_taken_first(dialog) {
        push_command(&mut out, BotCommand::Continue);
    } else if owner && owner_text_command(text).is_some() {
        push_command(&mut out, owner_text_command(text).unwrap());
    } else if staff_start(role, text).is_some() {
        push_command(&mut out, BotCommand::OpenStaff(staff_start(role, text).unwrap()));
    } else if let State::AwaitingTopupAmount = dialog {
        match topup_rubles(text) {
            Some(rubles) => push_command(&mut out, BotCommand::CreateTopup(rubles)),
            None => push_command(&mut out, BotCommand::Send(Notice::TopupRange)),
        }
    } else if let State::AwaitingCustomerPromo = dialog {
        let t = trim(text);
        push_command(&mut out, BotCommand::SetDialog(State::Idle));
        if !is_customer_navigation(t) {
            push_command(&mut out, BotCommand::ActivatePromo(t.to_string()));
        } else {
            push_after_customers(&mut out, role, dialog, text, arrival);
        }
    } else if is_taken_by_caller(dialog) {
        push_caller_dialog(&mut out, role, dialog, text);
    } else {
        push_after_customers(&mut out, role, dialog, text, arrival);
    }
    assert(commands_view(out@) =~= first + message_body(role@, *dialog, text@, arrival));
    assert(commands_view(out@) =~= message_transition(role@, *dialog, text@, arrival));
    out
}

/// The command an owner's text gives, if any.
fn owner_text_command(text: &str) -> (r: Option<BotCommand>)
    ensures
        match r {
            Some(c) => owner_command(text@) == Some(command_view(c)),
            None => owner_command(text@) is None,
        },
{
    proof {
        reveal_strlit("remove");
    }
    match role_command(text) {
        Some((user, r)) => {
            let change = if str_eq(r, "remove") {
                None
            } else {
                Some(r.to_string())
            };
            Some(BotCommand::SetStaffRole { user, role: change })
        },
        None => match reply_target(text) {
            Some(t) => Some(BotCommand::StartReply(t)),
            None => match owner_screen(text) {
                Some(screen) => Some(BotCommand::OpenOwner(screen)),
                None => None,
            },
        },
    }
}

/// The staff screen `text` opens for a staff member of `role`.
fn staff_start(role: &Role, text: &str) -> (r: Option<StaffScreen>)
    ensures
        r == (if role@ is Staff {
            staff_screen_of(text@, role@->Staff_0)
        } else {
            None
        }),
{
    match role {
        Role::Staff(r) => staff_screen(text, r.as_str()),
        _ => None,
    }
}

/// The answer to a tried promo code: the confirmed right to restore old
/// keys (the legacy code was activated, or such a right is pending), else
/// the discount of an activated code, else that no code was found.
pub open spec fn promo_outcome_spec(legacy: bool, discount: Option<i64>) -> Notice {
    if legacy {
        Notice::LegacyPromoConfirmed
    } else {
        match discount {
            Some(d) => Notice::PromoActivated(d),
            None => Notice::PromoNotFound,
        }
    }
}

pub fn promo_outcome(legacy: bool, discount: Option<i64>) -> (n: Notice)
    ensures
        n == promo_outcome_spec(legacy, discount),
{
    if legacy {
        Notice::LegacyPromoConfirmed
    } else {
        match discount {
            Some(d) => Notice::PromoActivated(d),
            None => Notice::PromoNotFound,
        }
    }
}

/// Leaving the promo dialog with a navigation text activates no promo
/// code: the dialog ends and the text is read as a navigation.
pub proof fn law_promo_dialog_left_without_activation(role: RoleView, text: Seq<char>, arrival: Arrival)
    requires
        arrival.private,
        !arrival.paid,
        invite_of(text) is None,
        is_navigation(trimmed(text)),
    ensures
        forall|i: int|
            0 <= i < message_transition(role, State::AwaitingCustomerPromo, text, arrival).len()
                ==> !(#[trigger] message_transition(role, State::AwaitingCustomerPromo, text, arrival)[i] is ActivatePromo),
        message_transition(role, State::AwaitingCustomerPromo, text, arrival).contains(
            CommandView::SetDialog(StateView::Idle),
        ) || (role is Owner && owner_command(text) is Some) || (role is Staff && staff_screen_of(
            text,
            role->Staff_0,
        ) is Some),
{
    let m = message_transition(role, State::AwaitingCustomerPromo, text, arrival);
    let body = message_body(role, State::AwaitingCustomerPromo, text, arrival);
    assert(m == seq![CommandView::RecordUser { referrer: referrer_of(text) }] + body);
    if !(role is Owner && owner_command(text) is Some) && !(role is Staff && staff_screen_of(
        text,
        role->Staff_0,
    ) is Some) {
        assert(m[1] == CommandView::SetDialog(StateView::Idle));
    }
}

/// Outside a private chat a message or a button does nothing but, for a
/// message, the notice that the bot works only in private chats.
pub proof fn law_private_chats_only(role: RoleView, dialog: State, text: Seq<char>, arrival: Arrival, a: ActionView, press: Press, store: &Store)
    requires
        !arrival.private,
        !press.private,
    ensures
        message_transition(role, dialog, text, arrival) == seq![CommandView::Send(Notice::PrivateOnly)],
        callback_transition(role, a, press, store) == seq![CommandView::AnswerCallback],
{
    assert(callback_transition(role, a, press, store) =~= seq![CommandView::AnswerCallback]);
}

// ---------------------------------------------------------------------------
// An action, step by step
// ---------------------------------------------------------------------------

/// Where the work of an admitted action stands.
#[derive(Debug, Clone, Copy, PartialEq, Eq, Structural)]
pub enum ActionPhase {
    Start,
    /// Waiting for the store's answer to a check.
    Checking,
    /// Waiting for the outcome of a job of the VPN service.
    Running,
    /// Waiting for a number from the store.
    Looking,
    Done,
}

/// What the caller reports.
pub enum ActionEvent {
    Begin,
    /// The answer to the last `Check`.
    Checked(bool),
    /// The output, or the error, of the last `RunVpn`.
    Ran(Result<String, String>),
    /// The answer to the last `Look`.
    Found(Option<i64>),
}

/// The event each phase waits for.
pub open spec fn action_awaits(phase: ActionPhase, event: ActionEvent) -> bool {
    match phase {
        ActionPhase::Start => event is Begin,
        ActionPhase::Checking => event is Checked,
        ActionPhase::Running => event is Ran,
        ActionPhase::Looking => event is Found,
        ActionPhase::Done => false,
    }
}

/// An action whose first step runs a job of the VPN service.
pub open spec fn starts_with_job(a: ActionView) -> bool {
    a is LocalMigrationPreflight || a is LocalMigrationStatus || a is AdminUpdateRollback
        || a is AdminUpdateRun
}

/// What follows the outcome `outcome` (output or error) of the job of `a`.
#[verifier::opaque]
pub open spec fn after_run(a: ActionView, outcome: Result<Seq<char>, Seq<char>>) -> Seq<CommandView> {
    match a {
        ActionView::LocalMigrationPreflight => seq![CommandView::Say {
            text: match outcome {
                Ok(output) => "✅ Предварительная проверка пройдена.\n\n"@ + output,
                Err(error) => "❌ Миграцию начинать нельзя: "@ + error,
            },
            keyboard: Some(local_migration_spec()),
            html: false,
        }],
        ActionView::LocalMigrationStatus => seq![CommandView::Say {
            text: match outcome {
                Ok(output) => "📍 Состояние локальной миграции\n\n"@ + output,
                Err(error) => "❌ Не удалось получить статус: "@ + error,
            },
            keyboard: Some(local_migration_spec()),
            html: false,
        }],
        ActionView::AdminUpdateRollback => seq![CommandView::Say {
            text: match outcome {
                Ok(_) => "✅ Выполнен откат к предыдущему бинарнику. Служба успешно запущена."@,
                Err(error) => "❌ Откат не выполнен: "@ + error,
            },
            keyboard: Some(admin_system_hub_spec()),
            html: false,
        }],
        ActionView::AdminUpdateRun => match outcome {
            Ok(_) => Seq::empty(),
            Err(error) => seq![CommandView::Say {
                text: "❌ Не удалось запустить обновление: "@ + error,
                keyboard: Some(admin_system_hub_spec()),
                html: false,
            }],
        },
        _ => Seq::empty(),
    }
}

/// The outcome of a job by its characters.
pub open spec fn outcome_view(r: Result<String, String>) -> Result<Seq<char>, Seq<char>> {
    match r {
        Ok(output) => Ok(output@),
        Err(error) => Err(error@),
    }
}

/// An action whose first step reads a number from the store.
pub open spec fn starts_with_lookup(a: ActionView) -> bool {
    a is SupportReply || a is AdminReferral
}

/// What follows the store's answer `found` for action `a`.
#[verifier::opaque]
pub open spec fn after_lookup(a: ActionView, found: Option<i64>) -> Seq<CommandView> {
    match (a, found) {
        (ActionView::SupportReply(id), Some(user)) => seq![
            CommandView::AssignTicket(id),
            CommandView::Say { text: "Отправьте ответ пользователю "@ + decimal(user as int) + ":"@, keyboard: None, html: false },
            CommandView::SetDialog(StateView::AwaitingSupportReply { ticket_id: id, user_id: user }),
        ],
        (ActionView::AdminReferral, Some(percent)) => seq![
            CommandView::Say { text: "Текущее реферальное вознаграждение: "@ + decimal(percent as int) + "%.\nВведите новое значение от 0 до 100:"@, keyboard: None, html: false },
            CommandView::SetDialog(StateView::AwaitingReferralPercent),
        ],
        _ => Seq::empty(),
    }
}

/// An action whose first step asks the store.
pub open spec fn starts_with_check(a: ActionView) -> bool {
    a is ServerBillingAsk || a is ServerEnrollRevoke || a is ServerSetDefault || a is BuyPaid
        || a is DeviceLabelAsk || a is CustomerRefresh || a is RenewTerm
}

/// What follows the store's answer `yes` for action `a`.
#[verifier::opaque]
pub open spec fn after_check(a: ActionView, yes: bool) -> Seq<CommandView> {
    match a {
        ActionView::ServerBillingAsk(id) => if yes {
            seq![
                CommandView::Say { text: "Введите:\nОПЛАЧЕН ДО | ПЕРИОД В МЕСЯЦАХ | СТОИМОСТЬ | ВАЛЮТА | АВТОПРОДЛЕНИЕ\n\nПример: 2026-09-15 | 1 | 6.00 | EUR | да"@, keyboard: None, html: false },
                CommandView::SetDialog(StateView::AwaitingServerBilling { server_id: id }),
            ]
        } else {
            Seq::empty()
        },
        ActionView::ServerEnrollRevoke(id) => seq![
            CommandView::Say {
                text: if yes { "✅ Активное приглашение подключения отозвано."@ } else { "Активных приглашений для этого сервера нет."@ },
                keyboard: Some(server_card_spec(id)),
                html: false,
            },
        ],
        ActionView::ServerSetDefault(id) => if yes {
            seq![
                CommandView::SetDefaultServer(id),
                CommandView::Say { text: "✅ Сервер назначен источником новых ключей и безопасной замены нерабочих ключей.\n\nПробные ключи теперь также будут выпускаться на нём. При замене старый ключ удаляется только после подтверждения пользователя."@, keyboard: Some(server_card_spec(id)), html: false },
            ]
        } else {
            seq![CommandView::Say { text: "Сначала сервер должен подключиться, пройти проверку и быть включён для выдачи."@, keyboard: Some(server_card_spec(id)), html: false }]
        },
        ActionView::BuyPaid(id) => if yes {
            seq![
                CommandView::Say { text: "Пришлите номер операции, комментарий или скриншот чека."@, keyboard: None, html: false },
                CommandView::SetDialog(StateView::AwaitingPaymentProof { id }),
            ]
        } else {
            Seq::empty()
        },
        ActionView::DeviceLabelAsk(name) => if yes {
            seq![
                CommandView::Say { text: "Введите название устройства для ключа "@ + name + ", например «iPhone» или «Ноутбук»:"@, keyboard: None, html: false },
                CommandView::SetDialog(StateView::AwaitingDeviceLabel { name }),
            ]
        } else {
            Seq::empty()
        },
        ActionView::CustomerRefresh(name) => if yes {
            seq![CommandView::Say { text: "📱 Обновление подключения «"@ + name + "»\n\nБот создаст свежие файлы под текущие настройки VPN-сервера. Криптографический ключ, VPN-адрес, владелец и срок подписки не изменятся.\n\nПосле получения удалите старое подключение из AmneziaVPN/AmneziaWG и импортируйте новое."@, keyboard: Some(customer_refresh_confirm_spec(name)), html: false }]
        } else {
            Seq::empty()
        },
        ActionView::RenewTerm(name, months) => if yes && tariff_days(months) is Some {
            seq![CommandView::Say { text: "Выберите способ оплаты продления:"@, keyboard: Some(renew_method_spec(name, months)), html: false }]
        } else {
            Seq::empty()
        },
        _ => Seq::empty(),
    }
}

/// The next phase and commands of action `a` after `event` in `phase`.
pub open spec fn action_transition(a: ActionView, phase: ActionPhase, event: ActionEvent) -> (
    ActionPhase,
    Seq<CommandView>,
) {
    match (phase, event) {
        (ActionPhase::Checking, ActionEvent::Checked(yes)) => (ActionPhase::Done, after_check(a, yes)),
        (ActionPhase::Running, ActionEvent::Ran(outcome)) => (ActionPhase::Done, after_run(a, outcome_view(outcome))),
        (ActionPhase::Looking, ActionEvent::Found(found)) => (ActionPhase::Done, after_lookup(a, found)),
        _ => (
            if starts_with_check(a) {
                ActionPhase::Checking
            } else if starts_with_job(a) {
                ActionPhase::Running
            } else if starts_with_lookup(a) {
                ActionPhase::Looking
            } else {
                ActionPhase::Done
            },
            action_commands(a),
        ),
    }
}


fn push_after_check(out: &mut Vec<BotCommand>, action: &Action, yes: bool)
    ensures
        commands_view(final(out)@) == commands_view(old(out)@) + after_check(action@, yes),
{
    proof {
        reveal(after_check);
    }
    let ghost before = commands_view(out@);
    match action {
        Action::ServerBillingAsk(id) => if yes {
            push_command(out, BotCommand::Say { text: "Введите:\nОПЛАЧЕН ДО | ПЕРИОД В МЕСЯЦАХ | СТОИМОСТЬ | ВАЛЮТА | АВТОПРОДЛЕНИЕ\n\nПример: 2026-09-15 | 1 | 6.00 | EUR | да".to_string(), keyboard: None, html: false });
            push_command(out, BotCommand::SetDialog(State::AwaitingServerBilling { server_id: *id }));
        },
        Action::ServerEnrollRevoke(id) => {
            let text = if yes { "✅ Активное приглашение подключения отозвано.".to_string() } else { "Активных приглашений для этого сервера нет.".to_string() };
            push_command(out, BotCommand::Say { text, keyboard: Some(server_card_menu(*id)), html: false });
        },
        Action::ServerSetDefault(id) => if yes {
            push_command(out, BotCommand::SetDefaultServer(*id));
            push_command(out, BotCommand::Say { text: "✅ Сервер назначен источником новых ключей и безопасной замены нерабочих ключей.\n\nПробные ключи теперь также будут выпускаться на нём. При замене старый ключ удаляется только после подтверждения пользователя.".to_string(), keyboard: Some(server_card_menu(*id)), html: false });
        } else {
            push_command(out, BotCommand::Say { text: "Сначала сервер должен подключиться, пройти проверку и быть включён для выдачи.".to_string(), keyboard: Some(server_card_menu(*id)), html: false });
        },
        Action::BuyPaid(id) => if yes {
            push_command(out, BotCommand::Say { text: "Пришлите номер операции, комментарий или скриншот чека.".to_string(), keyboard: None, html: false });
            push_command(out, BotCommand::SetDialog(State::AwaitingPaymentProof { id: *id }));
        },
        Action::DeviceLabelAsk(name) => if yes {
            let mut text = "Введите название устройства для ключа ".to_string();
            text.append(name.as_str());
            text.append(", например «iPhone» или «Ноутбук»:");
            push_command(out, BotCommand::Say { text, keyboard: None, html: false });
            push_command(out, BotCommand::SetDialog(State::AwaitingDeviceLabel { name: name.clone() }));
        },
        Action::CustomerRefresh(name) => if yes {
            let mut text = "📱 Обновление подключения «".to_string();
            text.append(name.as_str());
            text.append("»\n\nБот создаст свежие файлы под текущие настройки VPN-сервера. Криптографический ключ, VPN-адрес, владелец и срок подписки не изменятся.\n\nПосле получения удалите старое подключение из AmneziaVPN/AmneziaWG и импортируйте новое.");
            push_command(out, BotCommand::Say { text, keyboard: Some(customer_refresh_confirm_menu(name.as_str())), html: false });
        },
        Action::RenewTerm(name, months) => if yes && tariff_duration(*months).is_some() {
            push_command(out, BotCommand::Say { text: "Выберите способ оплаты продления:".to_string(), keyboard: Some(renew_method_menu(name.as_str(), *months)), html: false });
        },
        _ => {},
    }
    assert(commands_view(out@) =~= before + after_check(action@, yes));
}

fn push_after_run(out: &mut Vec<BotCommand>, action: &Action, outcome: Result<String, String>)
    ensures
        commands_view(final(out)@) == commands_view(old(out)@) + after_run(action@, outcome_view(outcome)),
{
    proof {
        reveal(after_run);
    }
    let ghost before = commands_view(out@);
    let ghost seen = outcome_view(outcome);
    match action {
        Action::LocalMigrationPreflight => {
            let text = match outcome {
                Ok(output) => joined("✅ Предварительная проверка пройдена.\n\n", output.as_str()),
                Err(error) => joined("❌ Миграцию начинать нельзя: ", error.as_str()),
            };
            push_command(out, BotCommand::Say { text, keyboard: Some(local_migration_menu()), html: false });
        },
        Action::LocalMigrationStatus => {
            let text = match outcome {
                Ok(output) => joined("📍 Состояние локальной миграции\n\n", output.as_str()),
                Err(error) => joined("❌ Не удалось получить статус: ", error.as_str()),
            };
            push_command(out, BotCommand::Say { text, keyboard: Some(local_migration_menu()), html: false });
        },
        Action::AdminUpdateRollback => {
            let text = match outcome {
                Ok(_) => "✅ Выполнен откат к предыдущему бинарнику. Служба успешно запущена.".to_string(),
                Err(error) => joined("❌ Откат не выполнен: ", error.as_str()),
            };
            push_command(out, BotCommand::Say { text, keyboard: Some(admin_system_hub()), html: false });
        },
        Action::AdminUpdateRun => {
            if let Err(error) = outcome {
                let text = joined("❌ Не удалось запустить обновление: ", error.as_str());
                push_command(out, BotCommand::Say { text, keyboard: Some(admin_system_hub()), html: false });
            }
        },
        _ => {},
    }
    assert(commands_view(out@) =~= before + after_run(action@, seen));
}

/// `head` followed by `tail`.
pub(crate) fn joined(head: &str, tail: &str) -> (s: String)
    ensures
        s@ == head@ + tail@,
{
    let mut s = head.to_string();
    s.append(tail);
    s
}

fn push_after_lookup(out: &mut Vec<BotCommand>, action: &Action, found: Option<i64>)
    ensures
        commands_view(final(out)@) == commands_view(old(out)@) + after_lookup(action@, found),
{
    proof {
        reveal(after_lookup);
    }
    let ghost before = commands_view(out@);
    match (action, found) {
        (Action::SupportReply(id), Some(user)) => {
            push_command(out, BotCommand::AssignTicket(*id));
            let text = joined("Отправьте ответ пользователю ", format_i64(user).as_str());
            let mut text = text;
            text.append(":");
            push_command(out, BotCommand::Say { text, keyboard: None, html: false });
            push_command(out, BotCommand::SetDialog(State::AwaitingSupportReply { ticket_id: *id, user_id: user }));
        },
        (Action::AdminReferral, Some(percent)) => {
            let mut text = joined("Текущее реферальное вознаграждение: ", format_i64(percent).as_str());
            text.append("%.\nВведите новое значение от 0 до 100:");
            push_command(out, BotCommand::Say { text, keyboard: None, html: false });
            push_command(out, BotCommand::SetDialog(State::AwaitingReferralPercent));
        },
        _ => {},
    }
    assert(commands_view(out@) =~= before + after_lookup(action@, found));
}

fn looks_first(action: &Action) -> (r: bool)
    ensures
        r == starts_with_lookup(action@),
{
    match action {
        Action::SupportReply(_) | Action::AdminReferral => true,
        _ => false,
    }
}

fn runs_first(action: &Action) -> (r: bool)
    ensures
        r == starts_with_job(action@),
{
    match action {
        Action::LocalMigrationPreflight | Action::LocalMigrationStatus | Action::AdminUpdateRollback
        | Action::AdminUpdateRun => true,
        _ => false,
    }
}

fn checks_first(action: &Action) -> (r: bool)
    ensures
        r == starts_with_check(action@),
{
    match action {
        Action::ServerBillingAsk(_) | Action::ServerEnrollRevoke(_) | Action::ServerSetDefault(_)
        | Action::BuyPaid(_) | Action::DeviceLabelAsk(_) | Action::CustomerRefresh(_)
        | Action::RenewTerm(_, _) => true,
        _ => false,
    }
}

/// One step of an admitted action: its first commands, or what follows the
/// store's answer to its check.
pub fn action_step(action: Action, phase: ActionPhase, event: ActionEvent) -> (r: (ActionPhase, Vec<BotCommand>))
    requires
        action_awaits(phase, event),
    ensures
        (r.0, commands_view(r.1@)) == action_transition(action@, phase, event),
{
    let mut out: Vec<BotCommand> = Vec::new();
    let ghost a = action@;
    match event {
        ActionEvent::Checked(yes) => {
            push_after_check(&mut out, &action, yes);
            assert(commands_view(out@) =~= after_check(a, yes));
            (ActionPhase::Done, out)
        },
        ActionEvent::Found(found) => {
            push_after_lookup(&mut out, &action, found);
            assert(commands_view(out@) =~= after_lookup(a, found));
            (ActionPhase::Done, out)
        },
        ActionEvent::Ran(outcome) => {
            let ghost seen = outcome_view(outcome);
            push_after_run(&mut out, &action, outcome);
            assert(commands_view(out@) =~= after_run(a, seen));
            (ActionPhase::Done, out)
        },
        ActionEvent::Begin => {
            let next = if checks_first(&action) {
                ActionPhase::Checking
            } else if runs_first(&action) {
                ActionPhase::Running
            } else if looks_first(&action) {
                ActionPhase::Looking
            } else {
                ActionPhase::Done
            };
            perform_action(&mut out, action);
            assert(commands_view(out@) =~= action_commands(a));
            (next, out)
        },
    }
}

/// An admitted action ends at once or after the one answer it waits for:
/// whatever the store or the VPN service answers, the next step is the last.
pub proof fn law_actions_end_after_one_answer(a: ActionView, answer: ActionEvent)
    ensures
        ({
            let first = action_transition(a, ActionPhase::Start, ActionEvent::Begin).0;
            first != ActionPhase::Start && (action_awaits(first, answer) ==> action_transition(
                a,
                first,
                answer,
            ).0 == ActionPhase::Done)
        }),
{
}

} // verus!
