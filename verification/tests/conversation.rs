use awgram::action::Action;
use awgram::auth::Role;
use awgram::conversation::{
    action_step, callback_step, message_step, promo_outcome, ActionEvent, ActionPhase, Arrival,
    BotCommand, Notice, Press, StoreCheck, StoreLookup, VpnJob,
};
use awgram::dialog_flow::{dialog_step, DialogEvent, DialogPhase};
use awgram::routes::{CustomerScreen, OwnerScreen};
use awgram::state::State;
use awgram::store::Store;

fn press(private: bool, blocked: bool) -> Press {
    Press { has_message: true, private, blocked }
}

fn arrival(private: bool) -> Arrival {
    Arrival { private, paid: false, blocked: false, now: 0 }
}

fn names(commands: &[BotCommand]) -> Vec<String> {
    commands
        .iter()
        .map(|c| match c {
            BotCommand::AnswerCallback => "answer".to_string(),
            BotCommand::RecordUser { referrer } => format!("record {referrer:?}"),
            BotCommand::Send(n) => format!("send {n:?}"),
            BotCommand::SetDialog(State::Idle) => "idle".to_string(),
            BotCommand::SetDialog(State::AwaitingCustomerPromo) => "dialog promo".to_string(),
            BotCommand::SetDialog(State::AwaitingGroupQuota { id }) => format!("dialog quota {id}"),
            BotCommand::SetDialog(_) => "dialog".to_string(),
            BotCommand::Perform(_) => "perform".to_string(),
            BotCommand::UseInvite(t) => format!("invite {t}"),
            BotCommand::SetStaffRole { user, role } => format!("role {user} {role:?}"),
            BotCommand::StartReply(u) => format!("reply {u}"),
            BotCommand::OpenOwner(s) => format!("owner {s:?}"),
            BotCommand::OpenStaff(s) => format!("staff {s:?}"),
            BotCommand::OpenCustomer(s) => format!("customer {s:?}"),
            BotCommand::ActivatePromo(t) => format!("promo {t}"),
            BotCommand::CreateTopup(r) => format!("topup {r}"),
            BotCommand::SetGroupQuota { id, quota } => format!("quota {id} {quota:?}"),
            BotCommand::AddGroupAdmin { id, user } => format!("admin {id} {user}"),
            BotCommand::SaveUserNote { user_id, note } => format!("note {user_id} {note:?}"),
            BotCommand::RejectLegacyRequest { id, reason } => format!("reject {id} {reason}"),
            BotCommand::SetPaymentInstructions(t) => format!("instructions {t}"),
            BotCommand::CreateGroup(n) => format!("group {n}"),
            BotCommand::RenameGroup { id, name } => format!("rename {id} {name}"),
            BotCommand::Say { text, .. } => format!("say {text}"),
            BotCommand::Check(c) => format!("check {c:?}"),
            BotCommand::SetDefaultServer(id) => format!("default server {id}"),
            BotCommand::AssignTicket(id) => format!("assign {id}"),
            BotCommand::RunVpn(job) => format!("run {job:?}"),
            BotCommand::Look(l) => format!("look {l:?}"),
            BotCommand::SetTariffPrices { stars, prices } => format!("prices {stars} {prices:?}"),
            BotCommand::SetReferralPercent(p) => format!("referral {p}"),
            BotCommand::SaveClientNote { name, note } => format!("key note {name} {note:?}"),
            BotCommand::ResetMigrationNotice => "reset migration notice".to_string(),
            BotCommand::LogLocalMigration { start } => format!("log migration {start}"),
            BotCommand::LogRoleChange { user, role } => format!("log role {user} {role}"),
            BotCommand::CreatePromo { legacy, code, percent, max_uses } => {
                format!("create promo {legacy} {code} {percent} {max_uses:?}")
            },
            BotCommand::Continue => "continue".to_string(),
            BotCommand::ShowMenu => "menu".to_string(),
        })
        .collect()
}

#[test]
fn buttons_outside_private_chats_do_nothing() {
    let store = Store::open_in_memory();
    let r = callback_step(&Role::Owner, Action::RegenAll, press(false, false), &store);
    assert_eq!(names(&r), vec!["answer"]);
}

#[test]
fn suspended_users_get_only_the_notice() {
    let store = Store::open_in_memory();
    let r = callback_step(&Role::Denied, Action::Buy, press(true, true), &store);
    assert_eq!(names(&r), vec!["answer", "record None", "send Suspended"]);
    let r = callback_step(&Role::Denied, Action::RegenAll, press(true, false), &store);
    assert_eq!(names(&r), vec!["answer", "record None"]);
}

#[test]
fn unknown_buttons_are_answered() {
    let store = Store::open_in_memory();
    let r = callback_step(&Role::Owner, Action::Unknown, press(true, false), &store);
    assert_eq!(names(&r), vec!["answer", "record None", "send UnknownAction"]);
    let r = callback_step(&Role::Owner, Action::GroupQuotaAsk(5), press(true, false), &store);
    assert_eq!(names(&r), vec!["answer", "record None", "send AskGroupQuota", "dialog quota 5"]);
    let r = callback_step(&Role::Denied, Action::PromoInput, press(true, false), &store);
    assert_eq!(names(&r), vec!["answer", "record None", "send AskCustomerPromo", "dialog promo"]);
}

#[test]
fn messages_outside_private_chats_get_the_notice() {
    let r = message_step(&Role::Owner, &State::Idle, "/start", arrival(false));
    assert_eq!(names(&r), vec!["send PrivateOnly"]);
}

#[test]
fn promo_dialog_activates_or_leaves() {
    let r = message_step(&Role::Denied, &State::AwaitingCustomerPromo, " CODE ", arrival(true));
    assert_eq!(names(&r), vec!["record None", "idle", "promo CODE"]);
    let r = message_step(&Role::Denied, &State::AwaitingCustomerPromo, "🔑 Мои ключи", arrival(true));
    assert_eq!(names(&r), vec!["record None", "idle", format!("customer {:?}", CustomerScreen::MyKeys).as_str()]);
    assert_eq!(promo_outcome(true, Some(5)), Notice::LegacyPromoConfirmed);
    assert_eq!(promo_outcome(false, Some(5)), Notice::PromoActivated(5));
    assert_eq!(promo_outcome(false, None), Notice::PromoNotFound);
}

#[test]
fn owner_texts_and_group_dialogs() {
    let r = message_step(&Role::Owner, &State::Idle, "/start ref_7", arrival(true));
    assert_eq!(names(&r), vec!["record Some(7)", "menu", "idle"]);
    let r = message_step(&Role::Owner, &State::Idle, "🔎 Поиск", arrival(true));
    assert_eq!(names(&r), vec!["record None".to_string(), format!("owner {:?}", OwnerScreen::Search)]);
    let r = message_step(&Role::Owner, &State::Idle, "/role 42 support", arrival(true));
    assert_eq!(names(&r), vec!["record None", "role 42 Some(\"support\")"]);
    let r = message_step(&Role::Owner, &State::Idle, "/role 42 remove", arrival(true));
    assert_eq!(names(&r), vec!["record None", "role 42 None"]);
    let r = message_step(&Role::Owner, &State::AwaitingGroupQuota { id: 3 }, "0", arrival(true));
    assert_eq!(names(&r), vec!["record None", "quota 3 None", "idle"]);
    let r = message_step(&Role::Owner, &State::AwaitingGroupQuota { id: 3 }, "x", arrival(true));
    assert_eq!(names(&r), vec!["record None", "send BadGroupQuota"]);
    let r = message_step(&Role::Owner, &State::AwaitingGroupAdminId { id: 3 }, "42", arrival(true));
    assert_eq!(names(&r), vec!["record None", "admin 3 42", "idle"]);
    let r = message_step(&Role::GroupAdmin(vec![3]), &State::AwaitingGroupAdminId { id: 3 }, "42", arrival(true));
    assert_eq!(names(&r), vec!["record None", "idle"]);
    let r = message_step(&Role::Denied, &State::AwaitingTopupAmount, "500", arrival(true));
    assert_eq!(names(&r), vec!["record None", "topup 500"]);
    let r = message_step(&Role::Denied, &State::Idle, "/start inv_abc", arrival(true));
    assert_eq!(names(&r), vec!["record None", "invite abc"]);
}

#[test]
fn owner_dialogs_read_their_answers() {
    let owner = Role::Owner;
    let r = message_step(&owner, &State::AwaitingUserNote { user_id: 9 }, " clear ", arrival(true));
    assert_eq!(names(&r), vec!["record None", "note 9 None"]);
    let r = message_step(&owner, &State::AwaitingUserNote { user_id: 9 }, &"n".repeat(501), arrival(true));
    assert_eq!(names(&r), vec!["record None", "send NoteTooLong"]);
    let r = message_step(&owner, &State::AwaitingLegacyReject { id: 4 }, " late ", arrival(true));
    assert_eq!(names(&r), vec!["record None", "reject 4 late"]);
    let r = message_step(&owner, &State::AwaitingPaymentInstructions, " Card ", arrival(true));
    assert_eq!(names(&r), vec!["record None", "instructions Card", "idle"]);
    let r = message_step(&owner, &State::AwaitingGroupName, " Family ", arrival(true));
    assert_eq!(names(&r), vec!["record None", "group Family"]);
    let r = message_step(&owner, &State::AwaitingGroupRename { id: 2 }, &"g".repeat(33), arrival(true));
    assert_eq!(names(&r), vec!["record None", "send BadGroupName"]);
    let staff = Role::Staff("support".to_string());
    let r = message_step(&staff, &State::AwaitingUserNote { user_id: 9 }, "hi", arrival(true));
    assert_eq!(names(&r), vec!["record None", "idle"]);
    let r = message_step(&staff, &State::AwaitingGroupName, "hi", arrival(true));
    assert_eq!(names(&r), vec!["record None", "idle"]);
    let r = message_step(&owner, &State::AwaitingClientNote { name: "k".into() }, "hi", arrival(true));
    assert_eq!(names(&r), vec!["record None", "continue"]);
}

fn begin(action: Action) -> (ActionPhase, Vec<String>) {
    let (phase, commands) = action_step(action, ActionPhase::Start, ActionEvent::Begin);
    (phase, names(&commands))
}

fn dialog_names(commands: &[BotCommand]) -> Vec<String> {
    commands
        .iter()
        .map(|c| match c {
            BotCommand::SetDialog(State::AwaitingServerWizardName) => "dialog wizard".to_string(),
            BotCommand::SetDialog(State::AwaitingPaymentReject { id }) => format!("dialog reject {id}"),
            BotCommand::SetDialog(State::AwaitingClientNote { name }) => format!("dialog key note {name}"),
            BotCommand::SetDialog(State::AwaitingPromoCode { kind }) => format!("dialog promo code {kind}"),
            BotCommand::SetDialog(State::AwaitingLocalMigrationConfirm { operation }) => {
                format!("dialog confirm {operation}")
            },
            other => names(std::slice::from_ref(other)).remove(0),
        })
        .collect()
}

#[test]
fn server_add_opens_the_wizard() {
    let (phase, commands) = action_step(Action::ServerAdd, ActionPhase::Start, ActionEvent::Begin);
    assert_eq!(phase, ActionPhase::Done);
    let shown = dialog_names(&commands);
    assert_eq!(shown.len(), 2);
    assert!(shown[0].starts_with("say 🧭 Мастер подключения нового сервера\n\nШаг 1 из 3."));
    assert_eq!(shown[1], "dialog wizard");
}

#[test]
fn default_server_waits_for_the_store() {
    let (phase, shown) = begin(Action::ServerSetDefault(5));
    assert_eq!(phase, ActionPhase::Checking);
    assert_eq!(shown, vec![format!("check {:?}", StoreCheck::ServerReady(5))]);
    let (phase, yes) = action_step(Action::ServerSetDefault(5), ActionPhase::Checking, ActionEvent::Checked(true));
    assert_eq!(phase, ActionPhase::Done);
    let yes = names(&yes);
    assert_eq!(yes[0], "default server 5");
    assert!(yes[1].starts_with("say ✅ Сервер назначен источником новых ключей"));
    let (_, no) = action_step(Action::ServerSetDefault(5), ActionPhase::Checking, ActionEvent::Checked(false));
    assert_eq!(
        names(&no),
        vec!["say Сначала сервер должен подключиться, пройти проверку и быть включён для выдачи."]
    );
}

#[test]
fn numbered_prompts_carry_the_request() {
    assert_eq!(begin(Action::SupportTake(7)).1, vec!["assign 7", "say ✅ Обращение #7 назначено вам."]);
    let (_, commands) = action_step(Action::PaymentReject(7), ActionPhase::Start, ActionEvent::Begin);
    assert_eq!(
        dialog_names(&commands),
        vec!["say Укажите причину отказа по заявке #7:", "dialog reject 7"]
    );
}

#[test]
fn named_prompts_open_their_dialog() {
    let (_, commands) = action_step(Action::ClientNoteAsk("alice".to_string()), ActionPhase::Start, ActionEvent::Begin);
    assert_eq!(
        dialog_names(&commands),
        vec![
            "say Введите внутреннюю заметку для ключа alice. Для удаления отправьте clear.",
            "dialog key note alice",
        ]
    );
    let (_, commands) = action_step(Action::AdminPromoAction("legacy".to_string()), ActionPhase::Start, ActionEvent::Begin);
    assert_eq!(
        dialog_names(&commands),
        vec!["say Введите CODE [MAX_USES].\nПример: RESTORE2026 50", "dialog promo code legacy"]
    );
    assert!(begin(Action::AdminPromoAction("other".to_string())).1.is_empty());
    let (_, commands) = action_step(Action::LocalMigrationRollback, ActionPhase::Start, ActionEvent::Begin);
    assert_eq!(dialog_names(&commands)[1], "dialog confirm rollback");
}

#[test]
fn guides_by_kind() {
    assert!(begin(Action::Guide("awg".to_string())).1[0].starts_with("say 🛡 AmneziaWG\n\n1."));
    assert_eq!(begin(Action::Guide("nope".to_string())).1, vec!["say Инструкция не найдена."]);
}

#[test]
fn vpn_jobs_report_their_outcome() {
    let (phase, shown) = begin(Action::LocalMigrationPreflight);
    assert_eq!(phase, ActionPhase::Running);
    assert_eq!(shown, vec![format!("run {:?}", VpnJob::LocalMigrationPreflight)]);
    let (phase, ok) = action_step(
        Action::LocalMigrationPreflight,
        ActionPhase::Running,
        ActionEvent::Ran(Ok("ready".to_string())),
    );
    assert_eq!(phase, ActionPhase::Done);
    assert_eq!(names(&ok), vec!["say ✅ Предварительная проверка пройдена.\n\nready"]);
    let (_, err) = action_step(
        Action::LocalMigrationPreflight,
        ActionPhase::Running,
        ActionEvent::Ran(Err("busy".to_string())),
    );
    assert_eq!(names(&err), vec!["say ❌ Миграцию начинать нельзя: busy"]);
    let (_, fine) = action_step(Action::AdminUpdateRun, ActionPhase::Running, ActionEvent::Ran(Ok(String::new())));
    assert!(fine.is_empty());
}

#[test]
fn renewal_terms_need_a_known_tariff() {
    let (phase, shown) = begin(Action::RenewTerm("k".to_string(), 1));
    assert_eq!(phase, ActionPhase::Checking);
    assert_eq!(shown, vec![format!("check {:?}", StoreCheck::CallerOwnsKey)]);
    let (_, known) = action_step(Action::RenewTerm("k".to_string(), 1), ActionPhase::Checking, ActionEvent::Checked(true));
    assert_eq!(names(&known), vec!["say Выберите способ оплаты продления:"]);
    let (_, unknown) = action_step(Action::RenewTerm("k".to_string(), 5), ActionPhase::Checking, ActionEvent::Checked(true));
    assert!(unknown.is_empty());
    let (_, foreign) = action_step(Action::RenewTerm("k".to_string(), 1), ActionPhase::Checking, ActionEvent::Checked(false));
    assert!(foreign.is_empty());
}

fn answer(role: &Role, dialog: &State, text: &str) -> (DialogPhase, Vec<String>) {
    let (phase, commands) = dialog_step(role, dialog, text, DialogPhase::Start, DialogEvent::Begin);
    (phase, dialog_names(&commands))
}

#[test]
fn tariff_and_referral_dialogs() {
    let (phase, shown) = answer(&Role::Owner, &State::AwaitingTariffPricesRub, "200 600 1000 2000");
    assert_eq!(phase, DialogPhase::Done);
    assert_eq!(
        shown,
        vec!["prices false [20000, 60000, 100000, 200000]", "say ✅ Рублёвые тарифы обновлены.", "idle"]
    );
    assert_eq!(
        answer(&Role::Owner, &State::AwaitingTariffPricesStars, "1 2").1,
        vec!["say Введите четыре целых количества Stars через пробел, например: 100 250 450 800"]
    );
    assert_eq!(
        answer(&Role::Owner, &State::AwaitingReferralPercent, " 25 ").1,
        vec!["referral 25", "say ✅ Реферальное вознаграждение: 25%.", "idle"]
    );
    assert_eq!(
        answer(&Role::Owner, &State::AwaitingReferralPercent, "101").1,
        vec!["say Введите целое число от 0 до 100."]
    );
}

#[test]
fn key_note_dialog_waits_for_the_store() {
    let note = State::AwaitingClientNote { name: "alice".to_string() };
    let (phase, shown) = answer(&Role::Owner, &note, "  CLEAR ");
    assert_eq!(phase, DialogPhase::Saving);
    assert_eq!(shown, vec!["key note alice None"]);
    let (_, saved) = dialog_step(&Role::Owner, &note, "x", DialogPhase::Saving, DialogEvent::Saved(true));
    assert_eq!(names(&saved), vec!["say ✅ Заметка ключа сохранена.", "idle"]);
    let (_, failed) = dialog_step(&Role::Owner, &note, "x", DialogPhase::Saving, DialogEvent::Saved(false));
    assert_eq!(names(&failed), vec!["say Не удалось сохранить заметку."]);
    assert_eq!(answer(&Role::Denied, &note, "x").1, vec!["idle"]);
}

#[test]
fn local_migration_needs_the_exact_confirmation() {
    let confirm = State::AwaitingLocalMigrationConfirm { operation: "start".to_string() };
    assert_eq!(
        answer(&Role::Owner, &confirm, "migrate").1,
        vec!["say Подтверждение не совпало. Для продолжения отправьте точно: MIGRATE AWG1"]
    );
    let (phase, shown) = answer(&Role::Owner, &confirm, " MIGRATE AWG1 ");
    assert_eq!(phase, DialogPhase::Running);
    assert_eq!(
        shown,
        vec![
            "idle".to_string(),
            "say ⏳ Запускаю защищённую системную операцию…".to_string(),
            format!("run {:?}", VpnJob::LocalMigrationStart),
        ]
    );
    let (_, done) = dialog_step(&Role::Owner, &confirm, "", DialogPhase::Running, DialogEvent::Ran(Ok("ok".to_string())));
    let done = names(&done);
    assert_eq!(done[0], "reset migration notice");
    assert_eq!(done[1], "log migration true");
    assert!(done[2].starts_with("say 🚨 Миграция запущена.") && done[2].ends_with("\n\nОтвет helper: ok"));
}

#[test]
fn staff_role_and_promo_dialogs() {
    let add = State::AwaitingStaffRole { operation: "add".to_string() };
    let (phase, shown) = answer(&Role::Owner, &add, "42 support");
    assert_eq!(phase, DialogPhase::Saving);
    assert_eq!(shown, vec!["role 42 Some(\"support\")"]);
    let (_, saved) = dialog_step(&Role::Owner, &add, "42 support", DialogPhase::Saving, DialogEvent::Saved(true));
    assert_eq!(names(&saved), vec!["log role 42 support", "say ✅ Роль обновлена.", "idle"]);
    let remove = State::AwaitingStaffRole { operation: "remove".to_string() };
    assert_eq!(answer(&Role::Owner, &remove, "42").1, vec!["role 42 None"]);
    let (phase, shown) = answer(&Role::Owner, &add, "x");
    assert_eq!(phase, DialogPhase::Done);
    assert!(shown[0].starts_with("say Не удалось изменить роль."));
    let promo = State::AwaitingPromoCode { kind: "discount".to_string() };
    assert_eq!(answer(&Role::Owner, &promo, "FRIEND25 25 100").1, vec!["create promo false FRIEND25 25 Some(100)"]);
    let (_, created) = dialog_step(&Role::Owner, &promo, "FRIEND25 25 100", DialogPhase::Saving, DialogEvent::Saved(true));
    assert_eq!(names(&created), vec!["say ✅ Промокод создан.", "idle"]);
    let legacy = State::AwaitingPromoCode { kind: "legacy".to_string() };
    assert_eq!(answer(&Role::Owner, &legacy, "RESTORE2026 50").1, vec!["create promo true RESTORE2026 0 Some(50)"]);
    assert_eq!(answer(&Role::Denied, &legacy, "RESTORE2026 50").1, vec!["idle"]);
    assert_eq!(answer(&Role::Denied, &add, "42 support").1, vec!["idle"]);
}

#[test]
fn screens_and_store_lookups() {
    assert_eq!(begin(Action::AdminFinance).1, vec![format!("owner {:?}", OwnerScreen::Finance)]);
    let (phase, shown) = begin(Action::SupportReply(3));
    assert_eq!(phase, ActionPhase::Looking);
    assert_eq!(shown, vec![format!("look {:?}", StoreLookup::TicketUser(3))]);
    let (_, found) = action_step(Action::SupportReply(3), ActionPhase::Looking, ActionEvent::Found(Some(77)));
    assert_eq!(
        dialog_names(&found),
        vec!["assign 3", "say Отправьте ответ пользователю 77:", "dialog"]
    );
    let (_, missing) = action_step(Action::SupportReply(3), ActionPhase::Looking, ActionEvent::Found(None));
    assert!(missing.is_empty());
    let (_, percent) = action_step(Action::AdminReferral, ActionPhase::Looking, ActionEvent::Found(Some(15)));
    assert_eq!(
        names(&percent)[0],
        "say Текущее реферальное вознаграждение: 15%.\nВведите новое значение от 0 до 100:"
    );
}
