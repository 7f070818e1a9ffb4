//! The owner's dialogs that a typed message finishes: tariff prices, the
//! referral reward, a key's note, staff roles, new promo codes and the
//! confirmation of the local migration, step by step with the store and the
//! VPN service.

use vstd::prelude::*;
use vstd::string::*;
use crate::auth::{Role, RoleView};
use crate::conversation::{
    commands_view, joined, outcome_view, push_command, BotCommand, CommandView, VpnJob,
};
use crate::admin_menus::{
    admin_commerce_menu, admin_commerce_spec, admin_dashboard_menu, admin_dashboard_spec,
    local_migration_menu, local_migration_spec,
};
use crate::handlers::{trim, trimmed};
use crate::inputs::{
    note_input, note_of, percent_of, prices_in_kopecks, prices_of, promo_input, promo_of,
    referral_percent, staff_change, staff_change_of, tariff_prices,
};
use crate::numbers::{decimal, format_i64};
use crate::state::{State, StateView};
use crate::text::str_eq;

verus! {

/// Where a dialog's answer stands.
#[derive(Debug, Clone, Copy, PartialEq, Eq, Structural)]
pub enum DialogPhase {
    Start,
    /// Waiting for the store to say whether it saved.
    Saving,
    /// Waiting for the outcome of a job of the VPN service.
    Running,
    Done,
}

/// What the caller reports.
pub enum DialogEvent {
    Begin,
    /// Whether the store saved the last value.
    Saved(bool),
    /// The output, or the error, of the last `RunVpn`.
    Ran(Result<String, String>),
}

/// The dialogs answered here.
pub open spec fn handled_dialog(d: StateView) -> bool {
    d is AwaitingTariffPricesRub || d is AwaitingTariffPricesStars || d is AwaitingReferralPercent
        || d is AwaitingClientNote || d is AwaitingLocalMigrationConfirm || d is AwaitingStaffRole
        || d is AwaitingPromoCode
}

/// Whether a typed message in `dialog` is answered by `dialog_step`.
pub fn answers_here(dialog: &State) -> (r: bool)
    ensures
        r == handled_dialog(dialog@),
{
    matches!(dialog, State::AwaitingTariffPricesRub | State::AwaitingTariffPricesStars
        | State::AwaitingReferralPercent | State::AwaitingClientNote { .. }
        | State::AwaitingLocalMigrationConfirm { .. } | State::AwaitingStaffRole { .. }
        | State::AwaitingPromoCode { .. })
}

/// The event a dialog waits for in `phase`.
pub open spec fn dialog_awaits(d: StateView, phase: DialogPhase, event: DialogEvent) -> bool {
    &&& handled_dialog(d)
    &&& match phase {
        DialogPhase::Start => event is Begin,
        DialogPhase::Saving => event is Saved,
        DialogPhase::Running => event is Ran,
        DialogPhase::Done => false,
    }
}

/// The confirmation a migration operation asks for.
pub open spec fn confirmation(operation: Seq<char>) -> Seq<char> {
    if operation == "start"@ {
        "MIGRATE AWG1"@
    } else {
        "ROLLBACK AWG2"@
    }
}

/// The first answer to `text` in dialog `d`.
#[verifier::opaque]
pub open spec fn dialog_begin(role: RoleView, d: StateView, text: Seq<char>) -> (DialogPhase, Seq<CommandView>) {
    match d {
        StateView::AwaitingTariffPricesRub => match prices_of(text) {
            Some(p) => (DialogPhase::Done, seq![
                CommandView::SetTariffPrices { stars: false, prices: p.map_values(|v: i64| v * 100) },
                CommandView::Say { text: "✅ Рублёвые тарифы обновлены."@, keyboard: Some(admin_commerce_spec()), html: false },
                CommandView::SetDialog(StateView::Idle),
            ]),
            None => (DialogPhase::Done, seq![CommandView::Say { text: "Введите четыре целых цены через пробел: 200 600 1000 2000"@, keyboard: None, html: false }]),
        },
        StateView::AwaitingTariffPricesStars => match prices_of(text) {
            Some(p) => (DialogPhase::Done, seq![
                CommandView::SetTariffPrices { stars: true, prices: p.map_values(|v: i64| v as int) },
                CommandView::Say { text: "✅ Тарифы Telegram Stars обновлены."@, keyboard: Some(admin_commerce_spec()), html: false },
                CommandView::SetDialog(StateView::Idle),
            ]),
            None => (DialogPhase::Done, seq![CommandView::Say { text: "Введите четыре целых количества Stars через пробел, например: 100 250 450 800"@, keyboard: None, html: false }]),
        },
        StateView::AwaitingReferralPercent => match percent_of(text) {
            Some(v) => (DialogPhase::Done, seq![
                CommandView::SetReferralPercent(v),
                CommandView::Say { text: "✅ Реферальное вознаграждение: "@ + decimal(v as int) + "%."@, keyboard: Some(admin_commerce_spec()), html: false },
                CommandView::SetDialog(StateView::Idle),
            ]),
            None => (DialogPhase::Done, seq![CommandView::Say { text: "Введите целое число от 0 до 100."@, keyboard: None, html: false }]),
        },
        StateView::AwaitingClientNote { name } => if !(role is Owner) {
            (DialogPhase::Done, seq![CommandView::SetDialog(StateView::Idle)])
        } else {
            match note_of(text) {
                Some(note) => (DialogPhase::Saving, seq![CommandView::SaveClientNote { name, note }]),
                None => (DialogPhase::Done, seq![CommandView::Say { text: "Не удалось сохранить заметку."@, keyboard: Some(admin_dashboard_spec()), html: false }]),
            }
        },
        StateView::AwaitingLocalMigrationConfirm { operation } => if !(role is Owner) {
            (DialogPhase::Done, seq![CommandView::SetDialog(StateView::Idle)])
        } else if trimmed(text) != confirmation(operation) {
            (DialogPhase::Done, seq![CommandView::Say { text: "Подтверждение не совпало. Для продолжения отправьте точно: "@ + confirmation(operation), keyboard: None, html: false }])
        } else {
            (DialogPhase::Running, seq![
                CommandView::SetDialog(StateView::Idle),
                CommandView::Say { text: "⏳ Запускаю защищённую системную операцию…"@, keyboard: None, html: false },
                CommandView::RunVpn(if operation == "start"@ { VpnJob::LocalMigrationStart } else { VpnJob::LocalMigrationRollback }),
            ])
        },
        StateView::AwaitingStaffRole { operation } => if !(role is Owner) {
            (DialogPhase::Done, seq![CommandView::SetDialog(StateView::Idle)])
        } else {
            match staff_change_of(text, operation == "remove"@) {
                Some((user, value)) => (DialogPhase::Saving, seq![CommandView::SetStaffRole {
                    user,
                    role: if value == "remove"@ { None } else { Some(value) },
                }]),
                None => (DialogPhase::Done, seq![
                    CommandView::Say { text: "Не удалось изменить роль. Для добавления: TELEGRAM_ID technical|support|finance; для удаления достаточно Telegram ID."@, keyboard: Some(admin_dashboard_spec()), html: false },
                    CommandView::SetDialog(StateView::Idle),
                ]),
            }
        },
        StateView::AwaitingPromoCode { kind } => if !(role is Owner) {
            (DialogPhase::Done, seq![CommandView::SetDialog(StateView::Idle)])
        } else {
            let typed = promo_of(text, kind == "legacy"@);
            (DialogPhase::Saving, seq![CommandView::CreatePromo {
                legacy: kind == "legacy"@,
                code: typed.0,
                percent: typed.1,
                max_uses: typed.2,
            }])
        },
        _ => (DialogPhase::Done, Seq::empty()),
    }
}

/// What follows the store's answer `saved` in dialog `d`, answering `text`.
#[verifier::opaque]
pub open spec fn dialog_after_save(d: StateView, text: Seq<char>, saved: bool) -> Seq<CommandView> {
    match d {
        StateView::AwaitingStaffRole { operation } => match staff_change_of(text, operation == "remove"@) {
            Some((user, value)) => if saved {
                seq![
                    CommandView::LogRoleChange { user, role: value },
                    CommandView::Say { text: "✅ Роль обновлена."@, keyboard: Some(admin_dashboard_spec()), html: false },
                    CommandView::SetDialog(StateView::Idle),
                ]
            } else {
                seq![
                    CommandView::Say { text: "Не удалось изменить роль. Для добавления: TELEGRAM_ID technical|support|finance; для удаления достаточно Telegram ID."@, keyboard: Some(admin_dashboard_spec()), html: false },
                    CommandView::SetDialog(StateView::Idle),
                ]
            },
            None => Seq::empty(),
        },
        StateView::AwaitingPromoCode { .. } => if saved {
            seq![
                CommandView::Say { text: "✅ Промокод создан."@, keyboard: Some(admin_dashboard_spec()), html: false },
                CommandView::SetDialog(StateView::Idle),
            ]
        } else {
            seq![CommandView::Say { text: "Неверный формат. Скидочный: CODE PERCENT [MAX_USES]. Legacy: CODE [MAX_USES]."@, keyboard: Some(admin_dashboard_spec()), html: false }]
        },
        StateView::AwaitingClientNote { .. } => if saved {
            seq![
                CommandView::Say { text: "✅ Заметка ключа сохранена."@, keyboard: Some(admin_dashboard_spec()), html: false },
                CommandView::SetDialog(StateView::Idle),
            ]
        } else {
            seq![CommandView::Say { text: "Не удалось сохранить заметку."@, keyboard: Some(admin_dashboard_spec()), html: false }]
        },
        _ => Seq::empty(),
    }
}

/// What follows the outcome of the job started in dialog `d`.
#[verifier::opaque]
pub open spec fn dialog_after_run(d: StateView, outcome: Result<Seq<char>, Seq<char>>) -> Seq<CommandView> {
    match d {
        StateView::AwaitingLocalMigrationConfirm { operation } => {
            let start = operation == "start"@;
            match outcome {
                Ok(output) => (if start { seq![CommandView::ResetMigrationNotice] } else { Seq::empty() }) + seq![
                    CommandView::LogLocalMigration { start },
                    CommandView::Say {
                        text: (if start {
                            "🚨 Миграция запущена. VPN будет временно недоступен, сервер дважды перезагрузится. Не запускайте повторную установку. После возвращения бота откройте «Статус миграции»."@
                        } else {
                            "✅ Команда отката выполнена. Проверьте состояние AWG 2.0."@
                        }) + "\n\nОтвет helper: "@ + output,
                        keyboard: Some(local_migration_spec()),
                        html: false,
                    },
                ],
                Err(error) => seq![CommandView::Say { text: "❌ Операция не запущена: "@ + error, keyboard: Some(local_migration_spec()), html: false }],
            }
        },
        _ => Seq::empty(),
    }
}

/// The next phase and commands of dialog `d`, answering `text`, after
/// `event` in `phase`.
pub open spec fn dialog_transition(role: RoleView, d: StateView, text: Seq<char>, phase: DialogPhase, event: DialogEvent) -> (DialogPhase, Seq<CommandView>) {
    match (phase, event) {
        (DialogPhase::Saving, DialogEvent::Saved(saved)) => (DialogPhase::Done, dialog_after_save(d, text, saved)),
        (DialogPhase::Running, DialogEvent::Ran(outcome)) => (DialogPhase::Done, dialog_after_run(d, outcome_view(outcome))),
        _ => dialog_begin(role, d, text),
    }
}

fn confirmation_of(operation: &str) -> (s: &'static str)
    ensures
        s@ == confirmation(operation@),
{
    if str_eq(operation, "start") {
        "MIGRATE AWG1"
    } else {
        "ROLLBACK AWG2"
    }
}

fn push_begin(out: &mut Vec<BotCommand>, role: &Role, dialog: &State, text: &str) -> (phase: DialogPhase)
    requires
        old(out)@.len() == 0,
        handled_dialog(dialog@),
    ensures
        (phase, commands_view(final(out)@)) == dialog_begin(role@, dialog@, text@),
{
    proof {
        reveal(dialog_begin);
    }
    let ghost d = dialog@;
    match dialog {
        State::AwaitingTariffPricesRub => match tariff_prices(text) {
            Some(p) => {
                let k = prices_in_kopecks(p);
                push_command(out, BotCommand::SetTariffPrices { stars: false, prices: k });
                push_command(out, BotCommand::Say { text: "✅ Рублёвые тарифы обновлены.".to_string(), keyboard: Some(admin_commerce_menu()), html: false });
                push_command(out, BotCommand::SetDialog(State::Idle));
                assert(k@.map_values(|v: i64| v as int) =~= p@.map_values(|v: i64| v * 100));
                assert(commands_view(out@) =~= dialog_begin(role@, d, text@).1);
                DialogPhase::Done
            },
            None => {
                push_command(out, BotCommand::Say { text: "Введите четыре целых цены через пробел: 200 600 1000 2000".to_string(), keyboard: None, html: false });
                assert(commands_view(out@) =~= dialog_begin(role@, d, text@).1);
                DialogPhase::Done
            },
        },
        State::AwaitingTariffPricesStars => match tariff_prices(text) {
            Some(p) => {
                push_command(out, BotCommand::SetTariffPrices { stars: true, prices: p });
                push_command(out, BotCommand::Say { text: "✅ Тарифы Telegram Stars обновлены.".to_string(), keyboard: Some(admin_commerce_menu()), html: false });
                push_command(out, BotCommand::SetDialog(State::Idle));
                assert(commands_view(out@) =~= dialog_begin(role@, d, text@).1);
                DialogPhase::Done
            },
            None => {
                push_command(out, BotCommand::Say { text: "Введите четыре целых количества Stars через пробел, например: 100 250 450 800".to_string(), keyboard: None, html: false });
                assert(commands_view(out@) =~= dialog_begin(role@, d, text@).1);
                DialogPhase::Done
            },
        },
        State::AwaitingReferralPercent => match referral_percent(text) {
            Some(v) => {
                push_command(out, BotCommand::SetReferralPercent(v));
                let mut t = "✅ Реферальное вознаграждение: ".to_string();
                let n = format_i64(v as i64);
                t.append(n.as_str());
                t.append("%.");
                push_command(out, BotCommand::Say { text: t, keyboard: Some(admin_commerce_menu()), html: false });
                push_command(out, BotCommand::SetDialog(State::Idle));
                assert(commands_view(out@) =~= dialog_begin(role@, d, text@).1);
                DialogPhase::Done
            },
            None => {
                push_command(out, BotCommand::Say { text: "Введите целое число от 0 до 100.".to_string(), keyboard: None, html: false });
                assert(commands_view(out@) =~= dialog_begin(role@, d, text@).1);
                DialogPhase::Done
            },
        },
        State::AwaitingClientNote { name } => {
            if !role.is_owner() {
                push_command(out, BotCommand::SetDialog(State::Idle));
                assert(commands_view(out@) =~= dialog_begin(role@, d, text@).1);
                return DialogPhase::Done;
            }
            match note_input(text) {
                Some(note) => {
                    let note = match note {
                        Some(n) => Some(n.to_string()),
                        None => None,
                    };
                    push_command(out, BotCommand::SaveClientNote { name: name.clone(), note });
                    assert(commands_view(out@) =~= dialog_begin(role@, d, text@).1);
                    DialogPhase::Saving
                },
                None => {
                    push_command(out, BotCommand::Say { text: "Не удалось сохранить заметку.".to_string(), keyboard: Some(admin_dashboard_menu()), html: false });
                    assert(commands_view(out@) =~= dialog_begin(role@, d, text@).1);
                    DialogPhase::Done
                },
            }
        },
        State::AwaitingLocalMigrationConfirm { operation } => {
            if !role.is_owner() {
                push_command(out, BotCommand::SetDialog(State::Idle));
                assert(commands_view(out@) =~= dialog_begin(role@, d, text@).1);
                return DialogPhase::Done;
            }
            let expected = confirmation_of(operation.as_str());
            if !str_eq(trim(text), expected) {
                let t = joined("Подтверждение не совпало. Для продолжения отправьте точно: ", expected);
                push_command(out, BotCommand::Say { text: t, keyboard: None, html: false });
                assert(commands_view(out@) =~= dialog_begin(role@, d, text@).1);
                return DialogPhase::Done;
            }
            push_command(out, BotCommand::SetDialog(State::Idle));
            push_command(out, BotCommand::Say { text: "⏳ Запускаю защищённую системную операцию…".to_string(), keyboard: None, html: false });
            let job = if str_eq(operation.as_str(), "start") { VpnJob::LocalMigrationStart } else { VpnJob::LocalMigrationRollback };
            push_command(out, BotCommand::RunVpn(job));
            assert(commands_view(out@) =~= dialog_begin(role@, d, text@).1);
            DialogPhase::Running
        },
        State::AwaitingStaffRole { operation } => {
            if !role.is_owner() {
                push_command(out, BotCommand::SetDialog(State::Idle));
                assert(commands_view(out@) =~= dialog_begin(role@, d, text@).1);
                return DialogPhase::Done;
            }
            match staff_change(text, str_eq(operation.as_str(), "remove")) {
                Some((user, value)) => {
                    let role_name = if str_eq(value, "remove") { None } else { Some(value.to_string()) };
                    push_command(out, BotCommand::SetStaffRole { user, role: role_name });
                    assert(commands_view(out@) =~= dialog_begin(role@, d, text@).1);
                    DialogPhase::Saving
                },
                None => {
                    push_command(out, BotCommand::Say { text: "Не удалось изменить роль. Для добавления: TELEGRAM_ID technical|support|finance; для удаления достаточно Telegram ID.".to_string(), keyboard: Some(admin_dashboard_menu()), html: false });
                    push_command(out, BotCommand::SetDialog(State::Idle));
                    assert(commands_view(out@) =~= dialog_begin(role@, d, text@).1);
                    DialogPhase::Done
                },
            }
        },
        State::AwaitingPromoCode { kind } => {
            if !role.is_owner() {
                push_command(out, BotCommand::SetDialog(State::Idle));
                assert(commands_view(out@) =~= dialog_begin(role@, d, text@).1);
                return DialogPhase::Done;
            }
            let legacy = str_eq(kind.as_str(), "legacy");
            let (code, percent, max_uses) = promo_input(text, legacy);
            push_command(out, BotCommand::CreatePromo { legacy, code: code.to_string(), percent, max_uses });
            assert(commands_view(out@) =~= dialog_begin(role@, d, text@).1);
            DialogPhase::Saving
        },
        _ => DialogPhase::Done,
    }
}

fn push_after_save(out: &mut Vec<BotCommand>, dialog: &State, text: &str, saved: bool)
    requires
        old(out)@.len() == 0,
    ensures
        commands_view(final(out)@) == dialog_after_save(dialog@, text@, saved),
{
    proof {
        reveal(dialog_after_save);
    }
    match dialog {
        State::AwaitingClientNote { .. } => {
            if saved {
                push_command(out, BotCommand::Say { text: "✅ Заметка ключа сохранена.".to_string(), keyboard: Some(admin_dashboard_menu()), html: false });
                push_command(out, BotCommand::SetDialog(State::Idle));
            } else {
                push_command(out, BotCommand::Say { text: "Не удалось сохранить заметку.".to_string(), keyboard: Some(admin_dashboard_menu()), html: false });
            }
        },
        State::AwaitingStaffRole { operation } => {
            if let Some((user, value)) = staff_change(text, str_eq(operation.as_str(), "remove")) {
                if saved {
                    push_command(out, BotCommand::LogRoleChange { user, role: value.to_string() });
                    push_command(out, BotCommand::Say { text: "✅ Роль обновлена.".to_string(), keyboard: Some(admin_dashboard_menu()), html: false });
                } else {
                    push_command(out, BotCommand::Say { text: "Не удалось изменить роль. Для добавления: TELEGRAM_ID technical|support|finance; для удаления достаточно Telegram ID.".to_string(), keyboard: Some(admin_dashboard_menu()), html: false });
                }
                push_command(out, BotCommand::SetDialog(State::Idle));
            }
        },
        State::AwaitingPromoCode { .. } => {
            if saved {
                push_command(out, BotCommand::Say { text: "✅ Промокод создан.".to_string(), keyboard: Some(admin_dashboard_menu()), html: false });
                push_command(out, BotCommand::SetDialog(State::Idle));
            } else {
                push_command(out, BotCommand::Say { text: "Неверный формат. Скидочный: CODE PERCENT [MAX_USES]. Legacy: CODE [MAX_USES].".to_string(), keyboard: Some(admin_dashboard_menu()), html: false });
            }
        },
        _ => {},
    }
    assert(commands_view(out@) =~= dialog_after_save(dialog@, text@, saved));
}

fn push_after_run(out: &mut Vec<BotCommand>, dialog: &State, outcome: Result<String, String>)
    requires
        old(out)@.len() == 0,
    ensures
        commands_view(final(out)@) == dialog_after_run(dialog@, outcome_view(outcome)),
{
    proof {
        reveal(dialog_after_run);
    }
    let ghost seen = outcome_view(outcome);
    if let State::AwaitingLocalMigrationConfirm { operation } = dialog {
        let start = str_eq(operation.as_str(), "start");
        match outcome {
            Ok(output) => {
                if start {
                    push_command(out, BotCommand::ResetMigrationNotice);
                }
                push_command(out, BotCommand::LogLocalMigration { start });
                let head = if start {
                    "🚨 Миграция запущена. VPN будет временно недоступен, сервер дважды перезагрузится. Не запускайте повторную установку. После возвращения бота откройте «Статус миграции»."
                } else {
                    "✅ Команда отката выполнена. Проверьте состояние AWG 2.0."
                };
                let mut t = joined(head, "\n\nОтвет helper: ");
                t.append(output.as_str());
                push_command(out, BotCommand::Say { text: t, keyboard: Some(local_migration_menu()), html: false });
            },
            Err(error) => {
                let t = joined("❌ Операция не запущена: ", error.as_str());
                push_command(out, BotCommand::Say { text: t, keyboard: Some(local_migration_menu()), html: false });
            },
        }
    }
    assert(commands_view(out@) =~= dialog_after_run(dialog@, seen));
}

/// One step of a dialog that a typed message `text` answers: its first
/// commands, or what follows the store's answer or the job's outcome.
pub fn dialog_step(role: &Role, dialog: &State, text: &str, phase: DialogPhase, event: DialogEvent) -> (r: (DialogPhase, Vec<BotCommand>))
    requires
        dialog_awaits(dialog@, phase, event),
    ensures
        (r.0, commands_view(r.1@)) == dialog_transition(role@, dialog@, text@, phase, event),
{
    let mut out: Vec<BotCommand> = Vec::new();
    match event {
        DialogEvent::Saved(saved) => {
            push_after_save(&mut out, dialog, text, saved);
            (DialogPhase::Done, out)
        },
        DialogEvent::Ran(outcome) => {
            push_after_run(&mut out, dialog, outcome);
            (DialogPhase::Done, out)
        },
        DialogEvent::Begin => {
            let next = push_begin(&mut out, role, dialog, text);
            (next, out)
        },
    }
}

/// A dialog's answer ends at once or after the one answer it waits for from
/// the store or the VPN service.
pub proof fn law_dialogs_end_after_one_answer(role: RoleView, d: StateView, text: Seq<char>, answer: DialogEvent)
    requires
        handled_dialog(d),
    ensures
        ({
            let first = dialog_transition(role, d, text, DialogPhase::Start, DialogEvent::Begin).0;
            first != DialogPhase::Start && (dialog_awaits(d, first, answer) ==> dialog_transition(
                role,
                d,
                text,
                first,
                answer,
            ).0 == DialogPhase::Done)
        }),
{
    reveal(dialog_begin);
}

/// Only the owner gets anything but the end of the dialog from the key-note,
/// staff-role, promo-code and migration dialogs.
pub proof fn law_owner_dialogs_refuse_others(role: RoleView, d: StateView, text: Seq<char>)
    requires
        !(role is Owner),
        d is AwaitingClientNote || d is AwaitingStaffRole || d is AwaitingPromoCode
            || d is AwaitingLocalMigrationConfirm,
    ensures
        dialog_transition(role, d, text, DialogPhase::Start, DialogEvent::Begin) == (
            DialogPhase::Done,
            seq![CommandView::SetDialog(StateView::Idle)],
        ),
{
    reveal(dialog_begin);
}

} // verus!
