//! Where the text of a message leads when no dialog is waiting for input:
//! the buttons of the reply keyboards and the `/start` command.

use vstd::prelude::*;
use vstd::string::*;
use crate::calendar::LEGACY_REQUEST_DEADLINE;
use crate::handlers::is_navigation;
use crate::reply_keyboards::customer_keyboard_spec;
use crate::text::{starts_with, str_eq};

verus! {

/// The screen a customer's message opens.
#[derive(Debug, Clone, Copy, PartialEq, Eq, Structural)]
pub enum CustomerScreen {
    /// The cabinet (after a trial key is issued, where one is due).
    Dashboard,
    Buy,
    MyKeys,
    TopUp,
    Instructions,
    Support,
    Promo,
    /// Restoring old keys, while such requests are open.
    Restore,
    /// The notice to a blocked user.
    Blocked,
    /// A reminder to use the menu buttons.
    Fallback,
}

/// The screen that `text` opens for a customer at time `now`; a blocked
/// customer can reach only support.
pub open spec fn customer_screen_of(text: Seq<char>, now: i64, blocked: bool) -> CustomerScreen {
    if blocked {
        if text == "🆘 Поддержка"@ {
            CustomerScreen::Support
        } else {
            CustomerScreen::Blocked
        }
    } else if "/start"@.is_prefix_of(text) || text == "🏠 Меню"@ || text == "🏠 Кабинет"@ {
        CustomerScreen::Dashboard
    } else if text == "➕ Купить ключ"@ {
        CustomerScreen::Buy
    } else if text == "🔑 Мои ключи"@ {
        CustomerScreen::MyKeys
    } else if text == "➕ Пополнить"@ {
        CustomerScreen::TopUp
    } else if text == "📖 Инструкция"@ {
        CustomerScreen::Instructions
    } else if text == "🆘 Поддержка"@ {
        CustomerScreen::Support
    } else if text == "🎟 Промокод"@ {
        CustomerScreen::Promo
    } else if text == "♻️ Восстановить ключи"@ && now < LEGACY_REQUEST_DEADLINE {
        CustomerScreen::Restore
    } else {
        CustomerScreen::Fallback
    }
}

pub fn customer_screen(text: &str, now: i64, blocked: bool) -> (s: CustomerScreen)
    ensures
        s == customer_screen_of(text@, now, blocked),
{
    if blocked {
        return if str_eq(text, "🆘 Поддержка") {
            CustomerScreen::Support
        } else {
            CustomerScreen::Blocked
        };
    }
    if starts_with(text, "/start") || str_eq(text, "🏠 Меню") || str_eq(text, "🏠 Кабинет") {
        CustomerScreen::Dashboard
    } else if str_eq(text, "➕ Купить ключ") {
        CustomerScreen::Buy
    } else if str_eq(text, "🔑 Мои ключи") {
        CustomerScreen::MyKeys
    } else if str_eq(text, "➕ Пополнить") {
        CustomerScreen::TopUp
    } else if str_eq(text, "📖 Инструкция") {
        CustomerScreen::Instructions
    } else if str_eq(text, "🆘 Поддержка") {
        CustomerScreen::Support
    } else if str_eq(text, "🎟 Промокод") {
        CustomerScreen::Promo
    } else if str_eq(text, "♻️ Восстановить ключи") && now < LEGACY_REQUEST_DEADLINE {
        CustomerScreen::Restore
    } else {
        CustomerScreen::Fallback
    }
}

/// The rows of the customer's keyboard at time `now`.
pub open spec fn customer_rows(now: i64) -> Seq<Seq<Seq<char>>> {
    customer_keyboard_spec(now < LEGACY_REQUEST_DEADLINE)
}

/// Every button of the customer's keyboard is a navigation and opens its own
/// screen for a customer who is not blocked.
pub proof fn law_customer_keyboard_routes(now: i64)
    ensures
        forall|i: int, j: int|
            0 <= i < customer_rows(now).len() && 0 <= j < customer_rows(now)[i].len() ==> {
                let t = #[trigger] customer_rows(now)[i][j];
                &&& customer_screen_of(t, now, false) != CustomerScreen::Fallback
                &&& is_navigation(t)
            },
{
    reveal_strlit("/start");
    reveal_strlit("🏠 Меню");
    reveal_strlit("🏠 Кабинет");
    reveal_strlit("🔑 Мои ключи");
    reveal_strlit("➕ Купить ключ");
    reveal_strlit("➕ Пополнить");
    reveal_strlit("📖 Инструкция");
    reveal_strlit("🆘 Поддержка");
    reveal_strlit("🎟 Промокод");
    reveal_strlit("♻️ Восстановить ключи");
    let rows = customer_rows(now);
    let labels = crate::handlers::navigation_labels();
    assert(labels[0] == "🏠 Кабинет"@ && labels[1] == "🔑 Мои ключи"@ && labels[2] == "➕ Купить ключ"@);
    assert(labels[3] == "➕ Пополнить"@ && labels[4] == "📖 Инструкция"@ && labels[5] == "🆘 Поддержка"@);
    assert(labels[6] == "🎟 Промокод"@ && labels[7] == "♻️ Восстановить ключи"@);
    assert forall|i: int, j: int| 0 <= i < rows.len() && 0 <= j < rows[i].len() implies {
        let t = #[trigger] rows[i][j];
        &&& customer_screen_of(t, now, false) != CustomerScreen::Fallback
        &&& is_navigation(t)
    } by {
        let t = rows[i][j];
        if i == 0 && j == 0 {
            assert(labels.contains(t)) by { assert(labels[0] == t); }
        } else if i == 0 {
            assert(labels.contains(t)) by { assert(labels[1] == t); }
        } else if i == 1 && j == 0 {
            assert(labels.contains(t)) by { assert(labels[2] == t); }
        } else if i == 1 {
            assert(labels.contains(t)) by { assert(labels[3] == t); }
        } else if i == 2 && j == 0 {
            assert(labels.contains(t)) by { assert(labels[4] == t); }
        } else if i == 2 {
            assert(labels.contains(t)) by { assert(labels[5] == t); }
        } else if i == 3 {
            assert(labels.contains(t)) by { assert(labels[6] == t); }
        } else {
            assert(labels.contains(t)) by { assert(labels[7] == t); }
        }
    }
}

/// The screen an owner's message opens.
#[derive(Debug, Clone, Copy, PartialEq, Eq, Structural)]
pub enum OwnerScreen {
    Dashboard,
    Search,
    Events,
    Cabinet,
    Clients,
    Finance,
    Owners,
    Broadcast,
    Support,
    Settings,
}

/// The screen that `text` opens for an owner, if it names one.
pub open spec fn owner_screen_of(text: Seq<char>) -> Option<OwnerScreen> {
    if text == "/start"@ || text == "🏠 Админ-панель"@ {
        Some(OwnerScreen::Dashboard)
    } else if text == "🔎 Поиск"@ {
        Some(OwnerScreen::Search)
    } else if text == "🚨 События"@ {
        Some(OwnerScreen::Events)
    } else if text == "👤 Кабинет"@ {
        Some(OwnerScreen::Cabinet)
    } else if text == "👥 Клиенты"@ {
        Some(OwnerScreen::Clients)
    } else if text == "💳 Финансы"@ {
        Some(OwnerScreen::Finance)
    } else if text == "🔗 Владельцы"@ {
        Some(OwnerScreen::Owners)
    } else if text == "📣 Рассылка"@ {
        Some(OwnerScreen::Broadcast)
    } else if text == "🆘 Обращения"@ {
        Some(OwnerScreen::Support)
    } else if text == "⚙️ Настройки"@ {
        Some(OwnerScreen::Settings)
    } else {
        None
    }
}

pub fn owner_screen(text: &str) -> (s: Option<OwnerScreen>)
    ensures
        s == owner_screen_of(text@),
{
    if str_eq(text, "/start") || str_eq(text, "🏠 Админ-панель") {
        Some(OwnerScreen::Dashboard)
    } else if str_eq(text, "🔎 Поиск") {
        Some(OwnerScreen::Search)
    } else if str_eq(text, "🚨 События") {
        Some(OwnerScreen::Events)
    } else if str_eq(text, "👤 Кабинет") {
        Some(OwnerScreen::Cabinet)
    } else if str_eq(text, "👥 Клиенты") {
        Some(OwnerScreen::Clients)
    } else if str_eq(text, "💳 Финансы") {
        Some(OwnerScreen::Finance)
    } else if str_eq(text, "🔗 Владельцы") {
        Some(OwnerScreen::Owners)
    } else if str_eq(text, "📣 Рассылка") {
        Some(OwnerScreen::Broadcast)
    } else if str_eq(text, "🆘 Обращения") {
        Some(OwnerScreen::Support)
    } else if str_eq(text, "⚙️ Настройки") {
        Some(OwnerScreen::Settings)
    } else {
        None
    }
}

/// What a staff member's start opens, by their role.
#[derive(Debug, Clone, Copy, PartialEq, Eq, Structural)]
pub enum StaffScreen {
    /// The open and in-progress support tickets.
    SupportDesk,
    Finance,
    /// The clients menu, for technical staff.
    Clients,
    /// A role the bot does not know opens nothing.
    Nothing,
}

/// For a staff member with role `role`, what `text` opens: only `/start` and
/// the dashboard button open anything (`None` for other text).
pub open spec fn staff_screen_of(text: Seq<char>, role: Seq<char>) -> Option<StaffScreen> {
    if text == "/start"@ || text == "🏠 Админ-панель"@ {
        Some(
            if role == "support"@ {
                StaffScreen::SupportDesk
            } else if role == "finance"@ {
                StaffScreen::Finance
            } else if role == "technical"@ {
                StaffScreen::Clients
            } else {
                StaffScreen::Nothing
            },
        )
    } else {
        None
    }
}

pub fn staff_screen(text: &str, role: &str) -> (s: Option<StaffScreen>)
    ensures
        s == staff_screen_of(text@, role@),
{
    if str_eq(text, "/start") || str_eq(text, "🏠 Админ-панель") {
        Some(
            if str_eq(role, "support") {
                StaffScreen::SupportDesk
            } else if str_eq(role, "finance") {
                StaffScreen::Finance
            } else if str_eq(role, "technical") {
                StaffScreen::Clients
            } else {
                StaffScreen::Nothing
            },
        )
    } else {
        None
    }
}

} // verus!
