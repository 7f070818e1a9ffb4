use awgram::calendar::LEGACY_REQUEST_DEADLINE;
use awgram::handlers::is_customer_navigation;
use awgram::reply_keyboards::customer_keyboard;
use awgram::routes::{customer_screen, owner_screen, staff_screen, CustomerScreen, OwnerScreen, StaffScreen};

#[test]
fn customer_texts_open_screens() {
    let now = LEGACY_REQUEST_DEADLINE - 1;
    assert_eq!(customer_screen("/start ref_5", now, false), CustomerScreen::Dashboard);
    assert_eq!(customer_screen("🏠 Меню", now, false), CustomerScreen::Dashboard);
    assert_eq!(customer_screen("🏠 Кабинет", now, false), CustomerScreen::Dashboard);
    assert_eq!(customer_screen("➕ Купить ключ", now, false), CustomerScreen::Buy);
    assert_eq!(customer_screen("🔑 Мои ключи", now, false), CustomerScreen::MyKeys);
    assert_eq!(customer_screen("➕ Пополнить", now, false), CustomerScreen::TopUp);
    assert_eq!(customer_screen("📖 Инструкция", now, false), CustomerScreen::Instructions);
    assert_eq!(customer_screen("🆘 Поддержка", now, false), CustomerScreen::Support);
    assert_eq!(customer_screen("🎟 Промокод", now, false), CustomerScreen::Promo);
    assert_eq!(customer_screen("♻️ Восстановить ключи", now, false), CustomerScreen::Restore);
    assert_eq!(
        customer_screen("♻️ Восстановить ключи", LEGACY_REQUEST_DEADLINE, false),
        CustomerScreen::Fallback
    );
    assert_eq!(customer_screen("hello", now, false), CustomerScreen::Fallback);
    assert_eq!(customer_screen("", now, false), CustomerScreen::Fallback);
}

#[test]
fn blocked_customers_reach_only_support() {
    assert_eq!(customer_screen("🆘 Поддержка", 0, true), CustomerScreen::Support);
    assert_eq!(customer_screen("/start", 0, true), CustomerScreen::Blocked);
    assert_eq!(customer_screen("🔑 Мои ключи", 0, true), CustomerScreen::Blocked);
}

#[test]
fn every_customer_button_routes() {
    for now in [0, LEGACY_REQUEST_DEADLINE - 1, LEGACY_REQUEST_DEADLINE] {
        for row in customer_keyboard(now).rows {
            for text in row {
                assert!(is_customer_navigation(&text), "{text}");
                assert_ne!(customer_screen(&text, now, false), CustomerScreen::Fallback, "{text}");
            }
        }
    }
}

#[test]
fn owner_texts_open_screens() {
    assert_eq!(owner_screen("/start"), Some(OwnerScreen::Dashboard));
    assert_eq!(owner_screen("🏠 Админ-панель"), Some(OwnerScreen::Dashboard));
    assert_eq!(owner_screen("🔎 Поиск"), Some(OwnerScreen::Search));
    assert_eq!(owner_screen("🚨 События"), Some(OwnerScreen::Events));
    assert_eq!(owner_screen("👤 Кабинет"), Some(OwnerScreen::Cabinet));
    assert_eq!(owner_screen("👥 Клиенты"), Some(OwnerScreen::Clients));
    assert_eq!(owner_screen("💳 Финансы"), Some(OwnerScreen::Finance));
    assert_eq!(owner_screen("🔗 Владельцы"), Some(OwnerScreen::Owners));
    assert_eq!(owner_screen("📣 Рассылка"), Some(OwnerScreen::Broadcast));
    assert_eq!(owner_screen("🆘 Обращения"), Some(OwnerScreen::Support));
    assert_eq!(owner_screen("⚙️ Настройки"), Some(OwnerScreen::Settings));
    assert_eq!(owner_screen("/start ref_1"), None);
    assert_eq!(owner_screen("🖥 Серверы"), None);
}

#[test]
fn staff_start_by_role() {
    assert_eq!(staff_screen("/start", "support"), Some(StaffScreen::SupportDesk));
    assert_eq!(staff_screen("🏠 Админ-панель", "finance"), Some(StaffScreen::Finance));
    assert_eq!(staff_screen("/start", "technical"), Some(StaffScreen::Clients));
    assert_eq!(staff_screen("/start", "intern"), Some(StaffScreen::Nothing));
    assert_eq!(staff_screen("🔎 Поиск", "support"), None);
}
