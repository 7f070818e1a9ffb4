use awgram::action::Action;
use awgram::admission::{admit_callback, Admission};
use awgram::auth::Role;
use awgram::links::{
    acquiring_choice, acquiring_input, contains_text, portal_keyboard, eq_ignore_ascii_case, portal_link_menu, AcquiringInput,
    PortalButton,
};
use awgram::store::Store;

#[test]
fn portal_link_opens_only_a_valid_url() {
    let kb = portal_link_menu("https://portal.example.com/login?t=1");
    assert_eq!(
        kb.first,
        PortalButton::Link {
            text: "🚀 Войти в кабинет".into(),
            url: "https://portal.example.com/login?t=1".into()
        }
    );
    assert_eq!(kb.back.data, "profile");
    match portal_link_menu("portal.example.com").first {
        PortalButton::Callback(b) => assert_eq!(b.data, "profile"),
        other => panic!("expected a callback button, got {other:?}"),
    }
}

#[test]
fn acquiring_link_template() {
    assert_eq!(acquiring_input(" OFF "), AcquiringInput::Off);
    assert_eq!(
        acquiring_input("https://pay.example.com/?order={order_id}"),
        AcquiringInput::Template("https://pay.example.com/?order={order_id}".into())
    );
    assert_eq!(acquiring_input("https://pay.example.com/"), AcquiringInput::Invalid);
    assert_eq!(acquiring_input("pay {order_id}"), AcquiringInput::Invalid);
}

#[test]
fn text_helpers() {
    assert!(eq_ignore_ascii_case("OfF", "off"));
    assert!(!eq_ignore_ascii_case("of", "off"));
    assert_eq!(eq_ignore_ascii_case("ÖFF", "öff"), "ÖFF".eq_ignore_ascii_case("öff"));
    assert!(contains_text("a{order_id}b", "{order_id}"));
    assert!(contains_text("abc", ""));
    assert!(!contains_text("ab", "abc"));
}

#[test]
fn strangers_reach_only_customer_screens() {
    let store = Store::open_in_memory();
    assert_eq!(admit_callback(&Action::Buy, &Role::Denied, false, &store), Admission::Proceed);
    assert_eq!(admit_callback(&Action::AdminDashboard, &Role::Denied, false, &store), Admission::Ignore);
    assert_eq!(admit_callback(&Action::Buy, &Role::Denied, true, &store), Admission::Suspended);
    assert_eq!(
        admit_callback(&Action::SupportNewCategory("bug".into()), &Role::Denied, true, &store),
        Admission::Proceed
    );
    assert_eq!(admit_callback(&Action::AdminDashboard, &Role::Owner, true, &store), Admission::Proceed);
    assert_eq!(
        admit_callback(&Action::AdminDashboard, &Role::GroupAdmin(vec![1]), false, &store),
        Admission::Ignore
    );
}

#[test]
fn portal_keyboard_follows_the_verdict() {
    match portal_keyboard("anything", true).first {
        PortalButton::Link { text, url } => {
            assert_eq!(text, "🚀 Войти в кабинет");
            assert_eq!(url, "anything");
        }
        other => panic!("expected a link, got {other:?}"),
    }
    match portal_keyboard("https://portal.example.com", false).first {
        PortalButton::Callback(b) => assert_eq!(b.data, "profile"),
        other => panic!("expected a callback, got {other:?}"),
    }
}

#[test]
fn acquiring_choice_follows_the_verdict() {
    assert_eq!(acquiring_choice(" off ", false), AcquiringInput::Off);
    assert_eq!(
        acquiring_choice(" x{order_id} ", true),
        AcquiringInput::Template("x{order_id}".to_string())
    );
    assert_eq!(acquiring_choice("x{order_id}", false), AcquiringInput::Invalid);
    assert_eq!(acquiring_choice("https://pay.example.com/", true), AcquiringInput::Invalid);
}

#[test]
fn portal_link_is_normalised() {
    match portal_link_menu("HTTPS://Portal.Example.COM").first {
        PortalButton::Link { url, .. } => assert_eq!(url, "https://portal.example.com/"),
        other => panic!("expected a link, got {other:?}"),
    }
}
