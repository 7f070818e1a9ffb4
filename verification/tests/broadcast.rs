use awgram::broadcast::{audience, broadcast_confirmed, recipients, Audience, Recipient, RecipientKey};

fn key(disabled: bool, expiry: Option<i64>, server: Option<i64>) -> RecipientKey {
    RecipientKey { disabled, expiry, server }
}

#[test]
fn audience_names() {
    assert_eq!(audience("active"), Audience::Active);
    assert_eq!(audience("expiring"), Audience::Expiring);
    assert_eq!(audience("nokeys"), Audience::NoKeys);
    assert_eq!(audience("server:7"), Audience::Server(Some(7)));
    assert_eq!(audience("server:x"), Audience::Server(None));
    assert_eq!(audience("all"), Audience::Everyone);
    assert_eq!(audience(""), Audience::Everyone);
}

#[test]
fn recipients_by_audience() {
    let now = 1_000_000;
    let users = vec![
        Recipient { user_id: 1, keys: vec![key(false, None, Some(7))] },
        Recipient { user_id: 2, keys: vec![key(true, None, Some(8)), key(false, Some(now + 3_600), None)] },
        Recipient { user_id: 3, keys: vec![] },
        Recipient { user_id: 4, keys: vec![key(false, Some(now - 1), Some(7))] },
    ];
    assert_eq!(recipients(Audience::Active, &users, now), vec![1, 2]);
    assert_eq!(recipients(Audience::Expiring, &users, now), vec![2]);
    assert_eq!(recipients(Audience::NoKeys, &users, now), vec![3]);
    assert_eq!(recipients(Audience::Server(Some(7)), &users, now), vec![1, 4]);
    assert_eq!(recipients(Audience::Server(None), &users, now), Vec::<i64>::new());
    assert_eq!(recipients(Audience::Everyone, &users, now), vec![1, 2, 3, 4]);
}

#[test]
fn broadcast_needs_the_confirmation_word() {
    assert!(broadcast_confirmed(Some(" ОТПРАВИТЬ ")));
    assert!(!broadcast_confirmed(Some("отправить")));
    assert!(!broadcast_confirmed(None));
}
