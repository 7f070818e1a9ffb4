//! The persistent reply keyboards of customers and administrators.

use vstd::prelude::*;
use vstd::string::*;
use crate::calendar::{legacy_requests_open, LEGACY_REQUEST_DEADLINE};
use crate::keyboard::{reply_row1, reply_row2, text_row_view, ReplyKeyboard};

verus! {

/// The customer's keyboard; restoring old keys is offered only while
/// old-key requests are open.
pub open spec fn customer_keyboard_spec(requests_open: bool) -> Seq<Seq<Seq<char>>> {
    seq![
        seq!["🏠 Кабинет"@, "🔑 Мои ключи"@],
        seq!["➕ Купить ключ"@, "➕ Пополнить"@],
        seq!["📖 Инструкция"@, "🆘 Поддержка"@],
        seq!["🎟 Промокод"@],
    ] + if requests_open {
        seq![seq!["♻️ Восстановить ключи"@]]
    } else {
        Seq::<Seq<Seq<char>>>::empty()
    }
}

fn push_text_row(rows: &mut Vec<Vec<String>>, row: Vec<String>)
    ensures
        final(rows)@.map_values(|r: Vec<String>| text_row_view(r)) == old(rows)@.map_values(
            |r: Vec<String>| text_row_view(r),
        ).push(text_row_view(row)),
{
    rows.push(row);
    assert(final(rows)@.map_values(|r: Vec<String>| text_row_view(r)) =~= old(rows)@.map_values(
        |r: Vec<String>| text_row_view(r),
    ).push(text_row_view(row)));
}

/// The customer's keyboard at time `now` (seconds since the epoch).
pub fn customer_keyboard(now: i64) -> (kb: ReplyKeyboard)
    ensures
        kb@ == (customer_keyboard_spec(now < LEGACY_REQUEST_DEADLINE), true, true),
{
    let mut rows: Vec<Vec<String>> = Vec::new();
    assert(rows@.map_values(|r: Vec<String>| text_row_view(r)) =~= Seq::<Seq<Seq<char>>>::empty());
    push_text_row(&mut rows, reply_row2("🏠 Кабинет", "🔑 Мои ключи"));
    push_text_row(&mut rows, reply_row2("➕ Купить ключ", "➕ Пополнить"));
    push_text_row(&mut rows, reply_row2("📖 Инструкция", "🆘 Поддержка"));
    push_text_row(&mut rows, reply_row1("🎟 Промокод"));
    let open = legacy_requests_open(now);
    if open {
        push_text_row(&mut rows, reply_row1("♻️ Восстановить ключи"));
    }
    let kb = ReplyKeyboard { rows, resize: true, persistent: true };
    assert(kb@.0 =~= customer_keyboard_spec(open));
    kb
}

/// The administrator's keyboard.
pub open spec fn admin_keyboard_spec() -> Seq<Seq<Seq<char>>> {
    seq![
        seq!["🏠 Админ-панель"@, "🔎 Поиск"@],
        seq!["🖥 Серверы"@, "🔑 Ключи"@],
        seq!["👥 Пользователи"@, "💳 Финансы"@],
        seq!["📊 Аналитика"@, "💬 Связь"@],
        seq!["🔄 Операции"@, "⚙️ Система"@],
        seq!["👤 Кабинет"@],
    ]
}

pub fn admin_keyboard() -> (kb: ReplyKeyboard)
    ensures
        kb@ == (admin_keyboard_spec(), true, true),
{
    let mut rows: Vec<Vec<String>> = Vec::new();
    assert(rows@.map_values(|r: Vec<String>| text_row_view(r)) =~= Seq::<Seq<Seq<char>>>::empty());
    push_text_row(&mut rows, reply_row2("🏠 Админ-панель", "🔎 Поиск"));
    push_text_row(&mut rows, reply_row2("🖥 Серверы", "🔑 Ключи"));
    push_text_row(&mut rows, reply_row2("👥 Пользователи", "💳 Финансы"));
    push_text_row(&mut rows, reply_row2("📊 Аналитика", "💬 Связь"));
    push_text_row(&mut rows, reply_row2("🔄 Операции", "⚙️ Система"));
    push_text_row(&mut rows, reply_row1("👤 Кабинет"));
    let kb = ReplyKeyboard { rows, resize: true, persistent: true };
    assert(kb@.0 =~= admin_keyboard_spec());
    kb
}

} // verus!
