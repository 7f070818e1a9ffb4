//! What the bot reports about its own updates: the latest release as the
//! release service describes it, and the line the system screen shows.

use vstd::prelude::*;
use vstd::string::*;
use crate::keyboard::concat2;
use crate::text::str_eq;

verus! {

/// The most characters of release notes the bot shows.
pub const NOTES_LIMIT: usize = 1800;

pub open spec fn notes_spec(body: Option<Seq<char>>) -> Seq<char> {
    let full = match body {
        Some(b) => b,
        None => "Список изменений не опубликован."@,
    };
    if full.len() <= NOTES_LIMIT {
        full
    } else {
        full.take(NOTES_LIMIT as int)
    }
}

/// The latest release: its tag, its notes (cut to `NOTES_LIMIT` characters,
/// or a note that none were published) and its page; none without a tag.
pub open spec fn release_spec(tag: Option<Seq<char>>, body: Option<Seq<char>>, url: Option<Seq<char>>) -> Option<
    (Seq<char>, Seq<char>, Seq<char>),
> {
    match tag {
        None => None,
        Some(t) => Some(
            (
                t,
                notes_spec(body),
                match url {
                    Some(u) => u,
                    None => "https://github.com/stevefoxru/awgram/releases/latest"@,
                },
            ),
        ),
    }
}

pub open spec fn opt_view(s: Option<&str>) -> Option<Seq<char>> {
    match s {
        Some(v) => Some(v@),
        None => None,
    }
}

/// The latest release from the fields the release service returned.
pub fn release_info(tag: Option<&str>, body: Option<&str>, url: Option<&str>) -> (r: Option<
    (String, String, String),
>)
    ensures
        match r {
            Some((t, b, u)) => release_spec(opt_view(tag), opt_view(body), opt_view(url)) == Some(
                (t@, b@, u@),
            ),
            None => release_spec(opt_view(tag), opt_view(body), opt_view(url)) is None,
        },
{
    let t = match tag {
        Some(t) => t,
        None => return None,
    };
    let full = match body {
        Some(b) => b,
        None => "Список изменений не опубликован.",
    };
    let notes = if full.unicode_len() <= NOTES_LIMIT {
        full.to_string()
    } else {
        let cut = full.substring_char(0, NOTES_LIMIT).to_string();
        assert(full@.subrange(0, NOTES_LIMIT as int) =~= full@.take(NOTES_LIMIT as int));
        cut
    };
    let page = match url {
        Some(u) => u.to_string(),
        None => "https://github.com/stevefoxru/awgram/releases/latest".to_string(),
    };
    Some((t.to_string(), notes, page))
}

/// The system screen's line about updates, for the running version
/// `current` and the latest release's tag, when it could be read.
pub open spec fn update_line_spec(current: Seq<char>, latest: Option<Seq<char>>) -> Seq<char> {
    match latest {
        Some(l) => if l == current {
            "✅ Установлена актуальная версия "@ + current
        } else {
            "⬆️ Доступно обновление: "@ + current + " → "@ + l
        },
        None => "Текущая версия: "@ + current + "\nНе удалось проверить GitHub."@,
    }
}

pub fn update_line(current: &str, latest: Option<&str>) -> (s: String)
    ensures
        s@ == update_line_spec(current@, opt_view(latest)),
{
    match latest {
        Some(l) => if str_eq(l, current) {
            concat2("✅ Установлена актуальная версия ", current)
        } else {
            let mut s = concat2("⬆️ Доступно обновление: ", current);
            s.append(" → ");
            s.append(l);
            s
        },
        None => {
            let mut s = concat2("Текущая версия: ", current);
            s.append("\nНе удалось проверить GitHub.");
            s
        },
    }
}

} // verus!
