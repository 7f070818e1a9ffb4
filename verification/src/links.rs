//! Links the bot hands out or stores: the web portal's login link, and the
//! payment link template of online acquiring. Whether a text is a URL is
//! decided by `reqwest`'s URL parser.

use vstd::prelude::*;
use vstd::string::*;
use crate::handlers::{trim, trimmed};
use crate::keyboard::{text_button, Button, ButtonView, Label};

verus! {

/// What `reqwest::Url::parse` makes of `text`: the serialized (normalised)
/// URL when `text` is an absolute URL in the WHATWG URL syntax, `None`
/// otherwise.
pub uninterp spec fn url_normalized(text: Seq<char>) -> Option<Seq<char>>;

/// Whether `reqwest::Url::parse` accepts `text`.
pub open spec fn url_accepted(text: Seq<char>) -> bool {
    url_normalized(text) is Some
}

/// Calls `reqwest::Url::parse` and returns the parsed URL's serialization.
/// The parser is a pure function of the text, so its result is named rather
/// than restated.
#[verifier::external_body]
fn parse_url(text: &str) -> (r: Option<String>)
    ensures
        match r {
            Some(u) => url_normalized(text@) == Some(u@),
            None => url_normalized(text@) is None,
        },
{
    match reqwest::Url::parse(text) {
        Ok(url) => Some(url.as_str().to_string()),
        Err(_) => None,
    }
}

// ---------------------------------------------------------------------------
// The portal link
// ---------------------------------------------------------------------------

/// The first button of the portal screen.
#[derive(Debug, Clone, PartialEq)]
pub enum PortalButton {
    /// A button that opens `url`.
    Link { text: String, url: String },
    /// A callback button, when the link is not a valid URL.
    Callback(Button),
}

/// The portal screen's keyboard: the login link, and back to the profile.
#[derive(Debug, Clone, PartialEq)]
pub struct PortalKeyboard {
    pub first: PortalButton,
    pub back: Button,
}

pub enum PortalButtonView {
    Link { text: Seq<char>, url: Seq<char> },
    Callback(ButtonView),
}

pub open spec fn portal_button_view(b: PortalButton) -> PortalButtonView {
    match b {
        PortalButton::Link { text, url } => PortalButtonView::Link { text: text@, url: url@ },
        PortalButton::Callback(button) => PortalButtonView::Callback(button@),
    }
}

/// The login link when `url` is a URL (`is_url`), otherwise a button back
/// to the profile; then back to the profile.
pub open spec fn portal_keyboard_spec(url: Seq<char>, is_url: bool) -> (PortalButtonView, ButtonView) {
    (
        if is_url {
            PortalButtonView::Link { text: "🚀 Войти в кабинет"@, url }
        } else {
            PortalButtonView::Callback(text_button("Вернуться"@, "profile"@))
        },
        text_button("⬅️ Кабинет"@, "profile"@),
    )
}

/// The portal screen for `url`, given whether it parses as a URL; the link
/// button opens `url`.
pub fn portal_keyboard(url: &str, is_url: bool) -> (kb: PortalKeyboard)
    ensures
        (portal_button_view(kb.first), kb.back@) == portal_keyboard_spec(url@, is_url),
{
    let first = if is_url {
        PortalButton::Link { text: "🚀 Войти в кабинет".to_string(), url: url.to_string() }
    } else {
        PortalButton::Callback(
            Button { label: Label::Text("Вернуться".to_string()), data: "profile".to_string() },
        )
    };
    PortalKeyboard {
        first,
        back: Button { label: Label::Text("⬅️ Кабинет".to_string()), data: "profile".to_string() },
    }
}

/// The portal screen for `url` as `reqwest`'s parser reads it: the link
/// button opens the parsed, normalised URL.
pub fn portal_link_menu(url: &str) -> (kb: PortalKeyboard)
    ensures
        (portal_button_view(kb.first), kb.back@) == match url_normalized(url@) {
            Some(normal) => portal_keyboard_spec(normal, true),
            None => portal_keyboard_spec(url@, false),
        },
{
    match parse_url(url) {
        Some(normal) => portal_keyboard(normal.as_str(), true),
        None => portal_keyboard(url, false),
    }
}

// ---------------------------------------------------------------------------
// The acquiring link template
// ---------------------------------------------------------------------------

/// The code of `c` with ASCII capitals lowered.
pub open spec fn ascii_lower(c: char) -> int {
    if 'A' <= c <= 'Z' {
        (c as int) + 32
    } else {
        c as int
    }
}

/// `a` and `b` are equal ignoring ASCII case (as `eq_ignore_ascii_case`).
pub open spec fn equal_ignoring_case(a: Seq<char>, b: Seq<char>) -> bool {
    a.len() == b.len() && forall|i: int| 0 <= i < a.len() ==> ascii_lower(#[trigger] a[i])
        == ascii_lower(b[i])
}

pub(crate) fn lower(c: char) -> (r: u32)
    ensures
        r == ascii_lower(c),
{
    if 'A' <= c && c <= 'Z' {
        (c as u32) + 32
    } else {
        c as u32
    }
}

pub fn eq_ignore_ascii_case(a: &str, b: &str) -> (r: bool)
    ensures
        r == equal_ignoring_case(a@, b@),
{
    let n = a.unicode_len();
    if n != b.unicode_len() {
        return false;
    }
    let mut i: usize = 0;
    while i < n
        invariant
            n == a@.len(),
            n == b@.len(),
            i <= n,
            forall|j: int| 0 <= j < i ==> ascii_lower(#[trigger] a@[j]) == ascii_lower(b@[j]),
        decreases n - i,
    {
        if lower(a.get_char(i)) != lower(b.get_char(i)) {
            return false;
        }
        i += 1;
    }
    true
}

/// `pattern` occurs in `s`.
pub open spec fn occurs_in(pattern: Seq<char>, s: Seq<char>) -> bool {
    exists|i: int| 0 <= i <= s.len() - pattern.len() && #[trigger] s.subrange(i, i + pattern.len())
        == pattern
}

/// Whether `pattern` occurs in `s` (as `s.contains(pattern)`).
pub fn contains_text(s: &str, pattern: &str) -> (r: bool)
    ensures
        r == occurs_in(pattern@, s@),
{
    let n = s.unicode_len();
    let m = pattern.unicode_len();
    if m > n {
        assert forall|i: int| 0 <= i <= n - m implies #[trigger] s@.subrange(i, i + m) != pattern@ by {}
        return false;
    }
    let mut i: usize = 0;
    while i <= n - m
        invariant
            n == s@.len(),
            m == pattern@.len(),
            m <= n,
            i <= n - m + 1,
            forall|j: int| 0 <= j < i ==> #[trigger] s@.subrange(j, j + m) != pattern@,
        decreases n - m + 1 - i,
    {
        let mut k: usize = 0;
        let mut same = true;
        while k < m
            invariant
                n == s@.len(),
                m == pattern@.len(),
                i + m <= n,
                k <= m,
                same == forall|t: int| 0 <= t < k ==> s@[i + t] == pattern@[t],
            decreases m - k,
        {
            if s.get_char(i + k) != pattern.get_char(k) {
                same = false;
            }
            k += 1;
        }
        if same {
            assert(s@.subrange(i as int, i + m) =~= pattern@);
            return true;
        }
        assert(s@.subrange(i as int, i + m) != pattern@) by {
            let t = choose|t: int| 0 <= t < m && s@[i + t] != pattern@[t];
            assert(s@.subrange(i as int, i + m)[t] == s@[i + t]);
        }
        i += 1;
    }
    false
}

/// What an owner typed for the acquiring link.
#[derive(Debug, Clone, PartialEq)]
pub enum AcquiringInput {
    /// Turn online acquiring off.
    Off,
    /// Store this link template.
    Template(String),
    /// Neither `off` nor a URL with the order's placeholder.
    Invalid,
}

/// `off` in any case turns acquiring off; a URL (`is_url`) holding
/// `{order_id}` is the new template; anything else is refused (surrounding
/// whitespace ignored; `is_url` speaks of the trimmed text).
pub open spec fn acquiring_choice_of(text: Seq<char>, is_url: bool) -> Option<Option<Seq<char>>> {
    let value = trimmed(text);
    if equal_ignoring_case(value, "off"@) {
        Some(None)
    } else if is_url && occurs_in("{order_id}"@, value) {
        Some(Some(value))
    } else {
        None
    }
}

/// What an owner typed for the acquiring link, given whether its trimmed
/// text parses as a URL.
pub fn acquiring_choice(text: &str, is_url: bool) -> (r: AcquiringInput)
    ensures
        match r {
            AcquiringInput::Off => acquiring_choice_of(text@, is_url) == Some(None::<Seq<char>>),
            AcquiringInput::Template(t) => acquiring_choice_of(text@, is_url) == Some(Some(t@)),
            AcquiringInput::Invalid => acquiring_choice_of(text@, is_url) is None,
        },
{
    let value = trim(text);
    if eq_ignore_ascii_case(value, "off") {
        AcquiringInput::Off
    } else if is_url && contains_text(value, "{order_id}") {
        AcquiringInput::Template(value.to_string())
    } else {
        AcquiringInput::Invalid
    }
}

/// What an owner typed for the acquiring link, the URL judged by
/// `reqwest`'s parser.
pub fn acquiring_input(text: &str) -> (r: AcquiringInput)
    ensures
        match r {
            AcquiringInput::Off => acquiring_choice_of(text@, url_accepted(trimmed(text@))) == Some(
                None::<Seq<char>>,
            ),
            AcquiringInput::Template(t) => acquiring_choice_of(text@, url_accepted(trimmed(text@)))
                == Some(Some(t@)),
            AcquiringInput::Invalid => acquiring_choice_of(text@, url_accepted(trimmed(text@))) is None,
        },
{
    let value = trim(text);
    if eq_ignore_ascii_case(value, "off") {
        AcquiringInput::Off
    } else {
        acquiring_choice(text, parse_url(value).is_some())
    }
}

} // verus!
