//! Small vocabulary types shared by the dialogs, the callbacks and the menus.

use vstd::prelude::*;
use crate::text::str_eq;

verus! {

/// Interface language.
#[derive(Debug, Clone, Copy, PartialEq, Eq, Structural)]
pub enum Lang {
    Ru,
    En,
}

/// A client parameter that can be modified in place.
#[derive(Debug, Clone, Copy, PartialEq, Eq, Structural)]
pub enum ModifyParam {
    Keepalive,
    Dns,
    AllowedIps,
    Endpoint,
}

/// Which clients the list shows by handshake state.
#[derive(Debug, Clone, Copy, PartialEq, Eq, Structural)]
pub enum ClientFilter {
    All,
    Online,
    Offline,
    Never,
}

pub open spec fn filter_name(f: ClientFilter) -> Seq<char> {
    match f {
        ClientFilter::All => "all"@,
        ClientFilter::Online => "online"@,
        ClientFilter::Offline => "offline"@,
        ClientFilter::Never => "never"@,
    }
}

/// The filter named `s`, if any.
pub open spec fn filter_named(s: Seq<char>) -> Option<ClientFilter> {
    if s == "all"@ {
        Some(ClientFilter::All)
    } else if s == "online"@ {
        Some(ClientFilter::Online)
    } else if s == "offline"@ {
        Some(ClientFilter::Offline)
    } else if s == "never"@ {
        Some(ClientFilter::Never)
    } else {
        None
    }
}

/// A filter's name reads back as the same filter.
pub proof fn law_filter_name_round_trip(f: ClientFilter)
    ensures
        filter_named(filter_name(f)) == Some(f),
{
    reveal_strlit("all");
    reveal_strlit("online");
    reveal_strlit("offline");
    reveal_strlit("never");
    assert("online"@.len() == 6 && "offline"@.len() == 7 && "never"@.len() == 5 && "all"@.len() == 3);
    assert("online"@[1] != "offline"@[1]);
}

impl ClientFilter {
    /// Name of the filter in callback data.
    pub fn as_str(&self) -> (s: &'static str)
        ensures
            s@ == filter_name(*self),
    {
        match self {
            ClientFilter::All => "all",
            ClientFilter::Online => "online",
            ClientFilter::Offline => "offline",
            ClientFilter::Never => "never",
        }
    }

    /// The filter named `s`.
    pub fn parse_str(s: &str) -> (f: Option<ClientFilter>)
        ensures
            f == filter_named(s@),
    {
        if str_eq(s, "all") {
            Some(ClientFilter::All)
        } else if str_eq(s, "online") {
            Some(ClientFilter::Online)
        } else if str_eq(s, "offline") {
            Some(ClientFilter::Offline)
        } else if str_eq(s, "never") {
            Some(ClientFilter::Never)
        } else {
            None
        }
    }
}

} // verus!

verus! {

/// The name of a client filter on its button, in the user's language.
pub open spec fn filter_caption(lang: Lang, f: ClientFilter) -> Seq<char> {
    match (lang, f) {
        (Lang::Ru, ClientFilter::All) => "Все"@,
        (Lang::En, ClientFilter::All) => "All"@,
        (Lang::Ru, ClientFilter::Online) => "Подключены"@,
        (Lang::En, ClientFilter::Online) => "Online"@,
        (Lang::Ru, ClientFilter::Offline) => "Оффлайн"@,
        (Lang::En, ClientFilter::Offline) => "Offline"@,
        (Lang::Ru, ClientFilter::Never) => "Никогда"@,
        (Lang::En, ClientFilter::Never) => "Never"@,
    }
}

pub fn filter_label_name(lang: Lang, f: ClientFilter) -> (s: &'static str)
    ensures
        s@ == filter_caption(lang, f),
{
    match (lang, f) {
        (Lang::Ru, ClientFilter::All) => "Все",
        (Lang::En, ClientFilter::All) => "All",
        (Lang::Ru, ClientFilter::Online) => "Подключены",
        (Lang::En, ClientFilter::Online) => "Online",
        (Lang::Ru, ClientFilter::Offline) => "Оффлайн",
        (Lang::En, ClientFilter::Offline) => "Offline",
        (Lang::Ru, ClientFilter::Never) => "Никогда",
        (Lang::En, ClientFilter::Never) => "Never",
    }
}

} // verus!
