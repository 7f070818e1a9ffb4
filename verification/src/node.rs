//! The node agent's checks on what it hands to the VPN driver: client names,
//! backup references and request nonces are restricted to characters that
//! cannot reach a shell, and every command maps to a fixed argument list.

use vstd::prelude::*;
use vstd::string::*;
use crate::numbers::{format_i64, decimal};
use crate::text::is_ascii_alphanumeric;

verus! {

/// A command the bot sends to a node agent.
#[derive(Debug, Clone, PartialEq)]
pub enum NodeCommand {
    Health,
    Diagnose,
    Install { protocol: String },
    ListClients,
    CreateClient { name: String },
    GetConfiguration { name: String },
    RegenerateClient { name: String },
    RevokeClient { name: String },
    SetClientEnabled { name: String, enabled: bool },
    SetClientExpiry { name: String, expires_at: Option<i64> },
    Backup,
    Restore { backup_ref: String },
    Capabilities,
}

pub open spec fn is_name_char(c: char) -> bool {
    is_ascii_alphanumeric(c) || c == '_' || c == '-'
}

/// A client name: 1..=64 characters from `[A-Za-z0-9_-]`, not starting with `-`.
pub open spec fn valid_client_name(s: Seq<char>) -> bool {
    &&& 0 < s.len() <= 64
    &&& (is_ascii_alphanumeric(s[0]) || s[0] == '_')
    &&& forall|i: int| 0 <= i < s.len() ==> is_name_char(#[trigger] s[i])
}

/// A token of `len_min..=len_max` characters from `[A-Za-z0-9_-]`.
pub open spec fn valid_token(s: Seq<char>, len_min: int, len_max: int) -> bool {
    &&& len_min <= s.len() <= len_max
    &&& forall|i: int| 0 <= i < s.len() ==> is_name_char(#[trigger] s[i])
}

pub open spec fn strs(words: Seq<Seq<char>>) -> Seq<Seq<char>> {
    words
}

/// Arguments for the VPN driver: `None` for a command the driver does not
/// run, an empty list for a command whose arguments are refused.
/// `canonical_protocol` is the driver's canonical name for the protocol an
/// `Install` command names, or `None` when that names no protocol.
pub open spec fn driver_argv(command: NodeCommand, canonical_protocol: Option<Seq<char>>) -> Option<
    Seq<Seq<char>>,
> {
    match command {
        NodeCommand::Health => Some(seq!["status"@]),
        NodeCommand::Diagnose => Some(seq!["diagnose"@]),
        NodeCommand::Install { .. } => match canonical_protocol {
            Some(p) => Some(seq!["install"@, p]),
            None => None,
        },
        NodeCommand::ListClients => Some(seq!["list"@]),
        NodeCommand::CreateClient { name } => if valid_client_name(name@) {
            Some(seq!["add"@, name@])
        } else {
            Some(Seq::empty())
        },
        NodeCommand::GetConfiguration { name } => if valid_client_name(name@) {
            Some(seq!["get"@, name@])
        } else {
            Some(Seq::empty())
        },
        NodeCommand::RegenerateClient { name } => if valid_client_name(name@) {
            Some(seq!["regen"@, name@])
        } else {
            Some(Seq::empty())
        },
        NodeCommand::RevokeClient { name } => if valid_client_name(name@) {
            Some(seq!["remove"@, name@])
        } else {
            Some(Seq::empty())
        },
        NodeCommand::SetClientEnabled { name, enabled } => if valid_client_name(name@) {
            Some(seq![if enabled { "enable"@ } else { "disable"@ }, name@])
        } else {
            Some(Seq::empty())
        },
        NodeCommand::SetClientExpiry { name, expires_at } => if valid_client_name(name@) {
            Some(
                seq![
                    "set-expiry"@,
                    name@,
                    match expires_at {
                        Some(v) => decimal(v as int),
                        None => "none"@,
                    },
                ],
            )
        } else {
            Some(Seq::empty())
        },
        NodeCommand::Backup => Some(seq!["backup"@]),
        NodeCommand::Restore { backup_ref } => if valid_token(backup_ref@, 1, 128) {
            Some(seq!["restore"@, backup_ref@])
        } else {
            Some(Seq::empty())
        },
        NodeCommand::Capabilities => None,
    }
}

pub open spec fn strings_view(v: Seq<String>) -> Seq<Seq<char>> {
    v.map_values(|s: String| s@)
}

fn is_name_character(c: char) -> (r: bool)
    ensures
        r == is_name_char(c),
{
    ('0' <= c && c <= '9') || ('a' <= c && c <= 'z') || ('A' <= c && c <= 'Z') || c == '_' || c
        == '-'
}

/// All characters of `s` are from `[A-Za-z0-9_-]`.
fn all_name_chars(s: &str) -> (r: bool)
    ensures
        r == forall|i: int| 0 <= i < s@.len() ==> is_name_char(#[trigger] s@[i]),
{
    let n = s.unicode_len();
    let mut i: usize = 0;
    while i < n
        invariant
            n == s@.len(),
            i <= n,
            forall|j: int| 0 <= j < i ==> is_name_char(#[trigger] s@[j]),
        decreases n - i,
    {
        if !is_name_character(s.get_char(i)) {
            return false;
        }
        i += 1;
    }
    true
}

/// Whether `name` may be handed to the driver as a client name.
pub fn valid_name(name: &str) -> (r: bool)
    ensures
        r == valid_client_name(name@),
{
    let chars_ok = all_name_chars(name);
    if !chars_ok {
        return false;
    }
    let len = name.unicode_len();
    if len > 64 || len == 0 {
        return false;
    }
    let first = name.get_char(0);
    ('0' <= first && first <= '9') || ('a' <= first && first <= 'z') || ('A' <= first && first
        <= 'Z') || first == '_'
}

/// Whether `value` is a token of `min..=max` characters from `[A-Za-z0-9_-]`.
pub fn valid_token_str(value: &str, min: usize, max: usize) -> (r: bool)
    ensures
        r == valid_token(value@, min as int, max as int),
{
    let chars_ok = all_name_chars(value);
    if !chars_ok {
        return false;
    }
    let len = value.unicode_len();
    len >= min && len <= max
}

/// Whether a request nonce is well formed (16..=128 characters from
/// `[A-Za-z0-9_-]`); only such a nonce is ever claimed.
pub fn valid_nonce(nonce: &str) -> (r: bool)
    ensures
        r == valid_token(nonce@, 16, 128),
{
    valid_token_str(nonce, 16, 128)
}

fn words1(a: &str) -> (v: Vec<String>)
    ensures
        strings_view(v@) == seq![a@],
{
    let mut v = Vec::new();
    v.push(a.to_owned());
    assert(strings_view(v@) =~= seq![a@]);
    v
}

fn words2(a: &str, b: &str) -> (v: Vec<String>)
    ensures
        strings_view(v@) == seq![a@, b@],
{
    let mut v = Vec::new();
    v.push(a.to_owned());
    v.push(b.to_owned());
    assert(strings_view(v@) =~= seq![a@, b@]);
    v
}

fn words3(a: &str, b: &str, c: &str) -> (v: Vec<String>)
    ensures
        strings_view(v@) == seq![a@, b@, c@],
{
    let mut v = Vec::new();
    v.push(a.to_owned());
    v.push(b.to_owned());
    v.push(c.to_owned());
    assert(strings_view(v@) =~= seq![a@, b@, c@]);
    v
}

fn no_words() -> (v: Vec<String>)
    ensures
        strings_view(v@) == Seq::<Seq<char>>::empty(),
{
    let v = Vec::new();
    assert(strings_view(v@) =~= Seq::<Seq<char>>::empty());
    v
}

/// Driver arguments for `command` (see `driver_argv`).
pub fn driver_args(command: &NodeCommand, canonical_protocol: Option<&str>) -> (r: Option<
    Vec<String>,
>)
    ensures
        match r {
            Some(v) => driver_argv(
                *command,
                match canonical_protocol {
                    Some(p) => Some(p@),
                    None => None,
                },
            ) == Some(strings_view(v@)),
            None => driver_argv(
                *command,
                match canonical_protocol {
                    Some(p) => Some(p@),
                    None => None,
                },
            ) is None,
        },
{
    match command {
        NodeCommand::Health => Some(words1("status")),
        NodeCommand::Diagnose => Some(words1("diagnose")),
        NodeCommand::Install { .. } => match canonical_protocol {
            Some(protocol) => Some(words2("install", protocol)),
            None => None,
        },
        NodeCommand::ListClients => Some(words1("list")),
        NodeCommand::CreateClient { name } => if valid_name(name.as_str()) {
            Some(words2("add", name.as_str()))
        } else {
            Some(no_words())
        },
        NodeCommand::GetConfiguration { name } => if valid_name(name.as_str()) {
            Some(words2("get", name.as_str()))
        } else {
            Some(no_words())
        },
        NodeCommand::RegenerateClient { name } => if valid_name(name.as_str()) {
            Some(words2("regen", name.as_str()))
        } else {
            Some(no_words())
        },
        NodeCommand::RevokeClient { name } => if valid_name(name.as_str()) {
            Some(words2("remove", name.as_str()))
        } else {
            Some(no_words())
        },
        NodeCommand::SetClientEnabled { name, enabled } => if valid_name(name.as_str()) {
            Some(
                words2(
                    if *enabled {
                        "enable"
                    } else {
                        "disable"
                    },
                    name.as_str(),
                ),
            )
        } else {
            Some(no_words())
        },
        NodeCommand::SetClientExpiry { name, expires_at } => if valid_name(name.as_str()) {
            let expiry = match expires_at {
                Some(value) => format_i64(*value),
                None => "none".to_owned(),
            };
            Some(words3("set-expiry", name.as_str(), expiry.as_str()))
        } else {
            Some(no_words())
        },
        NodeCommand::Backup => Some(words1("backup")),
        NodeCommand::Restore { backup_ref } => if valid_token_str(backup_ref.as_str(), 1, 128) {
            Some(words2("restore", backup_ref.as_str()))
        } else {
            Some(no_words())
        },
        NodeCommand::Capabilities => None,
    }
}

} // verus!
