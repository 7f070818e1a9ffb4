//! Keyboards of the key-management dialogs: main menu, groups, clients,
//! settings, backups.

use vstd::prelude::*;
use vstd::string::*;
use crate::keyboard::{no_rows, plain, push_row, row1, row2, row3, row4, with_id, with_index, with_name, Button, ButtonView, CatalogText, Keyboard, Label, LabelView};
use crate::model::{Lang, ModifyParam};
use crate::numbers::{decimal, format_u32};

verus! {

/// The label of a term of `days` days: the number and the language's unit.
pub open spec fn day_label_text(lang: Lang, days: u32) -> Seq<char> {
    decimal(days as int) + if lang == Lang::Ru {
        "д"@
    } else {
        "d"@
    }
}

/// The label of a term of `days` days (such as `30д`).
pub fn day_label(lang: Lang, days: u32) -> (s: String)
    ensures
        s@ == day_label_text(lang, days),
{
    let mut s = format_u32(days);
    match lang {
        Lang::Ru => s.append("д"),
        Lang::En => s.append("d"),
    }
    s
}

/// The owner's main menu.
pub open spec fn main_spec(lang: Lang) -> Seq<Seq<ButtonView>> {
    seq![
        seq![(LabelView::Catalog(CatalogText::Clients), "list"@)],
        seq![(LabelView::Catalog(CatalogText::Add), "add"@)],
        seq![(LabelView::Catalog(CatalogText::Bulk), "addbulk"@)],
        seq![(LabelView::Catalog(CatalogText::Stats), "stats"@)],
        seq![(LabelView::Catalog(CatalogText::Backup), "backup"@)],
        seq![(LabelView::Catalog(CatalogText::Check), "check"@), (LabelView::Catalog(CatalogText::Diagnose), "diagnose"@)],
        seq![(LabelView::Catalog(CatalogText::Restart), "restart"@), (LabelView::Catalog(CatalogText::Repair), "repair"@)],
        seq![(LabelView::Catalog(CatalogText::Groups), "groups"@)],
        seq![(LabelView::Catalog(CatalogText::Settings), "settings"@)],
    ]
}

pub fn main_menu(lang: Lang) -> (kb: Keyboard)
    ensures
        kb@ == main_spec(lang),
{
    let mut rows = no_rows();
    push_row(&mut rows, row1(
        Button { label: Label::Catalog(CatalogText::Clients), data: plain("list") },
    ));
    push_row(&mut rows, row1(
        Button { label: Label::Catalog(CatalogText::Add), data: plain("add") },
    ));
    push_row(&mut rows, row1(
        Button { label: Label::Catalog(CatalogText::Bulk), data: plain("addbulk") },
    ));
    push_row(&mut rows, row1(
        Button { label: Label::Catalog(CatalogText::Stats), data: plain("stats") },
    ));
    push_row(&mut rows, row1(
        Button { label: Label::Catalog(CatalogText::Backup), data: plain("backup") },
    ));
    push_row(&mut rows, row2(
        Button { label: Label::Catalog(CatalogText::Check), data: plain("check") },
        Button { label: Label::Catalog(CatalogText::Diagnose), data: plain("diagnose") },
    ));
    push_row(&mut rows, row2(
        Button { label: Label::Catalog(CatalogText::Restart), data: plain("restart") },
        Button { label: Label::Catalog(CatalogText::Repair), data: plain("repair") },
    ));
    push_row(&mut rows, row1(
        Button { label: Label::Catalog(CatalogText::Groups), data: plain("groups") },
    ));
    push_row(&mut rows, row1(
        Button { label: Label::Catalog(CatalogText::Settings), data: plain("settings") },
    ));
    let kb = Keyboard { rows };
    assert(kb@ =~= main_spec(lang));
    kb
}

/// Group `id`'s card; the invite button revokes a live invite or makes a new one.
pub open spec fn group_card_spec(lang: Lang, id: i64, has_invite: bool) -> Seq<Seq<ButtonView>> {
    seq![
        seq![(LabelView::Catalog(CatalogText::GroupClients), "gscope:"@ + decimal(id as int))],
        seq![(LabelView::Catalog(CatalogText::GroupRename), "g:ren:"@ + decimal(id as int)), (LabelView::Catalog(CatalogText::GroupQuota), "g:quota:"@ + decimal(id as int))],
        seq![(LabelView::Catalog(CatalogText::GroupAdmins), "g:adm:"@ + decimal(id as int))],
        seq![(if has_invite { (LabelView::Catalog(CatalogText::InviteRevoke), "g:invrev:"@ + decimal(id as int)) } else { (LabelView::Catalog(CatalogText::GroupInvite), "g:inv:"@ + decimal(id as int)) }), (LabelView::Catalog(CatalogText::AdminById), "g:admid:"@ + decimal(id as int))],
        seq![(LabelView::Catalog(CatalogText::GroupRegen), "g:regen:"@ + decimal(id as int))],
        seq![(LabelView::Catalog(CatalogText::GroupDelete), "g:del:"@ + decimal(id as int))],
        seq![(LabelView::Catalog(CatalogText::Back), "groups"@)],
    ]
}

pub fn group_card_menu(lang: Lang, id: i64, has_invite: bool) -> (kb: Keyboard)
    ensures
        kb@ == group_card_spec(lang, id, has_invite),
{
    let mut rows = no_rows();
    push_row(&mut rows, row1(
        Button { label: Label::Catalog(CatalogText::GroupClients), data: with_id("gscope:", id) },
    ));
    push_row(&mut rows, row2(
        Button { label: Label::Catalog(CatalogText::GroupRename), data: with_id("g:ren:", id) },
        Button { label: Label::Catalog(CatalogText::GroupQuota), data: with_id("g:quota:", id) },
    ));
    push_row(&mut rows, row1(
        Button { label: Label::Catalog(CatalogText::GroupAdmins), data: with_id("g:adm:", id) },
    ));
    push_row(&mut rows, row2(
        if has_invite { Button { label: Label::Catalog(CatalogText::InviteRevoke), data: with_id("g:invrev:", id) } } else { Button { label: Label::Catalog(CatalogText::GroupInvite), data: with_id("g:inv:", id) } },
        Button { label: Label::Catalog(CatalogText::AdminById), data: with_id("g:admid:", id) },
    ));
    push_row(&mut rows, row1(
        Button { label: Label::Catalog(CatalogText::GroupRegen), data: with_id("g:regen:", id) },
    ));
    push_row(&mut rows, row1(
        Button { label: Label::Catalog(CatalogText::GroupDelete), data: with_id("g:del:", id) },
    ));
    push_row(&mut rows, row1(
        Button { label: Label::Catalog(CatalogText::Back), data: plain("groups") },
    ));
    let kb = Keyboard { rows };
    assert(kb@ =~= group_card_spec(lang, id, has_invite));
    kb
}

/// Deleting group `id`: detaching its clients or deleting them too.
pub open spec fn group_delete_choice_spec(lang: Lang, id: i64) -> Seq<Seq<ButtonView>> {
    seq![
        seq![(LabelView::Catalog(CatalogText::DeleteDetach), "g:deldetach:"@ + decimal(id as int))],
        seq![(LabelView::Catalog(CatalogText::DeleteWithClients), "g:delall:"@ + decimal(id as int))],
        seq![(LabelView::Catalog(CatalogText::Back), "g:card:"@ + decimal(id as int))],
    ]
}

pub fn group_delete_choice_menu(lang: Lang, id: i64) -> (kb: Keyboard)
    ensures
        kb@ == group_delete_choice_spec(lang, id),
{
    let mut rows = no_rows();
    push_row(&mut rows, row1(
        Button { label: Label::Catalog(CatalogText::DeleteDetach), data: with_id("g:deldetach:", id) },
    ));
    push_row(&mut rows, row1(
        Button { label: Label::Catalog(CatalogText::DeleteWithClients), data: with_id("g:delall:", id) },
    ));
    push_row(&mut rows, row1(
        Button { label: Label::Catalog(CatalogText::Back), data: with_id("g:card:", id) },
    ));
    let kb = Keyboard { rows };
    assert(kb@ =~= group_delete_choice_spec(lang, id));
    kb
}

/// Confirming the deletion of group `id` with its clients.
pub open spec fn confirm_group_delete_clients_spec(lang: Lang, id: i64) -> Seq<Seq<ButtonView>> {
    seq![
        seq![(LabelView::Catalog(CatalogText::DeleteWithClients), "g:delallyes:"@ + decimal(id as int))],
        seq![(LabelView::Catalog(CatalogText::Back), "g:card:"@ + decimal(id as int))],
    ]
}

pub fn confirm_group_delete_clients_menu(lang: Lang, id: i64) -> (kb: Keyboard)
    ensures
        kb@ == confirm_group_delete_clients_spec(lang, id),
{
    let mut rows = no_rows();
    push_row(&mut rows, row1(
        Button { label: Label::Catalog(CatalogText::DeleteWithClients), data: with_id("g:delallyes:", id) },
    ));
    push_row(&mut rows, row1(
        Button { label: Label::Catalog(CatalogText::Back), data: with_id("g:card:", id) },
    ));
    let kb = Keyboard { rows };
    assert(kb@ =~= confirm_group_delete_clients_spec(lang, id));
    kb
}

/// Confirming the reissue of group `id`'s keys.
pub open spec fn confirm_group_regen_spec(lang: Lang, id: i64) -> Seq<Seq<ButtonView>> {
    seq![
        seq![(LabelView::Catalog(CatalogText::GroupRegen), "g:regengo:"@ + decimal(id as int))],
        seq![(LabelView::Catalog(CatalogText::Back), "g:card:"@ + decimal(id as int))],
    ]
}

pub fn confirm_group_regen_menu(lang: Lang, id: i64) -> (kb: Keyboard)
    ensures
        kb@ == confirm_group_regen_spec(lang, id),
{
    let mut rows = no_rows();
    push_row(&mut rows, row1(
        Button { label: Label::Catalog(CatalogText::GroupRegen), data: with_id("g:regengo:", id) },
    ));
    push_row(&mut rows, row1(
        Button { label: Label::Catalog(CatalogText::Back), data: with_id("g:card:", id) },
    ));
    let kb = Keyboard { rows };
    assert(kb@ =~= confirm_group_regen_spec(lang, id));
    kb
}

/// A group administrator's menu; switching groups only with several groups.
pub open spec fn ga_main_spec(lang: Lang, multi: bool) -> Seq<Seq<ButtonView>> {
    seq![
        seq![(LabelView::Catalog(CatalogText::Clients), "list"@)],
        seq![(LabelView::Catalog(CatalogText::Add), "add"@)],
        seq![(LabelView::Catalog(CatalogText::Bulk), "addbulk"@)],
        seq![(LabelView::Catalog(CatalogText::Stats), "stats"@)],
    ]
    + (if multi { seq![seq![(LabelView::Catalog(CatalogText::SwitchGroup), "g:selmenu"@)]] } else { Seq::<Seq<ButtonView>>::empty() })
}

pub fn ga_main_menu(lang: Lang, multi: bool) -> (kb: Keyboard)
    ensures
        kb@ == ga_main_spec(lang, multi),
{
    let mut rows = no_rows();
    push_row(&mut rows, row1(
        Button { label: Label::Catalog(CatalogText::Clients), data: plain("list") },
    ));
    push_row(&mut rows, row1(
        Button { label: Label::Catalog(CatalogText::Add), data: plain("add") },
    ));
    push_row(&mut rows, row1(
        Button { label: Label::Catalog(CatalogText::Bulk), data: plain("addbulk") },
    ));
    push_row(&mut rows, row1(
        Button { label: Label::Catalog(CatalogText::Stats), data: plain("stats") },
    ));
    if multi {
        push_row(&mut rows, row1(
            Button { label: Label::Catalog(CatalogText::SwitchGroup), data: plain("g:selmenu") },
        ));
    }
    let kb = Keyboard { rows };
    assert(kb@ =~= ga_main_spec(lang, multi));
    kb
}

/// Choosing the language on first start: both options at once.
pub open spec fn language_select_spec() -> Seq<Seq<ButtonView>> {
    seq![
        seq![(LabelView::Text("🇷🇺 Русский"@), "lang:ru"@), (LabelView::Text("🇬🇧 English"@), "lang:en"@)],
    ]
}

pub fn language_select() -> (kb: Keyboard)
    ensures
        kb@ == language_select_spec(),
{
    let mut rows = no_rows();
    push_row(&mut rows, row2(
        Button { label: Label::Text("🇷🇺 Русский".to_string()), data: plain("lang:ru") },
        Button { label: Label::Text("🇬🇧 English".to_string()), data: plain("lang:en") },
    ));
    let kb = Keyboard { rows };
    assert(kb@ =~= language_select_spec());
    kb
}

/// The settings; each toggle sends the state it switches to.
pub open spec fn settings_spec(lang: Lang, psk_default: bool, name_slug: bool, deliver_conf: bool, deliver_qr: bool, deliver_link: bool) -> Seq<Seq<ButtonView>> {
    seq![
        seq![(LabelView::Catalog(CatalogText::LangRu), "set:lang:ru"@), (LabelView::Catalog(CatalogText::LangEn), "set:lang:en"@)],
        seq![(LabelView::Catalog(CatalogText::PskToggle(psk_default)), (if psk_default { "set:psk:off"@ } else { "set:psk:on"@ }))],
        seq![(LabelView::Catalog(CatalogText::ConfToggle(deliver_conf)), (if deliver_conf { "set:conf:off"@ } else { "set:conf:on"@ }))],
        seq![(LabelView::Catalog(CatalogText::QrToggle(deliver_qr)), (if deliver_qr { "set:qr:off"@ } else { "set:qr:on"@ }))],
        seq![(LabelView::Catalog(CatalogText::LinkToggle(deliver_link)), (if deliver_link { "set:link:off"@ } else { "set:link:on"@ }))],
        seq![(LabelView::Text("💳 Реквизиты оплаты"@), "set:payment"@)],
        seq![(LabelView::Catalog(CatalogText::Back), "admin:dashboard"@)],
    ]
}

pub fn settings_menu(lang: Lang, psk_default: bool, name_slug: bool, deliver_conf: bool, deliver_qr: bool, deliver_link: bool) -> (kb: Keyboard)
    ensures
        kb@ == settings_spec(lang, psk_default, name_slug, deliver_conf, deliver_qr, deliver_link),
{
    let mut rows = no_rows();
    push_row(&mut rows, row2(
        Button { label: Label::Catalog(CatalogText::LangRu), data: plain("set:lang:ru") },
        Button { label: Label::Catalog(CatalogText::LangEn), data: plain("set:lang:en") },
    ));
    push_row(&mut rows, row1(
        Button { label: Label::Catalog(CatalogText::PskToggle(psk_default)), data: if psk_default { plain("set:psk:off") } else { plain("set:psk:on") } },
    ));
    push_row(&mut rows, row1(
        Button { label: Label::Catalog(CatalogText::ConfToggle(deliver_conf)), data: if deliver_conf { plain("set:conf:off") } else { plain("set:conf:on") } },
    ));
    push_row(&mut rows, row1(
        Button { label: Label::Catalog(CatalogText::QrToggle(deliver_qr)), data: if deliver_qr { plain("set:qr:off") } else { plain("set:qr:on") } },
    ));
    push_row(&mut rows, row1(
        Button { label: Label::Catalog(CatalogText::LinkToggle(deliver_link)), data: if deliver_link { plain("set:link:off") } else { plain("set:link:on") } },
    ));
    push_row(&mut rows, row1(
        Button { label: Label::Text("💳 Реквизиты оплаты".to_string()), data: plain("set:payment") },
    ));
    push_row(&mut rows, row1(
        Button { label: Label::Catalog(CatalogText::Back), data: plain("admin:dashboard") },
    ));
    let kb = Keyboard { rows };
    assert(kb@ =~= settings_spec(lang, psk_default, name_slug, deliver_conf, deliver_qr, deliver_link));
    kb
}

/// How many keys a batch creates.
pub open spec fn bulk_count_spec(lang: Lang) -> Seq<Seq<ButtonView>> {
    seq![
        seq![(LabelView::Text("1"@), "bulk:1"@), (LabelView::Text("3"@), "bulk:3"@), (LabelView::Text("5"@), "bulk:5"@), (LabelView::Text("10"@), "bulk:10"@)],
        seq![(LabelView::Text("20"@), "bulk:20"@), (LabelView::Text("50"@), "bulk:50"@), (LabelView::Text("99"@), "bulk:99"@)],
        seq![(LabelView::Catalog(CatalogText::Back), "menu"@)],
    ]
}

pub fn bulk_count_menu(lang: Lang) -> (kb: Keyboard)
    ensures
        kb@ == bulk_count_spec(lang),
{
    let mut rows = no_rows();
    push_row(&mut rows, row4(
        Button { label: Label::Text("1".to_string()), data: plain("bulk:1") },
        Button { label: Label::Text("3".to_string()), data: plain("bulk:3") },
        Button { label: Label::Text("5".to_string()), data: plain("bulk:5") },
        Button { label: Label::Text("10".to_string()), data: plain("bulk:10") },
    ));
    push_row(&mut rows, row3(
        Button { label: Label::Text("20".to_string()), data: plain("bulk:20") },
        Button { label: Label::Text("50".to_string()), data: plain("bulk:50") },
        Button { label: Label::Text("99".to_string()), data: plain("bulk:99") },
    ));
    push_row(&mut rows, row1(
        Button { label: Label::Catalog(CatalogText::Back), data: plain("menu") },
    ));
    let kb = Keyboard { rows };
    assert(kb@ =~= bulk_count_spec(lang));
    kb
}

/// The preshared-key step of adding a client; the default option comes first.
pub open spec fn psk_step_spec(lang: Lang, default_on: bool) -> Seq<Seq<ButtonView>> {
    seq![
        seq![(if default_on { (LabelView::Catalog(CatalogText::CreateWithPsk), "add:psk:on"@) } else { (LabelView::Catalog(CatalogText::CreateNoPsk), "add:psk:off"@) }), (if default_on { (LabelView::Catalog(CatalogText::CreateNoPsk), "add:psk:off"@) } else { (LabelView::Catalog(CatalogText::CreateWithPsk), "add:psk:on"@) })],
        seq![(LabelView::Catalog(CatalogText::Back), "menu"@)],
    ]
}

pub fn psk_step(lang: Lang, default_on: bool) -> (kb: Keyboard)
    ensures
        kb@ == psk_step_spec(lang, default_on),
{
    let mut rows = no_rows();
    push_row(&mut rows, row2(
        if default_on { Button { label: Label::Catalog(CatalogText::CreateWithPsk), data: plain("add:psk:on") } } else { Button { label: Label::Catalog(CatalogText::CreateNoPsk), data: plain("add:psk:off") } },
        if default_on { Button { label: Label::Catalog(CatalogText::CreateNoPsk), data: plain("add:psk:off") } } else { Button { label: Label::Catalog(CatalogText::CreateWithPsk), data: plain("add:psk:on") } },
    ));
    push_row(&mut rows, row1(
        Button { label: Label::Catalog(CatalogText::Back), data: plain("menu") },
    ));
    let kb = Keyboard { rows };
    assert(kb@ =~= psk_step_spec(lang, default_on));
    kb
}

/// The preshared-key step of a batch; the default option comes first.
pub open spec fn bulk_psk_step_spec(lang: Lang, default_on: bool) -> Seq<Seq<ButtonView>> {
    seq![
        seq![(if default_on { (LabelView::Catalog(CatalogText::CreateWithPsk), "bulkadd:psk:on"@) } else { (LabelView::Catalog(CatalogText::CreateNoPsk), "bulkadd:psk:off"@) }), (if default_on { (LabelView::Catalog(CatalogText::CreateNoPsk), "bulkadd:psk:off"@) } else { (LabelView::Catalog(CatalogText::CreateWithPsk), "bulkadd:psk:on"@) })],
        seq![(LabelView::Catalog(CatalogText::Back), "menu"@)],
    ]
}

pub fn bulk_psk_step(lang: Lang, default_on: bool) -> (kb: Keyboard)
    ensures
        kb@ == bulk_psk_step_spec(lang, default_on),
{
    let mut rows = no_rows();
    push_row(&mut rows, row2(
        if default_on { Button { label: Label::Catalog(CatalogText::CreateWithPsk), data: plain("bulkadd:psk:on") } } else { Button { label: Label::Catalog(CatalogText::CreateNoPsk), data: plain("bulkadd:psk:off") } },
        if default_on { Button { label: Label::Catalog(CatalogText::CreateNoPsk), data: plain("bulkadd:psk:off") } } else { Button { label: Label::Catalog(CatalogText::CreateWithPsk), data: plain("bulkadd:psk:on") } },
    ));
    push_row(&mut rows, row1(
        Button { label: Label::Catalog(CatalogText::Back), data: plain("menu") },
    ));
    let kb = Keyboard { rows };
    assert(kb@ =~= bulk_psk_step_spec(lang, default_on));
    kb
}

/// A client's history: back to the client's card.
pub open spec fn client_history_spec(lang: Lang, name: Seq<char>) -> Seq<Seq<ButtonView>> {
    seq![
        seq![(LabelView::Catalog(CatalogText::HistoryBack), "client:"@ + name)],
    ]
}

pub fn client_history(lang: Lang, name: &str) -> (kb: Keyboard)
    ensures
        kb@ == client_history_spec(lang, name@),
{
    let mut rows = no_rows();
    push_row(&mut rows, row1(
        Button { label: Label::Catalog(CatalogText::HistoryBack), data: with_name("client:", name) },
    ));
    let kb = Keyboard { rows };
    assert(kb@ =~= client_history_spec(lang, name@));
    kb
}

/// Confirming the deletion of client `name`.
pub open spec fn confirm_delete_spec(lang: Lang, name: Seq<char>) -> Seq<Seq<ButtonView>> {
    seq![
        seq![(LabelView::Text(if lang == Lang::Ru { "✅ Да, удалить"@ } else { "✅ Yes, delete"@ }), "delyes:"@ + name), (LabelView::Catalog(CatalogText::Back), "menu"@)],
    ]
}

pub fn confirm_delete(lang: Lang, name: &str) -> (kb: Keyboard)
    ensures
        kb@ == confirm_delete_spec(lang, name@),
{
    let mut rows = no_rows();
    push_row(&mut rows, row2(
        Button { label: Label::Text(match lang { Lang::Ru => "✅ Да, удалить", Lang::En => "✅ Yes, delete" }.to_string()), data: with_name("delyes:", name) },
        Button { label: Label::Catalog(CatalogText::Back), data: plain("menu") },
    ));
    let kb = Keyboard { rows };
    assert(kb@ =~= confirm_delete_spec(lang, name@));
    kb
}

/// Offering to recreate client `name`.
pub open spec fn confirm_recreate_spec(lang: Lang, name: Seq<char>) -> Seq<Seq<ButtonView>> {
    seq![
        seq![(LabelView::Text(if lang == Lang::Ru { "♻️ Пересоздать"@ } else { "♻️ Recreate"@ }), "recreate:"@ + name), (LabelView::Catalog(CatalogText::Back), "menu"@)],
    ]
}

pub fn confirm_recreate(lang: Lang, name: &str) -> (kb: Keyboard)
    ensures
        kb@ == confirm_recreate_spec(lang, name@),
{
    let mut rows = no_rows();
    push_row(&mut rows, row2(
        Button { label: Label::Text(match lang { Lang::Ru => "♻️ Пересоздать", Lang::En => "♻️ Recreate" }.to_string()), data: with_name("recreate:", name) },
        Button { label: Label::Catalog(CatalogText::Back), data: plain("menu") },
    ));
    let kb = Keyboard { rows };
    assert(kb@ =~= confirm_recreate_spec(lang, name@));
    kb
}

/// Reissuing every key, with or without new routes.
pub open spec fn confirm_regen_all_spec(lang: Lang) -> Seq<Seq<ButtonView>> {
    seq![
        seq![(LabelView::Catalog(CatalogText::RegenAllGo), "regen_all_go"@)],
        seq![(LabelView::Catalog(CatalogText::RegenAllRoutes), "regen_all_routes"@)],
        seq![(LabelView::Catalog(CatalogText::Back), "menu"@)],
    ]
}

pub fn confirm_regen_all(lang: Lang) -> (kb: Keyboard)
    ensures
        kb@ == confirm_regen_all_spec(lang),
{
    let mut rows = no_rows();
    push_row(&mut rows, row1(
        Button { label: Label::Catalog(CatalogText::RegenAllGo), data: plain("regen_all_go") },
    ));
    push_row(&mut rows, row1(
        Button { label: Label::Catalog(CatalogText::RegenAllRoutes), data: plain("regen_all_routes") },
    ));
    push_row(&mut rows, row1(
        Button { label: Label::Catalog(CatalogText::Back), data: plain("menu") },
    ));
    let kb = Keyboard { rows };
    assert(kb@ =~= confirm_regen_all_spec(lang));
    kb
}

/// The parameters of client `name` that can be changed.
pub open spec fn modify_param_spec(lang: Lang, name: Seq<char>) -> Seq<Seq<ButtonView>> {
    seq![
        seq![(LabelView::Catalog(CatalogText::Param(ModifyParam::Keepalive)), "modparam:"@ + name + ":keepalive"@), (LabelView::Catalog(CatalogText::Param(ModifyParam::Dns)), "modparam:"@ + name + ":dns"@)],
        seq![(LabelView::Catalog(CatalogText::Param(ModifyParam::AllowedIps)), "modparam:"@ + name + ":allowedips"@), (LabelView::Catalog(CatalogText::Param(ModifyParam::Endpoint)), "modparam:"@ + name + ":endpoint"@)],
        seq![(LabelView::Catalog(CatalogText::Back), "menu"@)],
    ]
}

pub fn modify_param_menu(lang: Lang, name: &str) -> (kb: Keyboard)
    ensures
        kb@ == modify_param_spec(lang, name@),
{
    let mut rows = no_rows();
    push_row(&mut rows, row2(
        Button { label: Label::Catalog(CatalogText::Param(ModifyParam::Keepalive)), data: { let mut s = String::from_str("modparam:"); s.append(name); s.append(":keepalive"); assert(s@ =~= "modparam:"@ + name@ + ":keepalive"@); s } },
        Button { label: Label::Catalog(CatalogText::Param(ModifyParam::Dns)), data: { let mut s = String::from_str("modparam:"); s.append(name); s.append(":dns"); assert(s@ =~= "modparam:"@ + name@ + ":dns"@); s } },
    ));
    push_row(&mut rows, row2(
        Button { label: Label::Catalog(CatalogText::Param(ModifyParam::AllowedIps)), data: { let mut s = String::from_str("modparam:"); s.append(name); s.append(":allowedips"); assert(s@ =~= "modparam:"@ + name@ + ":allowedips"@); s } },
        Button { label: Label::Catalog(CatalogText::Param(ModifyParam::Endpoint)), data: { let mut s = String::from_str("modparam:"); s.append(name); s.append(":endpoint"); assert(s@ =~= "modparam:"@ + name@ + ":endpoint"@); s } },
    ));
    push_row(&mut rows, row1(
        Button { label: Label::Catalog(CatalogText::Back), data: plain("menu") },
    ));
    let kb = Keyboard { rows };
    assert(kb@ =~= modify_param_spec(lang, name@));
    kb
}

/// Confirming a VPN restart.
pub open spec fn confirm_restart_spec(lang: Lang) -> Seq<Seq<ButtonView>> {
    seq![
        seq![(LabelView::Catalog(CatalogText::RestartGo), "restart_go"@)],
        seq![(LabelView::Catalog(CatalogText::Back), "menu"@)],
    ]
}

pub fn confirm_restart_menu(lang: Lang) -> (kb: Keyboard)
    ensures
        kb@ == confirm_restart_spec(lang),
{
    let mut rows = no_rows();
    push_row(&mut rows, row1(
        Button { label: Label::Catalog(CatalogText::RestartGo), data: plain("restart_go") },
    ));
    push_row(&mut rows, row1(
        Button { label: Label::Catalog(CatalogText::Back), data: plain("menu") },
    ));
    let kb = Keyboard { rows };
    assert(kb@ =~= confirm_restart_spec(lang));
    kb
}

/// Backups: a new one, or the list.
pub open spec fn backup_spec(lang: Lang) -> Seq<Seq<ButtonView>> {
    seq![
        seq![(LabelView::Catalog(CatalogText::BackupNew), "bk:new"@)],
        seq![(LabelView::Catalog(CatalogText::BackupList), "bk:list"@)],
        seq![(LabelView::Catalog(CatalogText::Back), "menu"@)],
    ]
}

pub fn backup_menu(lang: Lang) -> (kb: Keyboard)
    ensures
        kb@ == backup_spec(lang),
{
    let mut rows = no_rows();
    push_row(&mut rows, row1(
        Button { label: Label::Catalog(CatalogText::BackupNew), data: plain("bk:new") },
    ));
    push_row(&mut rows, row1(
        Button { label: Label::Catalog(CatalogText::BackupList), data: plain("bk:list") },
    ));
    push_row(&mut rows, row1(
        Button { label: Label::Catalog(CatalogText::Back), data: plain("menu") },
    ));
    let kb = Keyboard { rows };
    assert(kb@ =~= backup_spec(lang));
    kb
}

/// Backup number `idx`: download or restore.
pub open spec fn backup_card_spec(lang: Lang, idx: usize) -> Seq<Seq<ButtonView>> {
    seq![
        seq![(LabelView::Catalog(CatalogText::Download), "bk:dl:"@ + decimal(idx as int)), (LabelView::Catalog(CatalogText::Restore), "bk:restore:"@ + decimal(idx as int))],
        seq![(LabelView::Catalog(CatalogText::Back), "menu"@)],
    ]
}

pub fn backup_card(lang: Lang, idx: usize) -> (kb: Keyboard)
    ensures
        kb@ == backup_card_spec(lang, idx),
{
    let mut rows = no_rows();
    push_row(&mut rows, row2(
        Button { label: Label::Catalog(CatalogText::Download), data: with_index("bk:dl:", idx) },
        Button { label: Label::Catalog(CatalogText::Restore), data: with_index("bk:restore:", idx) },
    ));
    push_row(&mut rows, row1(
        Button { label: Label::Catalog(CatalogText::Back), data: plain("menu") },
    ));
    let kb = Keyboard { rows };
    assert(kb@ =~= backup_card_spec(lang, idx));
    kb
}

/// Confirming the restore of backup number `idx`.
pub open spec fn confirm_restore_spec(lang: Lang, idx: usize) -> Seq<Seq<ButtonView>> {
    seq![
        seq![(LabelView::Catalog(CatalogText::Confirm), "bk:restore_yes:"@ + decimal(idx as int)), (LabelView::Catalog(CatalogText::Back), "menu"@)],
    ]
}

pub fn confirm_restore(lang: Lang, idx: usize) -> (kb: Keyboard)
    ensures
        kb@ == confirm_restore_spec(lang, idx),
{
    let mut rows = no_rows();
    push_row(&mut rows, row2(
        Button { label: Label::Catalog(CatalogText::Confirm), data: with_index("bk:restore_yes:", idx) },
        Button { label: Label::Catalog(CatalogText::Back), data: plain("menu") },
    ));
    let kb = Keyboard { rows };
    assert(kb@ =~= confirm_restore_spec(lang, idx));
    kb
}

/// The term of a new key: none, presets in days, or one's own.
pub open spec fn expiry_spec(lang: Lang) -> Seq<Seq<ButtonView>> {
    seq![
        seq![(LabelView::Text(if lang == Lang::Ru { "Без срока"@ } else { "No expiry"@ }), "exp:none"@)],
        seq![(LabelView::Text(day_label_text(lang, 1)), "exp:1d"@), (LabelView::Text(day_label_text(lang, 7)), "exp:7d"@), (LabelView::Text(day_label_text(lang, 14)), "exp:14d"@)],
        seq![(LabelView::Text(day_label_text(lang, 30)), "exp:30d"@), (LabelView::Text(day_label_text(lang, 90)), "exp:90d"@), (LabelView::Text(day_label_text(lang, 180)), "exp:180d"@)],
        seq![(LabelView::Text(day_label_text(lang, 365)), "exp:365d"@), (LabelView::Text(if lang == Lang::Ru { "✏️ Свой"@ } else { "✏️ Custom"@ }), "exp:custom"@)],
    ]
}

pub fn expiry_menu(lang: Lang) -> (kb: Keyboard)
    ensures
        kb@ == expiry_spec(lang),
{
    let mut rows = no_rows();
    push_row(&mut rows, row1(
        Button { label: Label::Text(match lang { Lang::Ru => "Без срока", Lang::En => "No expiry" }.to_string()), data: plain("exp:none") },
    ));
    push_row(&mut rows, row3(
        Button { label: Label::Text(day_label(lang, 1)), data: plain("exp:1d") },
        Button { label: Label::Text(day_label(lang, 7)), data: plain("exp:7d") },
        Button { label: Label::Text(day_label(lang, 14)), data: plain("exp:14d") },
    ));
    push_row(&mut rows, row3(
        Button { label: Label::Text(day_label(lang, 30)), data: plain("exp:30d") },
        Button { label: Label::Text(day_label(lang, 90)), data: plain("exp:90d") },
        Button { label: Label::Text(day_label(lang, 180)), data: plain("exp:180d") },
    ));
    push_row(&mut rows, row2(
        Button { label: Label::Text(day_label(lang, 365)), data: plain("exp:365d") },
        Button { label: Label::Text(match lang { Lang::Ru => "✏️ Свой", Lang::En => "✏️ Custom" }.to_string()), data: plain("exp:custom") },
    ));
    let kb = Keyboard { rows };
    assert(kb@ =~= expiry_spec(lang));
    kb
}

/// The term of a batch's keys: as for one key, with the batch's prefix.
pub open spec fn bulk_expiry_spec(lang: Lang) -> Seq<Seq<ButtonView>> {
    seq![
        seq![(LabelView::Text(if lang == Lang::Ru { "Без срока"@ } else { "No expiry"@ }), "bulkexp:none"@)],
        seq![(LabelView::Text(day_label_text(lang, 1)), "bulkexp:1d"@), (LabelView::Text(day_label_text(lang, 7)), "bulkexp:7d"@), (LabelView::Text(day_label_text(lang, 14)), "bulkexp:14d"@)],
        seq![(LabelView::Text(day_label_text(lang, 30)), "bulkexp:30d"@), (LabelView::Text(day_label_text(lang, 90)), "bulkexp:90d"@), (LabelView::Text(day_label_text(lang, 180)), "bulkexp:180d"@)],
        seq![(LabelView::Text(day_label_text(lang, 365)), "bulkexp:365d"@), (LabelView::Text(if lang == Lang::Ru { "✏️ Свой"@ } else { "✏️ Custom"@ }), "bulkexp:custom"@)],
    ]
}

pub fn bulk_expiry_menu(lang: Lang) -> (kb: Keyboard)
    ensures
        kb@ == bulk_expiry_spec(lang),
{
    let mut rows = no_rows();
    push_row(&mut rows, row1(
        Button { label: Label::Text(match lang { Lang::Ru => "Без срока", Lang::En => "No expiry" }.to_string()), data: plain("bulkexp:none") },
    ));
    push_row(&mut rows, row3(
        Button { label: Label::Text(day_label(lang, 1)), data: plain("bulkexp:1d") },
        Button { label: Label::Text(day_label(lang, 7)), data: plain("bulkexp:7d") },
        Button { label: Label::Text(day_label(lang, 14)), data: plain("bulkexp:14d") },
    ));
    push_row(&mut rows, row3(
        Button { label: Label::Text(day_label(lang, 30)), data: plain("bulkexp:30d") },
        Button { label: Label::Text(day_label(lang, 90)), data: plain("bulkexp:90d") },
        Button { label: Label::Text(day_label(lang, 180)), data: plain("bulkexp:180d") },
    ));
    push_row(&mut rows, row2(
        Button { label: Label::Text(day_label(lang, 365)), data: plain("bulkexp:365d") },
        Button { label: Label::Text(match lang { Lang::Ru => "✏️ Свой", Lang::En => "✏️ Custom" }.to_string()), data: plain("bulkexp:custom") },
    ));
    let kb = Keyboard { rows };
    assert(kb@ =~= bulk_expiry_spec(lang));
    kb
}

/// Client `name`'s card: the owner also gets the owner-only actions.
pub open spec fn client_card_spec(lang: Lang, name: Seq<char>, is_owner: bool) -> Seq<Seq<ButtonView>> {
    seq![
        seq![(LabelView::Text(if lang == Lang::Ru { "📄 Конфиг"@ } else { "📄 Config"@ }), "conf:"@ + name), (LabelView::Catalog(CatalogText::CardQr), "qr:"@ + name)],
        seq![(LabelView::Catalog(CatalogText::CardLink), "uri:"@ + name), (LabelView::Catalog(CatalogText::CardAll), "all:"@ + name)],
        seq![(LabelView::Catalog(CatalogText::Regen), "regen:"@ + name), (LabelView::Text(if lang == Lang::Ru { "🗑 Удалить"@ } else { "🗑 Delete"@ }), "del:"@ + name)],
    ]
    + (if is_owner { seq![seq![(LabelView::Text("👤 Назначить владельца"@), "owner:assign:"@ + name)]] } else { Seq::<Seq<ButtonView>>::empty() })
    + (if is_owner { seq![seq![(LabelView::Text("📅 Изменить срок действия"@), "owner:expiry:"@ + name)]] } else { Seq::<Seq<ButtonView>>::empty() })
    + (if is_owner { seq![seq![(LabelView::Text("⏸ Отключить"@), "owner:disable:"@ + name), (LabelView::Text("▶️ Включить"@), "owner:enable:"@ + name)]] } else { Seq::<Seq<ButtonView>>::empty() })
    + (if is_owner { seq![seq![(LabelView::Text("📝 Заметка о ключе"@), "client:note:"@ + name)]] } else { Seq::<Seq<ButtonView>>::empty() })
    + (if is_owner { seq![seq![(LabelView::Catalog(CatalogText::Modify), "mod:"@ + name), (LabelView::Catalog(CatalogText::History), "history:"@ + name)]] } else { Seq::<Seq<ButtonView>>::empty() })
    + (if !is_owner { seq![seq![(LabelView::Catalog(CatalogText::History), "history:"@ + name)]] } else { Seq::<Seq<ButtonView>>::empty() })
    + (if is_owner { seq![seq![(LabelView::Catalog(CatalogText::ClientMove), "gmove:"@ + name)]] } else { Seq::<Seq<ButtonView>>::empty() })
    + seq![
        seq![(LabelView::Catalog(CatalogText::Back), "menu"@)],
    ]
}

pub fn client_card(lang: Lang, name: &str, is_owner: bool) -> (kb: Keyboard)
    ensures
        kb@ == client_card_spec(lang, name@, is_owner),
{
    let mut rows = no_rows();
    push_row(&mut rows, row2(
        Button { label: Label::Text(match lang { Lang::Ru => "📄 Конфиг", Lang::En => "📄 Config" }.to_string()), data: with_name("conf:", name) },
        Button { label: Label::Catalog(CatalogText::CardQr), data: with_name("qr:", name) },
    ));
    push_row(&mut rows, row2(
        Button { label: Label::Catalog(CatalogText::CardLink), data: with_name("uri:", name) },
        Button { label: Label::Catalog(CatalogText::CardAll), data: with_name("all:", name) },
    ));
    push_row(&mut rows, row2(
        Button { label: Label::Catalog(CatalogText::Regen), data: with_name("regen:", name) },
        Button { label: Label::Text(match lang { Lang::Ru => "🗑 Удалить", Lang::En => "🗑 Delete" }.to_string()), data: with_name("del:", name) },
    ));
    if is_owner {
        push_row(&mut rows, row1(
            Button { label: Label::Text("👤 Назначить владельца".to_string()), data: with_name("owner:assign:", name) },
        ));
    }
    if is_owner {
        push_row(&mut rows, row1(
            Button { label: Label::Text("📅 Изменить срок действия".to_string()), data: with_name("owner:expiry:", name) },
        ));
    }
    if is_owner {
        push_row(&mut rows, row2(
            Button { label: Label::Text("⏸ Отключить".to_string()), data: with_name("owner:disable:", name) },
            Button { label: Label::Text("▶️ Включить".to_string()), data: with_name("owner:enable:", name) },
        ));
    }
    if is_owner {
        push_row(&mut rows, row1(
            Button { label: Label::Text("📝 Заметка о ключе".to_string()), data: with_name("client:note:", name) },
        ));
    }
    if is_owner {
        push_row(&mut rows, row2(
            Button { label: Label::Catalog(CatalogText::Modify), data: with_name("mod:", name) },
            Button { label: Label::Catalog(CatalogText::History), data: with_name("history:", name) },
        ));
    }
    if !is_owner {
        push_row(&mut rows, row1(
            Button { label: Label::Catalog(CatalogText::History), data: with_name("history:", name) },
        ));
    }
    if is_owner {
        push_row(&mut rows, row1(
            Button { label: Label::Catalog(CatalogText::ClientMove), data: with_name("gmove:", name) },
        ));
    }
    push_row(&mut rows, row1(
        Button { label: Label::Catalog(CatalogText::Back), data: plain("menu") },
    ));
    let kb = Keyboard { rows };
    assert(kb@ =~= client_card_spec(lang, name@, is_owner));
    kb
}

} // verus!
