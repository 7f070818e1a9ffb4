//! Laws of the callback protocol: the data a button carries reads back as the
//! action it was made for.

use vstd::prelude::*;
use vstd::string::*;
use crate::action::{callback_action, exact_callback, ActionView};
use crate::action::{
    prefixed_callback_1, prefixed_callback_10, prefixed_callback_11, prefixed_callback_2,
    prefixed_callback_3, prefixed_callback_4, prefixed_callback_5, prefixed_callback_6,
    prefixed_callback_7, prefixed_callback_8, prefixed_callback_9,
};
use crate::numbers::{decimal, law_decimal_round_trip, law_decimal_round_trip_usize, lemma_decimal_first};

verus! {

proof fn lemma_mismatch(lit: Seq<char>, d: Seq<char>, i: int)
    requires
        0 <= i < lit.len(),
        i < d.len(),
        lit[i] != d[i],
    ensures
        !lit.is_prefix_of(d),
        lit != d,
{
    if lit.is_prefix_of(d) {
        assert(d.subrange(0, lit.len() as int)[i] == d[i]);
    }
}

proof fn lemma_concat_ne(p: Seq<char>, t: Seq<char>, name: Seq<char>)
    requires
        t != name,
    ensures
        p + t != p + name,
{
    if p + t == p + name {
        assert(t =~= (p + t).skip(p.len() as int));
        assert(name =~= (p + name).skip(p.len() as int));
    }
}

proof fn lemma_longer(lit: Seq<char>, d: Seq<char>)
    requires
        lit.len() < d.len(),
    ensures
        lit != d,
{
}

proof fn lemma_colon_at(lit: Seq<char>, d: Seq<char>, k: int)
    requires
        0 <= k < lit.len(),
        lit[k] == ':',
        k < d.len() ==> d[k] != ':',
    ensures
        !lit.is_prefix_of(d),
        lit != d,
{
    if lit.is_prefix_of(d) {
        assert(d.subrange(0, lit.len() as int)[k] == d[k]);
    }
}

/// The characters after a prefix are those of the appended part, and none
/// of them is `:`.
proof fn lemma_tail_no_colon(p: Seq<char>, name: Seq<char>)
    requires
        !name.contains(':'),
    ensures
        forall|k: int| p.len() <= k < (p + name).len() ==> #[trigger] (p + name)[k] != ':',
        (p + name).len() == p.len() + name.len(),
{
    assert forall|k: int| p.len() <= k < (p + name).len() implies #[trigger] (p + name)[k] != ':' by {
        assert((p + name)[k] == name[k - p.len()]);
    }
}

/// After a prefix comes a decimal numeral: a digit or `-` first.
proof fn lemma_decimal_tail(p: Seq<char>, v: int)
    ensures
        (p + decimal(v)).len() > p.len(),
        ('0' <= (p + decimal(v))[p.len() as int] <= '9') || (p + decimal(v))[p.len() as int] == '-',
{
    lemma_decimal_first(v);
}


/// Every fixed callback string starts with the character its group names:
/// a string that starts otherwise is none of them.
proof fn lemma_exact_first_chars(d: Seq<char>)
    requires
        d.len() > 0,
    ensures
        d[0] != 'a' ==> d != "admin:dashboard"@ && d != "admin:vpn"@ && d != "admin:servers"@ && d != "admin:keys"@ && d != "admin:users"@ && d != "admin:communication"@ && d != "admin:system"@ && d != "admin:update"@ && d != "admin:update:run"@ && d != "admin:update:status"@ && d != "admin:update:rollback"@ && d != "admin:create"@ && d != "admin:owners"@ && d != "admin:finance"@ && d != "admin:support"@ && d != "admin:broadcast"@ && d != "admin:broadcast:templates"@ && d != "admin:help"@ && d != "admin:search"@ && d != "admin:roles"@ && d != "add"@ && d != "addbulk"@ && d != "admin:bulk:confirm"@ && d != "admin:promos"@ && d != "admin:commerce"@ && d != "admin:prices:rub"@ && d != "admin:prices:stars"@ && d != "admin:referral"@ && d != "admin:legacy"@ && d != "admin:operations"@ && d != "admin:operations:refresh"@ && d != "admin:operations:ack"@ && d != "admin:keys:health"@ && d != "admin:db-backup"@ && d != "admin:db-backup-audit"@,
        d[0] != 'b' ==> d != "backup"@ && d != "bk:new"@ && d != "bk:list"@ && d != "buy"@ && d != "balance"@,
        d[0] != 'c' ==> d != "check"@,
        d[0] != 'd' ==> d != "diagnose"@,
        d[0] != 'f' ==> d != "finance:export"@,
        d[0] != 'g' ==> d != "groups"@ && d != "g:new"@ && d != "g:selmenu"@ && d != "gscope"@,
        d[0] != 'l' ==> d != "list"@ && d != "legacy:request:new"@ && d != "legacy:promo"@ && d != "legacy:price"@,
        d[0] != 'm' ==> d != "migration:local"@ && d != "migration:preflight"@ && d != "migration:start"@ && d != "migration:status"@ && d != "migration:rollback"@ && d != "menu"@ && d != "mykeys"@,
        d[0] != 'p' ==> d != "profile"@ && d != "portal"@,
        d[0] != 'r' ==> d != "regen_all"@ && d != "regen_all_go"@ && d != "regen_all_routes"@ && d != "restart"@ && d != "restart_go"@ && d != "repair"@,
        d[0] != 's' ==> d != "server:add"@ && d != "server:billing"@ && d != "stats"@ && d != "settings"@ && d != "set:payment"@ && d != "set:acquiring"@,
{
    reveal_strlit("admin:dashboard");
    reveal_strlit("admin:vpn");
    reveal_strlit("admin:servers");
    reveal_strlit("migration:local");
    reveal_strlit("migration:preflight");
    reveal_strlit("migration:start");
    reveal_strlit("migration:status");
    reveal_strlit("migration:rollback");
    reveal_strlit("admin:keys");
    reveal_strlit("admin:users");
    reveal_strlit("admin:communication");
    reveal_strlit("admin:system");
    reveal_strlit("admin:update");
    reveal_strlit("admin:update:run");
    reveal_strlit("admin:update:status");
    reveal_strlit("admin:update:rollback");
    reveal_strlit("server:add");
    reveal_strlit("server:billing");
    reveal_strlit("admin:create");
    reveal_strlit("admin:owners");
    reveal_strlit("admin:finance");
    reveal_strlit("admin:support");
    reveal_strlit("admin:broadcast");
    reveal_strlit("admin:broadcast:templates");
    reveal_strlit("admin:help");
    reveal_strlit("admin:search");
    reveal_strlit("admin:roles");
    reveal_strlit("menu");
    reveal_strlit("list");
    reveal_strlit("add");
    reveal_strlit("addbulk");
    reveal_strlit("stats");
    reveal_strlit("admin:bulk:confirm");
    reveal_strlit("settings");
    reveal_strlit("backup");
    reveal_strlit("bk:new");
    reveal_strlit("bk:list");
    reveal_strlit("check");
    reveal_strlit("diagnose");
    reveal_strlit("regen_all");
    reveal_strlit("regen_all_go");
    reveal_strlit("regen_all_routes");
    reveal_strlit("restart");
    reveal_strlit("restart_go");
    reveal_strlit("repair");
    reveal_strlit("groups");
    reveal_strlit("g:new");
    reveal_strlit("g:selmenu");
    reveal_strlit("gscope");
    reveal_strlit("buy");
    reveal_strlit("mykeys");
    reveal_strlit("profile");
    reveal_strlit("portal");
    reveal_strlit("balance");
    reveal_strlit("set:payment");
    reveal_strlit("set:acquiring");
    reveal_strlit("finance:export");
    reveal_strlit("admin:promos");
    reveal_strlit("admin:commerce");
    reveal_strlit("admin:prices:rub");
    reveal_strlit("admin:prices:stars");
    reveal_strlit("admin:referral");
    reveal_strlit("admin:legacy");
    reveal_strlit("legacy:request:new");
    reveal_strlit("legacy:promo");
    reveal_strlit("legacy:price");
    reveal_strlit("admin:operations");
    reveal_strlit("admin:operations:refresh");
    reveal_strlit("admin:operations:ack");
    reveal_strlit("admin:keys:health");
    reveal_strlit("admin:db-backup");
    reveal_strlit("admin:db-backup-audit");
}

proof fn lemma_prefixes_from_a(d: Seq<char>)
    requires
        d.len() > 0,
        d[0] != 'a',
    ensures
        !"admin:owners:page:"@.is_prefix_of(d),
        !"admin:bulk:"@.is_prefix_of(d),
        !"admin:role:"@.is_prefix_of(d),
        !"admin:promo:"@.is_prefix_of(d),
        !"admin:userblock:"@.is_prefix_of(d),
        !"admin:userkeys:"@.is_prefix_of(d),
        !"admin:userkeys-delete-confirm:"@.is_prefix_of(d),
        !"admin:userkeys-delete:"@.is_prefix_of(d),
        !"admin:userpay:"@.is_prefix_of(d),
        !"admin:userbal:"@.is_prefix_of(d),
        !"admin:userdiscount:"@.is_prefix_of(d),
        !"admin:usernote:"@.is_prefix_of(d),
        !"admin:user:"@.is_prefix_of(d),
        !"add:server:"@.is_prefix_of(d),
        !"autorenew:"@.is_prefix_of(d),
        !"all:"@.is_prefix_of(d),
        !"add:psk:"@.is_prefix_of(d),
{
    reveal_strlit("admin:owners:page:");
    if "admin:owners:page:"@.is_prefix_of(d) {
        assert(d.subrange(0, "admin:owners:page:"@.len() as int)[0] == d[0]);
    }
    reveal_strlit("admin:bulk:");
    if "admin:bulk:"@.is_prefix_of(d) {
        assert(d.subrange(0, "admin:bulk:"@.len() as int)[0] == d[0]);
    }
    reveal_strlit("admin:role:");
    if "admin:role:"@.is_prefix_of(d) {
        assert(d.subrange(0, "admin:role:"@.len() as int)[0] == d[0]);
    }
    reveal_strlit("admin:promo:");
    if "admin:promo:"@.is_prefix_of(d) {
        assert(d.subrange(0, "admin:promo:"@.len() as int)[0] == d[0]);
    }
    reveal_strlit("admin:userblock:");
    if "admin:userblock:"@.is_prefix_of(d) {
        assert(d.subrange(0, "admin:userblock:"@.len() as int)[0] == d[0]);
    }
    reveal_strlit("admin:userkeys:");
    if "admin:userkeys:"@.is_prefix_of(d) {
        assert(d.subrange(0, "admin:userkeys:"@.len() as int)[0] == d[0]);
    }
    reveal_strlit("admin:userkeys-delete-confirm:");
    if "admin:userkeys-delete-confirm:"@.is_prefix_of(d) {
        assert(d.subrange(0, "admin:userkeys-delete-confirm:"@.len() as int)[0] == d[0]);
    }
    reveal_strlit("admin:userkeys-delete:");
    if "admin:userkeys-delete:"@.is_prefix_of(d) {
        assert(d.subrange(0, "admin:userkeys-delete:"@.len() as int)[0] == d[0]);
    }
    reveal_strlit("admin:userpay:");
    if "admin:userpay:"@.is_prefix_of(d) {
        assert(d.subrange(0, "admin:userpay:"@.len() as int)[0] == d[0]);
    }
    reveal_strlit("admin:userbal:");
    if "admin:userbal:"@.is_prefix_of(d) {
        assert(d.subrange(0, "admin:userbal:"@.len() as int)[0] == d[0]);
    }
    reveal_strlit("admin:userdiscount:");
    if "admin:userdiscount:"@.is_prefix_of(d) {
        assert(d.subrange(0, "admin:userdiscount:"@.len() as int)[0] == d[0]);
    }
    reveal_strlit("admin:usernote:");
    if "admin:usernote:"@.is_prefix_of(d) {
        assert(d.subrange(0, "admin:usernote:"@.len() as int)[0] == d[0]);
    }
    reveal_strlit("admin:user:");
    if "admin:user:"@.is_prefix_of(d) {
        assert(d.subrange(0, "admin:user:"@.len() as int)[0] == d[0]);
    }
    reveal_strlit("add:server:");
    if "add:server:"@.is_prefix_of(d) {
        assert(d.subrange(0, "add:server:"@.len() as int)[0] == d[0]);
    }
    reveal_strlit("autorenew:");
    if "autorenew:"@.is_prefix_of(d) {
        assert(d.subrange(0, "autorenew:"@.len() as int)[0] == d[0]);
    }
    reveal_strlit("all:");
    if "all:"@.is_prefix_of(d) {
        assert(d.subrange(0, "all:"@.len() as int)[0] == d[0]);
    }
    reveal_strlit("add:psk:");
    if "add:psk:"@.is_prefix_of(d) {
        assert(d.subrange(0, "add:psk:"@.len() as int)[0] == d[0]);
    }
}

proof fn lemma_prefixes_from_b(d: Seq<char>)
    requires
        d.len() > 0,
        d[0] != 'b',
    ensures
        !"buy:term:"@.is_prefix_of(d),
        !"buy:method:"@.is_prefix_of(d),
        !"buy:server:"@.is_prefix_of(d),
        !"buy:paid:"@.is_prefix_of(d),
        !"broadcast:audience:"@.is_prefix_of(d),
        !"broadcast:retry:"@.is_prefix_of(d),
        !"bulkadd:psk:"@.is_prefix_of(d),
        !"bulkserver:"@.is_prefix_of(d),
        !"bulkexp:"@.is_prefix_of(d),
        !"bulk:"@.is_prefix_of(d),
        !"bk:restore_yes:"@.is_prefix_of(d),
        !"bk:restore:"@.is_prefix_of(d),
        !"bk:card:"@.is_prefix_of(d),
        !"bk:dl:"@.is_prefix_of(d),
{
    reveal_strlit("buy:term:");
    if "buy:term:"@.is_prefix_of(d) {
        assert(d.subrange(0, "buy:term:"@.len() as int)[0] == d[0]);
    }
    reveal_strlit("buy:method:");
    if "buy:method:"@.is_prefix_of(d) {
        assert(d.subrange(0, "buy:method:"@.len() as int)[0] == d[0]);
    }
    reveal_strlit("buy:server:");
    if "buy:server:"@.is_prefix_of(d) {
        assert(d.subrange(0, "buy:server:"@.len() as int)[0] == d[0]);
    }
    reveal_strlit("buy:paid:");
    if "buy:paid:"@.is_prefix_of(d) {
        assert(d.subrange(0, "buy:paid:"@.len() as int)[0] == d[0]);
    }
    reveal_strlit("broadcast:audience:");
    if "broadcast:audience:"@.is_prefix_of(d) {
        assert(d.subrange(0, "broadcast:audience:"@.len() as int)[0] == d[0]);
    }
    reveal_strlit("broadcast:retry:");
    if "broadcast:retry:"@.is_prefix_of(d) {
        assert(d.subrange(0, "broadcast:retry:"@.len() as int)[0] == d[0]);
    }
    reveal_strlit("bulkadd:psk:");
    if "bulkadd:psk:"@.is_prefix_of(d) {
        assert(d.subrange(0, "bulkadd:psk:"@.len() as int)[0] == d[0]);
    }
    reveal_strlit("bulkserver:");
    if "bulkserver:"@.is_prefix_of(d) {
        assert(d.subrange(0, "bulkserver:"@.len() as int)[0] == d[0]);
    }
    reveal_strlit("bulkexp:");
    if "bulkexp:"@.is_prefix_of(d) {
        assert(d.subrange(0, "bulkexp:"@.len() as int)[0] == d[0]);
    }
    reveal_strlit("bulk:");
    if "bulk:"@.is_prefix_of(d) {
        assert(d.subrange(0, "bulk:"@.len() as int)[0] == d[0]);
    }
    reveal_strlit("bk:restore_yes:");
    if "bk:restore_yes:"@.is_prefix_of(d) {
        assert(d.subrange(0, "bk:restore_yes:"@.len() as int)[0] == d[0]);
    }
    reveal_strlit("bk:restore:");
    if "bk:restore:"@.is_prefix_of(d) {
        assert(d.subrange(0, "bk:restore:"@.len() as int)[0] == d[0]);
    }
    reveal_strlit("bk:card:");
    if "bk:card:"@.is_prefix_of(d) {
        assert(d.subrange(0, "bk:card:"@.len() as int)[0] == d[0]);
    }
    reveal_strlit("bk:dl:");
    if "bk:dl:"@.is_prefix_of(d) {
        assert(d.subrange(0, "bk:dl:"@.len() as int)[0] == d[0]);
    }
}

proof fn lemma_prefixes_from_c(d: Seq<char>)
    requires
        d.len() > 0,
        d[0] != 'c',
    ensures
        !"client:note:"@.is_prefix_of(d),
        !"client:"@.is_prefix_of(d),
        !"conf:"@.is_prefix_of(d),
{
    reveal_strlit("client:note:");
    if "client:note:"@.is_prefix_of(d) {
        assert(d.subrange(0, "client:note:"@.len() as int)[0] == d[0]);
    }
    reveal_strlit("client:");
    if "client:"@.is_prefix_of(d) {
        assert(d.subrange(0, "client:"@.len() as int)[0] == d[0]);
    }
    reveal_strlit("conf:");
    if "conf:"@.is_prefix_of(d) {
        assert(d.subrange(0, "conf:"@.len() as int)[0] == d[0]);
    }
}

proof fn lemma_prefixes_from_d(d: Seq<char>)
    requires
        d.len() > 0,
        d[0] != 'd',
    ensures
        !"device:label:"@.is_prefix_of(d),
        !"delyes:"@.is_prefix_of(d),
        !"del:"@.is_prefix_of(d),
{
    reveal_strlit("device:label:");
    if "device:label:"@.is_prefix_of(d) {
        assert(d.subrange(0, "device:label:"@.len() as int)[0] == d[0]);
    }
    reveal_strlit("delyes:");
    if "delyes:"@.is_prefix_of(d) {
        assert(d.subrange(0, "delyes:"@.len() as int)[0] == d[0]);
    }
    reveal_strlit("del:");
    if "del:"@.is_prefix_of(d) {
        assert(d.subrange(0, "del:"@.len() as int)[0] == d[0]);
    }
}

proof fn lemma_prefixes_from_e(d: Seq<char>)
    requires
        d.len() > 0,
        d[0] != 'e',
    ensures
        !"exp:"@.is_prefix_of(d),
{
    reveal_strlit("exp:");
    if "exp:"@.is_prefix_of(d) {
        assert(d.subrange(0, "exp:"@.len() as int)[0] == d[0]);
    }
}

proof fn lemma_prefixes_from_g(d: Seq<char>)
    requires
        d.len() > 0,
        d[0] != 'g',
    ensures
        !"guide:"@.is_prefix_of(d),
        !"g:card:"@.is_prefix_of(d),
        !"g:ren:"@.is_prefix_of(d),
        !"g:quota:"@.is_prefix_of(d),
        !"g:admdel:"@.is_prefix_of(d),
        !"g:admid:"@.is_prefix_of(d),
        !"g:adm:"@.is_prefix_of(d),
        !"g:invrev:"@.is_prefix_of(d),
        !"g:inv:"@.is_prefix_of(d),
        !"g:delallyes:"@.is_prefix_of(d),
        !"g:delall:"@.is_prefix_of(d),
        !"g:deldetach:"@.is_prefix_of(d),
        !"g:del:"@.is_prefix_of(d),
        !"g:regengo:"@.is_prefix_of(d),
        !"g:regen:"@.is_prefix_of(d),
        !"g:sel:"@.is_prefix_of(d),
        !"gmoveto:"@.is_prefix_of(d),
        !"gmove:"@.is_prefix_of(d),
        !"gscope:"@.is_prefix_of(d),
{
    reveal_strlit("guide:");
    if "guide:"@.is_prefix_of(d) {
        assert(d.subrange(0, "guide:"@.len() as int)[0] == d[0]);
    }
    reveal_strlit("g:card:");
    if "g:card:"@.is_prefix_of(d) {
        assert(d.subrange(0, "g:card:"@.len() as int)[0] == d[0]);
    }
    reveal_strlit("g:ren:");
    if "g:ren:"@.is_prefix_of(d) {
        assert(d.subrange(0, "g:ren:"@.len() as int)[0] == d[0]);
    }
    reveal_strlit("g:quota:");
    if "g:quota:"@.is_prefix_of(d) {
        assert(d.subrange(0, "g:quota:"@.len() as int)[0] == d[0]);
    }
    reveal_strlit("g:admdel:");
    if "g:admdel:"@.is_prefix_of(d) {
        assert(d.subrange(0, "g:admdel:"@.len() as int)[0] == d[0]);
    }
    reveal_strlit("g:admid:");
    if "g:admid:"@.is_prefix_of(d) {
        assert(d.subrange(0, "g:admid:"@.len() as int)[0] == d[0]);
    }
    reveal_strlit("g:adm:");
    if "g:adm:"@.is_prefix_of(d) {
        assert(d.subrange(0, "g:adm:"@.len() as int)[0] == d[0]);
    }
    reveal_strlit("g:invrev:");
    if "g:invrev:"@.is_prefix_of(d) {
        assert(d.subrange(0, "g:invrev:"@.len() as int)[0] == d[0]);
    }
    reveal_strlit("g:inv:");
    if "g:inv:"@.is_prefix_of(d) {
        assert(d.subrange(0, "g:inv:"@.len() as int)[0] == d[0]);
    }
    reveal_strlit("g:delallyes:");
    if "g:delallyes:"@.is_prefix_of(d) {
        assert(d.subrange(0, "g:delallyes:"@.len() as int)[0] == d[0]);
    }
    reveal_strlit("g:delall:");
    if "g:delall:"@.is_prefix_of(d) {
        assert(d.subrange(0, "g:delall:"@.len() as int)[0] == d[0]);
    }
    reveal_strlit("g:deldetach:");
    if "g:deldetach:"@.is_prefix_of(d) {
        assert(d.subrange(0, "g:deldetach:"@.len() as int)[0] == d[0]);
    }
    reveal_strlit("g:del:");
    if "g:del:"@.is_prefix_of(d) {
        assert(d.subrange(0, "g:del:"@.len() as int)[0] == d[0]);
    }
    reveal_strlit("g:regengo:");
    if "g:regengo:"@.is_prefix_of(d) {
        assert(d.subrange(0, "g:regengo:"@.len() as int)[0] == d[0]);
    }
    reveal_strlit("g:regen:");
    if "g:regen:"@.is_prefix_of(d) {
        assert(d.subrange(0, "g:regen:"@.len() as int)[0] == d[0]);
    }
    reveal_strlit("g:sel:");
    if "g:sel:"@.is_prefix_of(d) {
        assert(d.subrange(0, "g:sel:"@.len() as int)[0] == d[0]);
    }
    reveal_strlit("gmoveto:");
    if "gmoveto:"@.is_prefix_of(d) {
        assert(d.subrange(0, "gmoveto:"@.len() as int)[0] == d[0]);
    }
    reveal_strlit("gmove:");
    if "gmove:"@.is_prefix_of(d) {
        assert(d.subrange(0, "gmove:"@.len() as int)[0] == d[0]);
    }
    reveal_strlit("gscope:");
    if "gscope:"@.is_prefix_of(d) {
        assert(d.subrange(0, "gscope:"@.len() as int)[0] == d[0]);
    }
}

proof fn lemma_prefixes_from_h(d: Seq<char>)
    requires
        d.len() > 0,
        d[0] != 'h',
    ensures
        !"history:"@.is_prefix_of(d),
{
    reveal_strlit("history:");
    if "history:"@.is_prefix_of(d) {
        assert(d.subrange(0, "history:"@.len() as int)[0] == d[0]);
    }
}

proof fn lemma_prefixes_from_l(d: Seq<char>)
    requires
        d.len() > 0,
        d[0] != 'l',
    ensures
        !"legacy:renew:method:"@.is_prefix_of(d),
        !"legacy:renew:"@.is_prefix_of(d),
        !"legacy:req:ok:"@.is_prefix_of(d),
        !"legacy:req:no:"@.is_prefix_of(d),
        !"listfilter:"@.is_prefix_of(d),
        !"lang:"@.is_prefix_of(d),
{
    reveal_strlit("legacy:renew:method:");
    if "legacy:renew:method:"@.is_prefix_of(d) {
        assert(d.subrange(0, "legacy:renew:method:"@.len() as int)[0] == d[0]);
    }
    reveal_strlit("legacy:renew:");
    if "legacy:renew:"@.is_prefix_of(d) {
        assert(d.subrange(0, "legacy:renew:"@.len() as int)[0] == d[0]);
    }
    reveal_strlit("legacy:req:ok:");
    if "legacy:req:ok:"@.is_prefix_of(d) {
        assert(d.subrange(0, "legacy:req:ok:"@.len() as int)[0] == d[0]);
    }
    reveal_strlit("legacy:req:no:");
    if "legacy:req:no:"@.is_prefix_of(d) {
        assert(d.subrange(0, "legacy:req:no:"@.len() as int)[0] == d[0]);
    }
    reveal_strlit("listfilter:");
    if "listfilter:"@.is_prefix_of(d) {
        assert(d.subrange(0, "listfilter:"@.len() as int)[0] == d[0]);
    }
    reveal_strlit("lang:");
    if "lang:"@.is_prefix_of(d) {
        assert(d.subrange(0, "lang:"@.len() as int)[0] == d[0]);
    }
}

proof fn lemma_prefixes_from_m(d: Seq<char>)
    requires
        d.len() > 0,
        d[0] != 'm',
    ensures
        !"mykey:"@.is_prefix_of(d),
        !"move:choose:"@.is_prefix_of(d),
        !"move:run:"@.is_prefix_of(d),
        !"move:confirm:"@.is_prefix_of(d),
        !"move:cancel:"@.is_prefix_of(d),
        !"modparam:"@.is_prefix_of(d),
        !"mod:"@.is_prefix_of(d),
{
    reveal_strlit("mykey:");
    if "mykey:"@.is_prefix_of(d) {
        assert(d.subrange(0, "mykey:"@.len() as int)[0] == d[0]);
    }
    reveal_strlit("move:choose:");
    if "move:choose:"@.is_prefix_of(d) {
        assert(d.subrange(0, "move:choose:"@.len() as int)[0] == d[0]);
    }
    reveal_strlit("move:run:");
    if "move:run:"@.is_prefix_of(d) {
        assert(d.subrange(0, "move:run:"@.len() as int)[0] == d[0]);
    }
    reveal_strlit("move:confirm:");
    if "move:confirm:"@.is_prefix_of(d) {
        assert(d.subrange(0, "move:confirm:"@.len() as int)[0] == d[0]);
    }
    reveal_strlit("move:cancel:");
    if "move:cancel:"@.is_prefix_of(d) {
        assert(d.subrange(0, "move:cancel:"@.len() as int)[0] == d[0]);
    }
    reveal_strlit("modparam:");
    if "modparam:"@.is_prefix_of(d) {
        assert(d.subrange(0, "modparam:"@.len() as int)[0] == d[0]);
    }
    reveal_strlit("mod:");
    if "mod:"@.is_prefix_of(d) {
        assert(d.subrange(0, "mod:"@.len() as int)[0] == d[0]);
    }
}

proof fn lemma_prefixes_from_o(d: Seq<char>)
    requires
        d.len() > 0,
        d[0] != 'o',
    ensures
        !"owner:assign:"@.is_prefix_of(d),
        !"owner:expiry:"@.is_prefix_of(d),
        !"owner:enable:"@.is_prefix_of(d),
        !"owner:disable:"@.is_prefix_of(d),
{
    reveal_strlit("owner:assign:");
    if "owner:assign:"@.is_prefix_of(d) {
        assert(d.subrange(0, "owner:assign:"@.len() as int)[0] == d[0]);
    }
    reveal_strlit("owner:expiry:");
    if "owner:expiry:"@.is_prefix_of(d) {
        assert(d.subrange(0, "owner:expiry:"@.len() as int)[0] == d[0]);
    }
    reveal_strlit("owner:enable:");
    if "owner:enable:"@.is_prefix_of(d) {
        assert(d.subrange(0, "owner:enable:"@.len() as int)[0] == d[0]);
    }
    reveal_strlit("owner:disable:");
    if "owner:disable:"@.is_prefix_of(d) {
        assert(d.subrange(0, "owner:disable:"@.len() as int)[0] == d[0]);
    }
}

proof fn lemma_prefixes_from_p(d: Seq<char>)
    requires
        d.len() > 0,
        d[0] != 'p',
    ensures
        !"pay:ok:"@.is_prefix_of(d),
        !"pay:no:"@.is_prefix_of(d),
        !"page:"@.is_prefix_of(d),
{
    reveal_strlit("pay:ok:");
    if "pay:ok:"@.is_prefix_of(d) {
        assert(d.subrange(0, "pay:ok:"@.len() as int)[0] == d[0]);
    }
    reveal_strlit("pay:no:");
    if "pay:no:"@.is_prefix_of(d) {
        assert(d.subrange(0, "pay:no:"@.len() as int)[0] == d[0]);
    }
    reveal_strlit("page:");
    if "page:"@.is_prefix_of(d) {
        assert(d.subrange(0, "page:"@.len() as int)[0] == d[0]);
    }
}

proof fn lemma_prefixes_from_q(d: Seq<char>)
    requires
        d.len() > 0,
        d[0] != 'q',
    ensures
        !"qr:"@.is_prefix_of(d),
{
    reveal_strlit("qr:");
    if "qr:"@.is_prefix_of(d) {
        assert(d.subrange(0, "qr:"@.len() as int)[0] == d[0]);
    }
}

proof fn lemma_prefixes_from_r(d: Seq<char>)
    requires
        d.len() > 0,
        d[0] != 'r',
    ensures
        !"renew:term:"@.is_prefix_of(d),
        !"renew:method:"@.is_prefix_of(d),
        !"renew:"@.is_prefix_of(d),
        !"recreate:"@.is_prefix_of(d),
        !"refreshgo:"@.is_prefix_of(d),
        !"refresh:"@.is_prefix_of(d),
        !"regen:"@.is_prefix_of(d),
{
    reveal_strlit("renew:term:");
    if "renew:term:"@.is_prefix_of(d) {
        assert(d.subrange(0, "renew:term:"@.len() as int)[0] == d[0]);
    }
    reveal_strlit("renew:method:");
    if "renew:method:"@.is_prefix_of(d) {
        assert(d.subrange(0, "renew:method:"@.len() as int)[0] == d[0]);
    }
    reveal_strlit("renew:");
    if "renew:"@.is_prefix_of(d) {
        assert(d.subrange(0, "renew:"@.len() as int)[0] == d[0]);
    }
    reveal_strlit("recreate:");
    if "recreate:"@.is_prefix_of(d) {
        assert(d.subrange(0, "recreate:"@.len() as int)[0] == d[0]);
    }
    reveal_strlit("refreshgo:");
    if "refreshgo:"@.is_prefix_of(d) {
        assert(d.subrange(0, "refreshgo:"@.len() as int)[0] == d[0]);
    }
    reveal_strlit("refresh:");
    if "refresh:"@.is_prefix_of(d) {
        assert(d.subrange(0, "refresh:"@.len() as int)[0] == d[0]);
    }
    reveal_strlit("regen:");
    if "regen:"@.is_prefix_of(d) {
        assert(d.subrange(0, "regen:"@.len() as int)[0] == d[0]);
    }
}

proof fn lemma_prefixes_from_s(d: Seq<char>)
    requires
        d.len() > 0,
        d[0] != 's',
    ensures
        !"server:migrate:preflight:"@.is_prefix_of(d),
        !"server:migrate:status:"@.is_prefix_of(d),
        !"server:migrate:test:"@.is_prefix_of(d),
        !"server:migrate:approve:"@.is_prefix_of(d),
        !"server:migrate:ask:"@.is_prefix_of(d),
        !"server:migrate:run:"@.is_prefix_of(d),
        !"server:migrate:rollback:"@.is_prefix_of(d),
        !"server:migrate:"@.is_prefix_of(d),
        !"support:take:"@.is_prefix_of(d),
        !"support:new:"@.is_prefix_of(d),
        !"support:reply:"@.is_prefix_of(d),
        !"support:close:"@.is_prefix_of(d),
        !"support:priority:"@.is_prefix_of(d),
        !"support:rate:"@.is_prefix_of(d),
        !"support:ticket:"@.is_prefix_of(d),
        !"support:filter:"@.is_prefix_of(d),
        !"stats:"@.is_prefix_of(d),
        !"server:maintenance:finish:"@.is_prefix_of(d),
        !"server:maintenance:"@.is_prefix_of(d),
        !"server:bill:"@.is_prefix_of(d),
        !"server:edit:"@.is_prefix_of(d),
        !"server:enroll:revoke:"@.is_prefix_of(d),
        !"server:default:"@.is_prefix_of(d),
        !"server:deploy:"@.is_prefix_of(d),
        !"server:check:"@.is_prefix_of(d),
        !"server:diagnose:"@.is_prefix_of(d),
        !"server:probe:"@.is_prefix_of(d),
        !"server:panel:sync:"@.is_prefix_of(d),
        !"server:panel:audit:"@.is_prefix_of(d),
        !"server:panel:"@.is_prefix_of(d),
        !"server:enroll:"@.is_prefix_of(d),
        !"server:"@.is_prefix_of(d),
        !"set:lang:"@.is_prefix_of(d),
        !"set:psk:"@.is_prefix_of(d),
        !"set:slug:"@.is_prefix_of(d),
        !"set:conf:"@.is_prefix_of(d),
        !"set:qr:"@.is_prefix_of(d),
        !"set:link:"@.is_prefix_of(d),
{
    reveal_strlit("server:migrate:preflight:");
    if "server:migrate:preflight:"@.is_prefix_of(d) {
        assert(d.subrange(0, "server:migrate:preflight:"@.len() as int)[0] == d[0]);
    }
    reveal_strlit("server:migrate:status:");
    if "server:migrate:status:"@.is_prefix_of(d) {
        assert(d.subrange(0, "server:migrate:status:"@.len() as int)[0] == d[0]);
    }
    reveal_strlit("server:migrate:test:");
    if "server:migrate:test:"@.is_prefix_of(d) {
        assert(d.subrange(0, "server:migrate:test:"@.len() as int)[0] == d[0]);
    }
    reveal_strlit("server:migrate:approve:");
    if "server:migrate:approve:"@.is_prefix_of(d) {
        assert(d.subrange(0, "server:migrate:approve:"@.len() as int)[0] == d[0]);
    }
    reveal_strlit("server:migrate:ask:");
    if "server:migrate:ask:"@.is_prefix_of(d) {
        assert(d.subrange(0, "server:migrate:ask:"@.len() as int)[0] == d[0]);
    }
    reveal_strlit("server:migrate:run:");
    if "server:migrate:run:"@.is_prefix_of(d) {
        assert(d.subrange(0, "server:migrate:run:"@.len() as int)[0] == d[0]);
    }
    reveal_strlit("server:migrate:rollback:");
    if "server:migrate:rollback:"@.is_prefix_of(d) {
        assert(d.subrange(0, "server:migrate:rollback:"@.len() as int)[0] == d[0]);
    }
    reveal_strlit("server:migrate:");
    if "server:migrate:"@.is_prefix_of(d) {
        assert(d.subrange(0, "server:migrate:"@.len() as int)[0] == d[0]);
    }
    reveal_strlit("support:take:");
    if "support:take:"@.is_prefix_of(d) {
        assert(d.subrange(0, "support:take:"@.len() as int)[0] == d[0]);
    }
    reveal_strlit("support:new:");
    if "support:new:"@.is_prefix_of(d) {
        assert(d.subrange(0, "support:new:"@.len() as int)[0] == d[0]);
    }
    reveal_strlit("support:reply:");
    if "support:reply:"@.is_prefix_of(d) {
        assert(d.subrange(0, "support:reply:"@.len() as int)[0] == d[0]);
    }
    reveal_strlit("support:close:");
    if "support:close:"@.is_prefix_of(d) {
        assert(d.subrange(0, "support:close:"@.len() as int)[0] == d[0]);
    }
    reveal_strlit("support:priority:");
    if "support:priority:"@.is_prefix_of(d) {
        assert(d.subrange(0, "support:priority:"@.len() as int)[0] == d[0]);
    }
    reveal_strlit("support:rate:");
    if "support:rate:"@.is_prefix_of(d) {
        assert(d.subrange(0, "support:rate:"@.len() as int)[0] == d[0]);
    }
    reveal_strlit("support:ticket:");
    if "support:ticket:"@.is_prefix_of(d) {
        assert(d.subrange(0, "support:ticket:"@.len() as int)[0] == d[0]);
    }
    reveal_strlit("support:filter:");
    if "support:filter:"@.is_prefix_of(d) {
        assert(d.subrange(0, "support:filter:"@.len() as int)[0] == d[0]);
    }
    reveal_strlit("stats:");
    if "stats:"@.is_prefix_of(d) {
        assert(d.subrange(0, "stats:"@.len() as int)[0] == d[0]);
    }
    reveal_strlit("server:maintenance:finish:");
    if "server:maintenance:finish:"@.is_prefix_of(d) {
        assert(d.subrange(0, "server:maintenance:finish:"@.len() as int)[0] == d[0]);
    }
    reveal_strlit("server:maintenance:");
    if "server:maintenance:"@.is_prefix_of(d) {
        assert(d.subrange(0, "server:maintenance:"@.len() as int)[0] == d[0]);
    }
    reveal_strlit("server:bill:");
    if "server:bill:"@.is_prefix_of(d) {
        assert(d.subrange(0, "server:bill:"@.len() as int)[0] == d[0]);
    }
    reveal_strlit("server:edit:");
    if "server:edit:"@.is_prefix_of(d) {
        assert(d.subrange(0, "server:edit:"@.len() as int)[0] == d[0]);
    }
    reveal_strlit("server:enroll:revoke:");
    if "server:enroll:revoke:"@.is_prefix_of(d) {
        assert(d.subrange(0, "server:enroll:revoke:"@.len() as int)[0] == d[0]);
    }
    reveal_strlit("server:default:");
    if "server:default:"@.is_prefix_of(d) {
        assert(d.subrange(0, "server:default:"@.len() as int)[0] == d[0]);
    }
    reveal_strlit("server:deploy:");
    if "server:deploy:"@.is_prefix_of(d) {
        assert(d.subrange(0, "server:deploy:"@.len() as int)[0] == d[0]);
    }
    reveal_strlit("server:check:");
    if "server:check:"@.is_prefix_of(d) {
        assert(d.subrange(0, "server:check:"@.len() as int)[0] == d[0]);
    }
    reveal_strlit("server:diagnose:");
    if "server:diagnose:"@.is_prefix_of(d) {
        assert(d.subrange(0, "server:diagnose:"@.len() as int)[0] == d[0]);
    }
    reveal_strlit("server:probe:");
    if "server:probe:"@.is_prefix_of(d) {
        assert(d.subrange(0, "server:probe:"@.len() as int)[0] == d[0]);
    }
    reveal_strlit("server:panel:sync:");
    if "server:panel:sync:"@.is_prefix_of(d) {
        assert(d.subrange(0, "server:panel:sync:"@.len() as int)[0] == d[0]);
    }
    reveal_strlit("server:panel:audit:");
    if "server:panel:audit:"@.is_prefix_of(d) {
        assert(d.subrange(0, "server:panel:audit:"@.len() as int)[0] == d[0]);
    }
    reveal_strlit("server:panel:");
    if "server:panel:"@.is_prefix_of(d) {
        assert(d.subrange(0, "server:panel:"@.len() as int)[0] == d[0]);
    }
    reveal_strlit("server:enroll:");
    if "server:enroll:"@.is_prefix_of(d) {
        assert(d.subrange(0, "server:enroll:"@.len() as int)[0] == d[0]);
    }
    reveal_strlit("server:");
    if "server:"@.is_prefix_of(d) {
        assert(d.subrange(0, "server:"@.len() as int)[0] == d[0]);
    }
    reveal_strlit("set:lang:");
    if "set:lang:"@.is_prefix_of(d) {
        assert(d.subrange(0, "set:lang:"@.len() as int)[0] == d[0]);
    }
    reveal_strlit("set:psk:");
    if "set:psk:"@.is_prefix_of(d) {
        assert(d.subrange(0, "set:psk:"@.len() as int)[0] == d[0]);
    }
    reveal_strlit("set:slug:");
    if "set:slug:"@.is_prefix_of(d) {
        assert(d.subrange(0, "set:slug:"@.len() as int)[0] == d[0]);
    }
    reveal_strlit("set:conf:");
    if "set:conf:"@.is_prefix_of(d) {
        assert(d.subrange(0, "set:conf:"@.len() as int)[0] == d[0]);
    }
    reveal_strlit("set:qr:");
    if "set:qr:"@.is_prefix_of(d) {
        assert(d.subrange(0, "set:qr:"@.len() as int)[0] == d[0]);
    }
    reveal_strlit("set:link:");
    if "set:link:"@.is_prefix_of(d) {
        assert(d.subrange(0, "set:link:"@.len() as int)[0] == d[0]);
    }
}

proof fn lemma_prefixes_from_u(d: Seq<char>)
    requires
        d.len() > 0,
        d[0] != 'u',
    ensures
        !"uri:"@.is_prefix_of(d),
{
    reveal_strlit("uri:");
    if "uri:"@.is_prefix_of(d) {
        assert(d.subrange(0, "uri:"@.len() as int)[0] == d[0]);
    }
}
/// Every callback prefix starts with the character its group names: a
/// string that starts otherwise has none of them as a prefix.
proof fn lemma_prefix_first_chars(d: Seq<char>)
    requires
        d.len() > 0,
    ensures
        d[0] != 'a' ==> !"admin:owners:page:"@.is_prefix_of(d) && !"admin:bulk:"@.is_prefix_of(d) && !"admin:role:"@.is_prefix_of(d) && !"admin:promo:"@.is_prefix_of(d) && !"admin:userblock:"@.is_prefix_of(d) && !"admin:userkeys:"@.is_prefix_of(d) && !"admin:userkeys-delete-confirm:"@.is_prefix_of(d) && !"admin:userkeys-delete:"@.is_prefix_of(d) && !"admin:userpay:"@.is_prefix_of(d) && !"admin:userbal:"@.is_prefix_of(d) && !"admin:userdiscount:"@.is_prefix_of(d) && !"admin:usernote:"@.is_prefix_of(d) && !"admin:user:"@.is_prefix_of(d) && !"add:server:"@.is_prefix_of(d) && !"autorenew:"@.is_prefix_of(d) && !"all:"@.is_prefix_of(d) && !"add:psk:"@.is_prefix_of(d),
        d[0] != 'b' ==> !"buy:term:"@.is_prefix_of(d) && !"buy:method:"@.is_prefix_of(d) && !"buy:server:"@.is_prefix_of(d) && !"buy:paid:"@.is_prefix_of(d) && !"broadcast:audience:"@.is_prefix_of(d) && !"broadcast:retry:"@.is_prefix_of(d) && !"bulkadd:psk:"@.is_prefix_of(d) && !"bulkserver:"@.is_prefix_of(d) && !"bulkexp:"@.is_prefix_of(d) && !"bulk:"@.is_prefix_of(d) && !"bk:restore_yes:"@.is_prefix_of(d) && !"bk:restore:"@.is_prefix_of(d) && !"bk:card:"@.is_prefix_of(d) && !"bk:dl:"@.is_prefix_of(d),
        d[0] != 'c' ==> !"client:note:"@.is_prefix_of(d) && !"client:"@.is_prefix_of(d) && !"conf:"@.is_prefix_of(d),
        d[0] != 'd' ==> !"device:label:"@.is_prefix_of(d) && !"delyes:"@.is_prefix_of(d) && !"del:"@.is_prefix_of(d),
        d[0] != 'e' ==> !"exp:"@.is_prefix_of(d),
        d[0] != 'g' ==> !"guide:"@.is_prefix_of(d) && !"g:card:"@.is_prefix_of(d) && !"g:ren:"@.is_prefix_of(d) && !"g:quota:"@.is_prefix_of(d) && !"g:admdel:"@.is_prefix_of(d) && !"g:admid:"@.is_prefix_of(d) && !"g:adm:"@.is_prefix_of(d) && !"g:invrev:"@.is_prefix_of(d) && !"g:inv:"@.is_prefix_of(d) && !"g:delallyes:"@.is_prefix_of(d) && !"g:delall:"@.is_prefix_of(d) && !"g:deldetach:"@.is_prefix_of(d) && !"g:del:"@.is_prefix_of(d) && !"g:regengo:"@.is_prefix_of(d) && !"g:regen:"@.is_prefix_of(d) && !"g:sel:"@.is_prefix_of(d) && !"gmoveto:"@.is_prefix_of(d) && !"gmove:"@.is_prefix_of(d) && !"gscope:"@.is_prefix_of(d),
        d[0] != 'h' ==> !"history:"@.is_prefix_of(d),
        d[0] != 'l' ==> !"legacy:renew:method:"@.is_prefix_of(d) && !"legacy:renew:"@.is_prefix_of(d) && !"legacy:req:ok:"@.is_prefix_of(d) && !"legacy:req:no:"@.is_prefix_of(d) && !"listfilter:"@.is_prefix_of(d) && !"lang:"@.is_prefix_of(d),
        d[0] != 'm' ==> !"mykey:"@.is_prefix_of(d) && !"move:choose:"@.is_prefix_of(d) && !"move:run:"@.is_prefix_of(d) && !"move:confirm:"@.is_prefix_of(d) && !"move:cancel:"@.is_prefix_of(d) && !"modparam:"@.is_prefix_of(d) && !"mod:"@.is_prefix_of(d),
        d[0] != 'o' ==> !"owner:assign:"@.is_prefix_of(d) && !"owner:expiry:"@.is_prefix_of(d) && !"owner:enable:"@.is_prefix_of(d) && !"owner:disable:"@.is_prefix_of(d),
        d[0] != 'p' ==> !"pay:ok:"@.is_prefix_of(d) && !"pay:no:"@.is_prefix_of(d) && !"page:"@.is_prefix_of(d),
        d[0] != 'q' ==> !"qr:"@.is_prefix_of(d),
        d[0] != 'r' ==> !"renew:term:"@.is_prefix_of(d) && !"renew:method:"@.is_prefix_of(d) && !"renew:"@.is_prefix_of(d) && !"recreate:"@.is_prefix_of(d) && !"refreshgo:"@.is_prefix_of(d) && !"refresh:"@.is_prefix_of(d) && !"regen:"@.is_prefix_of(d),
        d[0] != 's' ==> !"server:migrate:preflight:"@.is_prefix_of(d) && !"server:migrate:status:"@.is_prefix_of(d) && !"server:migrate:test:"@.is_prefix_of(d) && !"server:migrate:approve:"@.is_prefix_of(d) && !"server:migrate:ask:"@.is_prefix_of(d) && !"server:migrate:run:"@.is_prefix_of(d) && !"server:migrate:rollback:"@.is_prefix_of(d) && !"server:migrate:"@.is_prefix_of(d) && !"support:take:"@.is_prefix_of(d) && !"support:new:"@.is_prefix_of(d) && !"support:reply:"@.is_prefix_of(d) && !"support:close:"@.is_prefix_of(d) && !"support:priority:"@.is_prefix_of(d) && !"support:rate:"@.is_prefix_of(d) && !"support:ticket:"@.is_prefix_of(d) && !"support:filter:"@.is_prefix_of(d) && !"stats:"@.is_prefix_of(d) && !"server:maintenance:finish:"@.is_prefix_of(d) && !"server:maintenance:"@.is_prefix_of(d) && !"server:bill:"@.is_prefix_of(d) && !"server:edit:"@.is_prefix_of(d) && !"server:enroll:revoke:"@.is_prefix_of(d) && !"server:default:"@.is_prefix_of(d) && !"server:deploy:"@.is_prefix_of(d) && !"server:check:"@.is_prefix_of(d) && !"server:diagnose:"@.is_prefix_of(d) && !"server:probe:"@.is_prefix_of(d) && !"server:panel:sync:"@.is_prefix_of(d) && !"server:panel:audit:"@.is_prefix_of(d) && !"server:panel:"@.is_prefix_of(d) && !"server:enroll:"@.is_prefix_of(d) && !"server:"@.is_prefix_of(d) && !"set:lang:"@.is_prefix_of(d) && !"set:psk:"@.is_prefix_of(d) && !"set:slug:"@.is_prefix_of(d) && !"set:conf:"@.is_prefix_of(d) && !"set:qr:"@.is_prefix_of(d) && !"set:link:"@.is_prefix_of(d),
        d[0] != 'u' ==> !"uri:"@.is_prefix_of(d),
{
    if d[0] != 'a' {
        lemma_prefixes_from_a(d);
    }
    if d[0] != 'b' {
        lemma_prefixes_from_b(d);
    }
    if d[0] != 'c' {
        lemma_prefixes_from_c(d);
    }
    if d[0] != 'd' {
        lemma_prefixes_from_d(d);
    }
    if d[0] != 'e' {
        lemma_prefixes_from_e(d);
    }
    if d[0] != 'g' {
        lemma_prefixes_from_g(d);
    }
    if d[0] != 'h' {
        lemma_prefixes_from_h(d);
    }
    if d[0] != 'l' {
        lemma_prefixes_from_l(d);
    }
    if d[0] != 'm' {
        lemma_prefixes_from_m(d);
    }
    if d[0] != 'o' {
        lemma_prefixes_from_o(d);
    }
    if d[0] != 'p' {
        lemma_prefixes_from_p(d);
    }
    if d[0] != 'q' {
        lemma_prefixes_from_q(d);
    }
    if d[0] != 'r' {
        lemma_prefixes_from_r(d);
    }
    if d[0] != 's' {
        lemma_prefixes_from_s(d);
    }
    if d[0] != 'u' {
        lemma_prefixes_from_u(d);
    }
}

/// Callback data `owner:assign:<name>`, for a name without `:`, reads back as `AssignOwnerAsk` of that name.
#[verifier::spinoff_prover]
pub proof fn law_assign_owner_ask_round_trip(name: Seq<char>)
    requires
        !name.contains(':'),
    ensures
        callback_action("owner:assign:"@ + name) == ActionView::AssignOwnerAsk(name),
{
    let d = "owner:assign:"@ + name;
    reveal_strlit("owner:assign:");
    lemma_tail_no_colon("owner:assign:"@, name);
    lemma_exact_first_chars(d);
    lemma_prefix_first_chars(d);
    assert(exact_callback(d) is None) by {
    }
    assert(prefixed_callback_1(d) is None) by {
    }
    assert(prefixed_callback_2(d) == Some(ActionView::AssignOwnerAsk(name))) by {
        assert("owner:assign:"@.is_prefix_of(d));
        assert(d.skip("owner:assign:"@.len() as int) =~= name);
    }
}

/// Callback data `owner:expiry:<name>`, for a name without `:`, reads back as `AdminExpiryAsk` of that name.
#[verifier::spinoff_prover]
pub proof fn law_admin_expiry_ask_round_trip(name: Seq<char>)
    requires
        !name.contains(':'),
    ensures
        callback_action("owner:expiry:"@ + name) == ActionView::AdminExpiryAsk(name),
{
    let d = "owner:expiry:"@ + name;
    reveal_strlit("owner:expiry:");
    lemma_tail_no_colon("owner:expiry:"@, name);
    lemma_exact_first_chars(d);
    lemma_prefix_first_chars(d);
    assert(exact_callback(d) is None) by {
    }
    assert(prefixed_callback_1(d) is None) by {
    }
    assert(prefixed_callback_2(d) == Some(ActionView::AdminExpiryAsk(name))) by {
        reveal_strlit("owner:assign:");
        lemma_mismatch("owner:assign:"@, d, 6);
        assert("owner:expiry:"@.is_prefix_of(d));
        assert(d.skip("owner:expiry:"@.len() as int) =~= name);
    }
}

/// Callback data `mykey:<name>`, for a name without `:`, reads back as `CustomerKey` of that name.
#[verifier::spinoff_prover]
pub proof fn law_customer_key_round_trip(name: Seq<char>)
    requires
        !name.contains(':'),
    ensures
        callback_action("mykey:"@ + name) == ActionView::CustomerKey(name),
{
    let d = "mykey:"@ + name;
    reveal_strlit("mykey:");
    lemma_tail_no_colon("mykey:"@, name);
    lemma_exact_first_chars(d);
    lemma_prefix_first_chars(d);
    assert(exact_callback(d) is None) by {
        reveal_strlit("migration:local");
        lemma_mismatch("migration:local"@, d, 1);
        reveal_strlit("migration:preflight");
        lemma_mismatch("migration:preflight"@, d, 1);
        reveal_strlit("migration:start");
        lemma_mismatch("migration:start"@, d, 1);
        reveal_strlit("migration:status");
        lemma_mismatch("migration:status"@, d, 1);
        reveal_strlit("migration:rollback");
        lemma_mismatch("migration:rollback"@, d, 1);
        reveal_strlit("menu");
        lemma_mismatch("menu"@, d, 1);
        reveal_strlit("mykeys");
        lemma_mismatch("mykeys"@, d, 5);
    }
    assert(prefixed_callback_1(d) is None) by {
    }
    assert(prefixed_callback_2(d) == Some(ActionView::CustomerKey(name))) by {
        assert("mykey:"@.is_prefix_of(d));
        assert(d.skip("mykey:"@.len() as int) =~= name);
    }
}

/// Callback data `move:choose:<name>`, for a name without `:`, reads back as `CustomerMove` of that name.
#[verifier::spinoff_prover]
pub proof fn law_customer_move_round_trip(name: Seq<char>)
    requires
        !name.contains(':'),
    ensures
        callback_action("move:choose:"@ + name) == ActionView::CustomerMove(name),
{
    let d = "move:choose:"@ + name;
    reveal_strlit("move:choose:");
    lemma_tail_no_colon("move:choose:"@, name);
    lemma_exact_first_chars(d);
    lemma_prefix_first_chars(d);
    assert(exact_callback(d) is None) by {
        reveal_strlit("migration:local");
        lemma_mismatch("migration:local"@, d, 1);
        reveal_strlit("migration:preflight");
        lemma_mismatch("migration:preflight"@, d, 1);
        reveal_strlit("migration:start");
        lemma_mismatch("migration:start"@, d, 1);
        reveal_strlit("migration:status");
        lemma_mismatch("migration:status"@, d, 1);
        reveal_strlit("migration:rollback");
        lemma_mismatch("migration:rollback"@, d, 1);
        reveal_strlit("menu");
        lemma_mismatch("menu"@, d, 1);
        reveal_strlit("mykeys");
        lemma_mismatch("mykeys"@, d, 1);
    }
    assert(prefixed_callback_1(d) is None) by {
    }
    assert(prefixed_callback_2(d) == Some(ActionView::CustomerMove(name))) by {
        reveal_strlit("mykey:");
        lemma_mismatch("mykey:"@, d, 1);
        assert("move:choose:"@.is_prefix_of(d));
        assert(d.skip("move:choose:"@.len() as int) =~= name);
    }
}

/// Callback data `device:label:<name>`, for a name without `:`, reads back as `DeviceLabelAsk` of that name.
#[verifier::spinoff_prover]
pub proof fn law_device_label_ask_round_trip(name: Seq<char>)
    requires
        !name.contains(':'),
    ensures
        callback_action("device:label:"@ + name) == ActionView::DeviceLabelAsk(name),
{
    let d = "device:label:"@ + name;
    reveal_strlit("device:label:");
    lemma_tail_no_colon("device:label:"@, name);
    lemma_exact_first_chars(d);
    lemma_prefix_first_chars(d);
    assert(exact_callback(d) is None) by {
        reveal_strlit("diagnose");
        lemma_mismatch("diagnose"@, d, 1);
    }
    assert(prefixed_callback_1(d) is None) by {
    }
    assert(prefixed_callback_2(d) is None) by {
    }
    assert(prefixed_callback_3(d) == Some(ActionView::DeviceLabelAsk(name))) by {
        assert("device:label:"@.is_prefix_of(d));
        assert(d.skip("device:label:"@.len() as int) =~= name);
    }
}

/// Callback data `support:new:<name>`, for a name without `:`, reads back as `SupportNewCategory` of that name.
#[verifier::spinoff_prover]
pub proof fn law_support_new_category_round_trip(name: Seq<char>)
    requires
        !name.contains(':'),
    ensures
        callback_action("support:new:"@ + name) == ActionView::SupportNewCategory(name),
{
    let d = "support:new:"@ + name;
    reveal_strlit("support:new:");
    lemma_tail_no_colon("support:new:"@, name);
    lemma_exact_first_chars(d);
    lemma_prefix_first_chars(d);
    assert(exact_callback(d) is None) by {
        reveal_strlit("server:add");
        lemma_mismatch("server:add"@, d, 1);
        reveal_strlit("server:billing");
        lemma_mismatch("server:billing"@, d, 1);
        reveal_strlit("stats");
        lemma_mismatch("stats"@, d, 1);
        reveal_strlit("settings");
        lemma_mismatch("settings"@, d, 1);
        reveal_strlit("set:payment");
        lemma_mismatch("set:payment"@, d, 1);
        reveal_strlit("set:acquiring");
        lemma_mismatch("set:acquiring"@, d, 1);
    }
    assert(prefixed_callback_1(d) is None) by {
        reveal_strlit("server:migrate:preflight:");
        lemma_mismatch("server:migrate:preflight:"@, d, 1);
        reveal_strlit("server:migrate:status:");
        lemma_mismatch("server:migrate:status:"@, d, 1);
        reveal_strlit("server:migrate:test:");
        lemma_mismatch("server:migrate:test:"@, d, 1);
        reveal_strlit("server:migrate:approve:");
        lemma_mismatch("server:migrate:approve:"@, d, 1);
        reveal_strlit("server:migrate:ask:");
        lemma_mismatch("server:migrate:ask:"@, d, 1);
        reveal_strlit("server:migrate:run:");
        lemma_mismatch("server:migrate:run:"@, d, 1);
        reveal_strlit("server:migrate:rollback:");
        lemma_mismatch("server:migrate:rollback:"@, d, 1);
        reveal_strlit("server:migrate:");
        lemma_mismatch("server:migrate:"@, d, 1);
    }
    assert(prefixed_callback_2(d) is None) by {
    }
    assert(prefixed_callback_3(d) == Some(ActionView::SupportNewCategory(name))) by {
        reveal_strlit("support:take:");
        lemma_mismatch("support:take:"@, d, 8);
        assert("support:new:"@.is_prefix_of(d));
        assert(d.skip("support:new:"@.len() as int) =~= name);
    }
}

/// Callback data `support:filter:<name>`, for a name without `:`, reads back as `SupportFilter` of that name.
#[verifier::spinoff_prover]
pub proof fn law_support_filter_round_trip(name: Seq<char>)
    requires
        !name.contains(':'),
    ensures
        callback_action("support:filter:"@ + name) == ActionView::SupportFilter(name),
{
    let d = "support:filter:"@ + name;
    reveal_strlit("support:filter:");
    lemma_tail_no_colon("support:filter:"@, name);
    lemma_exact_first_chars(d);
    lemma_prefix_first_chars(d);
    assert(exact_callback(d) is None) by {
        reveal_strlit("server:add");
        lemma_mismatch("server:add"@, d, 1);
        reveal_strlit("server:billing");
        lemma_mismatch("server:billing"@, d, 1);
        reveal_strlit("stats");
        lemma_mismatch("stats"@, d, 1);
        reveal_strlit("settings");
        lemma_mismatch("settings"@, d, 1);
        reveal_strlit("set:payment");
        lemma_mismatch("set:payment"@, d, 1);
        reveal_strlit("set:acquiring");
        lemma_mismatch("set:acquiring"@, d, 1);
    }
    assert(prefixed_callback_1(d) is None) by {
        reveal_strlit("server:migrate:preflight:");
        lemma_mismatch("server:migrate:preflight:"@, d, 1);
        reveal_strlit("server:migrate:status:");
        lemma_mismatch("server:migrate:status:"@, d, 1);
        reveal_strlit("server:migrate:test:");
        lemma_mismatch("server:migrate:test:"@, d, 1);
        reveal_strlit("server:migrate:approve:");
        lemma_mismatch("server:migrate:approve:"@, d, 1);
        reveal_strlit("server:migrate:ask:");
        lemma_mismatch("server:migrate:ask:"@, d, 1);
        reveal_strlit("server:migrate:run:");
        lemma_mismatch("server:migrate:run:"@, d, 1);
        reveal_strlit("server:migrate:rollback:");
        lemma_mismatch("server:migrate:rollback:"@, d, 1);
        reveal_strlit("server:migrate:");
        lemma_mismatch("server:migrate:"@, d, 1);
    }
    assert(prefixed_callback_2(d) is None) by {
    }
    assert(prefixed_callback_3(d) == Some(ActionView::SupportFilter(name))) by {
        reveal_strlit("support:take:");
        lemma_mismatch("support:take:"@, d, 8);
        reveal_strlit("support:new:");
        lemma_mismatch("support:new:"@, d, 8);
        reveal_strlit("support:reply:");
        lemma_mismatch("support:reply:"@, d, 8);
        reveal_strlit("support:close:");
        lemma_mismatch("support:close:"@, d, 8);
        reveal_strlit("support:priority:");
        lemma_mismatch("support:priority:"@, d, 8);
        reveal_strlit("support:rate:");
        lemma_mismatch("support:rate:"@, d, 8);
        reveal_strlit("support:ticket:");
        lemma_mismatch("support:ticket:"@, d, 8);
        assert("support:filter:"@.is_prefix_of(d));
        assert(d.skip("support:filter:"@.len() as int) =~= name);
    }
}

/// Callback data `client:note:<name>`, for a name without `:`, reads back as `ClientNoteAsk` of that name.
#[verifier::spinoff_prover]
pub proof fn law_client_note_ask_round_trip(name: Seq<char>)
    requires
        !name.contains(':'),
    ensures
        callback_action("client:note:"@ + name) == ActionView::ClientNoteAsk(name),
{
    let d = "client:note:"@ + name;
    reveal_strlit("client:note:");
    lemma_tail_no_colon("client:note:"@, name);
    lemma_exact_first_chars(d);
    lemma_prefix_first_chars(d);
    assert(exact_callback(d) is None) by {
        reveal_strlit("check");
        lemma_mismatch("check"@, d, 1);
    }
    assert(prefixed_callback_1(d) is None) by {
    }
    assert(prefixed_callback_2(d) is None) by {
    }
    assert(prefixed_callback_3(d) == Some(ActionView::ClientNoteAsk(name))) by {
        assert("client:note:"@.is_prefix_of(d));
        assert(d.skip("client:note:"@.len() as int) =~= name);
    }
}

/// Callback data `admin:bulk:<name>`, for a name without `:`, reads back as `AdminBulk` of that name.
#[verifier::rlimit(60)]
#[verifier::spinoff_prover]
pub proof fn law_admin_bulk_round_trip(name: Seq<char>)
    requires
        name != "confirm"@,
        !name.contains(':'),
    ensures
        callback_action("admin:bulk:"@ + name) == ActionView::AdminBulk(name),
{
    let d = "admin:bulk:"@ + name;
    reveal_strlit("admin:bulk:");
    lemma_tail_no_colon("admin:bulk:"@, name);
    lemma_exact_first_chars(d);
    lemma_prefix_first_chars(d);
    assert(exact_callback(d) is None) by {
        reveal_strlit("admin:dashboard");
        lemma_mismatch("admin:dashboard"@, d, 6);
        reveal_strlit("admin:vpn");
        lemma_mismatch("admin:vpn"@, d, 6);
        reveal_strlit("admin:servers");
        lemma_mismatch("admin:servers"@, d, 6);
        reveal_strlit("admin:keys");
        lemma_mismatch("admin:keys"@, d, 6);
        reveal_strlit("admin:users");
        lemma_mismatch("admin:users"@, d, 6);
        reveal_strlit("admin:communication");
        lemma_mismatch("admin:communication"@, d, 6);
        reveal_strlit("admin:system");
        lemma_mismatch("admin:system"@, d, 6);
        reveal_strlit("admin:update");
        lemma_mismatch("admin:update"@, d, 6);
        reveal_strlit("admin:update:run");
        lemma_mismatch("admin:update:run"@, d, 6);
        reveal_strlit("admin:update:status");
        lemma_mismatch("admin:update:status"@, d, 6);
        reveal_strlit("admin:update:rollback");
        lemma_mismatch("admin:update:rollback"@, d, 6);
        reveal_strlit("admin:create");
        lemma_mismatch("admin:create"@, d, 6);
        reveal_strlit("admin:owners");
        lemma_mismatch("admin:owners"@, d, 6);
        reveal_strlit("admin:finance");
        lemma_mismatch("admin:finance"@, d, 6);
        reveal_strlit("admin:support");
        lemma_mismatch("admin:support"@, d, 6);
        reveal_strlit("admin:broadcast");
        lemma_mismatch("admin:broadcast"@, d, 7);
        reveal_strlit("admin:broadcast:templates");
        lemma_mismatch("admin:broadcast:templates"@, d, 7);
        reveal_strlit("admin:help");
        lemma_mismatch("admin:help"@, d, 6);
        reveal_strlit("admin:search");
        lemma_mismatch("admin:search"@, d, 6);
        reveal_strlit("admin:roles");
        lemma_mismatch("admin:roles"@, d, 6);
        reveal_strlit("add");
        lemma_mismatch("add"@, d, 2);
        reveal_strlit("addbulk");
        lemma_mismatch("addbulk"@, d, 2);
        reveal_strlit("admin:bulk:confirm");
        reveal_strlit("confirm"); assert("admin:bulk:confirm"@ =~= "admin:bulk:"@ + "confirm"@); lemma_concat_ne("admin:bulk:"@, "confirm"@, name);
        reveal_strlit("admin:promos");
        lemma_mismatch("admin:promos"@, d, 6);
        reveal_strlit("admin:commerce");
        lemma_mismatch("admin:commerce"@, d, 6);
        reveal_strlit("admin:prices:rub");
        lemma_mismatch("admin:prices:rub"@, d, 6);
        reveal_strlit("admin:prices:stars");
        lemma_mismatch("admin:prices:stars"@, d, 6);
        reveal_strlit("admin:referral");
        lemma_mismatch("admin:referral"@, d, 6);
        reveal_strlit("admin:legacy");
        lemma_mismatch("admin:legacy"@, d, 6);
        reveal_strlit("admin:operations");
        lemma_mismatch("admin:operations"@, d, 6);
        reveal_strlit("admin:operations:refresh");
        lemma_mismatch("admin:operations:refresh"@, d, 6);
        reveal_strlit("admin:operations:ack");
        lemma_mismatch("admin:operations:ack"@, d, 6);
        reveal_strlit("admin:keys:health");
        lemma_mismatch("admin:keys:health"@, d, 6);
        reveal_strlit("admin:db-backup");
        lemma_mismatch("admin:db-backup"@, d, 6);
        reveal_strlit("admin:db-backup-audit");
        lemma_mismatch("admin:db-backup-audit"@, d, 6);
    }
    assert(prefixed_callback_1(d) is None) by {
        reveal_strlit("admin:owners:page:");
        lemma_mismatch("admin:owners:page:"@, d, 6);
    }
    assert(prefixed_callback_2(d) is None) by {
    }
    assert(prefixed_callback_3(d) == Some(ActionView::AdminBulk(name))) by {
        assert("admin:bulk:"@.is_prefix_of(d));
        assert(d.skip("admin:bulk:"@.len() as int) =~= name);
    }
}

/// Callback data `admin:role:<name>`, for a name without `:`, reads back as `AdminRoleAction` of that name.
#[verifier::spinoff_prover]
pub proof fn law_admin_role_action_round_trip(name: Seq<char>)
    requires
        !name.contains(':'),
    ensures
        callback_action("admin:role:"@ + name) == ActionView::AdminRoleAction(name),
{
    let d = "admin:role:"@ + name;
    reveal_strlit("admin:role:");
    lemma_tail_no_colon("admin:role:"@, name);
    lemma_exact_first_chars(d);
    lemma_prefix_first_chars(d);
    assert(exact_callback(d) is None) by {
        reveal_strlit("admin:dashboard");
        lemma_mismatch("admin:dashboard"@, d, 6);
        reveal_strlit("admin:vpn");
        lemma_mismatch("admin:vpn"@, d, 6);
        reveal_strlit("admin:servers");
        lemma_mismatch("admin:servers"@, d, 6);
        reveal_strlit("admin:keys");
        lemma_mismatch("admin:keys"@, d, 6);
        reveal_strlit("admin:users");
        lemma_mismatch("admin:users"@, d, 6);
        reveal_strlit("admin:communication");
        lemma_mismatch("admin:communication"@, d, 6);
        reveal_strlit("admin:system");
        lemma_mismatch("admin:system"@, d, 6);
        reveal_strlit("admin:update");
        lemma_mismatch("admin:update"@, d, 6);
        reveal_strlit("admin:update:run");
        lemma_mismatch("admin:update:run"@, d, 6);
        reveal_strlit("admin:update:status");
        lemma_mismatch("admin:update:status"@, d, 6);
        reveal_strlit("admin:update:rollback");
        lemma_mismatch("admin:update:rollback"@, d, 6);
        reveal_strlit("admin:create");
        lemma_mismatch("admin:create"@, d, 6);
        reveal_strlit("admin:owners");
        lemma_mismatch("admin:owners"@, d, 6);
        reveal_strlit("admin:finance");
        lemma_mismatch("admin:finance"@, d, 6);
        reveal_strlit("admin:support");
        lemma_mismatch("admin:support"@, d, 6);
        reveal_strlit("admin:broadcast");
        lemma_mismatch("admin:broadcast"@, d, 6);
        reveal_strlit("admin:broadcast:templates");
        lemma_mismatch("admin:broadcast:templates"@, d, 6);
        reveal_strlit("admin:help");
        lemma_mismatch("admin:help"@, d, 6);
        reveal_strlit("admin:search");
        lemma_mismatch("admin:search"@, d, 6);
        reveal_strlit("admin:roles");
        lemma_mismatch("admin:roles"@, d, 10);
        reveal_strlit("add");
        lemma_mismatch("add"@, d, 2);
        reveal_strlit("addbulk");
        lemma_mismatch("addbulk"@, d, 2);
        reveal_strlit("admin:bulk:confirm");
        lemma_mismatch("admin:bulk:confirm"@, d, 6);
        reveal_strlit("admin:promos");
        lemma_mismatch("admin:promos"@, d, 6);
        reveal_strlit("admin:commerce");
        lemma_mismatch("admin:commerce"@, d, 6);
        reveal_strlit("admin:prices:rub");
        lemma_mismatch("admin:prices:rub"@, d, 6);
        reveal_strlit("admin:prices:stars");
        lemma_mismatch("admin:prices:stars"@, d, 6);
        reveal_strlit("admin:referral");
        lemma_mismatch("admin:referral"@, d, 7);
        reveal_strlit("admin:legacy");
        lemma_mismatch("admin:legacy"@, d, 6);
        reveal_strlit("admin:operations");
        lemma_mismatch("admin:operations"@, d, 6);
        reveal_strlit("admin:operations:refresh");
        lemma_mismatch("admin:operations:refresh"@, d, 6);
        reveal_strlit("admin:operations:ack");
        lemma_mismatch("admin:operations:ack"@, d, 6);
        reveal_strlit("admin:keys:health");
        lemma_mismatch("admin:keys:health"@, d, 6);
        reveal_strlit("admin:db-backup");
        lemma_mismatch("admin:db-backup"@, d, 6);
        reveal_strlit("admin:db-backup-audit");
        lemma_mismatch("admin:db-backup-audit"@, d, 6);
    }
    assert(prefixed_callback_1(d) is None) by {
        reveal_strlit("admin:owners:page:");
        lemma_mismatch("admin:owners:page:"@, d, 6);
    }
    assert(prefixed_callback_2(d) is None) by {
    }
    assert(prefixed_callback_3(d) is None) by {
        reveal_strlit("admin:bulk:");
        lemma_mismatch("admin:bulk:"@, d, 6);
    }
    assert(prefixed_callback_4(d) == Some(ActionView::AdminRoleAction(name))) by {
        assert("admin:role:"@.is_prefix_of(d));
        assert(d.skip("admin:role:"@.len() as int) =~= name);
    }
}

/// Callback data `admin:promo:<name>`, for a name without `:`, reads back as `AdminPromoAction` of that name.
#[verifier::spinoff_prover]
pub proof fn law_admin_promo_action_round_trip(name: Seq<char>)
    requires
        !name.contains(':'),
    ensures
        callback_action("admin:promo:"@ + name) == ActionView::AdminPromoAction(name),
{
    let d = "admin:promo:"@ + name;
    reveal_strlit("admin:promo:");
    lemma_tail_no_colon("admin:promo:"@, name);
    lemma_exact_first_chars(d);
    lemma_prefix_first_chars(d);
    assert(exact_callback(d) is None) by {
        reveal_strlit("admin:dashboard");
        lemma_mismatch("admin:dashboard"@, d, 6);
        reveal_strlit("admin:vpn");
        lemma_mismatch("admin:vpn"@, d, 6);
        reveal_strlit("admin:servers");
        lemma_mismatch("admin:servers"@, d, 6);
        reveal_strlit("admin:keys");
        lemma_mismatch("admin:keys"@, d, 6);
        reveal_strlit("admin:users");
        lemma_mismatch("admin:users"@, d, 6);
        reveal_strlit("admin:communication");
        lemma_mismatch("admin:communication"@, d, 6);
        reveal_strlit("admin:system");
        lemma_mismatch("admin:system"@, d, 6);
        reveal_strlit("admin:update");
        lemma_mismatch("admin:update"@, d, 6);
        reveal_strlit("admin:update:run");
        lemma_mismatch("admin:update:run"@, d, 6);
        reveal_strlit("admin:update:status");
        lemma_mismatch("admin:update:status"@, d, 6);
        reveal_strlit("admin:update:rollback");
        lemma_mismatch("admin:update:rollback"@, d, 6);
        reveal_strlit("admin:create");
        lemma_mismatch("admin:create"@, d, 6);
        reveal_strlit("admin:owners");
        lemma_mismatch("admin:owners"@, d, 6);
        reveal_strlit("admin:finance");
        lemma_mismatch("admin:finance"@, d, 6);
        reveal_strlit("admin:support");
        lemma_mismatch("admin:support"@, d, 6);
        reveal_strlit("admin:broadcast");
        lemma_mismatch("admin:broadcast"@, d, 6);
        reveal_strlit("admin:broadcast:templates");
        lemma_mismatch("admin:broadcast:templates"@, d, 6);
        reveal_strlit("admin:help");
        lemma_mismatch("admin:help"@, d, 6);
        reveal_strlit("admin:search");
        lemma_mismatch("admin:search"@, d, 6);
        reveal_strlit("admin:roles");
        lemma_mismatch("admin:roles"@, d, 6);
        reveal_strlit("add");
        lemma_mismatch("add"@, d, 2);
        reveal_strlit("addbulk");
        lemma_mismatch("addbulk"@, d, 2);
        reveal_strlit("admin:bulk:confirm");
        lemma_mismatch("admin:bulk:confirm"@, d, 6);
        reveal_strlit("admin:promos");
        lemma_mismatch("admin:promos"@, d, 11);
        reveal_strlit("admin:commerce");
        lemma_mismatch("admin:commerce"@, d, 6);
        reveal_strlit("admin:prices:rub");
        lemma_mismatch("admin:prices:rub"@, d, 8);
        reveal_strlit("admin:prices:stars");
        lemma_mismatch("admin:prices:stars"@, d, 8);
        reveal_strlit("admin:referral");
        lemma_mismatch("admin:referral"@, d, 6);
        reveal_strlit("admin:legacy");
        lemma_mismatch("admin:legacy"@, d, 6);
        reveal_strlit("admin:operations");
        lemma_mismatch("admin:operations"@, d, 6);
        reveal_strlit("admin:operations:refresh");
        lemma_mismatch("admin:operations:refresh"@, d, 6);
        reveal_strlit("admin:operations:ack");
        lemma_mismatch("admin:operations:ack"@, d, 6);
        reveal_strlit("admin:keys:health");
        lemma_mismatch("admin:keys:health"@, d, 6);
        reveal_strlit("admin:db-backup");
        lemma_mismatch("admin:db-backup"@, d, 6);
        reveal_strlit("admin:db-backup-audit");
        lemma_mismatch("admin:db-backup-audit"@, d, 6);
    }
    assert(prefixed_callback_1(d) is None) by {
        reveal_strlit("admin:owners:page:");
        lemma_mismatch("admin:owners:page:"@, d, 6);
    }
    assert(prefixed_callback_2(d) is None) by {
    }
    assert(prefixed_callback_3(d) is None) by {
        reveal_strlit("admin:bulk:");
        lemma_mismatch("admin:bulk:"@, d, 6);
    }
    assert(prefixed_callback_4(d) == Some(ActionView::AdminPromoAction(name))) by {
        reveal_strlit("admin:role:");
        lemma_mismatch("admin:role:"@, d, 6);
        assert("admin:promo:"@.is_prefix_of(d));
        assert(d.skip("admin:promo:"@.len() as int) =~= name);
    }
}

/// Callback data `broadcast:audience:<name>`, for a name without `:`, reads back as `BroadcastAudience` of that name.
#[verifier::spinoff_prover]
pub proof fn law_broadcast_audience_round_trip(name: Seq<char>)
    requires
        !name.contains(':'),
    ensures
        callback_action("broadcast:audience:"@ + name) == ActionView::BroadcastAudience(name),
{
    let d = "broadcast:audience:"@ + name;
    reveal_strlit("broadcast:audience:");
    lemma_tail_no_colon("broadcast:audience:"@, name);
    lemma_exact_first_chars(d);
    lemma_prefix_first_chars(d);
    assert(exact_callback(d) is None) by {
        reveal_strlit("backup");
        lemma_mismatch("backup"@, d, 1);
        reveal_strlit("bk:new");
        lemma_mismatch("bk:new"@, d, 1);
        reveal_strlit("bk:list");
        lemma_mismatch("bk:list"@, d, 1);
        reveal_strlit("buy");
        lemma_mismatch("buy"@, d, 1);
        reveal_strlit("balance");
        lemma_mismatch("balance"@, d, 1);
    }
    assert(prefixed_callback_1(d) is None) by {
        reveal_strlit("buy:term:");
        lemma_mismatch("buy:term:"@, d, 1);
        reveal_strlit("buy:method:");
        lemma_mismatch("buy:method:"@, d, 1);
    }
    assert(prefixed_callback_2(d) is None) by {
        reveal_strlit("buy:server:");
        lemma_mismatch("buy:server:"@, d, 1);
        reveal_strlit("buy:paid:");
        lemma_mismatch("buy:paid:"@, d, 1);
    }
    assert(prefixed_callback_3(d) is None) by {
    }
    assert(prefixed_callback_4(d) == Some(ActionView::BroadcastAudience(name))) by {
        assert("broadcast:audience:"@.is_prefix_of(d));
        assert(d.skip("broadcast:audience:"@.len() as int) =~= name);
    }
}

/// Callback data `stats:<name>`, for a name without `:`, reads back as `StatsSection` of that name.
#[verifier::spinoff_prover]
pub proof fn law_stats_section_round_trip(name: Seq<char>)
    requires
        !name.contains(':'),
    ensures
        callback_action("stats:"@ + name) == ActionView::StatsSection(name),
{
    let d = "stats:"@ + name;
    reveal_strlit("stats:");
    lemma_tail_no_colon("stats:"@, name);
    lemma_exact_first_chars(d);
    lemma_prefix_first_chars(d);
    assert(exact_callback(d) is None) by {
        reveal_strlit("server:add");
        lemma_mismatch("server:add"@, d, 1);
        reveal_strlit("server:billing");
        lemma_mismatch("server:billing"@, d, 1);
        reveal_strlit("stats");
        lemma_longer("stats"@, d);
        reveal_strlit("settings");
        lemma_mismatch("settings"@, d, 1);
        reveal_strlit("set:payment");
        lemma_mismatch("set:payment"@, d, 1);
        reveal_strlit("set:acquiring");
        lemma_mismatch("set:acquiring"@, d, 1);
    }
    assert(prefixed_callback_1(d) is None) by {
        reveal_strlit("server:migrate:preflight:");
        lemma_mismatch("server:migrate:preflight:"@, d, 1);
        reveal_strlit("server:migrate:status:");
        lemma_mismatch("server:migrate:status:"@, d, 1);
        reveal_strlit("server:migrate:test:");
        lemma_mismatch("server:migrate:test:"@, d, 1);
        reveal_strlit("server:migrate:approve:");
        lemma_mismatch("server:migrate:approve:"@, d, 1);
        reveal_strlit("server:migrate:ask:");
        lemma_mismatch("server:migrate:ask:"@, d, 1);
        reveal_strlit("server:migrate:run:");
        lemma_mismatch("server:migrate:run:"@, d, 1);
        reveal_strlit("server:migrate:rollback:");
        lemma_mismatch("server:migrate:rollback:"@, d, 1);
        reveal_strlit("server:migrate:");
        lemma_mismatch("server:migrate:"@, d, 1);
    }
    assert(prefixed_callback_2(d) is None) by {
    }
    assert(prefixed_callback_3(d) is None) by {
        reveal_strlit("support:take:");
        lemma_mismatch("support:take:"@, d, 1);
        reveal_strlit("support:new:");
        lemma_mismatch("support:new:"@, d, 1);
        reveal_strlit("support:reply:");
        lemma_mismatch("support:reply:"@, d, 1);
        reveal_strlit("support:close:");
        lemma_mismatch("support:close:"@, d, 1);
        reveal_strlit("support:priority:");
        lemma_mismatch("support:priority:"@, d, 1);
        reveal_strlit("support:rate:");
        lemma_mismatch("support:rate:"@, d, 1);
        reveal_strlit("support:ticket:");
        lemma_mismatch("support:ticket:"@, d, 1);
        reveal_strlit("support:filter:");
        lemma_mismatch("support:filter:"@, d, 1);
    }
    assert(prefixed_callback_4(d) is None) by {
    }
    assert(prefixed_callback_5(d) == Some(ActionView::StatsSection(name))) by {
        assert("stats:"@.is_prefix_of(d));
        assert(d.skip("stats:"@.len() as int) =~= name);
    }
}

/// Callback data `legacy:renew:<name>`, for a name without `:`, reads back as `LegacyRenew` of that name.
#[verifier::spinoff_prover]
pub proof fn law_legacy_renew_round_trip(name: Seq<char>)
    requires
        !name.contains(':'),
    ensures
        callback_action("legacy:renew:"@ + name) == ActionView::LegacyRenew(name),
{
    let d = "legacy:renew:"@ + name;
    reveal_strlit("legacy:renew:");
    lemma_tail_no_colon("legacy:renew:"@, name);
    lemma_exact_first_chars(d);
    lemma_prefix_first_chars(d);
    assert(exact_callback(d) is None) by {
        reveal_strlit("list");
        lemma_mismatch("list"@, d, 1);
        reveal_strlit("legacy:request:new");
        lemma_mismatch("legacy:request:new"@, d, 9);
        reveal_strlit("legacy:promo");
        lemma_mismatch("legacy:promo"@, d, 7);
        reveal_strlit("legacy:price");
        lemma_mismatch("legacy:price"@, d, 7);
    }
    assert(prefixed_callback_1(d) is None) by {
    }
    assert(prefixed_callback_2(d) is None) by {
    }
    assert(prefixed_callback_3(d) is None) by {
    }
    assert(prefixed_callback_4(d) is None) by {
    }
    assert(prefixed_callback_5(d) == Some(ActionView::LegacyRenew(name))) by {
        reveal_strlit("legacy:renew:method:");
        lemma_colon_at("legacy:renew:method:"@, d, 19);
        assert("legacy:renew:"@.is_prefix_of(d));
        assert(d.skip("legacy:renew:"@.len() as int) =~= name);
    }
}

/// Callback data `renew:<name>`, for a name without `:`, reads back as `Renew` of that name.
#[verifier::spinoff_prover]
pub proof fn law_renew_round_trip(name: Seq<char>)
    requires
        !name.contains(':'),
    ensures
        callback_action("renew:"@ + name) == ActionView::Renew(name),
{
    let d = "renew:"@ + name;
    reveal_strlit("renew:");
    lemma_tail_no_colon("renew:"@, name);
    lemma_exact_first_chars(d);
    lemma_prefix_first_chars(d);
    assert(exact_callback(d) is None) by {
        reveal_strlit("regen_all");
        lemma_mismatch("regen_all"@, d, 2);
        reveal_strlit("regen_all_go");
        lemma_mismatch("regen_all_go"@, d, 2);
        reveal_strlit("regen_all_routes");
        lemma_mismatch("regen_all_routes"@, d, 2);
        reveal_strlit("restart");
        lemma_mismatch("restart"@, d, 2);
        reveal_strlit("restart_go");
        lemma_mismatch("restart_go"@, d, 2);
        reveal_strlit("repair");
        lemma_mismatch("repair"@, d, 2);
    }
    assert(prefixed_callback_1(d) is None) by {
    }
    assert(prefixed_callback_2(d) is None) by {
    }
    assert(prefixed_callback_3(d) is None) by {
    }
    assert(prefixed_callback_4(d) is None) by {
    }
    assert(prefixed_callback_5(d) is None) by {
        reveal_strlit("renew:term:");
        lemma_colon_at("renew:term:"@, d, 10);
    }
    assert(prefixed_callback_6(d) is None) by {
        reveal_strlit("renew:method:");
        lemma_colon_at("renew:method:"@, d, 12);
    }
    assert(prefixed_callback_7(d) == Some(ActionView::Renew(name))) by {
        assert("renew:"@.is_prefix_of(d));
        assert(d.skip("renew:"@.len() as int) =~= name);
    }
}

/// Callback data `gmove:<name>`, for a name without `:`, reads back as `MoveClientAsk` of that name.
#[verifier::spinoff_prover]
pub proof fn law_move_client_ask_round_trip(name: Seq<char>)
    requires
        !name.contains(':'),
    ensures
        callback_action("gmove:"@ + name) == ActionView::MoveClientAsk(name),
{
    let d = "gmove:"@ + name;
    reveal_strlit("gmove:");
    lemma_tail_no_colon("gmove:"@, name);
    lemma_exact_first_chars(d);
    lemma_prefix_first_chars(d);
    assert(exact_callback(d) is None) by {
        reveal_strlit("groups");
        lemma_mismatch("groups"@, d, 1);
        reveal_strlit("g:new");
        lemma_mismatch("g:new"@, d, 1);
        reveal_strlit("g:selmenu");
        lemma_mismatch("g:selmenu"@, d, 1);
        reveal_strlit("gscope");
        lemma_mismatch("gscope"@, d, 1);
    }
    assert(prefixed_callback_1(d) is None) by {
        reveal_strlit("guide:");
        lemma_mismatch("guide:"@, d, 1);
    }
    assert(prefixed_callback_2(d) is None) by {
    }
    assert(prefixed_callback_3(d) is None) by {
    }
    assert(prefixed_callback_4(d) is None) by {
    }
    assert(prefixed_callback_5(d) is None) by {
    }
    assert(prefixed_callback_6(d) is None) by {
    }
    assert(prefixed_callback_7(d) is None) by {
        reveal_strlit("g:card:");
        lemma_mismatch("g:card:"@, d, 1);
        reveal_strlit("g:ren:");
        lemma_mismatch("g:ren:"@, d, 1);
        reveal_strlit("g:quota:");
        lemma_mismatch("g:quota:"@, d, 1);
        reveal_strlit("g:admdel:");
        lemma_mismatch("g:admdel:"@, d, 1);
        reveal_strlit("g:admid:");
        lemma_mismatch("g:admid:"@, d, 1);
        reveal_strlit("g:adm:");
        lemma_mismatch("g:adm:"@, d, 1);
        reveal_strlit("g:invrev:");
        lemma_mismatch("g:invrev:"@, d, 1);
        reveal_strlit("g:inv:");
        lemma_mismatch("g:inv:"@, d, 1);
        reveal_strlit("g:delallyes:");
        lemma_mismatch("g:delallyes:"@, d, 1);
        reveal_strlit("g:delall:");
        lemma_mismatch("g:delall:"@, d, 1);
    }
    assert(prefixed_callback_8(d) == Some(ActionView::MoveClientAsk(name))) by {
        reveal_strlit("g:deldetach:");
        lemma_mismatch("g:deldetach:"@, d, 1);
        reveal_strlit("g:del:");
        lemma_mismatch("g:del:"@, d, 1);
        reveal_strlit("g:regengo:");
        lemma_mismatch("g:regengo:"@, d, 1);
        reveal_strlit("g:regen:");
        lemma_mismatch("g:regen:"@, d, 1);
        reveal_strlit("g:sel:");
        lemma_mismatch("g:sel:"@, d, 1);
        reveal_strlit("gmoveto:");
        lemma_mismatch("gmoveto:"@, d, 5);
        assert("gmove:"@.is_prefix_of(d));
        assert(d.skip("gmove:"@.len() as int) =~= name);
    }
}

/// Callback data `client:<name>`, for a name without `:`, reads back as `ShowClient` of that name.
#[verifier::spinoff_prover]
pub proof fn law_show_client_round_trip(name: Seq<char>)
    requires
        !name.contains(':'),
    ensures
        callback_action("client:"@ + name) == ActionView::ShowClient(name),
{
    let d = "client:"@ + name;
    reveal_strlit("client:");
    lemma_tail_no_colon("client:"@, name);
    lemma_exact_first_chars(d);
    lemma_prefix_first_chars(d);
    assert(exact_callback(d) is None) by {
        reveal_strlit("check");
        lemma_mismatch("check"@, d, 1);
    }
    assert(prefixed_callback_1(d) is None) by {
    }
    assert(prefixed_callback_2(d) is None) by {
    }
    assert(prefixed_callback_3(d) is None) by {
        reveal_strlit("client:note:");
        lemma_colon_at("client:note:"@, d, 11);
    }
    assert(prefixed_callback_4(d) is None) by {
    }
    assert(prefixed_callback_5(d) is None) by {
    }
    assert(prefixed_callback_6(d) is None) by {
    }
    assert(prefixed_callback_7(d) is None) by {
    }
    assert(prefixed_callback_8(d) == Some(ActionView::ShowClient(name))) by {
        assert("client:"@.is_prefix_of(d));
        assert(d.skip("client:"@.len() as int) =~= name);
    }
}

/// Callback data `conf:<name>`, for a name without `:`, reads back as `SendConf` of that name.
#[verifier::spinoff_prover]
pub proof fn law_send_conf_round_trip(name: Seq<char>)
    requires
        !name.contains(':'),
    ensures
        callback_action("conf:"@ + name) == ActionView::SendConf(name),
{
    let d = "conf:"@ + name;
    reveal_strlit("conf:");
    lemma_tail_no_colon("conf:"@, name);
    lemma_exact_first_chars(d);
    lemma_prefix_first_chars(d);
    assert(exact_callback(d) is None) by {
        reveal_strlit("check");
        lemma_mismatch("check"@, d, 1);
    }
    assert(prefixed_callback_1(d) is None) by {
    }
    assert(prefixed_callback_2(d) is None) by {
    }
    assert(prefixed_callback_3(d) is None) by {
        reveal_strlit("client:note:");
        lemma_mismatch("client:note:"@, d, 1);
    }
    assert(prefixed_callback_4(d) is None) by {
    }
    assert(prefixed_callback_5(d) is None) by {
    }
    assert(prefixed_callback_6(d) is None) by {
    }
    assert(prefixed_callback_7(d) is None) by {
    }
    assert(prefixed_callback_8(d) == Some(ActionView::SendConf(name))) by {
        reveal_strlit("client:");
        lemma_mismatch("client:"@, d, 1);
        assert("conf:"@.is_prefix_of(d));
        assert(d.skip("conf:"@.len() as int) =~= name);
    }
}

/// Callback data `qr:<name>`, for a name without `:`, reads back as `SendQr` of that name.
#[verifier::spinoff_prover]
pub proof fn law_send_qr_round_trip(name: Seq<char>)
    requires
        !name.contains(':'),
    ensures
        callback_action("qr:"@ + name) == ActionView::SendQr(name),
{
    let d = "qr:"@ + name;
    reveal_strlit("qr:");
    lemma_tail_no_colon("qr:"@, name);
    lemma_exact_first_chars(d);
    lemma_prefix_first_chars(d);
    assert(exact_callback(d) is None) by {
    }
    assert(prefixed_callback_1(d) is None) by {
    }
    assert(prefixed_callback_2(d) is None) by {
    }
    assert(prefixed_callback_3(d) is None) by {
    }
    assert(prefixed_callback_4(d) is None) by {
    }
    assert(prefixed_callback_5(d) is None) by {
    }
    assert(prefixed_callback_6(d) is None) by {
    }
    assert(prefixed_callback_7(d) is None) by {
    }
    assert(prefixed_callback_8(d) == Some(ActionView::SendQr(name))) by {
        assert("qr:"@.is_prefix_of(d));
        assert(d.skip("qr:"@.len() as int) =~= name);
    }
}

/// Callback data `uri:<name>`, for a name without `:`, reads back as `SendLink` of that name.
#[verifier::spinoff_prover]
pub proof fn law_send_link_round_trip(name: Seq<char>)
    requires
        !name.contains(':'),
    ensures
        callback_action("uri:"@ + name) == ActionView::SendLink(name),
{
    let d = "uri:"@ + name;
    reveal_strlit("uri:");
    lemma_tail_no_colon("uri:"@, name);
    lemma_exact_first_chars(d);
    lemma_prefix_first_chars(d);
    assert(exact_callback(d) is None) by {
    }
    assert(prefixed_callback_1(d) is None) by {
    }
    assert(prefixed_callback_2(d) is None) by {
    }
    assert(prefixed_callback_3(d) is None) by {
    }
    assert(prefixed_callback_4(d) is None) by {
    }
    assert(prefixed_callback_5(d) is None) by {
    }
    assert(prefixed_callback_6(d) is None) by {
    }
    assert(prefixed_callback_7(d) is None) by {
    }
    assert(prefixed_callback_8(d) is None) by {
    }
    assert(prefixed_callback_9(d) == Some(ActionView::SendLink(name))) by {
        assert("uri:"@.is_prefix_of(d));
        assert(d.skip("uri:"@.len() as int) =~= name);
    }
}

/// Callback data `all:<name>`, for a name without `:`, reads back as `SendAll` of that name.
#[verifier::spinoff_prover]
pub proof fn law_send_all_round_trip(name: Seq<char>)
    requires
        !name.contains(':'),
    ensures
        callback_action("all:"@ + name) == ActionView::SendAll(name),
{
    let d = "all:"@ + name;
    reveal_strlit("all:");
    lemma_tail_no_colon("all:"@, name);
    lemma_exact_first_chars(d);
    lemma_prefix_first_chars(d);
    assert(exact_callback(d) is None) by {
        reveal_strlit("admin:dashboard");
        lemma_mismatch("admin:dashboard"@, d, 1);
        reveal_strlit("admin:vpn");
        lemma_mismatch("admin:vpn"@, d, 1);
        reveal_strlit("admin:servers");
        lemma_mismatch("admin:servers"@, d, 1);
        reveal_strlit("admin:keys");
        lemma_mismatch("admin:keys"@, d, 1);
        reveal_strlit("admin:users");
        lemma_mismatch("admin:users"@, d, 1);
        reveal_strlit("admin:communication");
        lemma_mismatch("admin:communication"@, d, 1);
        reveal_strlit("admin:system");
        lemma_mismatch("admin:system"@, d, 1);
        reveal_strlit("admin:update");
        lemma_mismatch("admin:update"@, d, 1);
        reveal_strlit("admin:update:run");
        lemma_mismatch("admin:update:run"@, d, 1);
        reveal_strlit("admin:update:status");
        lemma_mismatch("admin:update:status"@, d, 1);
        reveal_strlit("admin:update:rollback");
        lemma_mismatch("admin:update:rollback"@, d, 1);
        reveal_strlit("admin:create");
        lemma_mismatch("admin:create"@, d, 1);
        reveal_strlit("admin:owners");
        lemma_mismatch("admin:owners"@, d, 1);
        reveal_strlit("admin:finance");
        lemma_mismatch("admin:finance"@, d, 1);
        reveal_strlit("admin:support");
        lemma_mismatch("admin:support"@, d, 1);
        reveal_strlit("admin:broadcast");
        lemma_mismatch("admin:broadcast"@, d, 1);
        reveal_strlit("admin:broadcast:templates");
        lemma_mismatch("admin:broadcast:templates"@, d, 1);
        reveal_strlit("admin:help");
        lemma_mismatch("admin:help"@, d, 1);
        reveal_strlit("admin:search");
        lemma_mismatch("admin:search"@, d, 1);
        reveal_strlit("admin:roles");
        lemma_mismatch("admin:roles"@, d, 1);
        reveal_strlit("add");
        lemma_mismatch("add"@, d, 1);
        reveal_strlit("addbulk");
        lemma_mismatch("addbulk"@, d, 1);
        reveal_strlit("admin:bulk:confirm");
        lemma_mismatch("admin:bulk:confirm"@, d, 1);
        reveal_strlit("admin:promos");
        lemma_mismatch("admin:promos"@, d, 1);
        reveal_strlit("admin:commerce");
        lemma_mismatch("admin:commerce"@, d, 1);
        reveal_strlit("admin:prices:rub");
        lemma_mismatch("admin:prices:rub"@, d, 1);
        reveal_strlit("admin:prices:stars");
        lemma_mismatch("admin:prices:stars"@, d, 1);
        reveal_strlit("admin:referral");
        lemma_mismatch("admin:referral"@, d, 1);
        reveal_strlit("admin:legacy");
        lemma_mismatch("admin:legacy"@, d, 1);
        reveal_strlit("admin:operations");
        lemma_mismatch("admin:operations"@, d, 1);
        reveal_strlit("admin:operations:refresh");
        lemma_mismatch("admin:operations:refresh"@, d, 1);
        reveal_strlit("admin:operations:ack");
        lemma_mismatch("admin:operations:ack"@, d, 1);
        reveal_strlit("admin:keys:health");
        lemma_mismatch("admin:keys:health"@, d, 1);
        reveal_strlit("admin:db-backup");
        lemma_mismatch("admin:db-backup"@, d, 1);
        reveal_strlit("admin:db-backup-audit");
        lemma_mismatch("admin:db-backup-audit"@, d, 1);
    }
    assert(prefixed_callback_1(d) is None) by {
        reveal_strlit("admin:owners:page:");
        lemma_mismatch("admin:owners:page:"@, d, 1);
    }
    assert(prefixed_callback_2(d) is None) by {
    }
    assert(prefixed_callback_3(d) is None) by {
        reveal_strlit("admin:bulk:");
        lemma_mismatch("admin:bulk:"@, d, 1);
    }
    assert(prefixed_callback_4(d) is None) by {
        reveal_strlit("admin:role:");
        lemma_mismatch("admin:role:"@, d, 1);
        reveal_strlit("admin:promo:");
        lemma_mismatch("admin:promo:"@, d, 1);
        reveal_strlit("admin:userblock:");
        lemma_mismatch("admin:userblock:"@, d, 1);
        reveal_strlit("admin:userkeys:");
        lemma_mismatch("admin:userkeys:"@, d, 1);
        reveal_strlit("admin:userkeys-delete-confirm:");
        lemma_mismatch("admin:userkeys-delete-confirm:"@, d, 1);
        reveal_strlit("admin:userkeys-delete:");
        lemma_mismatch("admin:userkeys-delete:"@, d, 1);
        reveal_strlit("admin:userpay:");
        lemma_mismatch("admin:userpay:"@, d, 1);
        reveal_strlit("admin:userbal:");
        lemma_mismatch("admin:userbal:"@, d, 1);
        reveal_strlit("admin:userdiscount:");
        lemma_mismatch("admin:userdiscount:"@, d, 1);
        reveal_strlit("admin:usernote:");
        lemma_mismatch("admin:usernote:"@, d, 1);
    }
    assert(prefixed_callback_5(d) is None) by {
        reveal_strlit("admin:user:");
        lemma_mismatch("admin:user:"@, d, 1);
    }
    assert(prefixed_callback_6(d) is None) by {
        reveal_strlit("add:server:");
        lemma_mismatch("add:server:"@, d, 1);
    }
    assert(prefixed_callback_7(d) is None) by {
        reveal_strlit("autorenew:");
        lemma_mismatch("autorenew:"@, d, 1);
    }
    assert(prefixed_callback_8(d) is None) by {
    }
    assert(prefixed_callback_9(d) == Some(ActionView::SendAll(name))) by {
        assert("all:"@.is_prefix_of(d));
        assert(d.skip("all:"@.len() as int) =~= name);
    }
}

/// Callback data `history:<name>`, for a name without `:`, reads back as `ClientHistory` of that name.
#[verifier::spinoff_prover]
pub proof fn law_client_history_round_trip(name: Seq<char>)
    requires
        !name.contains(':'),
    ensures
        callback_action("history:"@ + name) == ActionView::ClientHistory(name),
{
    let d = "history:"@ + name;
    reveal_strlit("history:");
    lemma_tail_no_colon("history:"@, name);
    lemma_exact_first_chars(d);
    lemma_prefix_first_chars(d);
    assert(exact_callback(d) is None) by {
    }
    assert(prefixed_callback_1(d) is None) by {
    }
    assert(prefixed_callback_2(d) is None) by {
    }
    assert(prefixed_callback_3(d) is None) by {
    }
    assert(prefixed_callback_4(d) is None) by {
    }
    assert(prefixed_callback_5(d) is None) by {
    }
    assert(prefixed_callback_6(d) is None) by {
    }
    assert(prefixed_callback_7(d) is None) by {
    }
    assert(prefixed_callback_8(d) is None) by {
    }
    assert(prefixed_callback_9(d) == Some(ActionView::ClientHistory(name))) by {
        assert("history:"@.is_prefix_of(d));
        assert(d.skip("history:"@.len() as int) =~= name);
    }
}

/// Callback data `bulkexp:<name>`, for a name without `:`, reads back as `BulkExpiry` of that name.
#[verifier::spinoff_prover]
pub proof fn law_bulk_expiry_round_trip(name: Seq<char>)
    requires
        !name.contains(':'),
    ensures
        callback_action("bulkexp:"@ + name) == ActionView::BulkExpiry(name),
{
    let d = "bulkexp:"@ + name;
    reveal_strlit("bulkexp:");
    lemma_tail_no_colon("bulkexp:"@, name);
    lemma_exact_first_chars(d);
    lemma_prefix_first_chars(d);
    assert(exact_callback(d) is None) by {
        reveal_strlit("backup");
        lemma_mismatch("backup"@, d, 1);
        reveal_strlit("bk:new");
        lemma_mismatch("bk:new"@, d, 1);
        reveal_strlit("bk:list");
        lemma_mismatch("bk:list"@, d, 1);
        reveal_strlit("buy");
        lemma_mismatch("buy"@, d, 2);
        reveal_strlit("balance");
        lemma_mismatch("balance"@, d, 1);
    }
    assert(prefixed_callback_1(d) is None) by {
        reveal_strlit("buy:term:");
        lemma_mismatch("buy:term:"@, d, 2);
        reveal_strlit("buy:method:");
        lemma_mismatch("buy:method:"@, d, 2);
    }
    assert(prefixed_callback_2(d) is None) by {
        reveal_strlit("buy:server:");
        lemma_mismatch("buy:server:"@, d, 2);
        reveal_strlit("buy:paid:");
        lemma_mismatch("buy:paid:"@, d, 2);
    }
    assert(prefixed_callback_3(d) is None) by {
    }
    assert(prefixed_callback_4(d) is None) by {
        reveal_strlit("broadcast:audience:");
        lemma_mismatch("broadcast:audience:"@, d, 1);
        reveal_strlit("broadcast:retry:");
        lemma_mismatch("broadcast:retry:"@, d, 1);
    }
    assert(prefixed_callback_5(d) is None) by {
    }
    assert(prefixed_callback_6(d) is None) by {
    }
    assert(prefixed_callback_7(d) is None) by {
    }
    assert(prefixed_callback_8(d) is None) by {
    }
    assert(prefixed_callback_9(d) == Some(ActionView::BulkExpiry(name))) by {
        reveal_strlit("bulkadd:psk:");
        lemma_mismatch("bulkadd:psk:"@, d, 4);
        reveal_strlit("bulkserver:");
        lemma_mismatch("bulkserver:"@, d, 4);
        assert("bulkexp:"@.is_prefix_of(d));
        assert(d.skip("bulkexp:"@.len() as int) =~= name);
    }
}

/// Callback data `delyes:<name>`, for a name without `:`, reads back as `ConfirmDelete` of that name.
#[verifier::spinoff_prover]
pub proof fn law_confirm_delete_round_trip(name: Seq<char>)
    requires
        !name.contains(':'),
    ensures
        callback_action("delyes:"@ + name) == ActionView::ConfirmDelete(name),
{
    let d = "delyes:"@ + name;
    reveal_strlit("delyes:");
    lemma_tail_no_colon("delyes:"@, name);
    lemma_exact_first_chars(d);
    lemma_prefix_first_chars(d);
    assert(exact_callback(d) is None) by {
        reveal_strlit("diagnose");
        lemma_mismatch("diagnose"@, d, 1);
    }
    assert(prefixed_callback_1(d) is None) by {
    }
    assert(prefixed_callback_2(d) is None) by {
    }
    assert(prefixed_callback_3(d) is None) by {
        reveal_strlit("device:label:");
        lemma_mismatch("device:label:"@, d, 2);
    }
    assert(prefixed_callback_4(d) is None) by {
    }
    assert(prefixed_callback_5(d) is None) by {
    }
    assert(prefixed_callback_6(d) is None) by {
    }
    assert(prefixed_callback_7(d) is None) by {
    }
    assert(prefixed_callback_8(d) is None) by {
    }
    assert(prefixed_callback_9(d) == Some(ActionView::ConfirmDelete(name))) by {
        assert("delyes:"@.is_prefix_of(d));
        assert(d.skip("delyes:"@.len() as int) =~= name);
    }
}

/// Callback data `del:<name>`, for a name without `:`, reads back as `AskDelete` of that name.
#[verifier::spinoff_prover]
pub proof fn law_ask_delete_round_trip(name: Seq<char>)
    requires
        !name.contains(':'),
    ensures
        callback_action("del:"@ + name) == ActionView::AskDelete(name),
{
    let d = "del:"@ + name;
    reveal_strlit("del:");
    lemma_tail_no_colon("del:"@, name);
    lemma_exact_first_chars(d);
    lemma_prefix_first_chars(d);
    assert(exact_callback(d) is None) by {
        reveal_strlit("diagnose");
        lemma_mismatch("diagnose"@, d, 1);
    }
    assert(prefixed_callback_1(d) is None) by {
    }
    assert(prefixed_callback_2(d) is None) by {
    }
    assert(prefixed_callback_3(d) is None) by {
        reveal_strlit("device:label:");
        lemma_mismatch("device:label:"@, d, 2);
    }
    assert(prefixed_callback_4(d) is None) by {
    }
    assert(prefixed_callback_5(d) is None) by {
    }
    assert(prefixed_callback_6(d) is None) by {
    }
    assert(prefixed_callback_7(d) is None) by {
    }
    assert(prefixed_callback_8(d) is None) by {
    }
    assert(prefixed_callback_9(d) == Some(ActionView::AskDelete(name))) by {
        reveal_strlit("delyes:");
        lemma_mismatch("delyes:"@, d, 3);
        assert("del:"@.is_prefix_of(d));
        assert(d.skip("del:"@.len() as int) =~= name);
    }
}

/// Callback data `recreate:<name>`, for a name without `:`, reads back as `Recreate` of that name.
#[verifier::spinoff_prover]
pub proof fn law_recreate_round_trip(name: Seq<char>)
    requires
        !name.contains(':'),
    ensures
        callback_action("recreate:"@ + name) == ActionView::Recreate(name),
{
    let d = "recreate:"@ + name;
    reveal_strlit("recreate:");
    lemma_tail_no_colon("recreate:"@, name);
    lemma_exact_first_chars(d);
    lemma_prefix_first_chars(d);
    assert(exact_callback(d) is None) by {
        reveal_strlit("regen_all");
        lemma_mismatch("regen_all"@, d, 2);
        reveal_strlit("regen_all_go");
        lemma_mismatch("regen_all_go"@, d, 2);
        reveal_strlit("regen_all_routes");
        lemma_mismatch("regen_all_routes"@, d, 2);
        reveal_strlit("restart");
        lemma_mismatch("restart"@, d, 2);
        reveal_strlit("restart_go");
        lemma_mismatch("restart_go"@, d, 2);
        reveal_strlit("repair");
        lemma_mismatch("repair"@, d, 2);
    }
    assert(prefixed_callback_1(d) is None) by {
    }
    assert(prefixed_callback_2(d) is None) by {
    }
    assert(prefixed_callback_3(d) is None) by {
    }
    assert(prefixed_callback_4(d) is None) by {
    }
    assert(prefixed_callback_5(d) is None) by {
        reveal_strlit("renew:term:");
        lemma_mismatch("renew:term:"@, d, 2);
    }
    assert(prefixed_callback_6(d) is None) by {
        reveal_strlit("renew:method:");
        lemma_mismatch("renew:method:"@, d, 2);
    }
    assert(prefixed_callback_7(d) is None) by {
        reveal_strlit("renew:");
        lemma_mismatch("renew:"@, d, 2);
    }
    assert(prefixed_callback_8(d) is None) by {
    }
    assert(prefixed_callback_9(d) == Some(ActionView::Recreate(name))) by {
        assert("recreate:"@.is_prefix_of(d));
        assert(d.skip("recreate:"@.len() as int) =~= name);
    }
}

/// Callback data `refreshgo:<name>`, for a name without `:`, reads back as `CustomerRefreshRun` of that name.
#[verifier::spinoff_prover]
pub proof fn law_customer_refresh_run_round_trip(name: Seq<char>)
    requires
        !name.contains(':'),
    ensures
        callback_action("refreshgo:"@ + name) == ActionView::CustomerRefreshRun(name),
{
    let d = "refreshgo:"@ + name;
    reveal_strlit("refreshgo:");
    lemma_tail_no_colon("refreshgo:"@, name);
    lemma_exact_first_chars(d);
    lemma_prefix_first_chars(d);
    assert(exact_callback(d) is None) by {
        reveal_strlit("regen_all");
        lemma_mismatch("regen_all"@, d, 2);
        reveal_strlit("regen_all_go");
        lemma_mismatch("regen_all_go"@, d, 2);
        reveal_strlit("regen_all_routes");
        lemma_mismatch("regen_all_routes"@, d, 2);
        reveal_strlit("restart");
        lemma_mismatch("restart"@, d, 2);
        reveal_strlit("restart_go");
        lemma_mismatch("restart_go"@, d, 2);
        reveal_strlit("repair");
        lemma_mismatch("repair"@, d, 2);
    }
    assert(prefixed_callback_1(d) is None) by {
    }
    assert(prefixed_callback_2(d) is None) by {
    }
    assert(prefixed_callback_3(d) is None) by {
    }
    assert(prefixed_callback_4(d) is None) by {
    }
    assert(prefixed_callback_5(d) is None) by {
        reveal_strlit("renew:term:");
        lemma_mismatch("renew:term:"@, d, 2);
    }
    assert(prefixed_callback_6(d) is None) by {
        reveal_strlit("renew:method:");
        lemma_mismatch("renew:method:"@, d, 2);
    }
    assert(prefixed_callback_7(d) is None) by {
        reveal_strlit("renew:");
        lemma_mismatch("renew:"@, d, 2);
    }
    assert(prefixed_callback_8(d) is None) by {
    }
    assert(prefixed_callback_9(d) == Some(ActionView::CustomerRefreshRun(name))) by {
        reveal_strlit("recreate:");
        lemma_mismatch("recreate:"@, d, 2);
        assert("refreshgo:"@.is_prefix_of(d));
        assert(d.skip("refreshgo:"@.len() as int) =~= name);
    }
}

/// Callback data `refresh:<name>`, for a name without `:`, reads back as `CustomerRefresh` of that name.
#[verifier::spinoff_prover]
pub proof fn law_customer_refresh_round_trip(name: Seq<char>)
    requires
        !name.contains(':'),
    ensures
        callback_action("refresh:"@ + name) == ActionView::CustomerRefresh(name),
{
    let d = "refresh:"@ + name;
    reveal_strlit("refresh:");
    lemma_tail_no_colon("refresh:"@, name);
    lemma_exact_first_chars(d);
    lemma_prefix_first_chars(d);
    assert(exact_callback(d) is None) by {
        reveal_strlit("regen_all");
        lemma_mismatch("regen_all"@, d, 2);
        reveal_strlit("regen_all_go");
        lemma_mismatch("regen_all_go"@, d, 2);
        reveal_strlit("regen_all_routes");
        lemma_mismatch("regen_all_routes"@, d, 2);
        reveal_strlit("restart");
        lemma_mismatch("restart"@, d, 2);
        reveal_strlit("restart_go");
        lemma_mismatch("restart_go"@, d, 2);
        reveal_strlit("repair");
        lemma_mismatch("repair"@, d, 2);
    }
    assert(prefixed_callback_1(d) is None) by {
    }
    assert(prefixed_callback_2(d) is None) by {
    }
    assert(prefixed_callback_3(d) is None) by {
    }
    assert(prefixed_callback_4(d) is None) by {
    }
    assert(prefixed_callback_5(d) is None) by {
        reveal_strlit("renew:term:");
        lemma_mismatch("renew:term:"@, d, 2);
    }
    assert(prefixed_callback_6(d) is None) by {
        reveal_strlit("renew:method:");
        lemma_mismatch("renew:method:"@, d, 2);
    }
    assert(prefixed_callback_7(d) is None) by {
        reveal_strlit("renew:");
        lemma_mismatch("renew:"@, d, 2);
    }
    assert(prefixed_callback_8(d) is None) by {
    }
    assert(prefixed_callback_9(d) == Some(ActionView::CustomerRefresh(name))) by {
        reveal_strlit("recreate:");
        lemma_mismatch("recreate:"@, d, 2);
        reveal_strlit("refreshgo:");
        lemma_mismatch("refreshgo:"@, d, 7);
        assert("refresh:"@.is_prefix_of(d));
        assert(d.skip("refresh:"@.len() as int) =~= name);
    }
}

/// Callback data `regen:<name>`, for a name without `:`, reads back as `Regen` of that name.
#[verifier::spinoff_prover]
pub proof fn law_regen_round_trip(name: Seq<char>)
    requires
        !name.contains(':'),
    ensures
        callback_action("regen:"@ + name) == ActionView::Regen(name),
{
    let d = "regen:"@ + name;
    reveal_strlit("regen:");
    lemma_tail_no_colon("regen:"@, name);
    lemma_exact_first_chars(d);
    lemma_prefix_first_chars(d);
    assert(exact_callback(d) is None) by {
        reveal_strlit("regen_all");
        lemma_mismatch("regen_all"@, d, 5);
        reveal_strlit("regen_all_go");
        lemma_mismatch("regen_all_go"@, d, 5);
        reveal_strlit("regen_all_routes");
        lemma_mismatch("regen_all_routes"@, d, 5);
        reveal_strlit("restart");
        lemma_mismatch("restart"@, d, 2);
        reveal_strlit("restart_go");
        lemma_mismatch("restart_go"@, d, 2);
        reveal_strlit("repair");
        lemma_mismatch("repair"@, d, 2);
    }
    assert(prefixed_callback_1(d) is None) by {
    }
    assert(prefixed_callback_2(d) is None) by {
    }
    assert(prefixed_callback_3(d) is None) by {
    }
    assert(prefixed_callback_4(d) is None) by {
    }
    assert(prefixed_callback_5(d) is None) by {
        reveal_strlit("renew:term:");
        lemma_mismatch("renew:term:"@, d, 2);
    }
    assert(prefixed_callback_6(d) is None) by {
        reveal_strlit("renew:method:");
        lemma_mismatch("renew:method:"@, d, 2);
    }
    assert(prefixed_callback_7(d) is None) by {
        reveal_strlit("renew:");
        lemma_mismatch("renew:"@, d, 2);
    }
    assert(prefixed_callback_8(d) is None) by {
    }
    assert(prefixed_callback_9(d) is None) by {
        reveal_strlit("recreate:");
        lemma_mismatch("recreate:"@, d, 2);
        reveal_strlit("refreshgo:");
        lemma_mismatch("refreshgo:"@, d, 2);
        reveal_strlit("refresh:");
        lemma_mismatch("refresh:"@, d, 2);
    }
    assert(prefixed_callback_10(d) == Some(ActionView::Regen(name))) by {
        assert("regen:"@.is_prefix_of(d));
        assert(d.skip("regen:"@.len() as int) =~= name);
    }
}

/// Callback data `exp:<name>`, for a name without `:`, reads back as `Expiry` of that name.
#[verifier::spinoff_prover]
pub proof fn law_expiry_round_trip(name: Seq<char>)
    requires
        !name.contains(':'),
    ensures
        callback_action("exp:"@ + name) == ActionView::Expiry(name),
{
    let d = "exp:"@ + name;
    reveal_strlit("exp:");
    lemma_tail_no_colon("exp:"@, name);
    lemma_exact_first_chars(d);
    lemma_prefix_first_chars(d);
    assert(exact_callback(d) is None) by {
    }
    assert(prefixed_callback_1(d) is None) by {
    }
    assert(prefixed_callback_2(d) is None) by {
    }
    assert(prefixed_callback_3(d) is None) by {
    }
    assert(prefixed_callback_4(d) is None) by {
    }
    assert(prefixed_callback_5(d) is None) by {
    }
    assert(prefixed_callback_6(d) is None) by {
    }
    assert(prefixed_callback_7(d) is None) by {
    }
    assert(prefixed_callback_8(d) is None) by {
    }
    assert(prefixed_callback_9(d) is None) by {
    }
    assert(prefixed_callback_10(d) == Some(ActionView::Expiry(name))) by {
        assert("exp:"@.is_prefix_of(d));
        assert(d.skip("exp:"@.len() as int) =~= name);
    }
}

/// Callback data `set:lang:<name>`, for a name without `:`, reads back as `SetLang` of that name.
#[verifier::spinoff_prover]
pub proof fn law_set_lang_round_trip(name: Seq<char>)
    requires
        !name.contains(':'),
    ensures
        callback_action("set:lang:"@ + name) == ActionView::SetLang(name),
{
    let d = "set:lang:"@ + name;
    reveal_strlit("set:lang:");
    lemma_tail_no_colon("set:lang:"@, name);
    lemma_exact_first_chars(d);
    lemma_prefix_first_chars(d);
    assert(exact_callback(d) is None) by {
        reveal_strlit("server:add");
        lemma_mismatch("server:add"@, d, 2);
        reveal_strlit("server:billing");
        lemma_mismatch("server:billing"@, d, 2);
        reveal_strlit("stats");
        lemma_mismatch("stats"@, d, 1);
        reveal_strlit("settings");
        lemma_mismatch("settings"@, d, 3);
        reveal_strlit("set:payment");
        lemma_mismatch("set:payment"@, d, 4);
        reveal_strlit("set:acquiring");
        lemma_mismatch("set:acquiring"@, d, 4);
    }
    assert(prefixed_callback_1(d) is None) by {
        reveal_strlit("server:migrate:preflight:");
        lemma_mismatch("server:migrate:preflight:"@, d, 2);
        reveal_strlit("server:migrate:status:");
        lemma_mismatch("server:migrate:status:"@, d, 2);
        reveal_strlit("server:migrate:test:");
        lemma_mismatch("server:migrate:test:"@, d, 2);
        reveal_strlit("server:migrate:approve:");
        lemma_mismatch("server:migrate:approve:"@, d, 2);
        reveal_strlit("server:migrate:ask:");
        lemma_mismatch("server:migrate:ask:"@, d, 2);
        reveal_strlit("server:migrate:run:");
        lemma_mismatch("server:migrate:run:"@, d, 2);
        reveal_strlit("server:migrate:rollback:");
        lemma_mismatch("server:migrate:rollback:"@, d, 2);
        reveal_strlit("server:migrate:");
        lemma_mismatch("server:migrate:"@, d, 2);
    }
    assert(prefixed_callback_2(d) is None) by {
    }
    assert(prefixed_callback_3(d) is None) by {
        reveal_strlit("support:take:");
        lemma_mismatch("support:take:"@, d, 1);
        reveal_strlit("support:new:");
        lemma_mismatch("support:new:"@, d, 1);
        reveal_strlit("support:reply:");
        lemma_mismatch("support:reply:"@, d, 1);
        reveal_strlit("support:close:");
        lemma_mismatch("support:close:"@, d, 1);
        reveal_strlit("support:priority:");
        lemma_mismatch("support:priority:"@, d, 1);
        reveal_strlit("support:rate:");
        lemma_mismatch("support:rate:"@, d, 1);
        reveal_strlit("support:ticket:");
        lemma_mismatch("support:ticket:"@, d, 1);
        reveal_strlit("support:filter:");
        lemma_mismatch("support:filter:"@, d, 1);
    }
    assert(prefixed_callback_4(d) is None) by {
    }
    assert(prefixed_callback_5(d) is None) by {
        reveal_strlit("stats:");
        lemma_mismatch("stats:"@, d, 1);
        reveal_strlit("server:maintenance:finish:");
        lemma_mismatch("server:maintenance:finish:"@, d, 2);
        reveal_strlit("server:maintenance:");
        lemma_mismatch("server:maintenance:"@, d, 2);
        reveal_strlit("server:bill:");
        lemma_mismatch("server:bill:"@, d, 2);
        reveal_strlit("server:edit:");
        lemma_mismatch("server:edit:"@, d, 2);
        reveal_strlit("server:enroll:revoke:");
        lemma_mismatch("server:enroll:revoke:"@, d, 2);
    }
    assert(prefixed_callback_6(d) is None) by {
        reveal_strlit("server:default:");
        lemma_mismatch("server:default:"@, d, 2);
        reveal_strlit("server:deploy:");
        lemma_mismatch("server:deploy:"@, d, 2);
        reveal_strlit("server:check:");
        lemma_mismatch("server:check:"@, d, 2);
        reveal_strlit("server:diagnose:");
        lemma_mismatch("server:diagnose:"@, d, 2);
        reveal_strlit("server:probe:");
        lemma_mismatch("server:probe:"@, d, 2);
        reveal_strlit("server:panel:sync:");
        lemma_mismatch("server:panel:sync:"@, d, 2);
        reveal_strlit("server:panel:audit:");
        lemma_mismatch("server:panel:audit:"@, d, 2);
        reveal_strlit("server:panel:");
        lemma_mismatch("server:panel:"@, d, 2);
        reveal_strlit("server:enroll:");
        lemma_mismatch("server:enroll:"@, d, 2);
        reveal_strlit("server:");
        lemma_mismatch("server:"@, d, 2);
    }
    assert(prefixed_callback_7(d) is None) by {
    }
    assert(prefixed_callback_8(d) is None) by {
    }
    assert(prefixed_callback_9(d) is None) by {
    }
    assert(prefixed_callback_10(d) == Some(ActionView::SetLang(name))) by {
        assert("set:lang:"@.is_prefix_of(d));
        assert(d.skip("set:lang:"@.len() as int) =~= name);
    }
}

/// Callback data `lang:<name>`, for a name without `:`, reads back as `Lang` of that name.
#[verifier::spinoff_prover]
pub proof fn law_lang_round_trip(name: Seq<char>)
    requires
        !name.contains(':'),
    ensures
        callback_action("lang:"@ + name) == ActionView::Lang(name),
{
    let d = "lang:"@ + name;
    reveal_strlit("lang:");
    lemma_tail_no_colon("lang:"@, name);
    lemma_exact_first_chars(d);
    lemma_prefix_first_chars(d);
    assert(exact_callback(d) is None) by {
        reveal_strlit("list");
        lemma_mismatch("list"@, d, 1);
        reveal_strlit("legacy:request:new");
        lemma_mismatch("legacy:request:new"@, d, 1);
        reveal_strlit("legacy:promo");
        lemma_mismatch("legacy:promo"@, d, 1);
        reveal_strlit("legacy:price");
        lemma_mismatch("legacy:price"@, d, 1);
    }
    assert(prefixed_callback_1(d) is None) by {
    }
    assert(prefixed_callback_2(d) is None) by {
    }
    assert(prefixed_callback_3(d) is None) by {
    }
    assert(prefixed_callback_4(d) is None) by {
    }
    assert(prefixed_callback_5(d) is None) by {
        reveal_strlit("legacy:renew:method:");
        lemma_mismatch("legacy:renew:method:"@, d, 1);
        reveal_strlit("legacy:renew:");
        lemma_mismatch("legacy:renew:"@, d, 1);
        reveal_strlit("legacy:req:ok:");
        lemma_mismatch("legacy:req:ok:"@, d, 1);
        reveal_strlit("legacy:req:no:");
        lemma_mismatch("legacy:req:no:"@, d, 1);
    }
    assert(prefixed_callback_6(d) is None) by {
    }
    assert(prefixed_callback_7(d) is None) by {
    }
    assert(prefixed_callback_8(d) is None) by {
    }
    assert(prefixed_callback_9(d) is None) by {
    }
    assert(prefixed_callback_10(d) == Some(ActionView::Lang(name))) by {
        reveal_strlit("listfilter:");
        lemma_mismatch("listfilter:"@, d, 1);
        assert("lang:"@.is_prefix_of(d));
        assert(d.skip("lang:"@.len() as int) =~= name);
    }
}

/// Callback data `mod:<name>`, for a name without `:`, reads back as `Modify` of that name.
#[verifier::spinoff_prover]
pub proof fn law_modify_round_trip(name: Seq<char>)
    requires
        !name.contains(':'),
    ensures
        callback_action("mod:"@ + name) == ActionView::Modify(name),
{
    let d = "mod:"@ + name;
    reveal_strlit("mod:");
    lemma_tail_no_colon("mod:"@, name);
    lemma_exact_first_chars(d);
    lemma_prefix_first_chars(d);
    assert(exact_callback(d) is None) by {
        reveal_strlit("migration:local");
        lemma_mismatch("migration:local"@, d, 1);
        reveal_strlit("migration:preflight");
        lemma_mismatch("migration:preflight"@, d, 1);
        reveal_strlit("migration:start");
        lemma_mismatch("migration:start"@, d, 1);
        reveal_strlit("migration:status");
        lemma_mismatch("migration:status"@, d, 1);
        reveal_strlit("migration:rollback");
        lemma_mismatch("migration:rollback"@, d, 1);
        reveal_strlit("menu");
        lemma_mismatch("menu"@, d, 1);
        reveal_strlit("mykeys");
        lemma_mismatch("mykeys"@, d, 1);
    }
    assert(prefixed_callback_1(d) is None) by {
    }
    assert(prefixed_callback_2(d) is None) by {
        reveal_strlit("mykey:");
        lemma_mismatch("mykey:"@, d, 1);
        reveal_strlit("move:choose:");
        lemma_mismatch("move:choose:"@, d, 2);
        reveal_strlit("move:run:");
        lemma_mismatch("move:run:"@, d, 2);
        reveal_strlit("move:confirm:");
        lemma_mismatch("move:confirm:"@, d, 2);
    }
    assert(prefixed_callback_3(d) is None) by {
        reveal_strlit("move:cancel:");
        lemma_mismatch("move:cancel:"@, d, 2);
    }
    assert(prefixed_callback_4(d) is None) by {
    }
    assert(prefixed_callback_5(d) is None) by {
    }
    assert(prefixed_callback_6(d) is None) by {
    }
    assert(prefixed_callback_7(d) is None) by {
    }
    assert(prefixed_callback_8(d) is None) by {
    }
    assert(prefixed_callback_9(d) is None) by {
    }
    assert(prefixed_callback_10(d) is None) by {
    }
    assert(prefixed_callback_11(d) == Some(ActionView::Modify(name))) by {
        reveal_strlit("modparam:");
        lemma_mismatch("modparam:"@, d, 3);
        assert("mod:"@.is_prefix_of(d));
        assert(d.skip("mod:"@.len() as int) =~= name);
    }
}

/// Callback data `admin:owners:page:<id>` reads back as `AdminOwnersPage` of that id.
#[verifier::spinoff_prover]
pub proof fn law_admin_owners_page_round_trip(id: usize)
    ensures
        callback_action("admin:owners:page:"@ + decimal(id as int)) == ActionView::AdminOwnersPage(id),
{
    let d = "admin:owners:page:"@ + decimal(id as int);
    reveal_strlit("admin:owners:page:");
    lemma_decimal_tail("admin:owners:page:"@, id as int);
    lemma_exact_first_chars(d);
    lemma_prefix_first_chars(d);
    assert(exact_callback(d) is None) by {
        reveal_strlit("admin:dashboard");
        lemma_mismatch("admin:dashboard"@, d, 6);
        reveal_strlit("admin:vpn");
        lemma_mismatch("admin:vpn"@, d, 6);
        reveal_strlit("admin:servers");
        lemma_mismatch("admin:servers"@, d, 6);
        reveal_strlit("admin:keys");
        lemma_mismatch("admin:keys"@, d, 6);
        reveal_strlit("admin:users");
        lemma_mismatch("admin:users"@, d, 6);
        reveal_strlit("admin:communication");
        lemma_mismatch("admin:communication"@, d, 6);
        reveal_strlit("admin:system");
        lemma_mismatch("admin:system"@, d, 6);
        reveal_strlit("admin:update");
        lemma_mismatch("admin:update"@, d, 6);
        reveal_strlit("admin:update:run");
        lemma_mismatch("admin:update:run"@, d, 6);
        reveal_strlit("admin:update:status");
        lemma_mismatch("admin:update:status"@, d, 6);
        reveal_strlit("admin:update:rollback");
        lemma_mismatch("admin:update:rollback"@, d, 6);
        reveal_strlit("admin:create");
        lemma_mismatch("admin:create"@, d, 6);
        reveal_strlit("admin:owners");
        lemma_longer("admin:owners"@, d);
        reveal_strlit("admin:finance");
        lemma_mismatch("admin:finance"@, d, 6);
        reveal_strlit("admin:support");
        lemma_mismatch("admin:support"@, d, 6);
        reveal_strlit("admin:broadcast");
        lemma_mismatch("admin:broadcast"@, d, 6);
        reveal_strlit("admin:broadcast:templates");
        lemma_mismatch("admin:broadcast:templates"@, d, 6);
        reveal_strlit("admin:help");
        lemma_mismatch("admin:help"@, d, 6);
        reveal_strlit("admin:search");
        lemma_mismatch("admin:search"@, d, 6);
        reveal_strlit("admin:roles");
        lemma_mismatch("admin:roles"@, d, 6);
        reveal_strlit("add");
        lemma_mismatch("add"@, d, 2);
        reveal_strlit("addbulk");
        lemma_mismatch("addbulk"@, d, 2);
        reveal_strlit("admin:bulk:confirm");
        lemma_mismatch("admin:bulk:confirm"@, d, 6);
        reveal_strlit("admin:promos");
        lemma_mismatch("admin:promos"@, d, 6);
        reveal_strlit("admin:commerce");
        lemma_mismatch("admin:commerce"@, d, 6);
        reveal_strlit("admin:prices:rub");
        lemma_mismatch("admin:prices:rub"@, d, 6);
        reveal_strlit("admin:prices:stars");
        lemma_mismatch("admin:prices:stars"@, d, 6);
        reveal_strlit("admin:referral");
        lemma_mismatch("admin:referral"@, d, 6);
        reveal_strlit("admin:legacy");
        lemma_mismatch("admin:legacy"@, d, 6);
        reveal_strlit("admin:operations");
        lemma_mismatch("admin:operations"@, d, 7);
        reveal_strlit("admin:operations:refresh");
        lemma_mismatch("admin:operations:refresh"@, d, 7);
        reveal_strlit("admin:operations:ack");
        lemma_mismatch("admin:operations:ack"@, d, 7);
        reveal_strlit("admin:keys:health");
        lemma_mismatch("admin:keys:health"@, d, 6);
        reveal_strlit("admin:db-backup");
        lemma_mismatch("admin:db-backup"@, d, 6);
        reveal_strlit("admin:db-backup-audit");
        lemma_mismatch("admin:db-backup-audit"@, d, 6);
    }
    assert(prefixed_callback_1(d) == Some(ActionView::AdminOwnersPage(id))) by {
        assert("admin:owners:page:"@.is_prefix_of(d));
        assert(d.skip("admin:owners:page:"@.len() as int) =~= decimal(id as int));
        law_decimal_round_trip_usize(id);
    }
}

/// Callback data `server:migrate:preflight:<id>` reads back as `RemoteMigrationPreflight` of that id.
#[verifier::spinoff_prover]
pub proof fn law_remote_migration_preflight_round_trip(id: i64)
    ensures
        callback_action("server:migrate:preflight:"@ + decimal(id as int)) == ActionView::RemoteMigrationPreflight(id),
{
    let d = "server:migrate:preflight:"@ + decimal(id as int);
    reveal_strlit("server:migrate:preflight:");
    lemma_decimal_tail("server:migrate:preflight:"@, id as int);
    lemma_exact_first_chars(d);
    lemma_prefix_first_chars(d);
    assert(exact_callback(d) is None) by {
        reveal_strlit("server:add");
        lemma_mismatch("server:add"@, d, 7);
        reveal_strlit("server:billing");
        lemma_mismatch("server:billing"@, d, 7);
        reveal_strlit("stats");
        lemma_mismatch("stats"@, d, 1);
        reveal_strlit("settings");
        lemma_mismatch("settings"@, d, 2);
        reveal_strlit("set:payment");
        lemma_mismatch("set:payment"@, d, 2);
        reveal_strlit("set:acquiring");
        lemma_mismatch("set:acquiring"@, d, 2);
    }
    assert(prefixed_callback_1(d) == Some(ActionView::RemoteMigrationPreflight(id))) by {
        assert("server:migrate:preflight:"@.is_prefix_of(d));
        assert(d.skip("server:migrate:preflight:"@.len() as int) =~= decimal(id as int));
        law_decimal_round_trip(id);
    }
}

/// Callback data `server:migrate:status:<id>` reads back as `RemoteMigrationStatus` of that id.
#[verifier::spinoff_prover]
pub proof fn law_remote_migration_status_round_trip(id: i64)
    ensures
        callback_action("server:migrate:status:"@ + decimal(id as int)) == ActionView::RemoteMigrationStatus(id),
{
    let d = "server:migrate:status:"@ + decimal(id as int);
    reveal_strlit("server:migrate:status:");
    lemma_decimal_tail("server:migrate:status:"@, id as int);
    lemma_exact_first_chars(d);
    lemma_prefix_first_chars(d);
    assert(exact_callback(d) is None) by {
        reveal_strlit("server:add");
        lemma_mismatch("server:add"@, d, 7);
        reveal_strlit("server:billing");
        lemma_mismatch("server:billing"@, d, 7);
        reveal_strlit("stats");
        lemma_mismatch("stats"@, d, 1);
        reveal_strlit("settings");
        lemma_mismatch("settings"@, d, 2);
        reveal_strlit("set:payment");
        lemma_mismatch("set:payment"@, d, 2);
        reveal_strlit("set:acquiring");
        lemma_mismatch("set:acquiring"@, d, 2);
    }
    assert(prefixed_callback_1(d) == Some(ActionView::RemoteMigrationStatus(id))) by {
        reveal_strlit("server:migrate:preflight:");
        lemma_mismatch("server:migrate:preflight:"@, d, 15);
        assert("server:migrate:status:"@.is_prefix_of(d));
        assert(d.skip("server:migrate:status:"@.len() as int) =~= decimal(id as int));
        law_decimal_round_trip(id);
    }
}

/// Callback data `server:migrate:test:<id>` reads back as `RemoteMigrationTest` of that id.
#[verifier::spinoff_prover]
pub proof fn law_remote_migration_test_round_trip(id: i64)
    ensures
        callback_action("server:migrate:test:"@ + decimal(id as int)) == ActionView::RemoteMigrationTest(id),
{
    let d = "server:migrate:test:"@ + decimal(id as int);
    reveal_strlit("server:migrate:test:");
    lemma_decimal_tail("server:migrate:test:"@, id as int);
    lemma_exact_first_chars(d);
    lemma_prefix_first_chars(d);
    assert(exact_callback(d) is None) by {
        reveal_strlit("server:add");
        lemma_mismatch("server:add"@, d, 7);
        reveal_strlit("server:billing");
        lemma_mismatch("server:billing"@, d, 7);
        reveal_strlit("stats");
        lemma_mismatch("stats"@, d, 1);
        reveal_strlit("settings");
        lemma_mismatch("settings"@, d, 2);
        reveal_strlit("set:payment");
        lemma_mismatch("set:payment"@, d, 2);
        reveal_strlit("set:acquiring");
        lemma_mismatch("set:acquiring"@, d, 2);
    }
    assert(prefixed_callback_1(d) == Some(ActionView::RemoteMigrationTest(id))) by {
        reveal_strlit("server:migrate:preflight:");
        lemma_mismatch("server:migrate:preflight:"@, d, 15);
        reveal_strlit("server:migrate:status:");
        lemma_mismatch("server:migrate:status:"@, d, 15);
        assert("server:migrate:test:"@.is_prefix_of(d));
        assert(d.skip("server:migrate:test:"@.len() as int) =~= decimal(id as int));
        law_decimal_round_trip(id);
    }
}

/// Callback data `server:migrate:approve:<id>` reads back as `RemoteMigrationApprove` of that id.
#[verifier::spinoff_prover]
pub proof fn law_remote_migration_approve_round_trip(id: i64)
    ensures
        callback_action("server:migrate:approve:"@ + decimal(id as int)) == ActionView::RemoteMigrationApprove(id),
{
    let d = "server:migrate:approve:"@ + decimal(id as int);
    reveal_strlit("server:migrate:approve:");
    lemma_decimal_tail("server:migrate:approve:"@, id as int);
    lemma_exact_first_chars(d);
    lemma_prefix_first_chars(d);
    assert(exact_callback(d) is None) by {
        reveal_strlit("server:add");
        lemma_mismatch("server:add"@, d, 7);
        reveal_strlit("server:billing");
        lemma_mismatch("server:billing"@, d, 7);
        reveal_strlit("stats");
        lemma_mismatch("stats"@, d, 1);
        reveal_strlit("settings");
        lemma_mismatch("settings"@, d, 2);
        reveal_strlit("set:payment");
        lemma_mismatch("set:payment"@, d, 2);
        reveal_strlit("set:acquiring");
        lemma_mismatch("set:acquiring"@, d, 2);
    }
    assert(prefixed_callback_1(d) == Some(ActionView::RemoteMigrationApprove(id))) by {
        reveal_strlit("server:migrate:preflight:");
        lemma_mismatch("server:migrate:preflight:"@, d, 15);
        reveal_strlit("server:migrate:status:");
        lemma_mismatch("server:migrate:status:"@, d, 15);
        reveal_strlit("server:migrate:test:");
        lemma_mismatch("server:migrate:test:"@, d, 15);
        assert("server:migrate:approve:"@.is_prefix_of(d));
        assert(d.skip("server:migrate:approve:"@.len() as int) =~= decimal(id as int));
        law_decimal_round_trip(id);
    }
}

/// Callback data `server:migrate:ask:<id>` reads back as `RemoteMigrationAsk` of that id.
#[verifier::spinoff_prover]
pub proof fn law_remote_migration_ask_round_trip(id: i64)
    ensures
        callback_action("server:migrate:ask:"@ + decimal(id as int)) == ActionView::RemoteMigrationAsk(id),
{
    let d = "server:migrate:ask:"@ + decimal(id as int);
    reveal_strlit("server:migrate:ask:");
    lemma_decimal_tail("server:migrate:ask:"@, id as int);
    lemma_exact_first_chars(d);
    lemma_prefix_first_chars(d);
    assert(exact_callback(d) is None) by {
        reveal_strlit("server:add");
        lemma_mismatch("server:add"@, d, 7);
        reveal_strlit("server:billing");
        lemma_mismatch("server:billing"@, d, 7);
        reveal_strlit("stats");
        lemma_mismatch("stats"@, d, 1);
        reveal_strlit("settings");
        lemma_mismatch("settings"@, d, 2);
        reveal_strlit("set:payment");
        lemma_mismatch("set:payment"@, d, 2);
        reveal_strlit("set:acquiring");
        lemma_mismatch("set:acquiring"@, d, 2);
    }
    assert(prefixed_callback_1(d) == Some(ActionView::RemoteMigrationAsk(id))) by {
        reveal_strlit("server:migrate:preflight:");
        lemma_mismatch("server:migrate:preflight:"@, d, 15);
        reveal_strlit("server:migrate:status:");
        lemma_mismatch("server:migrate:status:"@, d, 15);
        reveal_strlit("server:migrate:test:");
        lemma_mismatch("server:migrate:test:"@, d, 15);
        reveal_strlit("server:migrate:approve:");
        lemma_mismatch("server:migrate:approve:"@, d, 16);
        assert("server:migrate:ask:"@.is_prefix_of(d));
        assert(d.skip("server:migrate:ask:"@.len() as int) =~= decimal(id as int));
        law_decimal_round_trip(id);
    }
}

/// Callback data `server:migrate:run:<id>` reads back as `RemoteMigrationRun` of that id.
#[verifier::spinoff_prover]
pub proof fn law_remote_migration_run_round_trip(id: i64)
    ensures
        callback_action("server:migrate:run:"@ + decimal(id as int)) == ActionView::RemoteMigrationRun(id),
{
    let d = "server:migrate:run:"@ + decimal(id as int);
    reveal_strlit("server:migrate:run:");
    lemma_decimal_tail("server:migrate:run:"@, id as int);
    lemma_exact_first_chars(d);
    lemma_prefix_first_chars(d);
    assert(exact_callback(d) is None) by {
        reveal_strlit("server:add");
        lemma_mismatch("server:add"@, d, 7);
        reveal_strlit("server:billing");
        lemma_mismatch("server:billing"@, d, 7);
        reveal_strlit("stats");
        lemma_mismatch("stats"@, d, 1);
        reveal_strlit("settings");
        lemma_mismatch("settings"@, d, 2);
        reveal_strlit("set:payment");
        lemma_mismatch("set:payment"@, d, 2);
        reveal_strlit("set:acquiring");
        lemma_mismatch("set:acquiring"@, d, 2);
    }
    assert(prefixed_callback_1(d) == Some(ActionView::RemoteMigrationRun(id))) by {
        reveal_strlit("server:migrate:preflight:");
        lemma_mismatch("server:migrate:preflight:"@, d, 15);
        reveal_strlit("server:migrate:status:");
        lemma_mismatch("server:migrate:status:"@, d, 15);
        reveal_strlit("server:migrate:test:");
        lemma_mismatch("server:migrate:test:"@, d, 15);
        reveal_strlit("server:migrate:approve:");
        lemma_mismatch("server:migrate:approve:"@, d, 15);
        reveal_strlit("server:migrate:ask:");
        lemma_mismatch("server:migrate:ask:"@, d, 15);
        assert("server:migrate:run:"@.is_prefix_of(d));
        assert(d.skip("server:migrate:run:"@.len() as int) =~= decimal(id as int));
        law_decimal_round_trip(id);
    }
}

/// Callback data `server:migrate:rollback:<id>` reads back as `RemoteMigrationRollback` of that id.
#[verifier::spinoff_prover]
pub proof fn law_remote_migration_rollback_round_trip(id: i64)
    ensures
        callback_action("server:migrate:rollback:"@ + decimal(id as int)) == ActionView::RemoteMigrationRollback(id),
{
    let d = "server:migrate:rollback:"@ + decimal(id as int);
    reveal_strlit("server:migrate:rollback:");
    lemma_decimal_tail("server:migrate:rollback:"@, id as int);
    lemma_exact_first_chars(d);
    lemma_prefix_first_chars(d);
    assert(exact_callback(d) is None) by {
        reveal_strlit("server:add");
        lemma_mismatch("server:add"@, d, 7);
        reveal_strlit("server:billing");
        lemma_mismatch("server:billing"@, d, 7);
        reveal_strlit("stats");
        lemma_mismatch("stats"@, d, 1);
        reveal_strlit("settings");
        lemma_mismatch("settings"@, d, 2);
        reveal_strlit("set:payment");
        lemma_mismatch("set:payment"@, d, 2);
        reveal_strlit("set:acquiring");
        lemma_mismatch("set:acquiring"@, d, 2);
    }
    assert(prefixed_callback_1(d) == Some(ActionView::RemoteMigrationRollback(id))) by {
        reveal_strlit("server:migrate:preflight:");
        lemma_mismatch("server:migrate:preflight:"@, d, 15);
        reveal_strlit("server:migrate:status:");
        lemma_mismatch("server:migrate:status:"@, d, 15);
        reveal_strlit("server:migrate:test:");
        lemma_mismatch("server:migrate:test:"@, d, 15);
        reveal_strlit("server:migrate:approve:");
        lemma_mismatch("server:migrate:approve:"@, d, 15);
        reveal_strlit("server:migrate:ask:");
        lemma_mismatch("server:migrate:ask:"@, d, 15);
        reveal_strlit("server:migrate:run:");
        lemma_mismatch("server:migrate:run:"@, d, 16);
        assert("server:migrate:rollback:"@.is_prefix_of(d));
        assert(d.skip("server:migrate:rollback:"@.len() as int) =~= decimal(id as int));
        law_decimal_round_trip(id);
    }
}

/// Callback data `server:migrate:<id>` reads back as `RemoteMigration` of that id.
#[verifier::spinoff_prover]
pub proof fn law_remote_migration_round_trip(id: i64)
    ensures
        callback_action("server:migrate:"@ + decimal(id as int)) == ActionView::RemoteMigration(id),
{
    let d = "server:migrate:"@ + decimal(id as int);
    reveal_strlit("server:migrate:");
    lemma_decimal_tail("server:migrate:"@, id as int);
    lemma_exact_first_chars(d);
    lemma_prefix_first_chars(d);
    assert(exact_callback(d) is None) by {
        reveal_strlit("server:add");
        lemma_mismatch("server:add"@, d, 7);
        reveal_strlit("server:billing");
        lemma_mismatch("server:billing"@, d, 7);
        reveal_strlit("stats");
        lemma_mismatch("stats"@, d, 1);
        reveal_strlit("settings");
        lemma_mismatch("settings"@, d, 2);
        reveal_strlit("set:payment");
        lemma_mismatch("set:payment"@, d, 2);
        reveal_strlit("set:acquiring");
        lemma_mismatch("set:acquiring"@, d, 2);
    }
    assert(prefixed_callback_1(d) == Some(ActionView::RemoteMigration(id))) by {
        reveal_strlit("server:migrate:preflight:");
        lemma_mismatch("server:migrate:preflight:"@, d, 15);
        reveal_strlit("server:migrate:status:");
        lemma_mismatch("server:migrate:status:"@, d, 15);
        reveal_strlit("server:migrate:test:");
        lemma_mismatch("server:migrate:test:"@, d, 15);
        reveal_strlit("server:migrate:approve:");
        lemma_mismatch("server:migrate:approve:"@, d, 15);
        reveal_strlit("server:migrate:ask:");
        lemma_mismatch("server:migrate:ask:"@, d, 15);
        reveal_strlit("server:migrate:run:");
        lemma_mismatch("server:migrate:run:"@, d, 15);
        reveal_strlit("server:migrate:rollback:");
        lemma_mismatch("server:migrate:rollback:"@, d, 15);
        assert("server:migrate:"@.is_prefix_of(d));
        assert(d.skip("server:migrate:"@.len() as int) =~= decimal(id as int));
        law_decimal_round_trip(id);
    }
}

/// Callback data `buy:term:<id>` reads back as `BuyTerm` of that id.
#[verifier::spinoff_prover]
pub proof fn law_buy_term_round_trip(id: i64)
    ensures
        callback_action("buy:term:"@ + decimal(id as int)) == ActionView::BuyTerm(id),
{
    let d = "buy:term:"@ + decimal(id as int);
    reveal_strlit("buy:term:");
    lemma_decimal_tail("buy:term:"@, id as int);
    lemma_exact_first_chars(d);
    lemma_prefix_first_chars(d);
    assert(exact_callback(d) is None) by {
        reveal_strlit("backup");
        lemma_mismatch("backup"@, d, 1);
        reveal_strlit("bk:new");
        lemma_mismatch("bk:new"@, d, 1);
        reveal_strlit("bk:list");
        lemma_mismatch("bk:list"@, d, 1);
        reveal_strlit("buy");
        lemma_longer("buy"@, d);
        reveal_strlit("balance");
        lemma_mismatch("balance"@, d, 1);
    }
    assert(prefixed_callback_1(d) == Some(ActionView::BuyTerm(id))) by {
        assert("buy:term:"@.is_prefix_of(d));
        assert(d.skip("buy:term:"@.len() as int) =~= decimal(id as int));
        law_decimal_round_trip(id);
    }
}

/// Callback data `buy:server:<id>` reads back as `BuyServer` of that id.
#[verifier::spinoff_prover]
pub proof fn law_buy_server_round_trip(id: i64)
    ensures
        callback_action("buy:server:"@ + decimal(id as int)) == ActionView::BuyServer(id),
{
    let d = "buy:server:"@ + decimal(id as int);
    reveal_strlit("buy:server:");
    lemma_decimal_tail("buy:server:"@, id as int);
    lemma_exact_first_chars(d);
    lemma_prefix_first_chars(d);
    assert(exact_callback(d) is None) by {
        reveal_strlit("backup");
        lemma_mismatch("backup"@, d, 1);
        reveal_strlit("bk:new");
        lemma_mismatch("bk:new"@, d, 1);
        reveal_strlit("bk:list");
        lemma_mismatch("bk:list"@, d, 1);
        reveal_strlit("buy");
        lemma_longer("buy"@, d);
        reveal_strlit("balance");
        lemma_mismatch("balance"@, d, 1);
    }
    assert(prefixed_callback_1(d) is None) by {
        reveal_strlit("buy:term:");
        lemma_mismatch("buy:term:"@, d, 4);
        reveal_strlit("buy:method:");
        lemma_mismatch("buy:method:"@, d, 4);
    }
    assert(prefixed_callback_2(d) == Some(ActionView::BuyServer(id))) by {
        assert("buy:server:"@.is_prefix_of(d));
        assert(d.skip("buy:server:"@.len() as int) =~= decimal(id as int));
        law_decimal_round_trip(id);
    }
}

/// Callback data `buy:paid:<id>` reads back as `BuyPaid` of that id.
#[verifier::spinoff_prover]
pub proof fn law_buy_paid_round_trip(id: i64)
    ensures
        callback_action("buy:paid:"@ + decimal(id as int)) == ActionView::BuyPaid(id),
{
    let d = "buy:paid:"@ + decimal(id as int);
    reveal_strlit("buy:paid:");
    lemma_decimal_tail("buy:paid:"@, id as int);
    lemma_exact_first_chars(d);
    lemma_prefix_first_chars(d);
    assert(exact_callback(d) is None) by {
        reveal_strlit("backup");
        lemma_mismatch("backup"@, d, 1);
        reveal_strlit("bk:new");
        lemma_mismatch("bk:new"@, d, 1);
        reveal_strlit("bk:list");
        lemma_mismatch("bk:list"@, d, 1);
        reveal_strlit("buy");
        lemma_longer("buy"@, d);
        reveal_strlit("balance");
        lemma_mismatch("balance"@, d, 1);
    }
    assert(prefixed_callback_1(d) is None) by {
        reveal_strlit("buy:term:");
        lemma_mismatch("buy:term:"@, d, 4);
        reveal_strlit("buy:method:");
        lemma_mismatch("buy:method:"@, d, 4);
    }
    assert(prefixed_callback_2(d) == Some(ActionView::BuyPaid(id))) by {
        reveal_strlit("buy:server:");
        lemma_mismatch("buy:server:"@, d, 4);
        assert("buy:paid:"@.is_prefix_of(d));
        assert(d.skip("buy:paid:"@.len() as int) =~= decimal(id as int));
        law_decimal_round_trip(id);
    }
}

/// Callback data `pay:ok:<id>` reads back as `PaymentApprove` of that id.
#[verifier::spinoff_prover]
pub proof fn law_payment_approve_round_trip(id: i64)
    ensures
        callback_action("pay:ok:"@ + decimal(id as int)) == ActionView::PaymentApprove(id),
{
    let d = "pay:ok:"@ + decimal(id as int);
    reveal_strlit("pay:ok:");
    lemma_decimal_tail("pay:ok:"@, id as int);
    lemma_exact_first_chars(d);
    lemma_prefix_first_chars(d);
    assert(exact_callback(d) is None) by {
        reveal_strlit("profile");
        lemma_mismatch("profile"@, d, 1);
        reveal_strlit("portal");
        lemma_mismatch("portal"@, d, 1);
    }
    assert(prefixed_callback_1(d) is None) by {
    }
    assert(prefixed_callback_2(d) == Some(ActionView::PaymentApprove(id))) by {
        assert("pay:ok:"@.is_prefix_of(d));
        assert(d.skip("pay:ok:"@.len() as int) =~= decimal(id as int));
        law_decimal_round_trip(id);
    }
}

/// Callback data `pay:no:<id>` reads back as `PaymentReject` of that id.
#[verifier::spinoff_prover]
pub proof fn law_payment_reject_round_trip(id: i64)
    ensures
        callback_action("pay:no:"@ + decimal(id as int)) == ActionView::PaymentReject(id),
{
    let d = "pay:no:"@ + decimal(id as int);
    reveal_strlit("pay:no:");
    lemma_decimal_tail("pay:no:"@, id as int);
    lemma_exact_first_chars(d);
    lemma_prefix_first_chars(d);
    assert(exact_callback(d) is None) by {
        reveal_strlit("profile");
        lemma_mismatch("profile"@, d, 1);
        reveal_strlit("portal");
        lemma_mismatch("portal"@, d, 1);
    }
    assert(prefixed_callback_1(d) is None) by {
    }
    assert(prefixed_callback_2(d) == Some(ActionView::PaymentReject(id))) by {
        reveal_strlit("pay:ok:");
        lemma_mismatch("pay:ok:"@, d, 4);
        assert("pay:no:"@.is_prefix_of(d));
        assert(d.skip("pay:no:"@.len() as int) =~= decimal(id as int));
        law_decimal_round_trip(id);
    }
}

/// Callback data `move:confirm:<id>` reads back as `CustomerMoveConfirm` of that id.
#[verifier::spinoff_prover]
pub proof fn law_customer_move_confirm_round_trip(id: i64)
    ensures
        callback_action("move:confirm:"@ + decimal(id as int)) == ActionView::CustomerMoveConfirm(id),
{
    let d = "move:confirm:"@ + decimal(id as int);
    reveal_strlit("move:confirm:");
    lemma_decimal_tail("move:confirm:"@, id as int);
    lemma_exact_first_chars(d);
    lemma_prefix_first_chars(d);
    assert(exact_callback(d) is None) by {
        reveal_strlit("migration:local");
        lemma_mismatch("migration:local"@, d, 1);
        reveal_strlit("migration:preflight");
        lemma_mismatch("migration:preflight"@, d, 1);
        reveal_strlit("migration:start");
        lemma_mismatch("migration:start"@, d, 1);
        reveal_strlit("migration:status");
        lemma_mismatch("migration:status"@, d, 1);
        reveal_strlit("migration:rollback");
        lemma_mismatch("migration:rollback"@, d, 1);
        reveal_strlit("menu");
        lemma_mismatch("menu"@, d, 1);
        reveal_strlit("mykeys");
        lemma_mismatch("mykeys"@, d, 1);
    }
    assert(prefixed_callback_1(d) is None) by {
    }
    assert(prefixed_callback_2(d) == Some(ActionView::CustomerMoveConfirm(id))) by {
        reveal_strlit("mykey:");
        lemma_mismatch("mykey:"@, d, 1);
        reveal_strlit("move:choose:");
        lemma_mismatch("move:choose:"@, d, 6);
        reveal_strlit("move:run:");
        lemma_mismatch("move:run:"@, d, 5);
        assert("move:confirm:"@.is_prefix_of(d));
        assert(d.skip("move:confirm:"@.len() as int) =~= decimal(id as int));
        law_decimal_round_trip(id);
    }
}

/// Callback data `move:cancel:<id>` reads back as `CustomerMoveCancel` of that id.
#[verifier::spinoff_prover]
pub proof fn law_customer_move_cancel_round_trip(id: i64)
    ensures
        callback_action("move:cancel:"@ + decimal(id as int)) == ActionView::CustomerMoveCancel(id),
{
    let d = "move:cancel:"@ + decimal(id as int);
    reveal_strlit("move:cancel:");
    lemma_decimal_tail("move:cancel:"@, id as int);
    lemma_exact_first_chars(d);
    lemma_prefix_first_chars(d);
    assert(exact_callback(d) is None) by {
        reveal_strlit("migration:local");
        lemma_mismatch("migration:local"@, d, 1);
        reveal_strlit("migration:preflight");
        lemma_mismatch("migration:preflight"@, d, 1);
        reveal_strlit("migration:start");
        lemma_mismatch("migration:start"@, d, 1);
        reveal_strlit("migration:status");
        lemma_mismatch("migration:status"@, d, 1);
        reveal_strlit("migration:rollback");
        lemma_mismatch("migration:rollback"@, d, 1);
        reveal_strlit("menu");
        lemma_mismatch("menu"@, d, 1);
        reveal_strlit("mykeys");
        lemma_mismatch("mykeys"@, d, 1);
    }
    assert(prefixed_callback_1(d) is None) by {
    }
    assert(prefixed_callback_2(d) is None) by {
        reveal_strlit("mykey:");
        lemma_mismatch("mykey:"@, d, 1);
        reveal_strlit("move:choose:");
        lemma_mismatch("move:choose:"@, d, 6);
        reveal_strlit("move:run:");
        lemma_mismatch("move:run:"@, d, 5);
        reveal_strlit("move:confirm:");
        lemma_mismatch("move:confirm:"@, d, 6);
    }
    assert(prefixed_callback_3(d) == Some(ActionView::CustomerMoveCancel(id))) by {
        assert("move:cancel:"@.is_prefix_of(d));
        assert(d.skip("move:cancel:"@.len() as int) =~= decimal(id as int));
        law_decimal_round_trip(id);
    }
}

/// Callback data `support:take:<id>` reads back as `SupportTake` of that id.
#[verifier::spinoff_prover]
pub proof fn law_support_take_round_trip(id: i64)
    ensures
        callback_action("support:take:"@ + decimal(id as int)) == ActionView::SupportTake(id),
{
    let d = "support:take:"@ + decimal(id as int);
    reveal_strlit("support:take:");
    lemma_decimal_tail("support:take:"@, id as int);
    lemma_exact_first_chars(d);
    lemma_prefix_first_chars(d);
    assert(exact_callback(d) is None) by {
        reveal_strlit("server:add");
        lemma_mismatch("server:add"@, d, 1);
        reveal_strlit("server:billing");
        lemma_mismatch("server:billing"@, d, 1);
        reveal_strlit("stats");
        lemma_mismatch("stats"@, d, 1);
        reveal_strlit("settings");
        lemma_mismatch("settings"@, d, 1);
        reveal_strlit("set:payment");
        lemma_mismatch("set:payment"@, d, 1);
        reveal_strlit("set:acquiring");
        lemma_mismatch("set:acquiring"@, d, 1);
    }
    assert(prefixed_callback_1(d) is None) by {
        reveal_strlit("server:migrate:preflight:");
        lemma_mismatch("server:migrate:preflight:"@, d, 1);
        reveal_strlit("server:migrate:status:");
        lemma_mismatch("server:migrate:status:"@, d, 1);
        reveal_strlit("server:migrate:test:");
        lemma_mismatch("server:migrate:test:"@, d, 1);
        reveal_strlit("server:migrate:approve:");
        lemma_mismatch("server:migrate:approve:"@, d, 1);
        reveal_strlit("server:migrate:ask:");
        lemma_mismatch("server:migrate:ask:"@, d, 1);
        reveal_strlit("server:migrate:run:");
        lemma_mismatch("server:migrate:run:"@, d, 1);
        reveal_strlit("server:migrate:rollback:");
        lemma_mismatch("server:migrate:rollback:"@, d, 1);
        reveal_strlit("server:migrate:");
        lemma_mismatch("server:migrate:"@, d, 1);
    }
    assert(prefixed_callback_2(d) is None) by {
    }
    assert(prefixed_callback_3(d) == Some(ActionView::SupportTake(id))) by {
        assert("support:take:"@.is_prefix_of(d));
        assert(d.skip("support:take:"@.len() as int) =~= decimal(id as int));
        law_decimal_round_trip(id);
    }
}

/// Callback data `support:reply:<id>` reads back as `SupportReply` of that id.
#[verifier::spinoff_prover]
pub proof fn law_support_reply_round_trip(id: i64)
    ensures
        callback_action("support:reply:"@ + decimal(id as int)) == ActionView::SupportReply(id),
{
    let d = "support:reply:"@ + decimal(id as int);
    reveal_strlit("support:reply:");
    lemma_decimal_tail("support:reply:"@, id as int);
    lemma_exact_first_chars(d);
    lemma_prefix_first_chars(d);
    assert(exact_callback(d) is None) by {
        reveal_strlit("server:add");
        lemma_mismatch("server:add"@, d, 1);
        reveal_strlit("server:billing");
        lemma_mismatch("server:billing"@, d, 1);
        reveal_strlit("stats");
        lemma_mismatch("stats"@, d, 1);
        reveal_strlit("settings");
        lemma_mismatch("settings"@, d, 1);
        reveal_strlit("set:payment");
        lemma_mismatch("set:payment"@, d, 1);
        reveal_strlit("set:acquiring");
        lemma_mismatch("set:acquiring"@, d, 1);
    }
    assert(prefixed_callback_1(d) is None) by {
        reveal_strlit("server:migrate:preflight:");
        lemma_mismatch("server:migrate:preflight:"@, d, 1);
        reveal_strlit("server:migrate:status:");
        lemma_mismatch("server:migrate:status:"@, d, 1);
        reveal_strlit("server:migrate:test:");
        lemma_mismatch("server:migrate:test:"@, d, 1);
        reveal_strlit("server:migrate:approve:");
        lemma_mismatch("server:migrate:approve:"@, d, 1);
        reveal_strlit("server:migrate:ask:");
        lemma_mismatch("server:migrate:ask:"@, d, 1);
        reveal_strlit("server:migrate:run:");
        lemma_mismatch("server:migrate:run:"@, d, 1);
        reveal_strlit("server:migrate:rollback:");
        lemma_mismatch("server:migrate:rollback:"@, d, 1);
        reveal_strlit("server:migrate:");
        lemma_mismatch("server:migrate:"@, d, 1);
    }
    assert(prefixed_callback_2(d) is None) by {
    }
    assert(prefixed_callback_3(d) == Some(ActionView::SupportReply(id))) by {
        reveal_strlit("support:take:");
        lemma_mismatch("support:take:"@, d, 8);
        reveal_strlit("support:new:");
        lemma_mismatch("support:new:"@, d, 8);
        assert("support:reply:"@.is_prefix_of(d));
        assert(d.skip("support:reply:"@.len() as int) =~= decimal(id as int));
        law_decimal_round_trip(id);
    }
}

/// Callback data `support:close:<id>` reads back as `SupportClose` of that id.
#[verifier::spinoff_prover]
pub proof fn law_support_close_round_trip(id: i64)
    ensures
        callback_action("support:close:"@ + decimal(id as int)) == ActionView::SupportClose(id),
{
    let d = "support:close:"@ + decimal(id as int);
    reveal_strlit("support:close:");
    lemma_decimal_tail("support:close:"@, id as int);
    lemma_exact_first_chars(d);
    lemma_prefix_first_chars(d);
    assert(exact_callback(d) is None) by {
        reveal_strlit("server:add");
        lemma_mismatch("server:add"@, d, 1);
        reveal_strlit("server:billing");
        lemma_mismatch("server:billing"@, d, 1);
        reveal_strlit("stats");
        lemma_mismatch("stats"@, d, 1);
        reveal_strlit("settings");
        lemma_mismatch("settings"@, d, 1);
        reveal_strlit("set:payment");
        lemma_mismatch("set:payment"@, d, 1);
        reveal_strlit("set:acquiring");
        lemma_mismatch("set:acquiring"@, d, 1);
    }
    assert(prefixed_callback_1(d) is None) by {
        reveal_strlit("server:migrate:preflight:");
        lemma_mismatch("server:migrate:preflight:"@, d, 1);
        reveal_strlit("server:migrate:status:");
        lemma_mismatch("server:migrate:status:"@, d, 1);
        reveal_strlit("server:migrate:test:");
        lemma_mismatch("server:migrate:test:"@, d, 1);
        reveal_strlit("server:migrate:approve:");
        lemma_mismatch("server:migrate:approve:"@, d, 1);
        reveal_strlit("server:migrate:ask:");
        lemma_mismatch("server:migrate:ask:"@, d, 1);
        reveal_strlit("server:migrate:run:");
        lemma_mismatch("server:migrate:run:"@, d, 1);
        reveal_strlit("server:migrate:rollback:");
        lemma_mismatch("server:migrate:rollback:"@, d, 1);
        reveal_strlit("server:migrate:");
        lemma_mismatch("server:migrate:"@, d, 1);
    }
    assert(prefixed_callback_2(d) is None) by {
    }
    assert(prefixed_callback_3(d) == Some(ActionView::SupportClose(id))) by {
        reveal_strlit("support:take:");
        lemma_mismatch("support:take:"@, d, 8);
        reveal_strlit("support:new:");
        lemma_mismatch("support:new:"@, d, 8);
        reveal_strlit("support:reply:");
        lemma_mismatch("support:reply:"@, d, 8);
        assert("support:close:"@.is_prefix_of(d));
        assert(d.skip("support:close:"@.len() as int) =~= decimal(id as int));
        law_decimal_round_trip(id);
    }
}

/// Callback data `support:ticket:<id>` reads back as `SupportTicket` of that id.
#[verifier::spinoff_prover]
pub proof fn law_support_ticket_round_trip(id: i64)
    ensures
        callback_action("support:ticket:"@ + decimal(id as int)) == ActionView::SupportTicket(id),
{
    let d = "support:ticket:"@ + decimal(id as int);
    reveal_strlit("support:ticket:");
    lemma_decimal_tail("support:ticket:"@, id as int);
    lemma_exact_first_chars(d);
    lemma_prefix_first_chars(d);
    assert(exact_callback(d) is None) by {
        reveal_strlit("server:add");
        lemma_mismatch("server:add"@, d, 1);
        reveal_strlit("server:billing");
        lemma_mismatch("server:billing"@, d, 1);
        reveal_strlit("stats");
        lemma_mismatch("stats"@, d, 1);
        reveal_strlit("settings");
        lemma_mismatch("settings"@, d, 1);
        reveal_strlit("set:payment");
        lemma_mismatch("set:payment"@, d, 1);
        reveal_strlit("set:acquiring");
        lemma_mismatch("set:acquiring"@, d, 1);
    }
    assert(prefixed_callback_1(d) is None) by {
        reveal_strlit("server:migrate:preflight:");
        lemma_mismatch("server:migrate:preflight:"@, d, 1);
        reveal_strlit("server:migrate:status:");
        lemma_mismatch("server:migrate:status:"@, d, 1);
        reveal_strlit("server:migrate:test:");
        lemma_mismatch("server:migrate:test:"@, d, 1);
        reveal_strlit("server:migrate:approve:");
        lemma_mismatch("server:migrate:approve:"@, d, 1);
        reveal_strlit("server:migrate:ask:");
        lemma_mismatch("server:migrate:ask:"@, d, 1);
        reveal_strlit("server:migrate:run:");
        lemma_mismatch("server:migrate:run:"@, d, 1);
        reveal_strlit("server:migrate:rollback:");
        lemma_mismatch("server:migrate:rollback:"@, d, 1);
        reveal_strlit("server:migrate:");
        lemma_mismatch("server:migrate:"@, d, 1);
    }
    assert(prefixed_callback_2(d) is None) by {
    }
    assert(prefixed_callback_3(d) == Some(ActionView::SupportTicket(id))) by {
        reveal_strlit("support:take:");
        lemma_mismatch("support:take:"@, d, 9);
        reveal_strlit("support:new:");
        lemma_mismatch("support:new:"@, d, 8);
        reveal_strlit("support:reply:");
        lemma_mismatch("support:reply:"@, d, 8);
        reveal_strlit("support:close:");
        lemma_mismatch("support:close:"@, d, 8);
        reveal_strlit("support:priority:");
        lemma_mismatch("support:priority:"@, d, 8);
        reveal_strlit("support:rate:");
        lemma_mismatch("support:rate:"@, d, 8);
        assert("support:ticket:"@.is_prefix_of(d));
        assert(d.skip("support:ticket:"@.len() as int) =~= decimal(id as int));
        law_decimal_round_trip(id);
    }
}

/// Callback data `broadcast:retry:<id>` reads back as `BroadcastRetry` of that id.
#[verifier::spinoff_prover]
pub proof fn law_broadcast_retry_round_trip(id: i64)
    ensures
        callback_action("broadcast:retry:"@ + decimal(id as int)) == ActionView::BroadcastRetry(id),
{
    let d = "broadcast:retry:"@ + decimal(id as int);
    reveal_strlit("broadcast:retry:");
    lemma_decimal_tail("broadcast:retry:"@, id as int);
    lemma_exact_first_chars(d);
    lemma_prefix_first_chars(d);
    assert(exact_callback(d) is None) by {
        reveal_strlit("backup");
        lemma_mismatch("backup"@, d, 1);
        reveal_strlit("bk:new");
        lemma_mismatch("bk:new"@, d, 1);
        reveal_strlit("bk:list");
        lemma_mismatch("bk:list"@, d, 1);
        reveal_strlit("buy");
        lemma_mismatch("buy"@, d, 1);
        reveal_strlit("balance");
        lemma_mismatch("balance"@, d, 1);
    }
    assert(prefixed_callback_1(d) is None) by {
        reveal_strlit("buy:term:");
        lemma_mismatch("buy:term:"@, d, 1);
        reveal_strlit("buy:method:");
        lemma_mismatch("buy:method:"@, d, 1);
    }
    assert(prefixed_callback_2(d) is None) by {
        reveal_strlit("buy:server:");
        lemma_mismatch("buy:server:"@, d, 1);
        reveal_strlit("buy:paid:");
        lemma_mismatch("buy:paid:"@, d, 1);
    }
    assert(prefixed_callback_3(d) is None) by {
    }
    assert(prefixed_callback_4(d) == Some(ActionView::BroadcastRetry(id))) by {
        reveal_strlit("broadcast:audience:");
        lemma_mismatch("broadcast:audience:"@, d, 10);
        assert("broadcast:retry:"@.is_prefix_of(d));
        assert(d.skip("broadcast:retry:"@.len() as int) =~= decimal(id as int));
        law_decimal_round_trip(id);
    }
}

/// Callback data `admin:userkeys:<id>` reads back as `AdminUserKeys` of that id.
#[verifier::spinoff_prover]
pub proof fn law_admin_user_keys_round_trip(id: i64)
    ensures
        callback_action("admin:userkeys:"@ + decimal(id as int)) == ActionView::AdminUserKeys(id),
{
    let d = "admin:userkeys:"@ + decimal(id as int);
    reveal_strlit("admin:userkeys:");
    lemma_decimal_tail("admin:userkeys:"@, id as int);
    lemma_exact_first_chars(d);
    lemma_prefix_first_chars(d);
    assert(exact_callback(d) is None) by {
        reveal_strlit("admin:dashboard");
        lemma_mismatch("admin:dashboard"@, d, 6);
        reveal_strlit("admin:vpn");
        lemma_mismatch("admin:vpn"@, d, 6);
        reveal_strlit("admin:servers");
        lemma_mismatch("admin:servers"@, d, 6);
        reveal_strlit("admin:keys");
        lemma_mismatch("admin:keys"@, d, 6);
        reveal_strlit("admin:users");
        lemma_mismatch("admin:users"@, d, 10);
        reveal_strlit("admin:communication");
        lemma_mismatch("admin:communication"@, d, 6);
        reveal_strlit("admin:system");
        lemma_mismatch("admin:system"@, d, 6);
        reveal_strlit("admin:update");
        lemma_mismatch("admin:update"@, d, 7);
        reveal_strlit("admin:update:run");
        lemma_mismatch("admin:update:run"@, d, 7);
        reveal_strlit("admin:update:status");
        lemma_mismatch("admin:update:status"@, d, 7);
        reveal_strlit("admin:update:rollback");
        lemma_mismatch("admin:update:rollback"@, d, 7);
        reveal_strlit("admin:create");
        lemma_mismatch("admin:create"@, d, 6);
        reveal_strlit("admin:owners");
        lemma_mismatch("admin:owners"@, d, 6);
        reveal_strlit("admin:finance");
        lemma_mismatch("admin:finance"@, d, 6);
        reveal_strlit("admin:support");
        lemma_mismatch("admin:support"@, d, 6);
        reveal_strlit("admin:broadcast");
        lemma_mismatch("admin:broadcast"@, d, 6);
        reveal_strlit("admin:broadcast:templates");
        lemma_mismatch("admin:broadcast:templates"@, d, 6);
        reveal_strlit("admin:help");
        lemma_mismatch("admin:help"@, d, 6);
        reveal_strlit("admin:search");
        lemma_mismatch("admin:search"@, d, 6);
        reveal_strlit("admin:roles");
        lemma_mismatch("admin:roles"@, d, 6);
        reveal_strlit("add");
        lemma_mismatch("add"@, d, 2);
        reveal_strlit("addbulk");
        lemma_mismatch("addbulk"@, d, 2);
        reveal_strlit("admin:bulk:confirm");
        lemma_mismatch("admin:bulk:confirm"@, d, 6);
        reveal_strlit("admin:promos");
        lemma_mismatch("admin:promos"@, d, 6);
        reveal_strlit("admin:commerce");
        lemma_mismatch("admin:commerce"@, d, 6);
        reveal_strlit("admin:prices:rub");
        lemma_mismatch("admin:prices:rub"@, d, 6);
        reveal_strlit("admin:prices:stars");
        lemma_mismatch("admin:prices:stars"@, d, 6);
        reveal_strlit("admin:referral");
        lemma_mismatch("admin:referral"@, d, 6);
        reveal_strlit("admin:legacy");
        lemma_mismatch("admin:legacy"@, d, 6);
        reveal_strlit("admin:operations");
        lemma_mismatch("admin:operations"@, d, 6);
        reveal_strlit("admin:operations:refresh");
        lemma_mismatch("admin:operations:refresh"@, d, 6);
        reveal_strlit("admin:operations:ack");
        lemma_mismatch("admin:operations:ack"@, d, 6);
        reveal_strlit("admin:keys:health");
        lemma_mismatch("admin:keys:health"@, d, 6);
        reveal_strlit("admin:db-backup");
        lemma_mismatch("admin:db-backup"@, d, 6);
        reveal_strlit("admin:db-backup-audit");
        lemma_mismatch("admin:db-backup-audit"@, d, 6);
    }
    assert(prefixed_callback_1(d) is None) by {
        reveal_strlit("admin:owners:page:");
        lemma_mismatch("admin:owners:page:"@, d, 6);
    }
    assert(prefixed_callback_2(d) is None) by {
    }
    assert(prefixed_callback_3(d) is None) by {
        reveal_strlit("admin:bulk:");
        lemma_mismatch("admin:bulk:"@, d, 6);
    }
    assert(prefixed_callback_4(d) == Some(ActionView::AdminUserKeys(id))) by {
        reveal_strlit("admin:role:");
        lemma_mismatch("admin:role:"@, d, 6);
        reveal_strlit("admin:promo:");
        lemma_mismatch("admin:promo:"@, d, 6);
        reveal_strlit("admin:userblock:");
        lemma_mismatch("admin:userblock:"@, d, 10);
        assert("admin:userkeys:"@.is_prefix_of(d));
        assert(d.skip("admin:userkeys:"@.len() as int) =~= decimal(id as int));
        law_decimal_round_trip(id);
    }
}

/// Callback data `admin:userkeys-delete-confirm:<id>` reads back as `AdminUserDeleteKeysConfirm` of that id.
#[verifier::spinoff_prover]
pub proof fn law_admin_user_delete_keys_confirm_round_trip(id: i64)
    ensures
        callback_action("admin:userkeys-delete-confirm:"@ + decimal(id as int)) == ActionView::AdminUserDeleteKeysConfirm(id),
{
    let d = "admin:userkeys-delete-confirm:"@ + decimal(id as int);
    reveal_strlit("admin:userkeys-delete-confirm:");
    lemma_decimal_tail("admin:userkeys-delete-confirm:"@, id as int);
    lemma_exact_first_chars(d);
    lemma_prefix_first_chars(d);
    assert(exact_callback(d) is None) by {
        reveal_strlit("admin:dashboard");
        lemma_mismatch("admin:dashboard"@, d, 6);
        reveal_strlit("admin:vpn");
        lemma_mismatch("admin:vpn"@, d, 6);
        reveal_strlit("admin:servers");
        lemma_mismatch("admin:servers"@, d, 6);
        reveal_strlit("admin:keys");
        lemma_mismatch("admin:keys"@, d, 6);
        reveal_strlit("admin:users");
        lemma_mismatch("admin:users"@, d, 10);
        reveal_strlit("admin:communication");
        lemma_mismatch("admin:communication"@, d, 6);
        reveal_strlit("admin:system");
        lemma_mismatch("admin:system"@, d, 6);
        reveal_strlit("admin:update");
        lemma_mismatch("admin:update"@, d, 7);
        reveal_strlit("admin:update:run");
        lemma_mismatch("admin:update:run"@, d, 7);
        reveal_strlit("admin:update:status");
        lemma_mismatch("admin:update:status"@, d, 7);
        reveal_strlit("admin:update:rollback");
        lemma_mismatch("admin:update:rollback"@, d, 7);
        reveal_strlit("admin:create");
        lemma_mismatch("admin:create"@, d, 6);
        reveal_strlit("admin:owners");
        lemma_mismatch("admin:owners"@, d, 6);
        reveal_strlit("admin:finance");
        lemma_mismatch("admin:finance"@, d, 6);
        reveal_strlit("admin:support");
        lemma_mismatch("admin:support"@, d, 6);
        reveal_strlit("admin:broadcast");
        lemma_mismatch("admin:broadcast"@, d, 6);
        reveal_strlit("admin:broadcast:templates");
        lemma_mismatch("admin:broadcast:templates"@, d, 6);
        reveal_strlit("admin:help");
        lemma_mismatch("admin:help"@, d, 6);
        reveal_strlit("admin:search");
        lemma_mismatch("admin:search"@, d, 6);
        reveal_strlit("admin:roles");
        lemma_mismatch("admin:roles"@, d, 6);
        reveal_strlit("add");
        lemma_mismatch("add"@, d, 2);
        reveal_strlit("addbulk");
        lemma_mismatch("addbulk"@, d, 2);
        reveal_strlit("admin:bulk:confirm");
        lemma_mismatch("admin:bulk:confirm"@, d, 6);
        reveal_strlit("admin:promos");
        lemma_mismatch("admin:promos"@, d, 6);
        reveal_strlit("admin:commerce");
        lemma_mismatch("admin:commerce"@, d, 6);
        reveal_strlit("admin:prices:rub");
        lemma_mismatch("admin:prices:rub"@, d, 6);
        reveal_strlit("admin:prices:stars");
        lemma_mismatch("admin:prices:stars"@, d, 6);
        reveal_strlit("admin:referral");
        lemma_mismatch("admin:referral"@, d, 6);
        reveal_strlit("admin:legacy");
        lemma_mismatch("admin:legacy"@, d, 6);
        reveal_strlit("admin:operations");
        lemma_mismatch("admin:operations"@, d, 6);
        reveal_strlit("admin:operations:refresh");
        lemma_mismatch("admin:operations:refresh"@, d, 6);
        reveal_strlit("admin:operations:ack");
        lemma_mismatch("admin:operations:ack"@, d, 6);
        reveal_strlit("admin:keys:health");
        lemma_mismatch("admin:keys:health"@, d, 6);
        reveal_strlit("admin:db-backup");
        lemma_mismatch("admin:db-backup"@, d, 6);
        reveal_strlit("admin:db-backup-audit");
        lemma_mismatch("admin:db-backup-audit"@, d, 6);
    }
    assert(prefixed_callback_1(d) is None) by {
        reveal_strlit("admin:owners:page:");
        lemma_mismatch("admin:owners:page:"@, d, 6);
    }
    assert(prefixed_callback_2(d) is None) by {
    }
    assert(prefixed_callback_3(d) is None) by {
        reveal_strlit("admin:bulk:");
        lemma_mismatch("admin:bulk:"@, d, 6);
    }
    assert(prefixed_callback_4(d) == Some(ActionView::AdminUserDeleteKeysConfirm(id))) by {
        reveal_strlit("admin:role:");
        lemma_mismatch("admin:role:"@, d, 6);
        reveal_strlit("admin:promo:");
        lemma_mismatch("admin:promo:"@, d, 6);
        reveal_strlit("admin:userblock:");
        lemma_mismatch("admin:userblock:"@, d, 10);
        reveal_strlit("admin:userkeys:");
        lemma_mismatch("admin:userkeys:"@, d, 14);
        assert("admin:userkeys-delete-confirm:"@.is_prefix_of(d));
        assert(d.skip("admin:userkeys-delete-confirm:"@.len() as int) =~= decimal(id as int));
        law_decimal_round_trip(id);
    }
}

/// Callback data `admin:userkeys-delete:<id>` reads back as `AdminUserDeleteKeysAsk` of that id.
#[verifier::spinoff_prover]
pub proof fn law_admin_user_delete_keys_ask_round_trip(id: i64)
    ensures
        callback_action("admin:userkeys-delete:"@ + decimal(id as int)) == ActionView::AdminUserDeleteKeysAsk(id),
{
    let d = "admin:userkeys-delete:"@ + decimal(id as int);
    reveal_strlit("admin:userkeys-delete:");
    lemma_decimal_tail("admin:userkeys-delete:"@, id as int);
    lemma_exact_first_chars(d);
    lemma_prefix_first_chars(d);
    assert(exact_callback(d) is None) by {
        reveal_strlit("admin:dashboard");
        lemma_mismatch("admin:dashboard"@, d, 6);
        reveal_strlit("admin:vpn");
        lemma_mismatch("admin:vpn"@, d, 6);
        reveal_strlit("admin:servers");
        lemma_mismatch("admin:servers"@, d, 6);
        reveal_strlit("admin:keys");
        lemma_mismatch("admin:keys"@, d, 6);
        reveal_strlit("admin:users");
        lemma_mismatch("admin:users"@, d, 10);
        reveal_strlit("admin:communication");
        lemma_mismatch("admin:communication"@, d, 6);
        reveal_strlit("admin:system");
        lemma_mismatch("admin:system"@, d, 6);
        reveal_strlit("admin:update");
        lemma_mismatch("admin:update"@, d, 7);
        reveal_strlit("admin:update:run");
        lemma_mismatch("admin:update:run"@, d, 7);
        reveal_strlit("admin:update:status");
        lemma_mismatch("admin:update:status"@, d, 7);
        reveal_strlit("admin:update:rollback");
        lemma_mismatch("admin:update:rollback"@, d, 7);
        reveal_strlit("admin:create");
        lemma_mismatch("admin:create"@, d, 6);
        reveal_strlit("admin:owners");
        lemma_mismatch("admin:owners"@, d, 6);
        reveal_strlit("admin:finance");
        lemma_mismatch("admin:finance"@, d, 6);
        reveal_strlit("admin:support");
        lemma_mismatch("admin:support"@, d, 6);
        reveal_strlit("admin:broadcast");
        lemma_mismatch("admin:broadcast"@, d, 6);
        reveal_strlit("admin:broadcast:templates");
        lemma_mismatch("admin:broadcast:templates"@, d, 6);
        reveal_strlit("admin:help");
        lemma_mismatch("admin:help"@, d, 6);
        reveal_strlit("admin:search");
        lemma_mismatch("admin:search"@, d, 6);
        reveal_strlit("admin:roles");
        lemma_mismatch("admin:roles"@, d, 6);
        reveal_strlit("add");
        lemma_mismatch("add"@, d, 2);
        reveal_strlit("addbulk");
        lemma_mismatch("addbulk"@, d, 2);
        reveal_strlit("admin:bulk:confirm");
        lemma_mismatch("admin:bulk:confirm"@, d, 6);
        reveal_strlit("admin:promos");
        lemma_mismatch("admin:promos"@, d, 6);
        reveal_strlit("admin:commerce");
        lemma_mismatch("admin:commerce"@, d, 6);
        reveal_strlit("admin:prices:rub");
        lemma_mismatch("admin:prices:rub"@, d, 6);
        reveal_strlit("admin:prices:stars");
        lemma_mismatch("admin:prices:stars"@, d, 6);
        reveal_strlit("admin:referral");
        lemma_mismatch("admin:referral"@, d, 6);
        reveal_strlit("admin:legacy");
        lemma_mismatch("admin:legacy"@, d, 6);
        reveal_strlit("admin:operations");
        lemma_mismatch("admin:operations"@, d, 6);
        reveal_strlit("admin:operations:refresh");
        lemma_mismatch("admin:operations:refresh"@, d, 6);
        reveal_strlit("admin:operations:ack");
        lemma_mismatch("admin:operations:ack"@, d, 6);
        reveal_strlit("admin:keys:health");
        lemma_mismatch("admin:keys:health"@, d, 6);
        reveal_strlit("admin:db-backup");
        lemma_mismatch("admin:db-backup"@, d, 6);
        reveal_strlit("admin:db-backup-audit");
        lemma_mismatch("admin:db-backup-audit"@, d, 6);
    }
    assert(prefixed_callback_1(d) is None) by {
        reveal_strlit("admin:owners:page:");
        lemma_mismatch("admin:owners:page:"@, d, 6);
    }
    assert(prefixed_callback_2(d) is None) by {
    }
    assert(prefixed_callback_3(d) is None) by {
        reveal_strlit("admin:bulk:");
        lemma_mismatch("admin:bulk:"@, d, 6);
    }
    assert(prefixed_callback_4(d) == Some(ActionView::AdminUserDeleteKeysAsk(id))) by {
        reveal_strlit("admin:role:");
        lemma_mismatch("admin:role:"@, d, 6);
        reveal_strlit("admin:promo:");
        lemma_mismatch("admin:promo:"@, d, 6);
        reveal_strlit("admin:userblock:");
        lemma_mismatch("admin:userblock:"@, d, 10);
        reveal_strlit("admin:userkeys:");
        lemma_mismatch("admin:userkeys:"@, d, 14);
        reveal_strlit("admin:userkeys-delete-confirm:");
        lemma_mismatch("admin:userkeys-delete-confirm:"@, d, 21);
        assert("admin:userkeys-delete:"@.is_prefix_of(d));
        assert(d.skip("admin:userkeys-delete:"@.len() as int) =~= decimal(id as int));
        law_decimal_round_trip(id);
    }
}

/// Callback data `admin:userpay:<id>` reads back as `AdminUserPayments` of that id.
#[verifier::spinoff_prover]
pub proof fn law_admin_user_payments_round_trip(id: i64)
    ensures
        callback_action("admin:userpay:"@ + decimal(id as int)) == ActionView::AdminUserPayments(id),
{
    let d = "admin:userpay:"@ + decimal(id as int);
    reveal_strlit("admin:userpay:");
    lemma_decimal_tail("admin:userpay:"@, id as int);
    lemma_exact_first_chars(d);
    lemma_prefix_first_chars(d);
    assert(exact_callback(d) is None) by {
        reveal_strlit("admin:dashboard");
        lemma_mismatch("admin:dashboard"@, d, 6);
        reveal_strlit("admin:vpn");
        lemma_mismatch("admin:vpn"@, d, 6);
        reveal_strlit("admin:servers");
        lemma_mismatch("admin:servers"@, d, 6);
        reveal_strlit("admin:keys");
        lemma_mismatch("admin:keys"@, d, 6);
        reveal_strlit("admin:users");
        lemma_mismatch("admin:users"@, d, 10);
        reveal_strlit("admin:communication");
        lemma_mismatch("admin:communication"@, d, 6);
        reveal_strlit("admin:system");
        lemma_mismatch("admin:system"@, d, 6);
        reveal_strlit("admin:update");
        lemma_mismatch("admin:update"@, d, 7);
        reveal_strlit("admin:update:run");
        lemma_mismatch("admin:update:run"@, d, 7);
        reveal_strlit("admin:update:status");
        lemma_mismatch("admin:update:status"@, d, 7);
        reveal_strlit("admin:update:rollback");
        lemma_mismatch("admin:update:rollback"@, d, 7);
        reveal_strlit("admin:create");
        lemma_mismatch("admin:create"@, d, 6);
        reveal_strlit("admin:owners");
        lemma_mismatch("admin:owners"@, d, 6);
        reveal_strlit("admin:finance");
        lemma_mismatch("admin:finance"@, d, 6);
        reveal_strlit("admin:support");
        lemma_mismatch("admin:support"@, d, 6);
        reveal_strlit("admin:broadcast");
        lemma_mismatch("admin:broadcast"@, d, 6);
        reveal_strlit("admin:broadcast:templates");
        lemma_mismatch("admin:broadcast:templates"@, d, 6);
        reveal_strlit("admin:help");
        lemma_mismatch("admin:help"@, d, 6);
        reveal_strlit("admin:search");
        lemma_mismatch("admin:search"@, d, 6);
        reveal_strlit("admin:roles");
        lemma_mismatch("admin:roles"@, d, 6);
        reveal_strlit("add");
        lemma_mismatch("add"@, d, 2);
        reveal_strlit("addbulk");
        lemma_mismatch("addbulk"@, d, 2);
        reveal_strlit("admin:bulk:confirm");
        lemma_mismatch("admin:bulk:confirm"@, d, 6);
        reveal_strlit("admin:promos");
        lemma_mismatch("admin:promos"@, d, 6);
        reveal_strlit("admin:commerce");
        lemma_mismatch("admin:commerce"@, d, 6);
        reveal_strlit("admin:prices:rub");
        lemma_mismatch("admin:prices:rub"@, d, 6);
        reveal_strlit("admin:prices:stars");
        lemma_mismatch("admin:prices:stars"@, d, 6);
        reveal_strlit("admin:referral");
        lemma_mismatch("admin:referral"@, d, 6);
        reveal_strlit("admin:legacy");
        lemma_mismatch("admin:legacy"@, d, 6);
        reveal_strlit("admin:operations");
        lemma_mismatch("admin:operations"@, d, 6);
        reveal_strlit("admin:operations:refresh");
        lemma_mismatch("admin:operations:refresh"@, d, 6);
        reveal_strlit("admin:operations:ack");
        lemma_mismatch("admin:operations:ack"@, d, 6);
        reveal_strlit("admin:keys:health");
        lemma_mismatch("admin:keys:health"@, d, 6);
        reveal_strlit("admin:db-backup");
        lemma_mismatch("admin:db-backup"@, d, 6);
        reveal_strlit("admin:db-backup-audit");
        lemma_mismatch("admin:db-backup-audit"@, d, 6);
    }
    assert(prefixed_callback_1(d) is None) by {
        reveal_strlit("admin:owners:page:");
        lemma_mismatch("admin:owners:page:"@, d, 6);
    }
    assert(prefixed_callback_2(d) is None) by {
    }
    assert(prefixed_callback_3(d) is None) by {
        reveal_strlit("admin:bulk:");
        lemma_mismatch("admin:bulk:"@, d, 6);
    }
    assert(prefixed_callback_4(d) == Some(ActionView::AdminUserPayments(id))) by {
        reveal_strlit("admin:role:");
        lemma_mismatch("admin:role:"@, d, 6);
        reveal_strlit("admin:promo:");
        lemma_mismatch("admin:promo:"@, d, 6);
        reveal_strlit("admin:userblock:");
        lemma_mismatch("admin:userblock:"@, d, 10);
        reveal_strlit("admin:userkeys:");
        lemma_mismatch("admin:userkeys:"@, d, 10);
        reveal_strlit("admin:userkeys-delete-confirm:");
        lemma_mismatch("admin:userkeys-delete-confirm:"@, d, 10);
        reveal_strlit("admin:userkeys-delete:");
        lemma_mismatch("admin:userkeys-delete:"@, d, 10);
        assert("admin:userpay:"@.is_prefix_of(d));
        assert(d.skip("admin:userpay:"@.len() as int) =~= decimal(id as int));
        law_decimal_round_trip(id);
    }
}

/// Callback data `admin:userbal:<id>` reads back as `AdminUserBalance` of that id.
#[verifier::spinoff_prover]
pub proof fn law_admin_user_balance_round_trip(id: i64)
    ensures
        callback_action("admin:userbal:"@ + decimal(id as int)) == ActionView::AdminUserBalance(id),
{
    let d = "admin:userbal:"@ + decimal(id as int);
    reveal_strlit("admin:userbal:");
    lemma_decimal_tail("admin:userbal:"@, id as int);
    lemma_exact_first_chars(d);
    lemma_prefix_first_chars(d);
    assert(exact_callback(d) is None) by {
        reveal_strlit("admin:dashboard");
        lemma_mismatch("admin:dashboard"@, d, 6);
        reveal_strlit("admin:vpn");
        lemma_mismatch("admin:vpn"@, d, 6);
        reveal_strlit("admin:servers");
        lemma_mismatch("admin:servers"@, d, 6);
        reveal_strlit("admin:keys");
        lemma_mismatch("admin:keys"@, d, 6);
        reveal_strlit("admin:users");
        lemma_mismatch("admin:users"@, d, 10);
        reveal_strlit("admin:communication");
        lemma_mismatch("admin:communication"@, d, 6);
        reveal_strlit("admin:system");
        lemma_mismatch("admin:system"@, d, 6);
        reveal_strlit("admin:update");
        lemma_mismatch("admin:update"@, d, 7);
        reveal_strlit("admin:update:run");
        lemma_mismatch("admin:update:run"@, d, 7);
        reveal_strlit("admin:update:status");
        lemma_mismatch("admin:update:status"@, d, 7);
        reveal_strlit("admin:update:rollback");
        lemma_mismatch("admin:update:rollback"@, d, 7);
        reveal_strlit("admin:create");
        lemma_mismatch("admin:create"@, d, 6);
        reveal_strlit("admin:owners");
        lemma_mismatch("admin:owners"@, d, 6);
        reveal_strlit("admin:finance");
        lemma_mismatch("admin:finance"@, d, 6);
        reveal_strlit("admin:support");
        lemma_mismatch("admin:support"@, d, 6);
        reveal_strlit("admin:broadcast");
        lemma_mismatch("admin:broadcast"@, d, 6);
        reveal_strlit("admin:broadcast:templates");
        lemma_mismatch("admin:broadcast:templates"@, d, 6);
        reveal_strlit("admin:help");
        lemma_mismatch("admin:help"@, d, 6);
        reveal_strlit("admin:search");
        lemma_mismatch("admin:search"@, d, 6);
        reveal_strlit("admin:roles");
        lemma_mismatch("admin:roles"@, d, 6);
        reveal_strlit("add");
        lemma_mismatch("add"@, d, 2);
        reveal_strlit("addbulk");
        lemma_mismatch("addbulk"@, d, 2);
        reveal_strlit("admin:bulk:confirm");
        lemma_mismatch("admin:bulk:confirm"@, d, 6);
        reveal_strlit("admin:promos");
        lemma_mismatch("admin:promos"@, d, 6);
        reveal_strlit("admin:commerce");
        lemma_mismatch("admin:commerce"@, d, 6);
        reveal_strlit("admin:prices:rub");
        lemma_mismatch("admin:prices:rub"@, d, 6);
        reveal_strlit("admin:prices:stars");
        lemma_mismatch("admin:prices:stars"@, d, 6);
        reveal_strlit("admin:referral");
        lemma_mismatch("admin:referral"@, d, 6);
        reveal_strlit("admin:legacy");
        lemma_mismatch("admin:legacy"@, d, 6);
        reveal_strlit("admin:operations");
        lemma_mismatch("admin:operations"@, d, 6);
        reveal_strlit("admin:operations:refresh");
        lemma_mismatch("admin:operations:refresh"@, d, 6);
        reveal_strlit("admin:operations:ack");
        lemma_mismatch("admin:operations:ack"@, d, 6);
        reveal_strlit("admin:keys:health");
        lemma_mismatch("admin:keys:health"@, d, 6);
        reveal_strlit("admin:db-backup");
        lemma_mismatch("admin:db-backup"@, d, 6);
        reveal_strlit("admin:db-backup-audit");
        lemma_mismatch("admin:db-backup-audit"@, d, 6);
    }
    assert(prefixed_callback_1(d) is None) by {
        reveal_strlit("admin:owners:page:");
        lemma_mismatch("admin:owners:page:"@, d, 6);
    }
    assert(prefixed_callback_2(d) is None) by {
    }
    assert(prefixed_callback_3(d) is None) by {
        reveal_strlit("admin:bulk:");
        lemma_mismatch("admin:bulk:"@, d, 6);
    }
    assert(prefixed_callback_4(d) == Some(ActionView::AdminUserBalance(id))) by {
        reveal_strlit("admin:role:");
        lemma_mismatch("admin:role:"@, d, 6);
        reveal_strlit("admin:promo:");
        lemma_mismatch("admin:promo:"@, d, 6);
        reveal_strlit("admin:userblock:");
        lemma_mismatch("admin:userblock:"@, d, 11);
        reveal_strlit("admin:userkeys:");
        lemma_mismatch("admin:userkeys:"@, d, 10);
        reveal_strlit("admin:userkeys-delete-confirm:");
        lemma_mismatch("admin:userkeys-delete-confirm:"@, d, 10);
        reveal_strlit("admin:userkeys-delete:");
        lemma_mismatch("admin:userkeys-delete:"@, d, 10);
        reveal_strlit("admin:userpay:");
        lemma_mismatch("admin:userpay:"@, d, 10);
        assert("admin:userbal:"@.is_prefix_of(d));
        assert(d.skip("admin:userbal:"@.len() as int) =~= decimal(id as int));
        law_decimal_round_trip(id);
    }
}

/// Callback data `admin:userdiscount:<id>` reads back as `AdminUserDiscount` of that id.
#[verifier::spinoff_prover]
pub proof fn law_admin_user_discount_round_trip(id: i64)
    ensures
        callback_action("admin:userdiscount:"@ + decimal(id as int)) == ActionView::AdminUserDiscount(id),
{
    let d = "admin:userdiscount:"@ + decimal(id as int);
    reveal_strlit("admin:userdiscount:");
    lemma_decimal_tail("admin:userdiscount:"@, id as int);
    lemma_exact_first_chars(d);
    lemma_prefix_first_chars(d);
    assert(exact_callback(d) is None) by {
        reveal_strlit("admin:dashboard");
        lemma_mismatch("admin:dashboard"@, d, 6);
        reveal_strlit("admin:vpn");
        lemma_mismatch("admin:vpn"@, d, 6);
        reveal_strlit("admin:servers");
        lemma_mismatch("admin:servers"@, d, 6);
        reveal_strlit("admin:keys");
        lemma_mismatch("admin:keys"@, d, 6);
        reveal_strlit("admin:users");
        lemma_mismatch("admin:users"@, d, 10);
        reveal_strlit("admin:communication");
        lemma_mismatch("admin:communication"@, d, 6);
        reveal_strlit("admin:system");
        lemma_mismatch("admin:system"@, d, 6);
        reveal_strlit("admin:update");
        lemma_mismatch("admin:update"@, d, 7);
        reveal_strlit("admin:update:run");
        lemma_mismatch("admin:update:run"@, d, 7);
        reveal_strlit("admin:update:status");
        lemma_mismatch("admin:update:status"@, d, 7);
        reveal_strlit("admin:update:rollback");
        lemma_mismatch("admin:update:rollback"@, d, 7);
        reveal_strlit("admin:create");
        lemma_mismatch("admin:create"@, d, 6);
        reveal_strlit("admin:owners");
        lemma_mismatch("admin:owners"@, d, 6);
        reveal_strlit("admin:finance");
        lemma_mismatch("admin:finance"@, d, 6);
        reveal_strlit("admin:support");
        lemma_mismatch("admin:support"@, d, 6);
        reveal_strlit("admin:broadcast");
        lemma_mismatch("admin:broadcast"@, d, 6);
        reveal_strlit("admin:broadcast:templates");
        lemma_mismatch("admin:broadcast:templates"@, d, 6);
        reveal_strlit("admin:help");
        lemma_mismatch("admin:help"@, d, 6);
        reveal_strlit("admin:search");
        lemma_mismatch("admin:search"@, d, 6);
        reveal_strlit("admin:roles");
        lemma_mismatch("admin:roles"@, d, 6);
        reveal_strlit("add");
        lemma_mismatch("add"@, d, 2);
        reveal_strlit("addbulk");
        lemma_mismatch("addbulk"@, d, 2);
        reveal_strlit("admin:bulk:confirm");
        lemma_mismatch("admin:bulk:confirm"@, d, 6);
        reveal_strlit("admin:promos");
        lemma_mismatch("admin:promos"@, d, 6);
        reveal_strlit("admin:commerce");
        lemma_mismatch("admin:commerce"@, d, 6);
        reveal_strlit("admin:prices:rub");
        lemma_mismatch("admin:prices:rub"@, d, 6);
        reveal_strlit("admin:prices:stars");
        lemma_mismatch("admin:prices:stars"@, d, 6);
        reveal_strlit("admin:referral");
        lemma_mismatch("admin:referral"@, d, 6);
        reveal_strlit("admin:legacy");
        lemma_mismatch("admin:legacy"@, d, 6);
        reveal_strlit("admin:operations");
        lemma_mismatch("admin:operations"@, d, 6);
        reveal_strlit("admin:operations:refresh");
        lemma_mismatch("admin:operations:refresh"@, d, 6);
        reveal_strlit("admin:operations:ack");
        lemma_mismatch("admin:operations:ack"@, d, 6);
        reveal_strlit("admin:keys:health");
        lemma_mismatch("admin:keys:health"@, d, 6);
        reveal_strlit("admin:db-backup");
        lemma_mismatch("admin:db-backup"@, d, 6);
        reveal_strlit("admin:db-backup-audit");
        lemma_mismatch("admin:db-backup-audit"@, d, 6);
    }
    assert(prefixed_callback_1(d) is None) by {
        reveal_strlit("admin:owners:page:");
        lemma_mismatch("admin:owners:page:"@, d, 6);
    }
    assert(prefixed_callback_2(d) is None) by {
    }
    assert(prefixed_callback_3(d) is None) by {
        reveal_strlit("admin:bulk:");
        lemma_mismatch("admin:bulk:"@, d, 6);
    }
    assert(prefixed_callback_4(d) == Some(ActionView::AdminUserDiscount(id))) by {
        reveal_strlit("admin:role:");
        lemma_mismatch("admin:role:"@, d, 6);
        reveal_strlit("admin:promo:");
        lemma_mismatch("admin:promo:"@, d, 6);
        reveal_strlit("admin:userblock:");
        lemma_mismatch("admin:userblock:"@, d, 10);
        reveal_strlit("admin:userkeys:");
        lemma_mismatch("admin:userkeys:"@, d, 10);
        reveal_strlit("admin:userkeys-delete-confirm:");
        lemma_mismatch("admin:userkeys-delete-confirm:"@, d, 10);
        reveal_strlit("admin:userkeys-delete:");
        lemma_mismatch("admin:userkeys-delete:"@, d, 10);
        reveal_strlit("admin:userpay:");
        lemma_mismatch("admin:userpay:"@, d, 10);
        reveal_strlit("admin:userbal:");
        lemma_mismatch("admin:userbal:"@, d, 10);
        assert("admin:userdiscount:"@.is_prefix_of(d));
        assert(d.skip("admin:userdiscount:"@.len() as int) =~= decimal(id as int));
        law_decimal_round_trip(id);
    }
}

/// Callback data `admin:usernote:<id>` reads back as `AdminUserNote` of that id.
#[verifier::spinoff_prover]
pub proof fn law_admin_user_note_round_trip(id: i64)
    ensures
        callback_action("admin:usernote:"@ + decimal(id as int)) == ActionView::AdminUserNote(id),
{
    let d = "admin:usernote:"@ + decimal(id as int);
    reveal_strlit("admin:usernote:");
    lemma_decimal_tail("admin:usernote:"@, id as int);
    lemma_exact_first_chars(d);
    lemma_prefix_first_chars(d);
    assert(exact_callback(d) is None) by {
        reveal_strlit("admin:dashboard");
        lemma_mismatch("admin:dashboard"@, d, 6);
        reveal_strlit("admin:vpn");
        lemma_mismatch("admin:vpn"@, d, 6);
        reveal_strlit("admin:servers");
        lemma_mismatch("admin:servers"@, d, 6);
        reveal_strlit("admin:keys");
        lemma_mismatch("admin:keys"@, d, 6);
        reveal_strlit("admin:users");
        lemma_mismatch("admin:users"@, d, 10);
        reveal_strlit("admin:communication");
        lemma_mismatch("admin:communication"@, d, 6);
        reveal_strlit("admin:system");
        lemma_mismatch("admin:system"@, d, 6);
        reveal_strlit("admin:update");
        lemma_mismatch("admin:update"@, d, 7);
        reveal_strlit("admin:update:run");
        lemma_mismatch("admin:update:run"@, d, 7);
        reveal_strlit("admin:update:status");
        lemma_mismatch("admin:update:status"@, d, 7);
        reveal_strlit("admin:update:rollback");
        lemma_mismatch("admin:update:rollback"@, d, 7);
        reveal_strlit("admin:create");
        lemma_mismatch("admin:create"@, d, 6);
        reveal_strlit("admin:owners");
        lemma_mismatch("admin:owners"@, d, 6);
        reveal_strlit("admin:finance");
        lemma_mismatch("admin:finance"@, d, 6);
        reveal_strlit("admin:support");
        lemma_mismatch("admin:support"@, d, 6);
        reveal_strlit("admin:broadcast");
        lemma_mismatch("admin:broadcast"@, d, 6);
        reveal_strlit("admin:broadcast:templates");
        lemma_mismatch("admin:broadcast:templates"@, d, 6);
        reveal_strlit("admin:help");
        lemma_mismatch("admin:help"@, d, 6);
        reveal_strlit("admin:search");
        lemma_mismatch("admin:search"@, d, 6);
        reveal_strlit("admin:roles");
        lemma_mismatch("admin:roles"@, d, 6);
        reveal_strlit("add");
        lemma_mismatch("add"@, d, 2);
        reveal_strlit("addbulk");
        lemma_mismatch("addbulk"@, d, 2);
        reveal_strlit("admin:bulk:confirm");
        lemma_mismatch("admin:bulk:confirm"@, d, 6);
        reveal_strlit("admin:promos");
        lemma_mismatch("admin:promos"@, d, 6);
        reveal_strlit("admin:commerce");
        lemma_mismatch("admin:commerce"@, d, 6);
        reveal_strlit("admin:prices:rub");
        lemma_mismatch("admin:prices:rub"@, d, 6);
        reveal_strlit("admin:prices:stars");
        lemma_mismatch("admin:prices:stars"@, d, 6);
        reveal_strlit("admin:referral");
        lemma_mismatch("admin:referral"@, d, 6);
        reveal_strlit("admin:legacy");
        lemma_mismatch("admin:legacy"@, d, 6);
        reveal_strlit("admin:operations");
        lemma_mismatch("admin:operations"@, d, 6);
        reveal_strlit("admin:operations:refresh");
        lemma_mismatch("admin:operations:refresh"@, d, 6);
        reveal_strlit("admin:operations:ack");
        lemma_mismatch("admin:operations:ack"@, d, 6);
        reveal_strlit("admin:keys:health");
        lemma_mismatch("admin:keys:health"@, d, 6);
        reveal_strlit("admin:db-backup");
        lemma_mismatch("admin:db-backup"@, d, 6);
        reveal_strlit("admin:db-backup-audit");
        lemma_mismatch("admin:db-backup-audit"@, d, 6);
    }
    assert(prefixed_callback_1(d) is None) by {
        reveal_strlit("admin:owners:page:");
        lemma_mismatch("admin:owners:page:"@, d, 6);
    }
    assert(prefixed_callback_2(d) is None) by {
    }
    assert(prefixed_callback_3(d) is None) by {
        reveal_strlit("admin:bulk:");
        lemma_mismatch("admin:bulk:"@, d, 6);
    }
    assert(prefixed_callback_4(d) == Some(ActionView::AdminUserNote(id))) by {
        reveal_strlit("admin:role:");
        lemma_mismatch("admin:role:"@, d, 6);
        reveal_strlit("admin:promo:");
        lemma_mismatch("admin:promo:"@, d, 6);
        reveal_strlit("admin:userblock:");
        lemma_mismatch("admin:userblock:"@, d, 10);
        reveal_strlit("admin:userkeys:");
        lemma_mismatch("admin:userkeys:"@, d, 10);
        reveal_strlit("admin:userkeys-delete-confirm:");
        lemma_mismatch("admin:userkeys-delete-confirm:"@, d, 10);
        reveal_strlit("admin:userkeys-delete:");
        lemma_mismatch("admin:userkeys-delete:"@, d, 10);
        reveal_strlit("admin:userpay:");
        lemma_mismatch("admin:userpay:"@, d, 10);
        reveal_strlit("admin:userbal:");
        lemma_mismatch("admin:userbal:"@, d, 10);
        reveal_strlit("admin:userdiscount:");
        lemma_mismatch("admin:userdiscount:"@, d, 10);
        assert("admin:usernote:"@.is_prefix_of(d));
        assert(d.skip("admin:usernote:"@.len() as int) =~= decimal(id as int));
        law_decimal_round_trip(id);
    }
}

/// Callback data `admin:user:<id>` reads back as `AdminUser` of that id.
#[verifier::spinoff_prover]
pub proof fn law_admin_user_round_trip(id: i64)
    ensures
        callback_action("admin:user:"@ + decimal(id as int)) == ActionView::AdminUser(id),
{
    let d = "admin:user:"@ + decimal(id as int);
    reveal_strlit("admin:user:");
    lemma_decimal_tail("admin:user:"@, id as int);
    lemma_exact_first_chars(d);
    lemma_prefix_first_chars(d);
    assert(exact_callback(d) is None) by {
        reveal_strlit("admin:dashboard");
        lemma_mismatch("admin:dashboard"@, d, 6);
        reveal_strlit("admin:vpn");
        lemma_mismatch("admin:vpn"@, d, 6);
        reveal_strlit("admin:servers");
        lemma_mismatch("admin:servers"@, d, 6);
        reveal_strlit("admin:keys");
        lemma_mismatch("admin:keys"@, d, 6);
        reveal_strlit("admin:users");
        lemma_mismatch("admin:users"@, d, 10);
        reveal_strlit("admin:communication");
        lemma_mismatch("admin:communication"@, d, 6);
        reveal_strlit("admin:system");
        lemma_mismatch("admin:system"@, d, 6);
        reveal_strlit("admin:update");
        lemma_mismatch("admin:update"@, d, 7);
        reveal_strlit("admin:update:run");
        lemma_mismatch("admin:update:run"@, d, 7);
        reveal_strlit("admin:update:status");
        lemma_mismatch("admin:update:status"@, d, 7);
        reveal_strlit("admin:update:rollback");
        lemma_mismatch("admin:update:rollback"@, d, 7);
        reveal_strlit("admin:create");
        lemma_mismatch("admin:create"@, d, 6);
        reveal_strlit("admin:owners");
        lemma_mismatch("admin:owners"@, d, 6);
        reveal_strlit("admin:finance");
        lemma_mismatch("admin:finance"@, d, 6);
        reveal_strlit("admin:support");
        lemma_mismatch("admin:support"@, d, 6);
        reveal_strlit("admin:broadcast");
        lemma_mismatch("admin:broadcast"@, d, 6);
        reveal_strlit("admin:broadcast:templates");
        lemma_mismatch("admin:broadcast:templates"@, d, 6);
        reveal_strlit("admin:help");
        lemma_mismatch("admin:help"@, d, 6);
        reveal_strlit("admin:search");
        lemma_mismatch("admin:search"@, d, 6);
        reveal_strlit("admin:roles");
        lemma_mismatch("admin:roles"@, d, 6);
        reveal_strlit("add");
        lemma_mismatch("add"@, d, 2);
        reveal_strlit("addbulk");
        lemma_mismatch("addbulk"@, d, 2);
        reveal_strlit("admin:bulk:confirm");
        lemma_mismatch("admin:bulk:confirm"@, d, 6);
        reveal_strlit("admin:promos");
        lemma_mismatch("admin:promos"@, d, 6);
        reveal_strlit("admin:commerce");
        lemma_mismatch("admin:commerce"@, d, 6);
        reveal_strlit("admin:prices:rub");
        lemma_mismatch("admin:prices:rub"@, d, 6);
        reveal_strlit("admin:prices:stars");
        lemma_mismatch("admin:prices:stars"@, d, 6);
        reveal_strlit("admin:referral");
        lemma_mismatch("admin:referral"@, d, 6);
        reveal_strlit("admin:legacy");
        lemma_mismatch("admin:legacy"@, d, 6);
        reveal_strlit("admin:operations");
        lemma_mismatch("admin:operations"@, d, 6);
        reveal_strlit("admin:operations:refresh");
        lemma_mismatch("admin:operations:refresh"@, d, 6);
        reveal_strlit("admin:operations:ack");
        lemma_mismatch("admin:operations:ack"@, d, 6);
        reveal_strlit("admin:keys:health");
        lemma_mismatch("admin:keys:health"@, d, 6);
        reveal_strlit("admin:db-backup");
        lemma_mismatch("admin:db-backup"@, d, 6);
        reveal_strlit("admin:db-backup-audit");
        lemma_mismatch("admin:db-backup-audit"@, d, 6);
    }
    assert(prefixed_callback_1(d) is None) by {
        reveal_strlit("admin:owners:page:");
        lemma_mismatch("admin:owners:page:"@, d, 6);
    }
    assert(prefixed_callback_2(d) is None) by {
    }
    assert(prefixed_callback_3(d) is None) by {
        reveal_strlit("admin:bulk:");
        lemma_mismatch("admin:bulk:"@, d, 6);
    }
    assert(prefixed_callback_4(d) is None) by {
        reveal_strlit("admin:role:");
        lemma_mismatch("admin:role:"@, d, 6);
        reveal_strlit("admin:promo:");
        lemma_mismatch("admin:promo:"@, d, 6);
        reveal_strlit("admin:userblock:");
        lemma_mismatch("admin:userblock:"@, d, 10);
        reveal_strlit("admin:userkeys:");
        lemma_mismatch("admin:userkeys:"@, d, 10);
        reveal_strlit("admin:userkeys-delete-confirm:");
        lemma_mismatch("admin:userkeys-delete-confirm:"@, d, 10);
        reveal_strlit("admin:userkeys-delete:");
        lemma_mismatch("admin:userkeys-delete:"@, d, 10);
        reveal_strlit("admin:userpay:");
        lemma_mismatch("admin:userpay:"@, d, 10);
        reveal_strlit("admin:userbal:");
        lemma_mismatch("admin:userbal:"@, d, 10);
        reveal_strlit("admin:userdiscount:");
        lemma_mismatch("admin:userdiscount:"@, d, 10);
        reveal_strlit("admin:usernote:");
        lemma_mismatch("admin:usernote:"@, d, 10);
    }
    assert(prefixed_callback_5(d) == Some(ActionView::AdminUser(id))) by {
        assert("admin:user:"@.is_prefix_of(d));
        assert(d.skip("admin:user:"@.len() as int) =~= decimal(id as int));
        law_decimal_round_trip(id);
    }
}

/// Callback data `legacy:req:ok:<id>` reads back as `LegacyRequestApprove` of that id.
#[verifier::spinoff_prover]
pub proof fn law_legacy_request_approve_round_trip(id: i64)
    ensures
        callback_action("legacy:req:ok:"@ + decimal(id as int)) == ActionView::LegacyRequestApprove(id),
{
    let d = "legacy:req:ok:"@ + decimal(id as int);
    reveal_strlit("legacy:req:ok:");
    lemma_decimal_tail("legacy:req:ok:"@, id as int);
    lemma_exact_first_chars(d);
    lemma_prefix_first_chars(d);
    assert(exact_callback(d) is None) by {
        reveal_strlit("list");
        lemma_mismatch("list"@, d, 1);
        reveal_strlit("legacy:request:new");
        lemma_mismatch("legacy:request:new"@, d, 10);
        reveal_strlit("legacy:promo");
        lemma_mismatch("legacy:promo"@, d, 7);
        reveal_strlit("legacy:price");
        lemma_mismatch("legacy:price"@, d, 7);
    }
    assert(prefixed_callback_1(d) is None) by {
    }
    assert(prefixed_callback_2(d) is None) by {
    }
    assert(prefixed_callback_3(d) is None) by {
    }
    assert(prefixed_callback_4(d) is None) by {
    }
    assert(prefixed_callback_5(d) == Some(ActionView::LegacyRequestApprove(id))) by {
        reveal_strlit("legacy:renew:method:");
        lemma_mismatch("legacy:renew:method:"@, d, 9);
        reveal_strlit("legacy:renew:");
        lemma_mismatch("legacy:renew:"@, d, 9);
        assert("legacy:req:ok:"@.is_prefix_of(d));
        assert(d.skip("legacy:req:ok:"@.len() as int) =~= decimal(id as int));
        law_decimal_round_trip(id);
    }
}

/// Callback data `legacy:req:no:<id>` reads back as `LegacyRequestReject` of that id.
#[verifier::spinoff_prover]
pub proof fn law_legacy_request_reject_round_trip(id: i64)
    ensures
        callback_action("legacy:req:no:"@ + decimal(id as int)) == ActionView::LegacyRequestReject(id),
{
    let d = "legacy:req:no:"@ + decimal(id as int);
    reveal_strlit("legacy:req:no:");
    lemma_decimal_tail("legacy:req:no:"@, id as int);
    lemma_exact_first_chars(d);
    lemma_prefix_first_chars(d);
    assert(exact_callback(d) is None) by {
        reveal_strlit("list");
        lemma_mismatch("list"@, d, 1);
        reveal_strlit("legacy:request:new");
        lemma_mismatch("legacy:request:new"@, d, 10);
        reveal_strlit("legacy:promo");
        lemma_mismatch("legacy:promo"@, d, 7);
        reveal_strlit("legacy:price");
        lemma_mismatch("legacy:price"@, d, 7);
    }
    assert(prefixed_callback_1(d) is None) by {
    }
    assert(prefixed_callback_2(d) is None) by {
    }
    assert(prefixed_callback_3(d) is None) by {
    }
    assert(prefixed_callback_4(d) is None) by {
    }
    assert(prefixed_callback_5(d) == Some(ActionView::LegacyRequestReject(id))) by {
        reveal_strlit("legacy:renew:method:");
        lemma_mismatch("legacy:renew:method:"@, d, 9);
        reveal_strlit("legacy:renew:");
        lemma_mismatch("legacy:renew:"@, d, 9);
        reveal_strlit("legacy:req:ok:");
        lemma_mismatch("legacy:req:ok:"@, d, 11);
        assert("legacy:req:no:"@.is_prefix_of(d));
        assert(d.skip("legacy:req:no:"@.len() as int) =~= decimal(id as int));
        law_decimal_round_trip(id);
    }
}

/// Callback data `server:maintenance:finish:<id>` reads back as `ServerMaintenanceFinish` of that id.
#[verifier::spinoff_prover]
pub proof fn law_server_maintenance_finish_round_trip(id: i64)
    ensures
        callback_action("server:maintenance:finish:"@ + decimal(id as int)) == ActionView::ServerMaintenanceFinish(id),
{
    let d = "server:maintenance:finish:"@ + decimal(id as int);
    reveal_strlit("server:maintenance:finish:");
    lemma_decimal_tail("server:maintenance:finish:"@, id as int);
    lemma_exact_first_chars(d);
    lemma_prefix_first_chars(d);
    assert(exact_callback(d) is None) by {
        reveal_strlit("server:add");
        lemma_mismatch("server:add"@, d, 7);
        reveal_strlit("server:billing");
        lemma_mismatch("server:billing"@, d, 7);
        reveal_strlit("stats");
        lemma_mismatch("stats"@, d, 1);
        reveal_strlit("settings");
        lemma_mismatch("settings"@, d, 2);
        reveal_strlit("set:payment");
        lemma_mismatch("set:payment"@, d, 2);
        reveal_strlit("set:acquiring");
        lemma_mismatch("set:acquiring"@, d, 2);
    }
    assert(prefixed_callback_1(d) is None) by {
        reveal_strlit("server:migrate:preflight:");
        lemma_mismatch("server:migrate:preflight:"@, d, 8);
        reveal_strlit("server:migrate:status:");
        lemma_mismatch("server:migrate:status:"@, d, 8);
        reveal_strlit("server:migrate:test:");
        lemma_mismatch("server:migrate:test:"@, d, 8);
        reveal_strlit("server:migrate:approve:");
        lemma_mismatch("server:migrate:approve:"@, d, 8);
        reveal_strlit("server:migrate:ask:");
        lemma_mismatch("server:migrate:ask:"@, d, 8);
        reveal_strlit("server:migrate:run:");
        lemma_mismatch("server:migrate:run:"@, d, 8);
        reveal_strlit("server:migrate:rollback:");
        lemma_mismatch("server:migrate:rollback:"@, d, 8);
        reveal_strlit("server:migrate:");
        lemma_mismatch("server:migrate:"@, d, 8);
    }
    assert(prefixed_callback_2(d) is None) by {
    }
    assert(prefixed_callback_3(d) is None) by {
        reveal_strlit("support:take:");
        lemma_mismatch("support:take:"@, d, 1);
        reveal_strlit("support:new:");
        lemma_mismatch("support:new:"@, d, 1);
        reveal_strlit("support:reply:");
        lemma_mismatch("support:reply:"@, d, 1);
        reveal_strlit("support:close:");
        lemma_mismatch("support:close:"@, d, 1);
        reveal_strlit("support:priority:");
        lemma_mismatch("support:priority:"@, d, 1);
        reveal_strlit("support:rate:");
        lemma_mismatch("support:rate:"@, d, 1);
        reveal_strlit("support:ticket:");
        lemma_mismatch("support:ticket:"@, d, 1);
        reveal_strlit("support:filter:");
        lemma_mismatch("support:filter:"@, d, 1);
    }
    assert(prefixed_callback_4(d) is None) by {
    }
    assert(prefixed_callback_5(d) == Some(ActionView::ServerMaintenanceFinish(id))) by {
        reveal_strlit("stats:");
        lemma_mismatch("stats:"@, d, 1);
        assert("server:maintenance:finish:"@.is_prefix_of(d));
        assert(d.skip("server:maintenance:finish:"@.len() as int) =~= decimal(id as int));
        law_decimal_round_trip(id);
    }
}

/// Callback data `server:maintenance:<id>` reads back as `ServerMaintenanceAsk` of that id.
#[verifier::spinoff_prover]
pub proof fn law_server_maintenance_ask_round_trip(id: i64)
    ensures
        callback_action("server:maintenance:"@ + decimal(id as int)) == ActionView::ServerMaintenanceAsk(id),
{
    let d = "server:maintenance:"@ + decimal(id as int);
    reveal_strlit("server:maintenance:");
    lemma_decimal_tail("server:maintenance:"@, id as int);
    lemma_exact_first_chars(d);
    lemma_prefix_first_chars(d);
    assert(exact_callback(d) is None) by {
        reveal_strlit("server:add");
        lemma_mismatch("server:add"@, d, 7);
        reveal_strlit("server:billing");
        lemma_mismatch("server:billing"@, d, 7);
        reveal_strlit("stats");
        lemma_mismatch("stats"@, d, 1);
        reveal_strlit("settings");
        lemma_mismatch("settings"@, d, 2);
        reveal_strlit("set:payment");
        lemma_mismatch("set:payment"@, d, 2);
        reveal_strlit("set:acquiring");
        lemma_mismatch("set:acquiring"@, d, 2);
    }
    assert(prefixed_callback_1(d) is None) by {
        reveal_strlit("server:migrate:preflight:");
        lemma_mismatch("server:migrate:preflight:"@, d, 8);
        reveal_strlit("server:migrate:status:");
        lemma_mismatch("server:migrate:status:"@, d, 8);
        reveal_strlit("server:migrate:test:");
        lemma_mismatch("server:migrate:test:"@, d, 8);
        reveal_strlit("server:migrate:approve:");
        lemma_mismatch("server:migrate:approve:"@, d, 8);
        reveal_strlit("server:migrate:ask:");
        lemma_mismatch("server:migrate:ask:"@, d, 8);
        reveal_strlit("server:migrate:run:");
        lemma_mismatch("server:migrate:run:"@, d, 8);
        reveal_strlit("server:migrate:rollback:");
        lemma_mismatch("server:migrate:rollback:"@, d, 8);
        reveal_strlit("server:migrate:");
        lemma_mismatch("server:migrate:"@, d, 8);
    }
    assert(prefixed_callback_2(d) is None) by {
    }
    assert(prefixed_callback_3(d) is None) by {
        reveal_strlit("support:take:");
        lemma_mismatch("support:take:"@, d, 1);
        reveal_strlit("support:new:");
        lemma_mismatch("support:new:"@, d, 1);
        reveal_strlit("support:reply:");
        lemma_mismatch("support:reply:"@, d, 1);
        reveal_strlit("support:close:");
        lemma_mismatch("support:close:"@, d, 1);
        reveal_strlit("support:priority:");
        lemma_mismatch("support:priority:"@, d, 1);
        reveal_strlit("support:rate:");
        lemma_mismatch("support:rate:"@, d, 1);
        reveal_strlit("support:ticket:");
        lemma_mismatch("support:ticket:"@, d, 1);
        reveal_strlit("support:filter:");
        lemma_mismatch("support:filter:"@, d, 1);
    }
    assert(prefixed_callback_4(d) is None) by {
    }
    assert(prefixed_callback_5(d) == Some(ActionView::ServerMaintenanceAsk(id))) by {
        reveal_strlit("stats:");
        lemma_mismatch("stats:"@, d, 1);
        reveal_strlit("server:maintenance:finish:");
        lemma_mismatch("server:maintenance:finish:"@, d, 19);
        assert("server:maintenance:"@.is_prefix_of(d));
        assert(d.skip("server:maintenance:"@.len() as int) =~= decimal(id as int));
        law_decimal_round_trip(id);
    }
}

/// Callback data `server:bill:<id>` reads back as `ServerBillingAsk` of that id.
#[verifier::spinoff_prover]
pub proof fn law_server_billing_ask_round_trip(id: i64)
    ensures
        callback_action("server:bill:"@ + decimal(id as int)) == ActionView::ServerBillingAsk(id),
{
    let d = "server:bill:"@ + decimal(id as int);
    reveal_strlit("server:bill:");
    lemma_decimal_tail("server:bill:"@, id as int);
    lemma_exact_first_chars(d);
    lemma_prefix_first_chars(d);
    assert(exact_callback(d) is None) by {
        reveal_strlit("server:add");
        lemma_mismatch("server:add"@, d, 7);
        reveal_strlit("server:billing");
        lemma_mismatch("server:billing"@, d, 11);
        reveal_strlit("stats");
        lemma_mismatch("stats"@, d, 1);
        reveal_strlit("settings");
        lemma_mismatch("settings"@, d, 2);
        reveal_strlit("set:payment");
        lemma_mismatch("set:payment"@, d, 2);
        reveal_strlit("set:acquiring");
        lemma_mismatch("set:acquiring"@, d, 2);
    }
    assert(prefixed_callback_1(d) is None) by {
        reveal_strlit("server:migrate:preflight:");
        lemma_mismatch("server:migrate:preflight:"@, d, 7);
        reveal_strlit("server:migrate:status:");
        lemma_mismatch("server:migrate:status:"@, d, 7);
        reveal_strlit("server:migrate:test:");
        lemma_mismatch("server:migrate:test:"@, d, 7);
        reveal_strlit("server:migrate:approve:");
        lemma_mismatch("server:migrate:approve:"@, d, 7);
        reveal_strlit("server:migrate:ask:");
        lemma_mismatch("server:migrate:ask:"@, d, 7);
        reveal_strlit("server:migrate:run:");
        lemma_mismatch("server:migrate:run:"@, d, 7);
        reveal_strlit("server:migrate:rollback:");
        lemma_mismatch("server:migrate:rollback:"@, d, 7);
        reveal_strlit("server:migrate:");
        lemma_mismatch("server:migrate:"@, d, 7);
    }
    assert(prefixed_callback_2(d) is None) by {
    }
    assert(prefixed_callback_3(d) is None) by {
        reveal_strlit("support:take:");
        lemma_mismatch("support:take:"@, d, 1);
        reveal_strlit("support:new:");
        lemma_mismatch("support:new:"@, d, 1);
        reveal_strlit("support:reply:");
        lemma_mismatch("support:reply:"@, d, 1);
        reveal_strlit("support:close:");
        lemma_mismatch("support:close:"@, d, 1);
        reveal_strlit("support:priority:");
        lemma_mismatch("support:priority:"@, d, 1);
        reveal_strlit("support:rate:");
        lemma_mismatch("support:rate:"@, d, 1);
        reveal_strlit("support:ticket:");
        lemma_mismatch("support:ticket:"@, d, 1);
        reveal_strlit("support:filter:");
        lemma_mismatch("support:filter:"@, d, 1);
    }
    assert(prefixed_callback_4(d) is None) by {
    }
    assert(prefixed_callback_5(d) == Some(ActionView::ServerBillingAsk(id))) by {
        reveal_strlit("stats:");
        lemma_mismatch("stats:"@, d, 1);
        reveal_strlit("server:maintenance:finish:");
        lemma_mismatch("server:maintenance:finish:"@, d, 7);
        reveal_strlit("server:maintenance:");
        lemma_mismatch("server:maintenance:"@, d, 7);
        assert("server:bill:"@.is_prefix_of(d));
        assert(d.skip("server:bill:"@.len() as int) =~= decimal(id as int));
        law_decimal_round_trip(id);
    }
}

/// Callback data `server:edit:<id>` reads back as `ServerPassportAsk` of that id.
#[verifier::spinoff_prover]
pub proof fn law_server_passport_ask_round_trip(id: i64)
    ensures
        callback_action("server:edit:"@ + decimal(id as int)) == ActionView::ServerPassportAsk(id),
{
    let d = "server:edit:"@ + decimal(id as int);
    reveal_strlit("server:edit:");
    lemma_decimal_tail("server:edit:"@, id as int);
    lemma_exact_first_chars(d);
    lemma_prefix_first_chars(d);
    assert(exact_callback(d) is None) by {
        reveal_strlit("server:add");
        lemma_mismatch("server:add"@, d, 7);
        reveal_strlit("server:billing");
        lemma_mismatch("server:billing"@, d, 7);
        reveal_strlit("stats");
        lemma_mismatch("stats"@, d, 1);
        reveal_strlit("settings");
        lemma_mismatch("settings"@, d, 2);
        reveal_strlit("set:payment");
        lemma_mismatch("set:payment"@, d, 2);
        reveal_strlit("set:acquiring");
        lemma_mismatch("set:acquiring"@, d, 2);
    }
    assert(prefixed_callback_1(d) is None) by {
        reveal_strlit("server:migrate:preflight:");
        lemma_mismatch("server:migrate:preflight:"@, d, 7);
        reveal_strlit("server:migrate:status:");
        lemma_mismatch("server:migrate:status:"@, d, 7);
        reveal_strlit("server:migrate:test:");
        lemma_mismatch("server:migrate:test:"@, d, 7);
        reveal_strlit("server:migrate:approve:");
        lemma_mismatch("server:migrate:approve:"@, d, 7);
        reveal_strlit("server:migrate:ask:");
        lemma_mismatch("server:migrate:ask:"@, d, 7);
        reveal_strlit("server:migrate:run:");
        lemma_mismatch("server:migrate:run:"@, d, 7);
        reveal_strlit("server:migrate:rollback:");
        lemma_mismatch("server:migrate:rollback:"@, d, 7);
        reveal_strlit("server:migrate:");
        lemma_mismatch("server:migrate:"@, d, 7);
    }
    assert(prefixed_callback_2(d) is None) by {
    }
    assert(prefixed_callback_3(d) is None) by {
        reveal_strlit("support:take:");
        lemma_mismatch("support:take:"@, d, 1);
        reveal_strlit("support:new:");
        lemma_mismatch("support:new:"@, d, 1);
        reveal_strlit("support:reply:");
        lemma_mismatch("support:reply:"@, d, 1);
        reveal_strlit("support:close:");
        lemma_mismatch("support:close:"@, d, 1);
        reveal_strlit("support:priority:");
        lemma_mismatch("support:priority:"@, d, 1);
        reveal_strlit("support:rate:");
        lemma_mismatch("support:rate:"@, d, 1);
        reveal_strlit("support:ticket:");
        lemma_mismatch("support:ticket:"@, d, 1);
        reveal_strlit("support:filter:");
        lemma_mismatch("support:filter:"@, d, 1);
    }
    assert(prefixed_callback_4(d) is None) by {
    }
    assert(prefixed_callback_5(d) == Some(ActionView::ServerPassportAsk(id))) by {
        reveal_strlit("stats:");
        lemma_mismatch("stats:"@, d, 1);
        reveal_strlit("server:maintenance:finish:");
        lemma_mismatch("server:maintenance:finish:"@, d, 7);
        reveal_strlit("server:maintenance:");
        lemma_mismatch("server:maintenance:"@, d, 7);
        reveal_strlit("server:bill:");
        lemma_mismatch("server:bill:"@, d, 7);
        assert("server:edit:"@.is_prefix_of(d));
        assert(d.skip("server:edit:"@.len() as int) =~= decimal(id as int));
        law_decimal_round_trip(id);
    }
}

/// Callback data `server:enroll:revoke:<id>` reads back as `ServerEnrollRevoke` of that id.
#[verifier::spinoff_prover]
pub proof fn law_server_enroll_revoke_round_trip(id: i64)
    ensures
        callback_action("server:enroll:revoke:"@ + decimal(id as int)) == ActionView::ServerEnrollRevoke(id),
{
    let d = "server:enroll:revoke:"@ + decimal(id as int);
    reveal_strlit("server:enroll:revoke:");
    lemma_decimal_tail("server:enroll:revoke:"@, id as int);
    lemma_exact_first_chars(d);
    lemma_prefix_first_chars(d);
    assert(exact_callback(d) is None) by {
        reveal_strlit("server:add");
        lemma_mismatch("server:add"@, d, 7);
        reveal_strlit("server:billing");
        lemma_mismatch("server:billing"@, d, 7);
        reveal_strlit("stats");
        lemma_mismatch("stats"@, d, 1);
        reveal_strlit("settings");
        lemma_mismatch("settings"@, d, 2);
        reveal_strlit("set:payment");
        lemma_mismatch("set:payment"@, d, 2);
        reveal_strlit("set:acquiring");
        lemma_mismatch("set:acquiring"@, d, 2);
    }
    assert(prefixed_callback_1(d) is None) by {
        reveal_strlit("server:migrate:preflight:");
        lemma_mismatch("server:migrate:preflight:"@, d, 7);
        reveal_strlit("server:migrate:status:");
        lemma_mismatch("server:migrate:status:"@, d, 7);
        reveal_strlit("server:migrate:test:");
        lemma_mismatch("server:migrate:test:"@, d, 7);
        reveal_strlit("server:migrate:approve:");
        lemma_mismatch("server:migrate:approve:"@, d, 7);
        reveal_strlit("server:migrate:ask:");
        lemma_mismatch("server:migrate:ask:"@, d, 7);
        reveal_strlit("server:migrate:run:");
        lemma_mismatch("server:migrate:run:"@, d, 7);
        reveal_strlit("server:migrate:rollback:");
        lemma_mismatch("server:migrate:rollback:"@, d, 7);
        reveal_strlit("server:migrate:");
        lemma_mismatch("server:migrate:"@, d, 7);
    }
    assert(prefixed_callback_2(d) is None) by {
    }
    assert(prefixed_callback_3(d) is None) by {
        reveal_strlit("support:take:");
        lemma_mismatch("support:take:"@, d, 1);
        reveal_strlit("support:new:");
        lemma_mismatch("support:new:"@, d, 1);
        reveal_strlit("support:reply:");
        lemma_mismatch("support:reply:"@, d, 1);
        reveal_strlit("support:close:");
        lemma_mismatch("support:close:"@, d, 1);
        reveal_strlit("support:priority:");
        lemma_mismatch("support:priority:"@, d, 1);
        reveal_strlit("support:rate:");
        lemma_mismatch("support:rate:"@, d, 1);
        reveal_strlit("support:ticket:");
        lemma_mismatch("support:ticket:"@, d, 1);
        reveal_strlit("support:filter:");
        lemma_mismatch("support:filter:"@, d, 1);
    }
    assert(prefixed_callback_4(d) is None) by {
    }
    assert(prefixed_callback_5(d) == Some(ActionView::ServerEnrollRevoke(id))) by {
        reveal_strlit("stats:");
        lemma_mismatch("stats:"@, d, 1);
        reveal_strlit("server:maintenance:finish:");
        lemma_mismatch("server:maintenance:finish:"@, d, 7);
        reveal_strlit("server:maintenance:");
        lemma_mismatch("server:maintenance:"@, d, 7);
        reveal_strlit("server:bill:");
        lemma_mismatch("server:bill:"@, d, 7);
        reveal_strlit("server:edit:");
        lemma_mismatch("server:edit:"@, d, 8);
        assert("server:enroll:revoke:"@.is_prefix_of(d));
        assert(d.skip("server:enroll:revoke:"@.len() as int) =~= decimal(id as int));
        law_decimal_round_trip(id);
    }
}

/// Callback data `server:default:<id>` reads back as `ServerSetDefault` of that id.
#[verifier::spinoff_prover]
pub proof fn law_server_set_default_round_trip(id: i64)
    ensures
        callback_action("server:default:"@ + decimal(id as int)) == ActionView::ServerSetDefault(id),
{
    let d = "server:default:"@ + decimal(id as int);
    reveal_strlit("server:default:");
    lemma_decimal_tail("server:default:"@, id as int);
    lemma_exact_first_chars(d);
    lemma_prefix_first_chars(d);
    assert(exact_callback(d) is None) by {
        reveal_strlit("server:add");
        lemma_mismatch("server:add"@, d, 7);
        reveal_strlit("server:billing");
        lemma_mismatch("server:billing"@, d, 7);
        reveal_strlit("stats");
        lemma_mismatch("stats"@, d, 1);
        reveal_strlit("settings");
        lemma_mismatch("settings"@, d, 2);
        reveal_strlit("set:payment");
        lemma_mismatch("set:payment"@, d, 2);
        reveal_strlit("set:acquiring");
        lemma_mismatch("set:acquiring"@, d, 2);
    }
    assert(prefixed_callback_1(d) is None) by {
        reveal_strlit("server:migrate:preflight:");
        lemma_mismatch("server:migrate:preflight:"@, d, 7);
        reveal_strlit("server:migrate:status:");
        lemma_mismatch("server:migrate:status:"@, d, 7);
        reveal_strlit("server:migrate:test:");
        lemma_mismatch("server:migrate:test:"@, d, 7);
        reveal_strlit("server:migrate:approve:");
        lemma_mismatch("server:migrate:approve:"@, d, 7);
        reveal_strlit("server:migrate:ask:");
        lemma_mismatch("server:migrate:ask:"@, d, 7);
        reveal_strlit("server:migrate:run:");
        lemma_mismatch("server:migrate:run:"@, d, 7);
        reveal_strlit("server:migrate:rollback:");
        lemma_mismatch("server:migrate:rollback:"@, d, 7);
        reveal_strlit("server:migrate:");
        lemma_mismatch("server:migrate:"@, d, 7);
    }
    assert(prefixed_callback_2(d) is None) by {
    }
    assert(prefixed_callback_3(d) is None) by {
        reveal_strlit("support:take:");
        lemma_mismatch("support:take:"@, d, 1);
        reveal_strlit("support:new:");
        lemma_mismatch("support:new:"@, d, 1);
        reveal_strlit("support:reply:");
        lemma_mismatch("support:reply:"@, d, 1);
        reveal_strlit("support:close:");
        lemma_mismatch("support:close:"@, d, 1);
        reveal_strlit("support:priority:");
        lemma_mismatch("support:priority:"@, d, 1);
        reveal_strlit("support:rate:");
        lemma_mismatch("support:rate:"@, d, 1);
        reveal_strlit("support:ticket:");
        lemma_mismatch("support:ticket:"@, d, 1);
        reveal_strlit("support:filter:");
        lemma_mismatch("support:filter:"@, d, 1);
    }
    assert(prefixed_callback_4(d) is None) by {
    }
    assert(prefixed_callback_5(d) is None) by {
        reveal_strlit("stats:");
        lemma_mismatch("stats:"@, d, 1);
        reveal_strlit("server:maintenance:finish:");
        lemma_mismatch("server:maintenance:finish:"@, d, 7);
        reveal_strlit("server:maintenance:");
        lemma_mismatch("server:maintenance:"@, d, 7);
        reveal_strlit("server:bill:");
        lemma_mismatch("server:bill:"@, d, 7);
        reveal_strlit("server:edit:");
        lemma_mismatch("server:edit:"@, d, 7);
        reveal_strlit("server:enroll:revoke:");
        lemma_mismatch("server:enroll:revoke:"@, d, 7);
    }
    assert(prefixed_callback_6(d) == Some(ActionView::ServerSetDefault(id))) by {
        assert("server:default:"@.is_prefix_of(d));
        assert(d.skip("server:default:"@.len() as int) =~= decimal(id as int));
        law_decimal_round_trip(id);
    }
}

/// Callback data `server:deploy:<id>` reads back as `ServerDeployAsk` of that id.
#[verifier::spinoff_prover]
pub proof fn law_server_deploy_ask_round_trip(id: i64)
    ensures
        callback_action("server:deploy:"@ + decimal(id as int)) == ActionView::ServerDeployAsk(id),
{
    let d = "server:deploy:"@ + decimal(id as int);
    reveal_strlit("server:deploy:");
    lemma_decimal_tail("server:deploy:"@, id as int);
    lemma_exact_first_chars(d);
    lemma_prefix_first_chars(d);
    assert(exact_callback(d) is None) by {
        reveal_strlit("server:add");
        lemma_mismatch("server:add"@, d, 7);
        reveal_strlit("server:billing");
        lemma_mismatch("server:billing"@, d, 7);
        reveal_strlit("stats");
        lemma_mismatch("stats"@, d, 1);
        reveal_strlit("settings");
        lemma_mismatch("settings"@, d, 2);
        reveal_strlit("set:payment");
        lemma_mismatch("set:payment"@, d, 2);
        reveal_strlit("set:acquiring");
        lemma_mismatch("set:acquiring"@, d, 2);
    }
    assert(prefixed_callback_1(d) is None) by {
        reveal_strlit("server:migrate:preflight:");
        lemma_mismatch("server:migrate:preflight:"@, d, 7);
        reveal_strlit("server:migrate:status:");
        lemma_mismatch("server:migrate:status:"@, d, 7);
        reveal_strlit("server:migrate:test:");
        lemma_mismatch("server:migrate:test:"@, d, 7);
        reveal_strlit("server:migrate:approve:");
        lemma_mismatch("server:migrate:approve:"@, d, 7);
        reveal_strlit("server:migrate:ask:");
        lemma_mismatch("server:migrate:ask:"@, d, 7);
        reveal_strlit("server:migrate:run:");
        lemma_mismatch("server:migrate:run:"@, d, 7);
        reveal_strlit("server:migrate:rollback:");
        lemma_mismatch("server:migrate:rollback:"@, d, 7);
        reveal_strlit("server:migrate:");
        lemma_mismatch("server:migrate:"@, d, 7);
    }
    assert(prefixed_callback_2(d) is None) by {
    }
    assert(prefixed_callback_3(d) is None) by {
        reveal_strlit("support:take:");
        lemma_mismatch("support:take:"@, d, 1);
        reveal_strlit("support:new:");
        lemma_mismatch("support:new:"@, d, 1);
        reveal_strlit("support:reply:");
        lemma_mismatch("support:reply:"@, d, 1);
        reveal_strlit("support:close:");
        lemma_mismatch("support:close:"@, d, 1);
        reveal_strlit("support:priority:");
        lemma_mismatch("support:priority:"@, d, 1);
        reveal_strlit("support:rate:");
        lemma_mismatch("support:rate:"@, d, 1);
        reveal_strlit("support:ticket:");
        lemma_mismatch("support:ticket:"@, d, 1);
        reveal_strlit("support:filter:");
        lemma_mismatch("support:filter:"@, d, 1);
    }
    assert(prefixed_callback_4(d) is None) by {
    }
    assert(prefixed_callback_5(d) is None) by {
        reveal_strlit("stats:");
        lemma_mismatch("stats:"@, d, 1);
        reveal_strlit("server:maintenance:finish:");
        lemma_mismatch("server:maintenance:finish:"@, d, 7);
        reveal_strlit("server:maintenance:");
        lemma_mismatch("server:maintenance:"@, d, 7);
        reveal_strlit("server:bill:");
        lemma_mismatch("server:bill:"@, d, 7);
        reveal_strlit("server:edit:");
        lemma_mismatch("server:edit:"@, d, 7);
        reveal_strlit("server:enroll:revoke:");
        lemma_mismatch("server:enroll:revoke:"@, d, 7);
    }
    assert(prefixed_callback_6(d) == Some(ActionView::ServerDeployAsk(id))) by {
        reveal_strlit("server:default:");
        lemma_mismatch("server:default:"@, d, 9);
        assert("server:deploy:"@.is_prefix_of(d));
        assert(d.skip("server:deploy:"@.len() as int) =~= decimal(id as int));
        law_decimal_round_trip(id);
    }
}

/// Callback data `server:check:<id>` reads back as `ServerCheck` of that id.
#[verifier::spinoff_prover]
pub proof fn law_server_check_round_trip(id: i64)
    ensures
        callback_action("server:check:"@ + decimal(id as int)) == ActionView::ServerCheck(id),
{
    let d = "server:check:"@ + decimal(id as int);
    reveal_strlit("server:check:");
    lemma_decimal_tail("server:check:"@, id as int);
    lemma_exact_first_chars(d);
    lemma_prefix_first_chars(d);
    assert(exact_callback(d) is None) by {
        reveal_strlit("server:add");
        lemma_mismatch("server:add"@, d, 7);
        reveal_strlit("server:billing");
        lemma_mismatch("server:billing"@, d, 7);
        reveal_strlit("stats");
        lemma_mismatch("stats"@, d, 1);
        reveal_strlit("settings");
        lemma_mismatch("settings"@, d, 2);
        reveal_strlit("set:payment");
        lemma_mismatch("set:payment"@, d, 2);
        reveal_strlit("set:acquiring");
        lemma_mismatch("set:acquiring"@, d, 2);
    }
    assert(prefixed_callback_1(d) is None) by {
        reveal_strlit("server:migrate:preflight:");
        lemma_mismatch("server:migrate:preflight:"@, d, 7);
        reveal_strlit("server:migrate:status:");
        lemma_mismatch("server:migrate:status:"@, d, 7);
        reveal_strlit("server:migrate:test:");
        lemma_mismatch("server:migrate:test:"@, d, 7);
        reveal_strlit("server:migrate:approve:");
        lemma_mismatch("server:migrate:approve:"@, d, 7);
        reveal_strlit("server:migrate:ask:");
        lemma_mismatch("server:migrate:ask:"@, d, 7);
        reveal_strlit("server:migrate:run:");
        lemma_mismatch("server:migrate:run:"@, d, 7);
        reveal_strlit("server:migrate:rollback:");
        lemma_mismatch("server:migrate:rollback:"@, d, 7);
        reveal_strlit("server:migrate:");
        lemma_mismatch("server:migrate:"@, d, 7);
    }
    assert(prefixed_callback_2(d) is None) by {
    }
    assert(prefixed_callback_3(d) is None) by {
        reveal_strlit("support:take:");
        lemma_mismatch("support:take:"@, d, 1);
        reveal_strlit("support:new:");
        lemma_mismatch("support:new:"@, d, 1);
        reveal_strlit("support:reply:");
        lemma_mismatch("support:reply:"@, d, 1);
        reveal_strlit("support:close:");
        lemma_mismatch("support:close:"@, d, 1);
        reveal_strlit("support:priority:");
        lemma_mismatch("support:priority:"@, d, 1);
        reveal_strlit("support:rate:");
        lemma_mismatch("support:rate:"@, d, 1);
        reveal_strlit("support:ticket:");
        lemma_mismatch("support:ticket:"@, d, 1);
        reveal_strlit("support:filter:");
        lemma_mismatch("support:filter:"@, d, 1);
    }
    assert(prefixed_callback_4(d) is None) by {
    }
    assert(prefixed_callback_5(d) is None) by {
        reveal_strlit("stats:");
        lemma_mismatch("stats:"@, d, 1);
        reveal_strlit("server:maintenance:finish:");
        lemma_mismatch("server:maintenance:finish:"@, d, 7);
        reveal_strlit("server:maintenance:");
        lemma_mismatch("server:maintenance:"@, d, 7);
        reveal_strlit("server:bill:");
        lemma_mismatch("server:bill:"@, d, 7);
        reveal_strlit("server:edit:");
        lemma_mismatch("server:edit:"@, d, 7);
        reveal_strlit("server:enroll:revoke:");
        lemma_mismatch("server:enroll:revoke:"@, d, 7);
    }
    assert(prefixed_callback_6(d) == Some(ActionView::ServerCheck(id))) by {
        reveal_strlit("server:default:");
        lemma_mismatch("server:default:"@, d, 7);
        reveal_strlit("server:deploy:");
        lemma_mismatch("server:deploy:"@, d, 7);
        assert("server:check:"@.is_prefix_of(d));
        assert(d.skip("server:check:"@.len() as int) =~= decimal(id as int));
        law_decimal_round_trip(id);
    }
}

/// Callback data `server:diagnose:<id>` reads back as `ServerDiagnose` of that id.
#[verifier::spinoff_prover]
pub proof fn law_server_diagnose_round_trip(id: i64)
    ensures
        callback_action("server:diagnose:"@ + decimal(id as int)) == ActionView::ServerDiagnose(id),
{
    let d = "server:diagnose:"@ + decimal(id as int);
    reveal_strlit("server:diagnose:");
    lemma_decimal_tail("server:diagnose:"@, id as int);
    lemma_exact_first_chars(d);
    lemma_prefix_first_chars(d);
    assert(exact_callback(d) is None) by {
        reveal_strlit("server:add");
        lemma_mismatch("server:add"@, d, 7);
        reveal_strlit("server:billing");
        lemma_mismatch("server:billing"@, d, 7);
        reveal_strlit("stats");
        lemma_mismatch("stats"@, d, 1);
        reveal_strlit("settings");
        lemma_mismatch("settings"@, d, 2);
        reveal_strlit("set:payment");
        lemma_mismatch("set:payment"@, d, 2);
        reveal_strlit("set:acquiring");
        lemma_mismatch("set:acquiring"@, d, 2);
    }
    assert(prefixed_callback_1(d) is None) by {
        reveal_strlit("server:migrate:preflight:");
        lemma_mismatch("server:migrate:preflight:"@, d, 7);
        reveal_strlit("server:migrate:status:");
        lemma_mismatch("server:migrate:status:"@, d, 7);
        reveal_strlit("server:migrate:test:");
        lemma_mismatch("server:migrate:test:"@, d, 7);
        reveal_strlit("server:migrate:approve:");
        lemma_mismatch("server:migrate:approve:"@, d, 7);
        reveal_strlit("server:migrate:ask:");
        lemma_mismatch("server:migrate:ask:"@, d, 7);
        reveal_strlit("server:migrate:run:");
        lemma_mismatch("server:migrate:run:"@, d, 7);
        reveal_strlit("server:migrate:rollback:");
        lemma_mismatch("server:migrate:rollback:"@, d, 7);
        reveal_strlit("server:migrate:");
        lemma_mismatch("server:migrate:"@, d, 7);
    }
    assert(prefixed_callback_2(d) is None) by {
    }
    assert(prefixed_callback_3(d) is None) by {
        reveal_strlit("support:take:");
        lemma_mismatch("support:take:"@, d, 1);
        reveal_strlit("support:new:");
        lemma_mismatch("support:new:"@, d, 1);
        reveal_strlit("support:reply:");
        lemma_mismatch("support:reply:"@, d, 1);
        reveal_strlit("support:close:");
        lemma_mismatch("support:close:"@, d, 1);
        reveal_strlit("support:priority:");
        lemma_mismatch("support:priority:"@, d, 1);
        reveal_strlit("support:rate:");
        lemma_mismatch("support:rate:"@, d, 1);
        reveal_strlit("support:ticket:");
        lemma_mismatch("support:ticket:"@, d, 1);
        reveal_strlit("support:filter:");
        lemma_mismatch("support:filter:"@, d, 1);
    }
    assert(prefixed_callback_4(d) is None) by {
    }
    assert(prefixed_callback_5(d) is None) by {
        reveal_strlit("stats:");
        lemma_mismatch("stats:"@, d, 1);
        reveal_strlit("server:maintenance:finish:");
        lemma_mismatch("server:maintenance:finish:"@, d, 7);
        reveal_strlit("server:maintenance:");
        lemma_mismatch("server:maintenance:"@, d, 7);
        reveal_strlit("server:bill:");
        lemma_mismatch("server:bill:"@, d, 7);
        reveal_strlit("server:edit:");
        lemma_mismatch("server:edit:"@, d, 7);
        reveal_strlit("server:enroll:revoke:");
        lemma_mismatch("server:enroll:revoke:"@, d, 7);
    }
    assert(prefixed_callback_6(d) == Some(ActionView::ServerDiagnose(id))) by {
        reveal_strlit("server:default:");
        lemma_mismatch("server:default:"@, d, 8);
        reveal_strlit("server:deploy:");
        lemma_mismatch("server:deploy:"@, d, 8);
        reveal_strlit("server:check:");
        lemma_mismatch("server:check:"@, d, 7);
        assert("server:diagnose:"@.is_prefix_of(d));
        assert(d.skip("server:diagnose:"@.len() as int) =~= decimal(id as int));
        law_decimal_round_trip(id);
    }
}

/// Callback data `server:probe:<id>` reads back as `ServerProvisioningProbe` of that id.
#[verifier::spinoff_prover]
pub proof fn law_server_provisioning_probe_round_trip(id: i64)
    ensures
        callback_action("server:probe:"@ + decimal(id as int)) == ActionView::ServerProvisioningProbe(id),
{
    let d = "server:probe:"@ + decimal(id as int);
    reveal_strlit("server:probe:");
    lemma_decimal_tail("server:probe:"@, id as int);
    lemma_exact_first_chars(d);
    lemma_prefix_first_chars(d);
    assert(exact_callback(d) is None) by {
        reveal_strlit("server:add");
        lemma_mismatch("server:add"@, d, 7);
        reveal_strlit("server:billing");
        lemma_mismatch("server:billing"@, d, 7);
        reveal_strlit("stats");
        lemma_mismatch("stats"@, d, 1);
        reveal_strlit("settings");
        lemma_mismatch("settings"@, d, 2);
        reveal_strlit("set:payment");
        lemma_mismatch("set:payment"@, d, 2);
        reveal_strlit("set:acquiring");
        lemma_mismatch("set:acquiring"@, d, 2);
    }
    assert(prefixed_callback_1(d) is None) by {
        reveal_strlit("server:migrate:preflight:");
        lemma_mismatch("server:migrate:preflight:"@, d, 7);
        reveal_strlit("server:migrate:status:");
        lemma_mismatch("server:migrate:status:"@, d, 7);
        reveal_strlit("server:migrate:test:");
        lemma_mismatch("server:migrate:test:"@, d, 7);
        reveal_strlit("server:migrate:approve:");
        lemma_mismatch("server:migrate:approve:"@, d, 7);
        reveal_strlit("server:migrate:ask:");
        lemma_mismatch("server:migrate:ask:"@, d, 7);
        reveal_strlit("server:migrate:run:");
        lemma_mismatch("server:migrate:run:"@, d, 7);
        reveal_strlit("server:migrate:rollback:");
        lemma_mismatch("server:migrate:rollback:"@, d, 7);
        reveal_strlit("server:migrate:");
        lemma_mismatch("server:migrate:"@, d, 7);
    }
    assert(prefixed_callback_2(d) is None) by {
    }
    assert(prefixed_callback_3(d) is None) by {
        reveal_strlit("support:take:");
        lemma_mismatch("support:take:"@, d, 1);
        reveal_strlit("support:new:");
        lemma_mismatch("support:new:"@, d, 1);
        reveal_strlit("support:reply:");
        lemma_mismatch("support:reply:"@, d, 1);
        reveal_strlit("support:close:");
        lemma_mismatch("support:close:"@, d, 1);
        reveal_strlit("support:priority:");
        lemma_mismatch("support:priority:"@, d, 1);
        reveal_strlit("support:rate:");
        lemma_mismatch("support:rate:"@, d, 1);
        reveal_strlit("support:ticket:");
        lemma_mismatch("support:ticket:"@, d, 1);
        reveal_strlit("support:filter:");
        lemma_mismatch("support:filter:"@, d, 1);
    }
    assert(prefixed_callback_4(d) is None) by {
    }
    assert(prefixed_callback_5(d) is None) by {
        reveal_strlit("stats:");
        lemma_mismatch("stats:"@, d, 1);
        reveal_strlit("server:maintenance:finish:");
        lemma_mismatch("server:maintenance:finish:"@, d, 7);
        reveal_strlit("server:maintenance:");
        lemma_mismatch("server:maintenance:"@, d, 7);
        reveal_strlit("server:bill:");
        lemma_mismatch("server:bill:"@, d, 7);
        reveal_strlit("server:edit:");
        lemma_mismatch("server:edit:"@, d, 7);
        reveal_strlit("server:enroll:revoke:");
        lemma_mismatch("server:enroll:revoke:"@, d, 7);
    }
    assert(prefixed_callback_6(d) == Some(ActionView::ServerProvisioningProbe(id))) by {
        reveal_strlit("server:default:");
        lemma_mismatch("server:default:"@, d, 7);
        reveal_strlit("server:deploy:");
        lemma_mismatch("server:deploy:"@, d, 7);
        reveal_strlit("server:check:");
        lemma_mismatch("server:check:"@, d, 7);
        reveal_strlit("server:diagnose:");
        lemma_mismatch("server:diagnose:"@, d, 7);
        assert("server:probe:"@.is_prefix_of(d));
        assert(d.skip("server:probe:"@.len() as int) =~= decimal(id as int));
        law_decimal_round_trip(id);
    }
}

/// Callback data `server:panel:sync:<id>` reads back as `ServerPanelSync` of that id.
#[verifier::spinoff_prover]
pub proof fn law_server_panel_sync_round_trip(id: i64)
    ensures
        callback_action("server:panel:sync:"@ + decimal(id as int)) == ActionView::ServerPanelSync(id),
{
    let d = "server:panel:sync:"@ + decimal(id as int);
    reveal_strlit("server:panel:sync:");
    lemma_decimal_tail("server:panel:sync:"@, id as int);
    lemma_exact_first_chars(d);
    lemma_prefix_first_chars(d);
    assert(exact_callback(d) is None) by {
        reveal_strlit("server:add");
        lemma_mismatch("server:add"@, d, 7);
        reveal_strlit("server:billing");
        lemma_mismatch("server:billing"@, d, 7);
        reveal_strlit("stats");
        lemma_mismatch("stats"@, d, 1);
        reveal_strlit("settings");
        lemma_mismatch("settings"@, d, 2);
        reveal_strlit("set:payment");
        lemma_mismatch("set:payment"@, d, 2);
        reveal_strlit("set:acquiring");
        lemma_mismatch("set:acquiring"@, d, 2);
    }
    assert(prefixed_callback_1(d) is None) by {
        reveal_strlit("server:migrate:preflight:");
        lemma_mismatch("server:migrate:preflight:"@, d, 7);
        reveal_strlit("server:migrate:status:");
        lemma_mismatch("server:migrate:status:"@, d, 7);
        reveal_strlit("server:migrate:test:");
        lemma_mismatch("server:migrate:test:"@, d, 7);
        reveal_strlit("server:migrate:approve:");
        lemma_mismatch("server:migrate:approve:"@, d, 7);
        reveal_strlit("server:migrate:ask:");
        lemma_mismatch("server:migrate:ask:"@, d, 7);
        reveal_strlit("server:migrate:run:");
        lemma_mismatch("server:migrate:run:"@, d, 7);
        reveal_strlit("server:migrate:rollback:");
        lemma_mismatch("server:migrate:rollback:"@, d, 7);
        reveal_strlit("server:migrate:");
        lemma_mismatch("server:migrate:"@, d, 7);
    }
    assert(prefixed_callback_2(d) is None) by {
    }
    assert(prefixed_callback_3(d) is None) by {
        reveal_strlit("support:take:");
        lemma_mismatch("support:take:"@, d, 1);
        reveal_strlit("support:new:");
        lemma_mismatch("support:new:"@, d, 1);
        reveal_strlit("support:reply:");
        lemma_mismatch("support:reply:"@, d, 1);
        reveal_strlit("support:close:");
        lemma_mismatch("support:close:"@, d, 1);
        reveal_strlit("support:priority:");
        lemma_mismatch("support:priority:"@, d, 1);
        reveal_strlit("support:rate:");
        lemma_mismatch("support:rate:"@, d, 1);
        reveal_strlit("support:ticket:");
        lemma_mismatch("support:ticket:"@, d, 1);
        reveal_strlit("support:filter:");
        lemma_mismatch("support:filter:"@, d, 1);
    }
    assert(prefixed_callback_4(d) is None) by {
    }
    assert(prefixed_callback_5(d) is None) by {
        reveal_strlit("stats:");
        lemma_mismatch("stats:"@, d, 1);
        reveal_strlit("server:maintenance:finish:");
        lemma_mismatch("server:maintenance:finish:"@, d, 7);
        reveal_strlit("server:maintenance:");
        lemma_mismatch("server:maintenance:"@, d, 7);
        reveal_strlit("server:bill:");
        lemma_mismatch("server:bill:"@, d, 7);
        reveal_strlit("server:edit:");
        lemma_mismatch("server:edit:"@, d, 7);
        reveal_strlit("server:enroll:revoke:");
        lemma_mismatch("server:enroll:revoke:"@, d, 7);
    }
    assert(prefixed_callback_6(d) == Some(ActionView::ServerPanelSync(id))) by {
        reveal_strlit("server:default:");
        lemma_mismatch("server:default:"@, d, 7);
        reveal_strlit("server:deploy:");
        lemma_mismatch("server:deploy:"@, d, 7);
        reveal_strlit("server:check:");
        lemma_mismatch("server:check:"@, d, 7);
        reveal_strlit("server:diagnose:");
        lemma_mismatch("server:diagnose:"@, d, 7);
        reveal_strlit("server:probe:");
        lemma_mismatch("server:probe:"@, d, 8);
        assert("server:panel:sync:"@.is_prefix_of(d));
        assert(d.skip("server:panel:sync:"@.len() as int) =~= decimal(id as int));
        law_decimal_round_trip(id);
    }
}

/// Callback data `server:panel:audit:<id>` reads back as `ServerPanelAudit` of that id.
#[verifier::spinoff_prover]
pub proof fn law_server_panel_audit_round_trip(id: i64)
    ensures
        callback_action("server:panel:audit:"@ + decimal(id as int)) == ActionView::ServerPanelAudit(id),
{
    let d = "server:panel:audit:"@ + decimal(id as int);
    reveal_strlit("server:panel:audit:");
    lemma_decimal_tail("server:panel:audit:"@, id as int);
    lemma_exact_first_chars(d);
    lemma_prefix_first_chars(d);
    assert(exact_callback(d) is None) by {
        reveal_strlit("server:add");
        lemma_mismatch("server:add"@, d, 7);
        reveal_strlit("server:billing");
        lemma_mismatch("server:billing"@, d, 7);
        reveal_strlit("stats");
        lemma_mismatch("stats"@, d, 1);
        reveal_strlit("settings");
        lemma_mismatch("settings"@, d, 2);
        reveal_strlit("set:payment");
        lemma_mismatch("set:payment"@, d, 2);
        reveal_strlit("set:acquiring");
        lemma_mismatch("set:acquiring"@, d, 2);
    }
    assert(prefixed_callback_1(d) is None) by {
        reveal_strlit("server:migrate:preflight:");
        lemma_mismatch("server:migrate:preflight:"@, d, 7);
        reveal_strlit("server:migrate:status:");
        lemma_mismatch("server:migrate:status:"@, d, 7);
        reveal_strlit("server:migrate:test:");
        lemma_mismatch("server:migrate:test:"@, d, 7);
        reveal_strlit("server:migrate:approve:");
        lemma_mismatch("server:migrate:approve:"@, d, 7);
        reveal_strlit("server:migrate:ask:");
        lemma_mismatch("server:migrate:ask:"@, d, 7);
        reveal_strlit("server:migrate:run:");
        lemma_mismatch("server:migrate:run:"@, d, 7);
        reveal_strlit("server:migrate:rollback:");
        lemma_mismatch("server:migrate:rollback:"@, d, 7);
        reveal_strlit("server:migrate:");
        lemma_mismatch("server:migrate:"@, d, 7);
    }
    assert(prefixed_callback_2(d) is None) by {
    }
    assert(prefixed_callback_3(d) is None) by {
        reveal_strlit("support:take:");
        lemma_mismatch("support:take:"@, d, 1);
        reveal_strlit("support:new:");
        lemma_mismatch("support:new:"@, d, 1);
        reveal_strlit("support:reply:");
        lemma_mismatch("support:reply:"@, d, 1);
        reveal_strlit("support:close:");
        lemma_mismatch("support:close:"@, d, 1);
        reveal_strlit("support:priority:");
        lemma_mismatch("support:priority:"@, d, 1);
        reveal_strlit("support:rate:");
        lemma_mismatch("support:rate:"@, d, 1);
        reveal_strlit("support:ticket:");
        lemma_mismatch("support:ticket:"@, d, 1);
        reveal_strlit("support:filter:");
        lemma_mismatch("support:filter:"@, d, 1);
    }
    assert(prefixed_callback_4(d) is None) by {
    }
    assert(prefixed_callback_5(d) is None) by {
        reveal_strlit("stats:");
        lemma_mismatch("stats:"@, d, 1);
        reveal_strlit("server:maintenance:finish:");
        lemma_mismatch("server:maintenance:finish:"@, d, 7);
        reveal_strlit("server:maintenance:");
        lemma_mismatch("server:maintenance:"@, d, 7);
        reveal_strlit("server:bill:");
        lemma_mismatch("server:bill:"@, d, 7);
        reveal_strlit("server:edit:");
        lemma_mismatch("server:edit:"@, d, 7);
        reveal_strlit("server:enroll:revoke:");
        lemma_mismatch("server:enroll:revoke:"@, d, 7);
    }
    assert(prefixed_callback_6(d) == Some(ActionView::ServerPanelAudit(id))) by {
        reveal_strlit("server:default:");
        lemma_mismatch("server:default:"@, d, 7);
        reveal_strlit("server:deploy:");
        lemma_mismatch("server:deploy:"@, d, 7);
        reveal_strlit("server:check:");
        lemma_mismatch("server:check:"@, d, 7);
        reveal_strlit("server:diagnose:");
        lemma_mismatch("server:diagnose:"@, d, 7);
        reveal_strlit("server:probe:");
        lemma_mismatch("server:probe:"@, d, 8);
        reveal_strlit("server:panel:sync:");
        lemma_mismatch("server:panel:sync:"@, d, 13);
        assert("server:panel:audit:"@.is_prefix_of(d));
        assert(d.skip("server:panel:audit:"@.len() as int) =~= decimal(id as int));
        law_decimal_round_trip(id);
    }
}

/// Callback data `server:panel:<id>` reads back as `ServerPanelConnect` of that id.
#[verifier::spinoff_prover]
pub proof fn law_server_panel_connect_round_trip(id: i64)
    ensures
        callback_action("server:panel:"@ + decimal(id as int)) == ActionView::ServerPanelConnect(id),
{
    let d = "server:panel:"@ + decimal(id as int);
    reveal_strlit("server:panel:");
    lemma_decimal_tail("server:panel:"@, id as int);
    lemma_exact_first_chars(d);
    lemma_prefix_first_chars(d);
    assert(exact_callback(d) is None) by {
        reveal_strlit("server:add");
        lemma_mismatch("server:add"@, d, 7);
        reveal_strlit("server:billing");
        lemma_mismatch("server:billing"@, d, 7);
        reveal_strlit("stats");
        lemma_mismatch("stats"@, d, 1);
        reveal_strlit("settings");
        lemma_mismatch("settings"@, d, 2);
        reveal_strlit("set:payment");
        lemma_mismatch("set:payment"@, d, 2);
        reveal_strlit("set:acquiring");
        lemma_mismatch("set:acquiring"@, d, 2);
    }
    assert(prefixed_callback_1(d) is None) by {
        reveal_strlit("server:migrate:preflight:");
        lemma_mismatch("server:migrate:preflight:"@, d, 7);
        reveal_strlit("server:migrate:status:");
        lemma_mismatch("server:migrate:status:"@, d, 7);
        reveal_strlit("server:migrate:test:");
        lemma_mismatch("server:migrate:test:"@, d, 7);
        reveal_strlit("server:migrate:approve:");
        lemma_mismatch("server:migrate:approve:"@, d, 7);
        reveal_strlit("server:migrate:ask:");
        lemma_mismatch("server:migrate:ask:"@, d, 7);
        reveal_strlit("server:migrate:run:");
        lemma_mismatch("server:migrate:run:"@, d, 7);
        reveal_strlit("server:migrate:rollback:");
        lemma_mismatch("server:migrate:rollback:"@, d, 7);
        reveal_strlit("server:migrate:");
        lemma_mismatch("server:migrate:"@, d, 7);
    }
    assert(prefixed_callback_2(d) is None) by {
    }
    assert(prefixed_callback_3(d) is None) by {
        reveal_strlit("support:take:");
        lemma_mismatch("support:take:"@, d, 1);
        reveal_strlit("support:new:");
        lemma_mismatch("support:new:"@, d, 1);
        reveal_strlit("support:reply:");
        lemma_mismatch("support:reply:"@, d, 1);
        reveal_strlit("support:close:");
        lemma_mismatch("support:close:"@, d, 1);
        reveal_strlit("support:priority:");
        lemma_mismatch("support:priority:"@, d, 1);
        reveal_strlit("support:rate:");
        lemma_mismatch("support:rate:"@, d, 1);
        reveal_strlit("support:ticket:");
        lemma_mismatch("support:ticket:"@, d, 1);
        reveal_strlit("support:filter:");
        lemma_mismatch("support:filter:"@, d, 1);
    }
    assert(prefixed_callback_4(d) is None) by {
    }
    assert(prefixed_callback_5(d) is None) by {
        reveal_strlit("stats:");
        lemma_mismatch("stats:"@, d, 1);
        reveal_strlit("server:maintenance:finish:");
        lemma_mismatch("server:maintenance:finish:"@, d, 7);
        reveal_strlit("server:maintenance:");
        lemma_mismatch("server:maintenance:"@, d, 7);
        reveal_strlit("server:bill:");
        lemma_mismatch("server:bill:"@, d, 7);
        reveal_strlit("server:edit:");
        lemma_mismatch("server:edit:"@, d, 7);
        reveal_strlit("server:enroll:revoke:");
        lemma_mismatch("server:enroll:revoke:"@, d, 7);
    }
    assert(prefixed_callback_6(d) == Some(ActionView::ServerPanelConnect(id))) by {
        reveal_strlit("server:default:");
        lemma_mismatch("server:default:"@, d, 7);
        reveal_strlit("server:deploy:");
        lemma_mismatch("server:deploy:"@, d, 7);
        reveal_strlit("server:check:");
        lemma_mismatch("server:check:"@, d, 7);
        reveal_strlit("server:diagnose:");
        lemma_mismatch("server:diagnose:"@, d, 7);
        reveal_strlit("server:probe:");
        lemma_mismatch("server:probe:"@, d, 8);
        reveal_strlit("server:panel:sync:");
        lemma_mismatch("server:panel:sync:"@, d, 13);
        reveal_strlit("server:panel:audit:");
        lemma_mismatch("server:panel:audit:"@, d, 13);
        assert("server:panel:"@.is_prefix_of(d));
        assert(d.skip("server:panel:"@.len() as int) =~= decimal(id as int));
        law_decimal_round_trip(id);
    }
}

/// Callback data `server:enroll:<id>` reads back as `ServerEnroll` of that id.
#[verifier::spinoff_prover]
pub proof fn law_server_enroll_round_trip(id: i64)
    ensures
        callback_action("server:enroll:"@ + decimal(id as int)) == ActionView::ServerEnroll(id),
{
    let d = "server:enroll:"@ + decimal(id as int);
    reveal_strlit("server:enroll:");
    lemma_decimal_tail("server:enroll:"@, id as int);
    lemma_exact_first_chars(d);
    lemma_prefix_first_chars(d);
    assert(exact_callback(d) is None) by {
        reveal_strlit("server:add");
        lemma_mismatch("server:add"@, d, 7);
        reveal_strlit("server:billing");
        lemma_mismatch("server:billing"@, d, 7);
        reveal_strlit("stats");
        lemma_mismatch("stats"@, d, 1);
        reveal_strlit("settings");
        lemma_mismatch("settings"@, d, 2);
        reveal_strlit("set:payment");
        lemma_mismatch("set:payment"@, d, 2);
        reveal_strlit("set:acquiring");
        lemma_mismatch("set:acquiring"@, d, 2);
    }
    assert(prefixed_callback_1(d) is None) by {
        reveal_strlit("server:migrate:preflight:");
        lemma_mismatch("server:migrate:preflight:"@, d, 7);
        reveal_strlit("server:migrate:status:");
        lemma_mismatch("server:migrate:status:"@, d, 7);
        reveal_strlit("server:migrate:test:");
        lemma_mismatch("server:migrate:test:"@, d, 7);
        reveal_strlit("server:migrate:approve:");
        lemma_mismatch("server:migrate:approve:"@, d, 7);
        reveal_strlit("server:migrate:ask:");
        lemma_mismatch("server:migrate:ask:"@, d, 7);
        reveal_strlit("server:migrate:run:");
        lemma_mismatch("server:migrate:run:"@, d, 7);
        reveal_strlit("server:migrate:rollback:");
        lemma_mismatch("server:migrate:rollback:"@, d, 7);
        reveal_strlit("server:migrate:");
        lemma_mismatch("server:migrate:"@, d, 7);
    }
    assert(prefixed_callback_2(d) is None) by {
    }
    assert(prefixed_callback_3(d) is None) by {
        reveal_strlit("support:take:");
        lemma_mismatch("support:take:"@, d, 1);
        reveal_strlit("support:new:");
        lemma_mismatch("support:new:"@, d, 1);
        reveal_strlit("support:reply:");
        lemma_mismatch("support:reply:"@, d, 1);
        reveal_strlit("support:close:");
        lemma_mismatch("support:close:"@, d, 1);
        reveal_strlit("support:priority:");
        lemma_mismatch("support:priority:"@, d, 1);
        reveal_strlit("support:rate:");
        lemma_mismatch("support:rate:"@, d, 1);
        reveal_strlit("support:ticket:");
        lemma_mismatch("support:ticket:"@, d, 1);
        reveal_strlit("support:filter:");
        lemma_mismatch("support:filter:"@, d, 1);
    }
    assert(prefixed_callback_4(d) is None) by {
    }
    assert(prefixed_callback_5(d) is None) by {
        reveal_strlit("stats:");
        lemma_mismatch("stats:"@, d, 1);
        reveal_strlit("server:maintenance:finish:");
        lemma_mismatch("server:maintenance:finish:"@, d, 7);
        reveal_strlit("server:maintenance:");
        lemma_mismatch("server:maintenance:"@, d, 7);
        reveal_strlit("server:bill:");
        lemma_mismatch("server:bill:"@, d, 7);
        reveal_strlit("server:edit:");
        lemma_mismatch("server:edit:"@, d, 8);
        reveal_strlit("server:enroll:revoke:");
        lemma_mismatch("server:enroll:revoke:"@, d, 14);
    }
    assert(prefixed_callback_6(d) == Some(ActionView::ServerEnroll(id))) by {
        reveal_strlit("server:default:");
        lemma_mismatch("server:default:"@, d, 7);
        reveal_strlit("server:deploy:");
        lemma_mismatch("server:deploy:"@, d, 7);
        reveal_strlit("server:check:");
        lemma_mismatch("server:check:"@, d, 7);
        reveal_strlit("server:diagnose:");
        lemma_mismatch("server:diagnose:"@, d, 7);
        reveal_strlit("server:probe:");
        lemma_mismatch("server:probe:"@, d, 7);
        reveal_strlit("server:panel:sync:");
        lemma_mismatch("server:panel:sync:"@, d, 7);
        reveal_strlit("server:panel:audit:");
        lemma_mismatch("server:panel:audit:"@, d, 7);
        reveal_strlit("server:panel:");
        lemma_mismatch("server:panel:"@, d, 7);
        assert("server:enroll:"@.is_prefix_of(d));
        assert(d.skip("server:enroll:"@.len() as int) =~= decimal(id as int));
        law_decimal_round_trip(id);
    }
}

/// Callback data `server:<id>` reads back as `ServerCard` of that id.
#[verifier::spinoff_prover]
pub proof fn law_server_card_round_trip(id: i64)
    ensures
        callback_action("server:"@ + decimal(id as int)) == ActionView::ServerCard(id),
{
    let d = "server:"@ + decimal(id as int);
    reveal_strlit("server:");
    lemma_decimal_tail("server:"@, id as int);
    lemma_exact_first_chars(d);
    lemma_prefix_first_chars(d);
    assert(exact_callback(d) is None) by {
        reveal_strlit("server:add");
        lemma_mismatch("server:add"@, d, 7);
        reveal_strlit("server:billing");
        lemma_mismatch("server:billing"@, d, 7);
        reveal_strlit("stats");
        lemma_mismatch("stats"@, d, 1);
        reveal_strlit("settings");
        lemma_mismatch("settings"@, d, 2);
        reveal_strlit("set:payment");
        lemma_mismatch("set:payment"@, d, 2);
        reveal_strlit("set:acquiring");
        lemma_mismatch("set:acquiring"@, d, 2);
    }
    assert(prefixed_callback_1(d) is None) by {
        reveal_strlit("server:migrate:preflight:");
        lemma_mismatch("server:migrate:preflight:"@, d, 7);
        reveal_strlit("server:migrate:status:");
        lemma_mismatch("server:migrate:status:"@, d, 7);
        reveal_strlit("server:migrate:test:");
        lemma_mismatch("server:migrate:test:"@, d, 7);
        reveal_strlit("server:migrate:approve:");
        lemma_mismatch("server:migrate:approve:"@, d, 7);
        reveal_strlit("server:migrate:ask:");
        lemma_mismatch("server:migrate:ask:"@, d, 7);
        reveal_strlit("server:migrate:run:");
        lemma_mismatch("server:migrate:run:"@, d, 7);
        reveal_strlit("server:migrate:rollback:");
        lemma_mismatch("server:migrate:rollback:"@, d, 7);
        reveal_strlit("server:migrate:");
        lemma_mismatch("server:migrate:"@, d, 7);
    }
    assert(prefixed_callback_2(d) is None) by {
    }
    assert(prefixed_callback_3(d) is None) by {
        reveal_strlit("support:take:");
        lemma_mismatch("support:take:"@, d, 1);
        reveal_strlit("support:new:");
        lemma_mismatch("support:new:"@, d, 1);
        reveal_strlit("support:reply:");
        lemma_mismatch("support:reply:"@, d, 1);
        reveal_strlit("support:close:");
        lemma_mismatch("support:close:"@, d, 1);
        reveal_strlit("support:priority:");
        lemma_mismatch("support:priority:"@, d, 1);
        reveal_strlit("support:rate:");
        lemma_mismatch("support:rate:"@, d, 1);
        reveal_strlit("support:ticket:");
        lemma_mismatch("support:ticket:"@, d, 1);
        reveal_strlit("support:filter:");
        lemma_mismatch("support:filter:"@, d, 1);
    }
    assert(prefixed_callback_4(d) is None) by {
    }
    assert(prefixed_callback_5(d) is None) by {
        reveal_strlit("stats:");
        lemma_mismatch("stats:"@, d, 1);
        reveal_strlit("server:maintenance:finish:");
        lemma_mismatch("server:maintenance:finish:"@, d, 7);
        reveal_strlit("server:maintenance:");
        lemma_mismatch("server:maintenance:"@, d, 7);
        reveal_strlit("server:bill:");
        lemma_mismatch("server:bill:"@, d, 7);
        reveal_strlit("server:edit:");
        lemma_mismatch("server:edit:"@, d, 7);
        reveal_strlit("server:enroll:revoke:");
        lemma_mismatch("server:enroll:revoke:"@, d, 7);
    }
    assert(prefixed_callback_6(d) == Some(ActionView::ServerCard(id))) by {
        reveal_strlit("server:default:");
        lemma_mismatch("server:default:"@, d, 7);
        reveal_strlit("server:deploy:");
        lemma_mismatch("server:deploy:"@, d, 7);
        reveal_strlit("server:check:");
        lemma_mismatch("server:check:"@, d, 7);
        reveal_strlit("server:diagnose:");
        lemma_mismatch("server:diagnose:"@, d, 7);
        reveal_strlit("server:probe:");
        lemma_mismatch("server:probe:"@, d, 7);
        reveal_strlit("server:panel:sync:");
        lemma_mismatch("server:panel:sync:"@, d, 7);
        reveal_strlit("server:panel:audit:");
        lemma_mismatch("server:panel:audit:"@, d, 7);
        reveal_strlit("server:panel:");
        lemma_mismatch("server:panel:"@, d, 7);
        reveal_strlit("server:enroll:");
        lemma_mismatch("server:enroll:"@, d, 7);
        assert("server:"@.is_prefix_of(d));
        assert(d.skip("server:"@.len() as int) =~= decimal(id as int));
        law_decimal_round_trip(id);
    }
}

/// Callback data `add:server:<id>` reads back as `AddServer` of that id.
#[verifier::spinoff_prover]
pub proof fn law_add_server_round_trip(id: i64)
    ensures
        callback_action("add:server:"@ + decimal(id as int)) == ActionView::AddServer(id),
{
    let d = "add:server:"@ + decimal(id as int);
    reveal_strlit("add:server:");
    lemma_decimal_tail("add:server:"@, id as int);
    lemma_exact_first_chars(d);
    lemma_prefix_first_chars(d);
    assert(exact_callback(d) is None) by {
        reveal_strlit("admin:dashboard");
        lemma_mismatch("admin:dashboard"@, d, 2);
        reveal_strlit("admin:vpn");
        lemma_mismatch("admin:vpn"@, d, 2);
        reveal_strlit("admin:servers");
        lemma_mismatch("admin:servers"@, d, 2);
        reveal_strlit("admin:keys");
        lemma_mismatch("admin:keys"@, d, 2);
        reveal_strlit("admin:users");
        lemma_mismatch("admin:users"@, d, 2);
        reveal_strlit("admin:communication");
        lemma_mismatch("admin:communication"@, d, 2);
        reveal_strlit("admin:system");
        lemma_mismatch("admin:system"@, d, 2);
        reveal_strlit("admin:update");
        lemma_mismatch("admin:update"@, d, 2);
        reveal_strlit("admin:update:run");
        lemma_mismatch("admin:update:run"@, d, 2);
        reveal_strlit("admin:update:status");
        lemma_mismatch("admin:update:status"@, d, 2);
        reveal_strlit("admin:update:rollback");
        lemma_mismatch("admin:update:rollback"@, d, 2);
        reveal_strlit("admin:create");
        lemma_mismatch("admin:create"@, d, 2);
        reveal_strlit("admin:owners");
        lemma_mismatch("admin:owners"@, d, 2);
        reveal_strlit("admin:finance");
        lemma_mismatch("admin:finance"@, d, 2);
        reveal_strlit("admin:support");
        lemma_mismatch("admin:support"@, d, 2);
        reveal_strlit("admin:broadcast");
        lemma_mismatch("admin:broadcast"@, d, 2);
        reveal_strlit("admin:broadcast:templates");
        lemma_mismatch("admin:broadcast:templates"@, d, 2);
        reveal_strlit("admin:help");
        lemma_mismatch("admin:help"@, d, 2);
        reveal_strlit("admin:search");
        lemma_mismatch("admin:search"@, d, 2);
        reveal_strlit("admin:roles");
        lemma_mismatch("admin:roles"@, d, 2);
        reveal_strlit("add");
        lemma_longer("add"@, d);
        reveal_strlit("addbulk");
        lemma_mismatch("addbulk"@, d, 3);
        reveal_strlit("admin:bulk:confirm");
        lemma_mismatch("admin:bulk:confirm"@, d, 2);
        reveal_strlit("admin:promos");
        lemma_mismatch("admin:promos"@, d, 2);
        reveal_strlit("admin:commerce");
        lemma_mismatch("admin:commerce"@, d, 2);
        reveal_strlit("admin:prices:rub");
        lemma_mismatch("admin:prices:rub"@, d, 2);
        reveal_strlit("admin:prices:stars");
        lemma_mismatch("admin:prices:stars"@, d, 2);
        reveal_strlit("admin:referral");
        lemma_mismatch("admin:referral"@, d, 2);
        reveal_strlit("admin:legacy");
        lemma_mismatch("admin:legacy"@, d, 2);
        reveal_strlit("admin:operations");
        lemma_mismatch("admin:operations"@, d, 2);
        reveal_strlit("admin:operations:refresh");
        lemma_mismatch("admin:operations:refresh"@, d, 2);
        reveal_strlit("admin:operations:ack");
        lemma_mismatch("admin:operations:ack"@, d, 2);
        reveal_strlit("admin:keys:health");
        lemma_mismatch("admin:keys:health"@, d, 2);
        reveal_strlit("admin:db-backup");
        lemma_mismatch("admin:db-backup"@, d, 2);
        reveal_strlit("admin:db-backup-audit");
        lemma_mismatch("admin:db-backup-audit"@, d, 2);
    }
    assert(prefixed_callback_1(d) is None) by {
        reveal_strlit("admin:owners:page:");
        lemma_mismatch("admin:owners:page:"@, d, 2);
    }
    assert(prefixed_callback_2(d) is None) by {
    }
    assert(prefixed_callback_3(d) is None) by {
        reveal_strlit("admin:bulk:");
        lemma_mismatch("admin:bulk:"@, d, 2);
    }
    assert(prefixed_callback_4(d) is None) by {
        reveal_strlit("admin:role:");
        lemma_mismatch("admin:role:"@, d, 2);
        reveal_strlit("admin:promo:");
        lemma_mismatch("admin:promo:"@, d, 2);
        reveal_strlit("admin:userblock:");
        lemma_mismatch("admin:userblock:"@, d, 2);
        reveal_strlit("admin:userkeys:");
        lemma_mismatch("admin:userkeys:"@, d, 2);
        reveal_strlit("admin:userkeys-delete-confirm:");
        lemma_mismatch("admin:userkeys-delete-confirm:"@, d, 2);
        reveal_strlit("admin:userkeys-delete:");
        lemma_mismatch("admin:userkeys-delete:"@, d, 2);
        reveal_strlit("admin:userpay:");
        lemma_mismatch("admin:userpay:"@, d, 2);
        reveal_strlit("admin:userbal:");
        lemma_mismatch("admin:userbal:"@, d, 2);
        reveal_strlit("admin:userdiscount:");
        lemma_mismatch("admin:userdiscount:"@, d, 2);
        reveal_strlit("admin:usernote:");
        lemma_mismatch("admin:usernote:"@, d, 2);
    }
    assert(prefixed_callback_5(d) is None) by {
        reveal_strlit("admin:user:");
        lemma_mismatch("admin:user:"@, d, 2);
    }
    assert(prefixed_callback_6(d) == Some(ActionView::AddServer(id))) by {
        assert("add:server:"@.is_prefix_of(d));
        assert(d.skip("add:server:"@.len() as int) =~= decimal(id as int));
        law_decimal_round_trip(id);
    }
}

/// Callback data `g:card:<id>` reads back as `GroupCard` of that id.
#[verifier::spinoff_prover]
pub proof fn law_group_card_round_trip(id: i64)
    ensures
        callback_action("g:card:"@ + decimal(id as int)) == ActionView::GroupCard(id),
{
    let d = "g:card:"@ + decimal(id as int);
    reveal_strlit("g:card:");
    lemma_decimal_tail("g:card:"@, id as int);
    lemma_exact_first_chars(d);
    lemma_prefix_first_chars(d);
    assert(exact_callback(d) is None) by {
        reveal_strlit("groups");
        lemma_mismatch("groups"@, d, 1);
        reveal_strlit("g:new");
        lemma_mismatch("g:new"@, d, 2);
        reveal_strlit("g:selmenu");
        lemma_mismatch("g:selmenu"@, d, 2);
        reveal_strlit("gscope");
        lemma_mismatch("gscope"@, d, 1);
    }
    assert(prefixed_callback_1(d) is None) by {
        reveal_strlit("guide:");
        lemma_mismatch("guide:"@, d, 1);
    }
    assert(prefixed_callback_2(d) is None) by {
    }
    assert(prefixed_callback_3(d) is None) by {
    }
    assert(prefixed_callback_4(d) is None) by {
    }
    assert(prefixed_callback_5(d) is None) by {
    }
    assert(prefixed_callback_6(d) is None) by {
    }
    assert(prefixed_callback_7(d) == Some(ActionView::GroupCard(id))) by {
        assert("g:card:"@.is_prefix_of(d));
        assert(d.skip("g:card:"@.len() as int) =~= decimal(id as int));
        law_decimal_round_trip(id);
    }
}

/// Callback data `g:ren:<id>` reads back as `GroupRenameAsk` of that id.
#[verifier::spinoff_prover]
pub proof fn law_group_rename_ask_round_trip(id: i64)
    ensures
        callback_action("g:ren:"@ + decimal(id as int)) == ActionView::GroupRenameAsk(id),
{
    let d = "g:ren:"@ + decimal(id as int);
    reveal_strlit("g:ren:");
    lemma_decimal_tail("g:ren:"@, id as int);
    lemma_exact_first_chars(d);
    lemma_prefix_first_chars(d);
    assert(exact_callback(d) is None) by {
        reveal_strlit("groups");
        lemma_mismatch("groups"@, d, 1);
        reveal_strlit("g:new");
        lemma_mismatch("g:new"@, d, 2);
        reveal_strlit("g:selmenu");
        lemma_mismatch("g:selmenu"@, d, 2);
        reveal_strlit("gscope");
        lemma_mismatch("gscope"@, d, 1);
    }
    assert(prefixed_callback_1(d) is None) by {
        reveal_strlit("guide:");
        lemma_mismatch("guide:"@, d, 1);
    }
    assert(prefixed_callback_2(d) is None) by {
    }
    assert(prefixed_callback_3(d) is None) by {
    }
    assert(prefixed_callback_4(d) is None) by {
    }
    assert(prefixed_callback_5(d) is None) by {
    }
    assert(prefixed_callback_6(d) is None) by {
    }
    assert(prefixed_callback_7(d) == Some(ActionView::GroupRenameAsk(id))) by {
        reveal_strlit("g:card:");
        lemma_mismatch("g:card:"@, d, 2);
        assert("g:ren:"@.is_prefix_of(d));
        assert(d.skip("g:ren:"@.len() as int) =~= decimal(id as int));
        law_decimal_round_trip(id);
    }
}

/// Callback data `g:quota:<id>` reads back as `GroupQuotaAsk` of that id.
#[verifier::spinoff_prover]
pub proof fn law_group_quota_ask_round_trip(id: i64)
    ensures
        callback_action("g:quota:"@ + decimal(id as int)) == ActionView::GroupQuotaAsk(id),
{
    let d = "g:quota:"@ + decimal(id as int);
    reveal_strlit("g:quota:");
    lemma_decimal_tail("g:quota:"@, id as int);
    lemma_exact_first_chars(d);
    lemma_prefix_first_chars(d);
    assert(exact_callback(d) is None) by {
        reveal_strlit("groups");
        lemma_mismatch("groups"@, d, 1);
        reveal_strlit("g:new");
        lemma_mismatch("g:new"@, d, 2);
        reveal_strlit("g:selmenu");
        lemma_mismatch("g:selmenu"@, d, 2);
        reveal_strlit("gscope");
        lemma_mismatch("gscope"@, d, 1);
    }
    assert(prefixed_callback_1(d) is None) by {
        reveal_strlit("guide:");
        lemma_mismatch("guide:"@, d, 1);
    }
    assert(prefixed_callback_2(d) is None) by {
    }
    assert(prefixed_callback_3(d) is None) by {
    }
    assert(prefixed_callback_4(d) is None) by {
    }
    assert(prefixed_callback_5(d) is None) by {
    }
    assert(prefixed_callback_6(d) is None) by {
    }
    assert(prefixed_callback_7(d) == Some(ActionView::GroupQuotaAsk(id))) by {
        reveal_strlit("g:card:");
        lemma_mismatch("g:card:"@, d, 2);
        reveal_strlit("g:ren:");
        lemma_mismatch("g:ren:"@, d, 2);
        assert("g:quota:"@.is_prefix_of(d));
        assert(d.skip("g:quota:"@.len() as int) =~= decimal(id as int));
        law_decimal_round_trip(id);
    }
}

/// Callback data `g:admid:<id>` reads back as `GroupAdminById` of that id.
#[verifier::spinoff_prover]
pub proof fn law_group_admin_by_id_round_trip(id: i64)
    ensures
        callback_action("g:admid:"@ + decimal(id as int)) == ActionView::GroupAdminById(id),
{
    let d = "g:admid:"@ + decimal(id as int);
    reveal_strlit("g:admid:");
    lemma_decimal_tail("g:admid:"@, id as int);
    lemma_exact_first_chars(d);
    lemma_prefix_first_chars(d);
    assert(exact_callback(d) is None) by {
        reveal_strlit("groups");
        lemma_mismatch("groups"@, d, 1);
        reveal_strlit("g:new");
        lemma_mismatch("g:new"@, d, 2);
        reveal_strlit("g:selmenu");
        lemma_mismatch("g:selmenu"@, d, 2);
        reveal_strlit("gscope");
        lemma_mismatch("gscope"@, d, 1);
    }
    assert(prefixed_callback_1(d) is None) by {
        reveal_strlit("guide:");
        lemma_mismatch("guide:"@, d, 1);
    }
    assert(prefixed_callback_2(d) is None) by {
    }
    assert(prefixed_callback_3(d) is None) by {
    }
    assert(prefixed_callback_4(d) is None) by {
    }
    assert(prefixed_callback_5(d) is None) by {
    }
    assert(prefixed_callback_6(d) is None) by {
    }
    assert(prefixed_callback_7(d) == Some(ActionView::GroupAdminById(id))) by {
        reveal_strlit("g:card:");
        lemma_mismatch("g:card:"@, d, 2);
        reveal_strlit("g:ren:");
        lemma_mismatch("g:ren:"@, d, 2);
        reveal_strlit("g:quota:");
        lemma_mismatch("g:quota:"@, d, 2);
        reveal_strlit("g:admdel:");
        lemma_mismatch("g:admdel:"@, d, 5);
        assert("g:admid:"@.is_prefix_of(d));
        assert(d.skip("g:admid:"@.len() as int) =~= decimal(id as int));
        law_decimal_round_trip(id);
    }
}

/// Callback data `g:adm:<id>` reads back as `GroupAdmins` of that id.
#[verifier::spinoff_prover]
pub proof fn law_group_admins_round_trip(id: i64)
    ensures
        callback_action("g:adm:"@ + decimal(id as int)) == ActionView::GroupAdmins(id),
{
    let d = "g:adm:"@ + decimal(id as int);
    reveal_strlit("g:adm:");
    lemma_decimal_tail("g:adm:"@, id as int);
    lemma_exact_first_chars(d);
    lemma_prefix_first_chars(d);
    assert(exact_callback(d) is None) by {
        reveal_strlit("groups");
        lemma_mismatch("groups"@, d, 1);
        reveal_strlit("g:new");
        lemma_mismatch("g:new"@, d, 2);
        reveal_strlit("g:selmenu");
        lemma_mismatch("g:selmenu"@, d, 2);
        reveal_strlit("gscope");
        lemma_mismatch("gscope"@, d, 1);
    }
    assert(prefixed_callback_1(d) is None) by {
        reveal_strlit("guide:");
        lemma_mismatch("guide:"@, d, 1);
    }
    assert(prefixed_callback_2(d) is None) by {
    }
    assert(prefixed_callback_3(d) is None) by {
    }
    assert(prefixed_callback_4(d) is None) by {
    }
    assert(prefixed_callback_5(d) is None) by {
    }
    assert(prefixed_callback_6(d) is None) by {
    }
    assert(prefixed_callback_7(d) == Some(ActionView::GroupAdmins(id))) by {
        reveal_strlit("g:card:");
        lemma_mismatch("g:card:"@, d, 2);
        reveal_strlit("g:ren:");
        lemma_mismatch("g:ren:"@, d, 2);
        reveal_strlit("g:quota:");
        lemma_mismatch("g:quota:"@, d, 2);
        reveal_strlit("g:admdel:");
        lemma_mismatch("g:admdel:"@, d, 5);
        reveal_strlit("g:admid:");
        lemma_mismatch("g:admid:"@, d, 5);
        assert("g:adm:"@.is_prefix_of(d));
        assert(d.skip("g:adm:"@.len() as int) =~= decimal(id as int));
        law_decimal_round_trip(id);
    }
}

/// Callback data `g:invrev:<id>` reads back as `GroupInviteRevoke` of that id.
#[verifier::spinoff_prover]
pub proof fn law_group_invite_revoke_round_trip(id: i64)
    ensures
        callback_action("g:invrev:"@ + decimal(id as int)) == ActionView::GroupInviteRevoke(id),
{
    let d = "g:invrev:"@ + decimal(id as int);
    reveal_strlit("g:invrev:");
    lemma_decimal_tail("g:invrev:"@, id as int);
    lemma_exact_first_chars(d);
    lemma_prefix_first_chars(d);
    assert(exact_callback(d) is None) by {
        reveal_strlit("groups");
        lemma_mismatch("groups"@, d, 1);
        reveal_strlit("g:new");
        lemma_mismatch("g:new"@, d, 2);
        reveal_strlit("g:selmenu");
        lemma_mismatch("g:selmenu"@, d, 2);
        reveal_strlit("gscope");
        lemma_mismatch("gscope"@, d, 1);
    }
    assert(prefixed_callback_1(d) is None) by {
        reveal_strlit("guide:");
        lemma_mismatch("guide:"@, d, 1);
    }
    assert(prefixed_callback_2(d) is None) by {
    }
    assert(prefixed_callback_3(d) is None) by {
    }
    assert(prefixed_callback_4(d) is None) by {
    }
    assert(prefixed_callback_5(d) is None) by {
    }
    assert(prefixed_callback_6(d) is None) by {
    }
    assert(prefixed_callback_7(d) == Some(ActionView::GroupInviteRevoke(id))) by {
        reveal_strlit("g:card:");
        lemma_mismatch("g:card:"@, d, 2);
        reveal_strlit("g:ren:");
        lemma_mismatch("g:ren:"@, d, 2);
        reveal_strlit("g:quota:");
        lemma_mismatch("g:quota:"@, d, 2);
        reveal_strlit("g:admdel:");
        lemma_mismatch("g:admdel:"@, d, 2);
        reveal_strlit("g:admid:");
        lemma_mismatch("g:admid:"@, d, 2);
        reveal_strlit("g:adm:");
        lemma_mismatch("g:adm:"@, d, 2);
        assert("g:invrev:"@.is_prefix_of(d));
        assert(d.skip("g:invrev:"@.len() as int) =~= decimal(id as int));
        law_decimal_round_trip(id);
    }
}

/// Callback data `g:inv:<id>` reads back as `GroupInvite` of that id.
#[verifier::spinoff_prover]
pub proof fn law_group_invite_round_trip(id: i64)
    ensures
        callback_action("g:inv:"@ + decimal(id as int)) == ActionView::GroupInvite(id),
{
    let d = "g:inv:"@ + decimal(id as int);
    reveal_strlit("g:inv:");
    lemma_decimal_tail("g:inv:"@, id as int);
    lemma_exact_first_chars(d);
    lemma_prefix_first_chars(d);
    assert(exact_callback(d) is None) by {
        reveal_strlit("groups");
        lemma_mismatch("groups"@, d, 1);
        reveal_strlit("g:new");
        lemma_mismatch("g:new"@, d, 2);
        reveal_strlit("g:selmenu");
        lemma_mismatch("g:selmenu"@, d, 2);
        reveal_strlit("gscope");
        lemma_mismatch("gscope"@, d, 1);
    }
    assert(prefixed_callback_1(d) is None) by {
        reveal_strlit("guide:");
        lemma_mismatch("guide:"@, d, 1);
    }
    assert(prefixed_callback_2(d) is None) by {
    }
    assert(prefixed_callback_3(d) is None) by {
    }
    assert(prefixed_callback_4(d) is None) by {
    }
    assert(prefixed_callback_5(d) is None) by {
    }
    assert(prefixed_callback_6(d) is None) by {
    }
    assert(prefixed_callback_7(d) == Some(ActionView::GroupInvite(id))) by {
        reveal_strlit("g:card:");
        lemma_mismatch("g:card:"@, d, 2);
        reveal_strlit("g:ren:");
        lemma_mismatch("g:ren:"@, d, 2);
        reveal_strlit("g:quota:");
        lemma_mismatch("g:quota:"@, d, 2);
        reveal_strlit("g:admdel:");
        lemma_mismatch("g:admdel:"@, d, 2);
        reveal_strlit("g:admid:");
        lemma_mismatch("g:admid:"@, d, 2);
        reveal_strlit("g:adm:");
        lemma_mismatch("g:adm:"@, d, 2);
        reveal_strlit("g:invrev:");
        lemma_mismatch("g:invrev:"@, d, 5);
        assert("g:inv:"@.is_prefix_of(d));
        assert(d.skip("g:inv:"@.len() as int) =~= decimal(id as int));
        law_decimal_round_trip(id);
    }
}

/// Callback data `g:delallyes:<id>` reads back as `GroupDeleteAllYes` of that id.
#[verifier::spinoff_prover]
pub proof fn law_group_delete_all_yes_round_trip(id: i64)
    ensures
        callback_action("g:delallyes:"@ + decimal(id as int)) == ActionView::GroupDeleteAllYes(id),
{
    let d = "g:delallyes:"@ + decimal(id as int);
    reveal_strlit("g:delallyes:");
    lemma_decimal_tail("g:delallyes:"@, id as int);
    lemma_exact_first_chars(d);
    lemma_prefix_first_chars(d);
    assert(exact_callback(d) is None) by {
        reveal_strlit("groups");
        lemma_mismatch("groups"@, d, 1);
        reveal_strlit("g:new");
        lemma_mismatch("g:new"@, d, 2);
        reveal_strlit("g:selmenu");
        lemma_mismatch("g:selmenu"@, d, 2);
        reveal_strlit("gscope");
        lemma_mismatch("gscope"@, d, 1);
    }
    assert(prefixed_callback_1(d) is None) by {
        reveal_strlit("guide:");
        lemma_mismatch("guide:"@, d, 1);
    }
    assert(prefixed_callback_2(d) is None) by {
    }
    assert(prefixed_callback_3(d) is None) by {
    }
    assert(prefixed_callback_4(d) is None) by {
    }
    assert(prefixed_callback_5(d) is None) by {
    }
    assert(prefixed_callback_6(d) is None) by {
    }
    assert(prefixed_callback_7(d) == Some(ActionView::GroupDeleteAllYes(id))) by {
        reveal_strlit("g:card:");
        lemma_mismatch("g:card:"@, d, 2);
        reveal_strlit("g:ren:");
        lemma_mismatch("g:ren:"@, d, 2);
        reveal_strlit("g:quota:");
        lemma_mismatch("g:quota:"@, d, 2);
        reveal_strlit("g:admdel:");
        lemma_mismatch("g:admdel:"@, d, 2);
        reveal_strlit("g:admid:");
        lemma_mismatch("g:admid:"@, d, 2);
        reveal_strlit("g:adm:");
        lemma_mismatch("g:adm:"@, d, 2);
        reveal_strlit("g:invrev:");
        lemma_mismatch("g:invrev:"@, d, 2);
        reveal_strlit("g:inv:");
        lemma_mismatch("g:inv:"@, d, 2);
        assert("g:delallyes:"@.is_prefix_of(d));
        assert(d.skip("g:delallyes:"@.len() as int) =~= decimal(id as int));
        law_decimal_round_trip(id);
    }
}

/// Callback data `g:delall:<id>` reads back as `GroupDeleteAllAsk` of that id.
#[verifier::spinoff_prover]
pub proof fn law_group_delete_all_ask_round_trip(id: i64)
    ensures
        callback_action("g:delall:"@ + decimal(id as int)) == ActionView::GroupDeleteAllAsk(id),
{
    let d = "g:delall:"@ + decimal(id as int);
    reveal_strlit("g:delall:");
    lemma_decimal_tail("g:delall:"@, id as int);
    lemma_exact_first_chars(d);
    lemma_prefix_first_chars(d);
    assert(exact_callback(d) is None) by {
        reveal_strlit("groups");
        lemma_mismatch("groups"@, d, 1);
        reveal_strlit("g:new");
        lemma_mismatch("g:new"@, d, 2);
        reveal_strlit("g:selmenu");
        lemma_mismatch("g:selmenu"@, d, 2);
        reveal_strlit("gscope");
        lemma_mismatch("gscope"@, d, 1);
    }
    assert(prefixed_callback_1(d) is None) by {
        reveal_strlit("guide:");
        lemma_mismatch("guide:"@, d, 1);
    }
    assert(prefixed_callback_2(d) is None) by {
    }
    assert(prefixed_callback_3(d) is None) by {
    }
    assert(prefixed_callback_4(d) is None) by {
    }
    assert(prefixed_callback_5(d) is None) by {
    }
    assert(prefixed_callback_6(d) is None) by {
    }
    assert(prefixed_callback_7(d) == Some(ActionView::GroupDeleteAllAsk(id))) by {
        reveal_strlit("g:card:");
        lemma_mismatch("g:card:"@, d, 2);
        reveal_strlit("g:ren:");
        lemma_mismatch("g:ren:"@, d, 2);
        reveal_strlit("g:quota:");
        lemma_mismatch("g:quota:"@, d, 2);
        reveal_strlit("g:admdel:");
        lemma_mismatch("g:admdel:"@, d, 2);
        reveal_strlit("g:admid:");
        lemma_mismatch("g:admid:"@, d, 2);
        reveal_strlit("g:adm:");
        lemma_mismatch("g:adm:"@, d, 2);
        reveal_strlit("g:invrev:");
        lemma_mismatch("g:invrev:"@, d, 2);
        reveal_strlit("g:inv:");
        lemma_mismatch("g:inv:"@, d, 2);
        reveal_strlit("g:delallyes:");
        lemma_mismatch("g:delallyes:"@, d, 8);
        assert("g:delall:"@.is_prefix_of(d));
        assert(d.skip("g:delall:"@.len() as int) =~= decimal(id as int));
        law_decimal_round_trip(id);
    }
}

/// Callback data `g:deldetach:<id>` reads back as `GroupDeleteDetach` of that id.
#[verifier::spinoff_prover]
pub proof fn law_group_delete_detach_round_trip(id: i64)
    ensures
        callback_action("g:deldetach:"@ + decimal(id as int)) == ActionView::GroupDeleteDetach(id),
{
    let d = "g:deldetach:"@ + decimal(id as int);
    reveal_strlit("g:deldetach:");
    lemma_decimal_tail("g:deldetach:"@, id as int);
    lemma_exact_first_chars(d);
    lemma_prefix_first_chars(d);
    assert(exact_callback(d) is None) by {
        reveal_strlit("groups");
        lemma_mismatch("groups"@, d, 1);
        reveal_strlit("g:new");
        lemma_mismatch("g:new"@, d, 2);
        reveal_strlit("g:selmenu");
        lemma_mismatch("g:selmenu"@, d, 2);
        reveal_strlit("gscope");
        lemma_mismatch("gscope"@, d, 1);
    }
    assert(prefixed_callback_1(d) is None) by {
        reveal_strlit("guide:");
        lemma_mismatch("guide:"@, d, 1);
    }
    assert(prefixed_callback_2(d) is None) by {
    }
    assert(prefixed_callback_3(d) is None) by {
    }
    assert(prefixed_callback_4(d) is None) by {
    }
    assert(prefixed_callback_5(d) is None) by {
    }
    assert(prefixed_callback_6(d) is None) by {
    }
    assert(prefixed_callback_7(d) is None) by {
        reveal_strlit("g:card:");
        lemma_mismatch("g:card:"@, d, 2);
        reveal_strlit("g:ren:");
        lemma_mismatch("g:ren:"@, d, 2);
        reveal_strlit("g:quota:");
        lemma_mismatch("g:quota:"@, d, 2);
        reveal_strlit("g:admdel:");
        lemma_mismatch("g:admdel:"@, d, 2);
        reveal_strlit("g:admid:");
        lemma_mismatch("g:admid:"@, d, 2);
        reveal_strlit("g:adm:");
        lemma_mismatch("g:adm:"@, d, 2);
        reveal_strlit("g:invrev:");
        lemma_mismatch("g:invrev:"@, d, 2);
        reveal_strlit("g:inv:");
        lemma_mismatch("g:inv:"@, d, 2);
        reveal_strlit("g:delallyes:");
        lemma_mismatch("g:delallyes:"@, d, 5);
        reveal_strlit("g:delall:");
        lemma_mismatch("g:delall:"@, d, 5);
    }
    assert(prefixed_callback_8(d) == Some(ActionView::GroupDeleteDetach(id))) by {
        assert("g:deldetach:"@.is_prefix_of(d));
        assert(d.skip("g:deldetach:"@.len() as int) =~= decimal(id as int));
        law_decimal_round_trip(id);
    }
}

/// Callback data `g:del:<id>` reads back as `GroupDeleteAsk` of that id.
#[verifier::spinoff_prover]
pub proof fn law_group_delete_ask_round_trip(id: i64)
    ensures
        callback_action("g:del:"@ + decimal(id as int)) == ActionView::GroupDeleteAsk(id),
{
    let d = "g:del:"@ + decimal(id as int);
    reveal_strlit("g:del:");
    lemma_decimal_tail("g:del:"@, id as int);
    lemma_exact_first_chars(d);
    lemma_prefix_first_chars(d);
    assert(exact_callback(d) is None) by {
        reveal_strlit("groups");
        lemma_mismatch("groups"@, d, 1);
        reveal_strlit("g:new");
        lemma_mismatch("g:new"@, d, 2);
        reveal_strlit("g:selmenu");
        lemma_mismatch("g:selmenu"@, d, 2);
        reveal_strlit("gscope");
        lemma_mismatch("gscope"@, d, 1);
    }
    assert(prefixed_callback_1(d) is None) by {
        reveal_strlit("guide:");
        lemma_mismatch("guide:"@, d, 1);
    }
    assert(prefixed_callback_2(d) is None) by {
    }
    assert(prefixed_callback_3(d) is None) by {
    }
    assert(prefixed_callback_4(d) is None) by {
    }
    assert(prefixed_callback_5(d) is None) by {
    }
    assert(prefixed_callback_6(d) is None) by {
    }
    assert(prefixed_callback_7(d) is None) by {
        reveal_strlit("g:card:");
        lemma_mismatch("g:card:"@, d, 2);
        reveal_strlit("g:ren:");
        lemma_mismatch("g:ren:"@, d, 2);
        reveal_strlit("g:quota:");
        lemma_mismatch("g:quota:"@, d, 2);
        reveal_strlit("g:admdel:");
        lemma_mismatch("g:admdel:"@, d, 2);
        reveal_strlit("g:admid:");
        lemma_mismatch("g:admid:"@, d, 2);
        reveal_strlit("g:adm:");
        lemma_mismatch("g:adm:"@, d, 2);
        reveal_strlit("g:invrev:");
        lemma_mismatch("g:invrev:"@, d, 2);
        reveal_strlit("g:inv:");
        lemma_mismatch("g:inv:"@, d, 2);
        reveal_strlit("g:delallyes:");
        lemma_mismatch("g:delallyes:"@, d, 5);
        reveal_strlit("g:delall:");
        lemma_mismatch("g:delall:"@, d, 5);
    }
    assert(prefixed_callback_8(d) == Some(ActionView::GroupDeleteAsk(id))) by {
        reveal_strlit("g:deldetach:");
        lemma_mismatch("g:deldetach:"@, d, 5);
        assert("g:del:"@.is_prefix_of(d));
        assert(d.skip("g:del:"@.len() as int) =~= decimal(id as int));
        law_decimal_round_trip(id);
    }
}

/// Callback data `g:regengo:<id>` reads back as `GroupRegenRun` of that id.
#[verifier::spinoff_prover]
pub proof fn law_group_regen_run_round_trip(id: i64)
    ensures
        callback_action("g:regengo:"@ + decimal(id as int)) == ActionView::GroupRegenRun(id),
{
    let d = "g:regengo:"@ + decimal(id as int);
    reveal_strlit("g:regengo:");
    lemma_decimal_tail("g:regengo:"@, id as int);
    lemma_exact_first_chars(d);
    lemma_prefix_first_chars(d);
    assert(exact_callback(d) is None) by {
        reveal_strlit("groups");
        lemma_mismatch("groups"@, d, 1);
        reveal_strlit("g:new");
        lemma_mismatch("g:new"@, d, 2);
        reveal_strlit("g:selmenu");
        lemma_mismatch("g:selmenu"@, d, 2);
        reveal_strlit("gscope");
        lemma_mismatch("gscope"@, d, 1);
    }
    assert(prefixed_callback_1(d) is None) by {
        reveal_strlit("guide:");
        lemma_mismatch("guide:"@, d, 1);
    }
    assert(prefixed_callback_2(d) is None) by {
    }
    assert(prefixed_callback_3(d) is None) by {
    }
    assert(prefixed_callback_4(d) is None) by {
    }
    assert(prefixed_callback_5(d) is None) by {
    }
    assert(prefixed_callback_6(d) is None) by {
    }
    assert(prefixed_callback_7(d) is None) by {
        reveal_strlit("g:card:");
        lemma_mismatch("g:card:"@, d, 2);
        reveal_strlit("g:ren:");
        lemma_mismatch("g:ren:"@, d, 4);
        reveal_strlit("g:quota:");
        lemma_mismatch("g:quota:"@, d, 2);
        reveal_strlit("g:admdel:");
        lemma_mismatch("g:admdel:"@, d, 2);
        reveal_strlit("g:admid:");
        lemma_mismatch("g:admid:"@, d, 2);
        reveal_strlit("g:adm:");
        lemma_mismatch("g:adm:"@, d, 2);
        reveal_strlit("g:invrev:");
        lemma_mismatch("g:invrev:"@, d, 2);
        reveal_strlit("g:inv:");
        lemma_mismatch("g:inv:"@, d, 2);
        reveal_strlit("g:delallyes:");
        lemma_mismatch("g:delallyes:"@, d, 2);
        reveal_strlit("g:delall:");
        lemma_mismatch("g:delall:"@, d, 2);
    }
    assert(prefixed_callback_8(d) == Some(ActionView::GroupRegenRun(id))) by {
        reveal_strlit("g:deldetach:");
        lemma_mismatch("g:deldetach:"@, d, 2);
        reveal_strlit("g:del:");
        lemma_mismatch("g:del:"@, d, 2);
        assert("g:regengo:"@.is_prefix_of(d));
        assert(d.skip("g:regengo:"@.len() as int) =~= decimal(id as int));
        law_decimal_round_trip(id);
    }
}

/// Callback data `g:regen:<id>` reads back as `GroupRegenAsk` of that id.
#[verifier::spinoff_prover]
pub proof fn law_group_regen_ask_round_trip(id: i64)
    ensures
        callback_action("g:regen:"@ + decimal(id as int)) == ActionView::GroupRegenAsk(id),
{
    let d = "g:regen:"@ + decimal(id as int);
    reveal_strlit("g:regen:");
    lemma_decimal_tail("g:regen:"@, id as int);
    lemma_exact_first_chars(d);
    lemma_prefix_first_chars(d);
    assert(exact_callback(d) is None) by {
        reveal_strlit("groups");
        lemma_mismatch("groups"@, d, 1);
        reveal_strlit("g:new");
        lemma_mismatch("g:new"@, d, 2);
        reveal_strlit("g:selmenu");
        lemma_mismatch("g:selmenu"@, d, 2);
        reveal_strlit("gscope");
        lemma_mismatch("gscope"@, d, 1);
    }
    assert(prefixed_callback_1(d) is None) by {
        reveal_strlit("guide:");
        lemma_mismatch("guide:"@, d, 1);
    }
    assert(prefixed_callback_2(d) is None) by {
    }
    assert(prefixed_callback_3(d) is None) by {
    }
    assert(prefixed_callback_4(d) is None) by {
    }
    assert(prefixed_callback_5(d) is None) by {
    }
    assert(prefixed_callback_6(d) is None) by {
    }
    assert(prefixed_callback_7(d) is None) by {
        reveal_strlit("g:card:");
        lemma_mismatch("g:card:"@, d, 2);
        reveal_strlit("g:ren:");
        lemma_mismatch("g:ren:"@, d, 4);
        reveal_strlit("g:quota:");
        lemma_mismatch("g:quota:"@, d, 2);
        reveal_strlit("g:admdel:");
        lemma_mismatch("g:admdel:"@, d, 2);
        reveal_strlit("g:admid:");
        lemma_mismatch("g:admid:"@, d, 2);
        reveal_strlit("g:adm:");
        lemma_mismatch("g:adm:"@, d, 2);
        reveal_strlit("g:invrev:");
        lemma_mismatch("g:invrev:"@, d, 2);
        reveal_strlit("g:inv:");
        lemma_mismatch("g:inv:"@, d, 2);
        reveal_strlit("g:delallyes:");
        lemma_mismatch("g:delallyes:"@, d, 2);
        reveal_strlit("g:delall:");
        lemma_mismatch("g:delall:"@, d, 2);
    }
    assert(prefixed_callback_8(d) == Some(ActionView::GroupRegenAsk(id))) by {
        reveal_strlit("g:deldetach:");
        lemma_mismatch("g:deldetach:"@, d, 2);
        reveal_strlit("g:del:");
        lemma_mismatch("g:del:"@, d, 2);
        reveal_strlit("g:regengo:");
        lemma_mismatch("g:regengo:"@, d, 7);
        assert("g:regen:"@.is_prefix_of(d));
        assert(d.skip("g:regen:"@.len() as int) =~= decimal(id as int));
        law_decimal_round_trip(id);
    }
}

/// Callback data `g:sel:<id>` reads back as `GroupSelect` of that id.
#[verifier::spinoff_prover]
pub proof fn law_group_select_round_trip(id: i64)
    ensures
        callback_action("g:sel:"@ + decimal(id as int)) == ActionView::GroupSelect(id),
{
    let d = "g:sel:"@ + decimal(id as int);
    reveal_strlit("g:sel:");
    lemma_decimal_tail("g:sel:"@, id as int);
    lemma_exact_first_chars(d);
    lemma_prefix_first_chars(d);
    assert(exact_callback(d) is None) by {
        reveal_strlit("groups");
        lemma_mismatch("groups"@, d, 1);
        reveal_strlit("g:new");
        lemma_mismatch("g:new"@, d, 2);
        reveal_strlit("g:selmenu");
        lemma_mismatch("g:selmenu"@, d, 5);
        reveal_strlit("gscope");
        lemma_mismatch("gscope"@, d, 1);
    }
    assert(prefixed_callback_1(d) is None) by {
        reveal_strlit("guide:");
        lemma_mismatch("guide:"@, d, 1);
    }
    assert(prefixed_callback_2(d) is None) by {
    }
    assert(prefixed_callback_3(d) is None) by {
    }
    assert(prefixed_callback_4(d) is None) by {
    }
    assert(prefixed_callback_5(d) is None) by {
    }
    assert(prefixed_callback_6(d) is None) by {
    }
    assert(prefixed_callback_7(d) is None) by {
        reveal_strlit("g:card:");
        lemma_mismatch("g:card:"@, d, 2);
        reveal_strlit("g:ren:");
        lemma_mismatch("g:ren:"@, d, 2);
        reveal_strlit("g:quota:");
        lemma_mismatch("g:quota:"@, d, 2);
        reveal_strlit("g:admdel:");
        lemma_mismatch("g:admdel:"@, d, 2);
        reveal_strlit("g:admid:");
        lemma_mismatch("g:admid:"@, d, 2);
        reveal_strlit("g:adm:");
        lemma_mismatch("g:adm:"@, d, 2);
        reveal_strlit("g:invrev:");
        lemma_mismatch("g:invrev:"@, d, 2);
        reveal_strlit("g:inv:");
        lemma_mismatch("g:inv:"@, d, 2);
        reveal_strlit("g:delallyes:");
        lemma_mismatch("g:delallyes:"@, d, 2);
        reveal_strlit("g:delall:");
        lemma_mismatch("g:delall:"@, d, 2);
    }
    assert(prefixed_callback_8(d) == Some(ActionView::GroupSelect(id))) by {
        reveal_strlit("g:deldetach:");
        lemma_mismatch("g:deldetach:"@, d, 2);
        reveal_strlit("g:del:");
        lemma_mismatch("g:del:"@, d, 2);
        reveal_strlit("g:regengo:");
        lemma_mismatch("g:regengo:"@, d, 2);
        reveal_strlit("g:regen:");
        lemma_mismatch("g:regen:"@, d, 2);
        assert("g:sel:"@.is_prefix_of(d));
        assert(d.skip("g:sel:"@.len() as int) =~= decimal(id as int));
        law_decimal_round_trip(id);
    }
}

/// Callback data `page:<id>` reads back as `Page` of that id.
#[verifier::spinoff_prover]
pub proof fn law_page_round_trip(id: usize)
    ensures
        callback_action("page:"@ + decimal(id as int)) == ActionView::Page(id),
{
    let d = "page:"@ + decimal(id as int);
    reveal_strlit("page:");
    lemma_decimal_tail("page:"@, id as int);
    lemma_exact_first_chars(d);
    lemma_prefix_first_chars(d);
    assert(exact_callback(d) is None) by {
        reveal_strlit("profile");
        lemma_mismatch("profile"@, d, 1);
        reveal_strlit("portal");
        lemma_mismatch("portal"@, d, 1);
    }
    assert(prefixed_callback_1(d) is None) by {
    }
    assert(prefixed_callback_2(d) is None) by {
        reveal_strlit("pay:ok:");
        lemma_mismatch("pay:ok:"@, d, 2);
        reveal_strlit("pay:no:");
        lemma_mismatch("pay:no:"@, d, 2);
    }
    assert(prefixed_callback_3(d) is None) by {
    }
    assert(prefixed_callback_4(d) is None) by {
    }
    assert(prefixed_callback_5(d) is None) by {
    }
    assert(prefixed_callback_6(d) is None) by {
    }
    assert(prefixed_callback_7(d) is None) by {
    }
    assert(prefixed_callback_8(d) == Some(ActionView::Page(id))) by {
        assert("page:"@.is_prefix_of(d));
        assert(d.skip("page:"@.len() as int) =~= decimal(id as int));
        law_decimal_round_trip_usize(id);
    }
}

/// Callback data `bulkserver:<id>` reads back as `BulkServer` of that id.
#[verifier::spinoff_prover]
pub proof fn law_bulk_server_round_trip(id: i64)
    ensures
        callback_action("bulkserver:"@ + decimal(id as int)) == ActionView::BulkServer(id),
{
    let d = "bulkserver:"@ + decimal(id as int);
    reveal_strlit("bulkserver:");
    lemma_decimal_tail("bulkserver:"@, id as int);
    lemma_exact_first_chars(d);
    lemma_prefix_first_chars(d);
    assert(exact_callback(d) is None) by {
        reveal_strlit("backup");
        lemma_mismatch("backup"@, d, 1);
        reveal_strlit("bk:new");
        lemma_mismatch("bk:new"@, d, 1);
        reveal_strlit("bk:list");
        lemma_mismatch("bk:list"@, d, 1);
        reveal_strlit("buy");
        lemma_mismatch("buy"@, d, 2);
        reveal_strlit("balance");
        lemma_mismatch("balance"@, d, 1);
    }
    assert(prefixed_callback_1(d) is None) by {
        reveal_strlit("buy:term:");
        lemma_mismatch("buy:term:"@, d, 2);
        reveal_strlit("buy:method:");
        lemma_mismatch("buy:method:"@, d, 2);
    }
    assert(prefixed_callback_2(d) is None) by {
        reveal_strlit("buy:server:");
        lemma_mismatch("buy:server:"@, d, 2);
        reveal_strlit("buy:paid:");
        lemma_mismatch("buy:paid:"@, d, 2);
    }
    assert(prefixed_callback_3(d) is None) by {
    }
    assert(prefixed_callback_4(d) is None) by {
        reveal_strlit("broadcast:audience:");
        lemma_mismatch("broadcast:audience:"@, d, 1);
        reveal_strlit("broadcast:retry:");
        lemma_mismatch("broadcast:retry:"@, d, 1);
    }
    assert(prefixed_callback_5(d) is None) by {
    }
    assert(prefixed_callback_6(d) is None) by {
    }
    assert(prefixed_callback_7(d) is None) by {
    }
    assert(prefixed_callback_8(d) is None) by {
    }
    assert(prefixed_callback_9(d) == Some(ActionView::BulkServer(id))) by {
        reveal_strlit("bulkadd:psk:");
        lemma_mismatch("bulkadd:psk:"@, d, 4);
        assert("bulkserver:"@.is_prefix_of(d));
        assert(d.skip("bulkserver:"@.len() as int) =~= decimal(id as int));
        law_decimal_round_trip(id);
    }
}

/// Callback data `bulk:<id>` reads back as `AddBulkRun` of that id.
#[verifier::spinoff_prover]
pub proof fn law_add_bulk_run_round_trip(id: usize)
    ensures
        callback_action("bulk:"@ + decimal(id as int)) == ActionView::AddBulkRun(id),
{
    let d = "bulk:"@ + decimal(id as int);
    reveal_strlit("bulk:");
    lemma_decimal_tail("bulk:"@, id as int);
    lemma_exact_first_chars(d);
    lemma_prefix_first_chars(d);
    assert(exact_callback(d) is None) by {
        reveal_strlit("backup");
        lemma_mismatch("backup"@, d, 1);
        reveal_strlit("bk:new");
        lemma_mismatch("bk:new"@, d, 1);
        reveal_strlit("bk:list");
        lemma_mismatch("bk:list"@, d, 1);
        reveal_strlit("buy");
        lemma_mismatch("buy"@, d, 2);
        reveal_strlit("balance");
        lemma_mismatch("balance"@, d, 1);
    }
    assert(prefixed_callback_1(d) is None) by {
        reveal_strlit("buy:term:");
        lemma_mismatch("buy:term:"@, d, 2);
        reveal_strlit("buy:method:");
        lemma_mismatch("buy:method:"@, d, 2);
    }
    assert(prefixed_callback_2(d) is None) by {
        reveal_strlit("buy:server:");
        lemma_mismatch("buy:server:"@, d, 2);
        reveal_strlit("buy:paid:");
        lemma_mismatch("buy:paid:"@, d, 2);
    }
    assert(prefixed_callback_3(d) is None) by {
    }
    assert(prefixed_callback_4(d) is None) by {
        reveal_strlit("broadcast:audience:");
        lemma_mismatch("broadcast:audience:"@, d, 1);
        reveal_strlit("broadcast:retry:");
        lemma_mismatch("broadcast:retry:"@, d, 1);
    }
    assert(prefixed_callback_5(d) is None) by {
    }
    assert(prefixed_callback_6(d) is None) by {
    }
    assert(prefixed_callback_7(d) is None) by {
    }
    assert(prefixed_callback_8(d) is None) by {
    }
    assert(prefixed_callback_9(d) == Some(ActionView::AddBulkRun(id))) by {
        reveal_strlit("bulkadd:psk:");
        lemma_mismatch("bulkadd:psk:"@, d, 4);
        reveal_strlit("bulkserver:");
        lemma_mismatch("bulkserver:"@, d, 4);
        reveal_strlit("bulkexp:");
        lemma_mismatch("bulkexp:"@, d, 4);
        assert("bulk:"@.is_prefix_of(d));
        assert(d.skip("bulk:"@.len() as int) =~= decimal(id as int));
        law_decimal_round_trip_usize(id);
    }
}

/// Callback data `bk:restore_yes:<id>` reads back as `RestoreYes` of that id.
#[verifier::spinoff_prover]
pub proof fn law_restore_yes_round_trip(id: usize)
    ensures
        callback_action("bk:restore_yes:"@ + decimal(id as int)) == ActionView::RestoreYes(id),
{
    let d = "bk:restore_yes:"@ + decimal(id as int);
    reveal_strlit("bk:restore_yes:");
    lemma_decimal_tail("bk:restore_yes:"@, id as int);
    lemma_exact_first_chars(d);
    lemma_prefix_first_chars(d);
    assert(exact_callback(d) is None) by {
        reveal_strlit("backup");
        lemma_mismatch("backup"@, d, 1);
        reveal_strlit("bk:new");
        lemma_mismatch("bk:new"@, d, 3);
        reveal_strlit("bk:list");
        lemma_mismatch("bk:list"@, d, 3);
        reveal_strlit("buy");
        lemma_mismatch("buy"@, d, 1);
        reveal_strlit("balance");
        lemma_mismatch("balance"@, d, 1);
    }
    assert(prefixed_callback_1(d) is None) by {
        reveal_strlit("buy:term:");
        lemma_mismatch("buy:term:"@, d, 1);
        reveal_strlit("buy:method:");
        lemma_mismatch("buy:method:"@, d, 1);
    }
    assert(prefixed_callback_2(d) is None) by {
        reveal_strlit("buy:server:");
        lemma_mismatch("buy:server:"@, d, 1);
        reveal_strlit("buy:paid:");
        lemma_mismatch("buy:paid:"@, d, 1);
    }
    assert(prefixed_callback_3(d) is None) by {
    }
    assert(prefixed_callback_4(d) is None) by {
        reveal_strlit("broadcast:audience:");
        lemma_mismatch("broadcast:audience:"@, d, 1);
        reveal_strlit("broadcast:retry:");
        lemma_mismatch("broadcast:retry:"@, d, 1);
    }
    assert(prefixed_callback_5(d) is None) by {
    }
    assert(prefixed_callback_6(d) is None) by {
    }
    assert(prefixed_callback_7(d) is None) by {
    }
    assert(prefixed_callback_8(d) is None) by {
    }
    assert(prefixed_callback_9(d) is None) by {
        reveal_strlit("bulkadd:psk:");
        lemma_mismatch("bulkadd:psk:"@, d, 1);
        reveal_strlit("bulkserver:");
        lemma_mismatch("bulkserver:"@, d, 1);
        reveal_strlit("bulkexp:");
        lemma_mismatch("bulkexp:"@, d, 1);
        reveal_strlit("bulk:");
        lemma_mismatch("bulk:"@, d, 1);
    }
    assert(prefixed_callback_10(d) == Some(ActionView::RestoreYes(id))) by {
        assert("bk:restore_yes:"@.is_prefix_of(d));
        assert(d.skip("bk:restore_yes:"@.len() as int) =~= decimal(id as int));
        law_decimal_round_trip_usize(id);
    }
}

/// Callback data `bk:restore:<id>` reads back as `Restore` of that id.
#[verifier::spinoff_prover]
pub proof fn law_restore_round_trip(id: usize)
    ensures
        callback_action("bk:restore:"@ + decimal(id as int)) == ActionView::Restore(id),
{
    let d = "bk:restore:"@ + decimal(id as int);
    reveal_strlit("bk:restore:");
    lemma_decimal_tail("bk:restore:"@, id as int);
    lemma_exact_first_chars(d);
    lemma_prefix_first_chars(d);
    assert(exact_callback(d) is None) by {
        reveal_strlit("backup");
        lemma_mismatch("backup"@, d, 1);
        reveal_strlit("bk:new");
        lemma_mismatch("bk:new"@, d, 3);
        reveal_strlit("bk:list");
        lemma_mismatch("bk:list"@, d, 3);
        reveal_strlit("buy");
        lemma_mismatch("buy"@, d, 1);
        reveal_strlit("balance");
        lemma_mismatch("balance"@, d, 1);
    }
    assert(prefixed_callback_1(d) is None) by {
        reveal_strlit("buy:term:");
        lemma_mismatch("buy:term:"@, d, 1);
        reveal_strlit("buy:method:");
        lemma_mismatch("buy:method:"@, d, 1);
    }
    assert(prefixed_callback_2(d) is None) by {
        reveal_strlit("buy:server:");
        lemma_mismatch("buy:server:"@, d, 1);
        reveal_strlit("buy:paid:");
        lemma_mismatch("buy:paid:"@, d, 1);
    }
    assert(prefixed_callback_3(d) is None) by {
    }
    assert(prefixed_callback_4(d) is None) by {
        reveal_strlit("broadcast:audience:");
        lemma_mismatch("broadcast:audience:"@, d, 1);
        reveal_strlit("broadcast:retry:");
        lemma_mismatch("broadcast:retry:"@, d, 1);
    }
    assert(prefixed_callback_5(d) is None) by {
    }
    assert(prefixed_callback_6(d) is None) by {
    }
    assert(prefixed_callback_7(d) is None) by {
    }
    assert(prefixed_callback_8(d) is None) by {
    }
    assert(prefixed_callback_9(d) is None) by {
        reveal_strlit("bulkadd:psk:");
        lemma_mismatch("bulkadd:psk:"@, d, 1);
        reveal_strlit("bulkserver:");
        lemma_mismatch("bulkserver:"@, d, 1);
        reveal_strlit("bulkexp:");
        lemma_mismatch("bulkexp:"@, d, 1);
        reveal_strlit("bulk:");
        lemma_mismatch("bulk:"@, d, 1);
    }
    assert(prefixed_callback_10(d) is None) by {
        reveal_strlit("bk:restore_yes:");
        lemma_mismatch("bk:restore_yes:"@, d, 10);
    }
    assert(prefixed_callback_11(d) == Some(ActionView::Restore(id))) by {
        assert("bk:restore:"@.is_prefix_of(d));
        assert(d.skip("bk:restore:"@.len() as int) =~= decimal(id as int));
        law_decimal_round_trip_usize(id);
    }
}

/// Callback data `bk:card:<id>` reads back as `BackupCard` of that id.
#[verifier::spinoff_prover]
pub proof fn law_backup_card_round_trip(id: usize)
    ensures
        callback_action("bk:card:"@ + decimal(id as int)) == ActionView::BackupCard(id),
{
    let d = "bk:card:"@ + decimal(id as int);
    reveal_strlit("bk:card:");
    lemma_decimal_tail("bk:card:"@, id as int);
    lemma_exact_first_chars(d);
    lemma_prefix_first_chars(d);
    assert(exact_callback(d) is None) by {
        reveal_strlit("backup");
        lemma_mismatch("backup"@, d, 1);
        reveal_strlit("bk:new");
        lemma_mismatch("bk:new"@, d, 3);
        reveal_strlit("bk:list");
        lemma_mismatch("bk:list"@, d, 3);
        reveal_strlit("buy");
        lemma_mismatch("buy"@, d, 1);
        reveal_strlit("balance");
        lemma_mismatch("balance"@, d, 1);
    }
    assert(prefixed_callback_1(d) is None) by {
        reveal_strlit("buy:term:");
        lemma_mismatch("buy:term:"@, d, 1);
        reveal_strlit("buy:method:");
        lemma_mismatch("buy:method:"@, d, 1);
    }
    assert(prefixed_callback_2(d) is None) by {
        reveal_strlit("buy:server:");
        lemma_mismatch("buy:server:"@, d, 1);
        reveal_strlit("buy:paid:");
        lemma_mismatch("buy:paid:"@, d, 1);
    }
    assert(prefixed_callback_3(d) is None) by {
    }
    assert(prefixed_callback_4(d) is None) by {
        reveal_strlit("broadcast:audience:");
        lemma_mismatch("broadcast:audience:"@, d, 1);
        reveal_strlit("broadcast:retry:");
        lemma_mismatch("broadcast:retry:"@, d, 1);
    }
    assert(prefixed_callback_5(d) is None) by {
    }
    assert(prefixed_callback_6(d) is None) by {
    }
    assert(prefixed_callback_7(d) is None) by {
    }
    assert(prefixed_callback_8(d) is None) by {
    }
    assert(prefixed_callback_9(d) is None) by {
        reveal_strlit("bulkadd:psk:");
        lemma_mismatch("bulkadd:psk:"@, d, 1);
        reveal_strlit("bulkserver:");
        lemma_mismatch("bulkserver:"@, d, 1);
        reveal_strlit("bulkexp:");
        lemma_mismatch("bulkexp:"@, d, 1);
        reveal_strlit("bulk:");
        lemma_mismatch("bulk:"@, d, 1);
    }
    assert(prefixed_callback_10(d) is None) by {
        reveal_strlit("bk:restore_yes:");
        lemma_mismatch("bk:restore_yes:"@, d, 3);
    }
    assert(prefixed_callback_11(d) == Some(ActionView::BackupCard(id))) by {
        reveal_strlit("bk:restore:");
        lemma_mismatch("bk:restore:"@, d, 3);
        assert("bk:card:"@.is_prefix_of(d));
        assert(d.skip("bk:card:"@.len() as int) =~= decimal(id as int));
        law_decimal_round_trip_usize(id);
    }
}

/// Callback data `bk:dl:<id>` reads back as `BackupDownload` of that id.
#[verifier::spinoff_prover]
pub proof fn law_backup_download_round_trip(id: usize)
    ensures
        callback_action("bk:dl:"@ + decimal(id as int)) == ActionView::BackupDownload(id),
{
    let d = "bk:dl:"@ + decimal(id as int);
    reveal_strlit("bk:dl:");
    lemma_decimal_tail("bk:dl:"@, id as int);
    lemma_exact_first_chars(d);
    lemma_prefix_first_chars(d);
    assert(exact_callback(d) is None) by {
        reveal_strlit("backup");
        lemma_mismatch("backup"@, d, 1);
        reveal_strlit("bk:new");
        lemma_mismatch("bk:new"@, d, 3);
        reveal_strlit("bk:list");
        lemma_mismatch("bk:list"@, d, 3);
        reveal_strlit("buy");
        lemma_mismatch("buy"@, d, 1);
        reveal_strlit("balance");
        lemma_mismatch("balance"@, d, 1);
    }
    assert(prefixed_callback_1(d) is None) by {
        reveal_strlit("buy:term:");
        lemma_mismatch("buy:term:"@, d, 1);
        reveal_strlit("buy:method:");
        lemma_mismatch("buy:method:"@, d, 1);
    }
    assert(prefixed_callback_2(d) is None) by {
        reveal_strlit("buy:server:");
        lemma_mismatch("buy:server:"@, d, 1);
        reveal_strlit("buy:paid:");
        lemma_mismatch("buy:paid:"@, d, 1);
    }
    assert(prefixed_callback_3(d) is None) by {
    }
    assert(prefixed_callback_4(d) is None) by {
        reveal_strlit("broadcast:audience:");
        lemma_mismatch("broadcast:audience:"@, d, 1);
        reveal_strlit("broadcast:retry:");
        lemma_mismatch("broadcast:retry:"@, d, 1);
    }
    assert(prefixed_callback_5(d) is None) by {
    }
    assert(prefixed_callback_6(d) is None) by {
    }
    assert(prefixed_callback_7(d) is None) by {
    }
    assert(prefixed_callback_8(d) is None) by {
    }
    assert(prefixed_callback_9(d) is None) by {
        reveal_strlit("bulkadd:psk:");
        lemma_mismatch("bulkadd:psk:"@, d, 1);
        reveal_strlit("bulkserver:");
        lemma_mismatch("bulkserver:"@, d, 1);
        reveal_strlit("bulkexp:");
        lemma_mismatch("bulkexp:"@, d, 1);
        reveal_strlit("bulk:");
        lemma_mismatch("bulk:"@, d, 1);
    }
    assert(prefixed_callback_10(d) is None) by {
        reveal_strlit("bk:restore_yes:");
        lemma_mismatch("bk:restore_yes:"@, d, 3);
    }
    assert(prefixed_callback_11(d) == Some(ActionView::BackupDownload(id))) by {
        reveal_strlit("bk:restore:");
        lemma_mismatch("bk:restore:"@, d, 3);
        reveal_strlit("bk:card:");
        lemma_mismatch("bk:card:"@, d, 3);
        assert("bk:dl:"@.is_prefix_of(d));
        assert(d.skip("bk:dl:"@.len() as int) =~= decimal(id as int));
        law_decimal_round_trip_usize(id);
    }
}

} // verus!
