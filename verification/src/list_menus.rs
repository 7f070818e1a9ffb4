//! Keyboards built from lists: groups, group administrators, backups, keys,
//! the client list with its pages and filters, and the price lists.

use vstd::prelude::*;
use vstd::string::*;
use crate::keyboard::{catalog_button, concat2, concat3, no_rows, plain, push_row, row1, row2, row_view, rows_view, text_button, with_id, with_index, with_name, Button, ButtonView, CatalogText, Keyboard, Label};
use crate::model::Lang;
use crate::numbers::{decimal, format_i64, format_usize};
use crate::store::GroupRow;

verus! {

// ---------------------------------------------------------------------------
// Groups
// ---------------------------------------------------------------------------

pub open spec fn group_label(g: GroupRow) -> Seq<char> {
    "🗂 "@ + g.name@
}

fn group_label_text(g: &GroupRow) -> (s: String)
    ensures
        s@ == group_label(*g),
{
    concat2("🗂 ", g.name.as_str())
}

/// Picking one of `groups` (a group administrator's working group).
pub open spec fn group_select_spec(groups: Seq<GroupRow>) -> Seq<Seq<ButtonView>> {
    Seq::new(
        groups.len(),
        |k: int| seq![text_button(group_label(groups[k]), "g:sel:"@ + decimal(groups[k].id as int))],
    )
}

pub fn group_select_menu(lang: Lang, groups: &[GroupRow]) -> (kb: Keyboard)
    ensures
        kb@ == group_select_spec(groups@),
{
    let mut rows = no_rows();
    let n = groups.len();
    let mut i: usize = 0;
    while i < n
        invariant
            n == groups@.len(),
            i <= n,
            rows_view(rows@) == group_select_spec(groups@.take(i as int)),
        decreases n - i,
    {
        let g = &groups[i];
        push_row(
            &mut rows,
            row1(Button { label: Label::Text(group_label_text(g)), data: with_id("g:sel:", g.id) }),
        );
        assert(group_select_spec(groups@.take(i + 1)) =~= group_select_spec(groups@.take(i as int)).push(
            seq![text_button(group_label(groups@[i as int]), "g:sel:"@ + decimal(groups@[i as int].id as int))],
        ));
        i += 1;
    }
    assert(groups@.take(n as int) =~= groups@);
    Keyboard { rows }
}

pub open spec fn group_count_row(entry: (GroupRow, i64)) -> Seq<ButtonView> {
    seq![
        text_button(
            "🗂 "@ + entry.0.name@ + " ("@ + decimal(entry.1 as int) + ")"@,
            "g:card:"@ + decimal(entry.0.id as int),
        ),
    ]
}

/// The owner's groups, each with its number of clients, then creating a group
/// and going back.
pub open spec fn groups_spec(groups: Seq<(GroupRow, i64)>) -> Seq<Seq<ButtonView>> {
    Seq::new(groups.len(), |k: int| group_count_row(groups[k])) + seq![
        seq![catalog_button(CatalogText::GroupCreate, "g:new"@)],
        seq![catalog_button(CatalogText::Back, "menu"@)],
    ]
}

pub fn groups_menu(lang: Lang, groups: &[(GroupRow, i64)]) -> (kb: Keyboard)
    ensures
        kb@ == groups_spec(groups@),
{
    let mut rows = no_rows();
    let n = groups.len();
    let mut i: usize = 0;
    while i < n
        invariant
            n == groups@.len(),
            i <= n,
            rows_view(rows@) == Seq::new(i as nat, |k: int| group_count_row(groups@[k])),
        decreases n - i,
    {
        let g = &groups[i].0;
        let count = groups[i].1;
        let mut label = concat3("🗂 ", g.name.as_str(), " (");
        let c = format_i64(count);
        label.append(c.as_str());
        label.append(")");
        push_row(&mut rows, row1(Button { label: Label::Text(label), data: with_id("g:card:", g.id) }));
        assert(Seq::new((i + 1) as nat, |k: int| group_count_row(groups@[k])) =~= Seq::new(
            i as nat,
            |k: int| group_count_row(groups@[k]),
        ).push(group_count_row(groups@[i as int])));
        i += 1;
    }
    push_row(
        &mut rows,
        row1(Button { label: Label::Catalog(CatalogText::GroupCreate), data: plain("g:new") }),
    );
    push_row(&mut rows, row1(Button { label: Label::Catalog(CatalogText::Back), data: plain("menu") }));
    let kb = Keyboard { rows };
    assert(kb@ =~= groups_spec(groups@));
    kb
}

pub open spec fn move_row(name: Seq<char>, g: GroupRow) -> Seq<ButtonView> {
    seq![text_button(group_label(g), "gmoveto:"@ + decimal(g.id as int) + ":"@ + name)]
}

/// Moving client `name` to one of `groups`, out of every group, or going back.
pub open spec fn move_client_spec(name: Seq<char>, groups: Seq<GroupRow>) -> Seq<Seq<ButtonView>> {
    Seq::new(groups.len(), |k: int| move_row(name, groups[k])) + seq![
        seq![catalog_button(CatalogText::NoGroup, "gmoveto:none:"@ + name)],
        seq![catalog_button(CatalogText::Back, "client:"@ + name)],
    ]
}

pub fn move_client_menu(lang: Lang, name: &str, groups: &[GroupRow]) -> (kb: Keyboard)
    ensures
        kb@ == move_client_spec(name@, groups@),
{
    let mut rows = no_rows();
    let n = groups.len();
    let mut i: usize = 0;
    while i < n
        invariant
            n == groups@.len(),
            i <= n,
            rows_view(rows@) == Seq::new(i as nat, |k: int| move_row(name@, groups@[k])),
        decreases n - i,
    {
        let g = &groups[i];
        let mut data = with_id("gmoveto:", g.id);
        data.append(":");
        data.append(name);
        push_row(&mut rows, row1(Button { label: Label::Text(group_label_text(g)), data }));
        assert(Seq::new((i + 1) as nat, |k: int| move_row(name@, groups@[k])) =~= Seq::new(
            i as nat,
            |k: int| move_row(name@, groups@[k]),
        ).push(move_row(name@, groups@[i as int])));
        i += 1;
    }
    push_row(
        &mut rows,
        row1(
            Button {
                label: Label::Catalog(CatalogText::NoGroup),
                data: with_name("gmoveto:none:", name),
            },
        ),
    );
    push_row(
        &mut rows,
        row1(Button { label: Label::Catalog(CatalogText::Back), data: with_name("client:", name) }),
    );
    let kb = Keyboard { rows };
    assert(kb@ =~= move_client_spec(name@, groups@));
    kb
}

pub open spec fn scope_row(g: GroupRow) -> Seq<ButtonView> {
    seq![text_button(group_label(g), "gscope:"@ + decimal(g.id as int))]
}

/// The owner's group filter for the client list: all clients, those without
/// a group, or one group's.
pub open spec fn group_scope_spec(groups: Seq<GroupRow>) -> Seq<Seq<ButtonView>> {
    seq![
        seq![catalog_button(CatalogText::ScopeAll, "gscope:all"@)],
        seq![catalog_button(CatalogText::NoGroup, "gscope:none"@)],
    ] + Seq::new(groups.len(), |k: int| scope_row(groups[k])) + seq![
        seq![catalog_button(CatalogText::Back, "list"@)],
    ]
}

pub fn group_scope_menu(lang: Lang, groups: &[GroupRow]) -> (kb: Keyboard)
    ensures
        kb@ == group_scope_spec(groups@),
{
    let mut rows = no_rows();
    push_row(
        &mut rows,
        row1(Button { label: Label::Catalog(CatalogText::ScopeAll), data: plain("gscope:all") }),
    );
    push_row(
        &mut rows,
        row1(Button { label: Label::Catalog(CatalogText::NoGroup), data: plain("gscope:none") }),
    );
    let ghost head = rows_view(rows@);
    let n = groups.len();
    let mut i: usize = 0;
    while i < n
        invariant
            n == groups@.len(),
            i <= n,
            head.len() == 2,
            rows_view(rows@) == head + Seq::new(i as nat, |k: int| scope_row(groups@[k])),
            head == seq![
                seq![catalog_button(CatalogText::ScopeAll, "gscope:all"@)],
                seq![catalog_button(CatalogText::NoGroup, "gscope:none"@)],
            ],
        decreases n - i,
    {
        let g = &groups[i];
        push_row(
            &mut rows,
            row1(Button { label: Label::Text(group_label_text(g)), data: with_id("gscope:", g.id) }),
        );
        assert(head + Seq::new((i + 1) as nat, |k: int| scope_row(groups@[k])) =~= (head + Seq::new(
            i as nat,
            |k: int| scope_row(groups@[k]),
        )).push(scope_row(groups@[i as int])));
        i += 1;
    }
    push_row(&mut rows, row1(Button { label: Label::Catalog(CatalogText::Back), data: plain("list") }));
    let kb = Keyboard { rows };
    assert(kb@ =~= group_scope_spec(groups@));
    kb
}

pub open spec fn admin_row(id: i64, uid: i64) -> Seq<ButtonView> {
    seq![
        text_button(
            "❌ "@ + decimal(uid as int),
            "g:admdel:"@ + decimal(id as int) + ":"@ + decimal(uid as int),
        ),
    ]
}

/// Group `id`'s administrators, each removable, then back to the group.
pub open spec fn group_admins_spec(id: i64, admins: Seq<i64>) -> Seq<Seq<ButtonView>> {
    Seq::new(admins.len(), |k: int| admin_row(id, admins[k])) + seq![
        seq![catalog_button(CatalogText::Back, "g:card:"@ + decimal(id as int))],
    ]
}

pub fn group_admins_menu(lang: Lang, id: i64, admins: &[i64]) -> (kb: Keyboard)
    ensures
        kb@ == group_admins_spec(id, admins@),
{
    let mut rows = no_rows();
    let n = admins.len();
    let mut i: usize = 0;
    while i < n
        invariant
            n == admins@.len(),
            i <= n,
            rows_view(rows@) == Seq::new(i as nat, |k: int| admin_row(id, admins@[k])),
        decreases n - i,
    {
        let uid = admins[i];
        let mut data = with_id("g:admdel:", id);
        data.append(":");
        let u = format_i64(uid);
        data.append(u.as_str());
        push_row(&mut rows, row1(Button { label: Label::Text(with_id("❌ ", uid)), data }));
        assert(Seq::new((i + 1) as nat, |k: int| admin_row(id, admins@[k])) =~= Seq::new(
            i as nat,
            |k: int| admin_row(id, admins@[k]),
        ).push(admin_row(id, admins@[i as int])));
        i += 1;
    }
    push_row(
        &mut rows,
        row1(Button { label: Label::Catalog(CatalogText::Back), data: with_id("g:card:", id) }),
    );
    let kb = Keyboard { rows };
    assert(kb@ =~= group_admins_spec(id, admins@));
    kb
}

// ---------------------------------------------------------------------------
// Backups and keys
// ---------------------------------------------------------------------------

/// One button per backup, by its position in the list, then back.
pub open spec fn backups_list_spec(names: Seq<Seq<char>>) -> Seq<Seq<ButtonView>> {
    Seq::new(names.len(), |k: int| seq![text_button(names[k], "bk:card:"@ + decimal(k))]) + seq![
        seq![catalog_button(CatalogText::Back, "menu"@)],
    ]
}

pub open spec fn strings_of(v: Seq<String>) -> Seq<Seq<char>> {
    v.map_values(|s: String| s@)
}

/// The backups, named by file.
pub fn backups_list(lang: Lang, names: &[String]) -> (kb: Keyboard)
    ensures
        kb@ == backups_list_spec(strings_of(names@)),
{
    let mut rows = no_rows();
    let n = names.len();
    let mut i: usize = 0;
    while i < n
        invariant
            n == names@.len(),
            i <= n,
            rows_view(rows@) == Seq::new(
                i as nat,
                |k: int| seq![text_button(strings_of(names@)[k], "bk:card:"@ + decimal(k))],
            ),
        decreases n - i,
    {
        push_row(
            &mut rows,
            row1(
                Button {
                    label: Label::Text(names[i].clone()),
                    data: with_index("bk:card:", i),
                },
            ),
        );
        assert(Seq::new(
            (i + 1) as nat,
            |k: int| seq![text_button(strings_of(names@)[k], "bk:card:"@ + decimal(k))],
        ) =~= Seq::new(
            i as nat,
            |k: int| seq![text_button(strings_of(names@)[k], "bk:card:"@ + decimal(k))],
        ).push(seq![text_button(strings_of(names@)[i as int], "bk:card:"@ + decimal(i as int))]));
        i += 1;
    }
    push_row(&mut rows, row1(Button { label: Label::Catalog(CatalogText::Back), data: plain("menu") }));
    let kb = Keyboard { rows };
    assert(kb@ =~= backups_list_spec(strings_of(names@)));
    kb
}

pub open spec fn key_row(item: (String, String)) -> Seq<ButtonView> {
    seq![text_button(item.1@, "mykey:"@ + item.0@)]
}

/// A customer's keys: each titled, opening the key by name.
pub open spec fn customer_keys_spec(items: Seq<(String, String)>) -> Seq<Seq<ButtonView>> {
    Seq::new(items.len(), |k: int| key_row(items[k]))
}

/// The customer's keys, given as (name, title).
pub fn customer_keys_menu(items: &[(String, String)]) -> (kb: Keyboard)
    ensures
        kb@ == customer_keys_spec(items@),
{
    let mut rows = no_rows();
    let n = items.len();
    let mut i: usize = 0;
    while i < n
        invariant
            n == items@.len(),
            i <= n,
            rows_view(rows@) == Seq::new(i as nat, |k: int| key_row(items@[k])),
        decreases n - i,
    {
        let item = &items[i];
        let b = Button { label: Label::Text(item.1.clone()), data: with_name("mykey:", item.0.as_str()) };
        push_row(&mut rows, row1(b));
        assert(Seq::new((i + 1) as nat, |k: int| key_row(items@[k])) =~= Seq::new(
            i as nat,
            |k: int| key_row(items@[k]),
        ).push(key_row(items@[i as int])));
        i += 1;
    }
    let kb = Keyboard { rows };
    assert(kb@ =~= customer_keys_spec(items@));
    kb
}

pub open spec fn user_key_rows(name: Seq<char>) -> Seq<Seq<ButtonView>> {
    seq![
        seq![text_button("🔑 "@ + name, "show:"@ + name)],
        seq![text_button("👁 Открыть"@, "show:"@ + name), text_button("🗑 Удалить"@, "del:"@ + name)],
    ]
}

/// Two rows per key: its name, then opening or deleting it.
pub open spec fn user_keys_rows(names: Seq<Seq<char>>) -> Seq<Seq<ButtonView>>
    decreases names.len(),
{
    if names.len() == 0 {
        Seq::empty()
    } else {
        user_keys_rows(names.drop_last()) + user_key_rows(names.last())
    }
}

/// A user's keys, deleting all of them when there are any, and back to the
/// user.
pub open spec fn admin_user_keys_spec(user_id: i64, names: Seq<Seq<char>>) -> Seq<Seq<ButtonView>> {
    user_keys_rows(names) + (if names.len() > 0 {
        seq![
            seq![
                text_button(
                    "🗑 Удалить все ключи"@,
                    "admin:userkeys-delete:"@ + decimal(user_id as int),
                ),
            ],
        ]
    } else {
        Seq::<Seq<ButtonView>>::empty()
    }) + seq![
        seq![text_button("⬅️ Карточка пользователя"@, "admin:user:"@ + decimal(user_id as int))],
    ]
}

pub fn admin_user_keys_menu(user_id: i64, names: &[String]) -> (kb: Keyboard)
    ensures
        kb@ == admin_user_keys_spec(user_id, strings_of(names@)),
{
    let mut rows = no_rows();
    let n = names.len();
    let mut i: usize = 0;
    while i < n
        invariant
            n == names@.len(),
            i <= n,
            rows_view(rows@) == user_keys_rows(strings_of(names@).take(i as int)),
        decreases n - i,
    {
        let name = names[i].as_str();
        push_row(
            &mut rows,
            row1(Button { label: Label::Text(concat2("🔑 ", name)), data: with_name("show:", name) }),
        );
        push_row(
            &mut rows,
            row2(
                Button { label: Label::Text("👁 Открыть".to_string()), data: with_name("show:", name) },
                Button { label: Label::Text("🗑 Удалить".to_string()), data: with_name("del:", name) },
            ),
        );
        assert(strings_of(names@).take(i + 1).drop_last() =~= strings_of(names@).take(i as int));
        assert(rows_view(rows@) =~= user_keys_rows(strings_of(names@).take(i as int)) + user_key_rows(
            name@,
        ));
        i += 1;
    }
    assert(strings_of(names@).take(n as int) =~= strings_of(names@));
    if n > 0 {
        push_row(
            &mut rows,
            row1(
                Button {
                    label: Label::Text("🗑 Удалить все ключи".to_string()),
                    data: with_id("admin:userkeys-delete:", user_id),
                },
            ),
        );
    }
    push_row(
        &mut rows,
        row1(
            Button {
                label: Label::Text("⬅️ Карточка пользователя".to_string()),
                data: with_id("admin:user:", user_id),
            },
        ),
    );
    let kb = Keyboard { rows };
    assert(kb@ =~= admin_user_keys_spec(user_id, strings_of(names@)));
    kb
}

// ---------------------------------------------------------------------------
// Support rating and operations
// ---------------------------------------------------------------------------

pub open spec fn rating_button(id: i64, v: int) -> ButtonView {
    text_button(decimal(v) + "⭐"@, "support:rate:"@ + decimal(id as int) + ":"@ + decimal(v))
}

/// Rating support ticket `id` from one to five stars.
pub open spec fn support_rating_spec(id: i64) -> Seq<Seq<ButtonView>> {
    seq![Seq::new(5, |k: int| rating_button(id, k + 1))]
}

pub fn support_rating_menu(id: i64) -> (kb: Keyboard)
    ensures
        kb@ == support_rating_spec(id),
{
    let mut row: Vec<Button> = Vec::new();
    let mut v: usize = 1;
    while v <= 5
        invariant
            1 <= v <= 6,
            row_view(row) == Seq::new((v - 1) as nat, |k: int| rating_button(id, k + 1)),
        decreases 6 - v,
    {
        let mut label = format_usize(v);
        label.append("⭐");
        let mut data = with_id("support:rate:", id);
        data.append(":");
        let d = format_usize(v);
        data.append(d.as_str());
        let ghost before = row_view(row);
        row.push(Button { label: Label::Text(label), data });
        assert(row_view(row) =~= before.push(rating_button(id, v as int)));
        assert(Seq::new(v as nat, |k: int| rating_button(id, k + 1)) =~= Seq::new(
            (v - 1) as nat,
            |k: int| rating_button(id, k + 1),
        ).push(rating_button(id, v as int)));
        v += 1;
    }
    let mut rows = no_rows();
    push_row(&mut rows, row);
    let kb = Keyboard { rows };
    assert(kb@ =~= support_rating_spec(id));
    kb
}

/// The most servers the operations screen links to.
pub const OPERATIONS_SERVER_LIMIT: usize = 8;

pub open spec fn open_server_row(id: i64) -> Seq<ButtonView> {
    seq![text_button("🖥 Открыть сервер #"@ + decimal(id as int), "server:"@ + decimal(id as int))]
}

/// Operations: links to the first affected servers, a fresh check,
/// acknowledging unread events when there are any, and back.
pub open spec fn admin_operations_spec(server_ids: Seq<i64>, has_unread: bool) -> Seq<
    Seq<ButtonView>,
> {
    Seq::new(
        if server_ids.len() < OPERATIONS_SERVER_LIMIT {
            server_ids.len()
        } else {
            OPERATIONS_SERVER_LIMIT as nat
        },
        |k: int| open_server_row(server_ids[k]),
    ) + seq![seq![text_button("🔄 Проверить сейчас"@, "admin:operations:refresh"@)]] + (if has_unread {
        seq![seq![text_button("✅ Отметить события просмотренными"@, "admin:operations:ack"@)]]
    } else {
        Seq::<Seq<ButtonView>>::empty()
    }) + seq![seq![text_button("⬅️ Админ-панель"@, "admin:dashboard"@)]]
}

pub fn admin_operations_menu(server_ids: &[i64], has_unread: bool) -> (kb: Keyboard)
    ensures
        kb@ == admin_operations_spec(server_ids@, has_unread),
{
    let mut rows = no_rows();
    let n = if server_ids.len() < OPERATIONS_SERVER_LIMIT {
        server_ids.len()
    } else {
        OPERATIONS_SERVER_LIMIT
    };
    let mut i: usize = 0;
    while i < n
        invariant
            n <= server_ids@.len(),
            i <= n,
            rows_view(rows@) == Seq::new(i as nat, |k: int| open_server_row(server_ids@[k])),
        decreases n - i,
    {
        let id = server_ids[i];
        push_row(
            &mut rows,
            row1(
                Button {
                    label: Label::Text(with_id("🖥 Открыть сервер #", id)),
                    data: with_id("server:", id),
                },
            ),
        );
        assert(Seq::new((i + 1) as nat, |k: int| open_server_row(server_ids@[k])) =~= Seq::new(
            i as nat,
            |k: int| open_server_row(server_ids@[k]),
        ).push(open_server_row(server_ids@[i as int])));
        i += 1;
    }
    push_row(
        &mut rows,
        row1(
            Button {
                label: Label::Text("🔄 Проверить сейчас".to_string()),
                data: plain("admin:operations:refresh"),
            },
        ),
    );
    if has_unread {
        push_row(
            &mut rows,
            row1(
                Button {
                    label: Label::Text("✅ Отметить события просмотренными".to_string()),
                    data: plain("admin:operations:ack"),
                },
            ),
        );
    }
    push_row(
        &mut rows,
        row1(
            Button {
                label: Label::Text("⬅️ Админ-панель".to_string()),
                data: plain("admin:dashboard"),
            },
        ),
    );
    let kb = Keyboard { rows };
    assert(kb@ =~= admin_operations_spec(server_ids@, has_unread));
    kb
}

} // verus!
