//! Keyboards that list servers, users, support tickets and key requests, and
//! the price lists. Each list entry holds what its button shows.

use vstd::prelude::*;
use vstd::string::*;
use crate::keyboard::{concat2, concat3, no_rows, plain, push_row, row1, row2, row3, row_view, rows_view, text_button, with_id, with_name, Button, ButtonView, Keyboard, Label};
use crate::numbers::{decimal, format_i64, format_usize};
use crate::text::str_eq;

verus! {

/// A VPN server as the server lists show it.
pub struct ServerEntry {
    pub id: i64,
    pub name: String,
    pub location: String,
    /// `online`, `warning`, `offline`, `maintenance`, or anything else.
    pub status: String,
    /// The server is this host.
    pub is_local: bool,
    pub protocol: String,
    /// How many keys the server takes.
    pub capacity: i64,
}

/// A user as the user list shows them.
pub struct UserEntry {
    pub user_id: i64,
    pub username: Option<String>,
    pub display_name: String,
}

/// A support ticket as the ticket lists show it.
pub struct TicketEntry {
    pub id: i64,
    pub category: String,
    pub priority: String,
    pub status: String,
}

/// A request to restore an old key.
pub struct KeyRequestEntry {
    pub id: i64,
    pub user_id: i64,
    pub requested_name: String,
}

// ---------------------------------------------------------------------------
// Servers
// ---------------------------------------------------------------------------

pub open spec fn status_icon(status: Seq<char>) -> Seq<char> {
    if status == "online"@ {
        "🟢"@
    } else if status == "warning"@ {
        "🟠"@
    } else if status == "offline"@ {
        "🔴"@
    } else if status == "maintenance"@ {
        "🚧"@
    } else {
        "⚪"@
    }
}

fn status_icon_of(status: &str) -> (s: &'static str)
    ensures
        s@ == status_icon(status@),
{
    if str_eq(status, "online") {
        "🟢"
    } else if str_eq(status, "warning") {
        "🟠"
    } else if str_eq(status, "offline") {
        "🔴"
    } else if str_eq(status, "maintenance") {
        "🚧"
    } else {
        "⚪"
    }
}

pub open spec fn server_row(s: ServerEntry) -> Seq<ButtonView> {
    seq![
        text_button(
            status_icon(s.status@) + " "@ + (if s.is_local {
                "🏠 "@
            } else {
                ""@
            }) + s.name@ + " · "@ + s.location@,
            "server:"@ + decimal(s.id as int),
        ),
    ]
}

/// Every server with its state, then adding a server, the billing calendar,
/// and back.
pub open spec fn servers_spec(servers: Seq<ServerEntry>) -> Seq<Seq<ButtonView>> {
    Seq::new(servers.len(), |k: int| server_row(servers[k])) + seq![
        seq![
            text_button("➕ Подключить новый сервер"@, "server:add"@),
            text_button("💳 Календарь оплаты"@, "server:billing"@),
        ],
        seq![text_button("⬅️ Админ-панель"@, "admin:dashboard"@)],
    ]
}

pub fn servers_menu(servers: &[ServerEntry]) -> (kb: Keyboard)
    ensures
        kb@ == servers_spec(servers@),
{
    let mut rows = no_rows();
    let n = servers.len();
    let mut i: usize = 0;
    while i < n
        invariant
            n == servers@.len(),
            i <= n,
            rows_view(rows@) == Seq::new(i as nat, |k: int| server_row(servers@[k])),
        decreases n - i,
    {
        let s = &servers[i];
        let mut label = concat2(status_icon_of(s.status.as_str()), " ");
        if s.is_local {
            label.append("🏠 ");
        }
        label.append(s.name.as_str());
        label.append(" · ");
        label.append(s.location.as_str());
        proof {
            reveal_strlit("");
            assert(label@ =~= status_icon(s.status@) + " "@ + (if s.is_local {
                "🏠 "@
            } else {
                ""@
            }) + s.name@ + " · "@ + s.location@);
        }
        push_row(&mut rows, row1(Button { label: Label::Text(label), data: with_id("server:", s.id) }));
        assert(Seq::new((i + 1) as nat, |k: int| server_row(servers@[k])) =~= Seq::new(
            i as nat,
            |k: int| server_row(servers@[k]),
        ).push(server_row(servers@[i as int])));
        i += 1;
    }
    push_row(
        &mut rows,
        row2(
            Button {
                label: Label::Text("➕ Подключить новый сервер".to_string()),
                data: plain("server:add"),
            },
            Button {
                label: Label::Text("💳 Календарь оплаты".to_string()),
                data: plain("server:billing"),
            },
        ),
    );
    push_row(
        &mut rows,
        row1(
            Button {
                label: Label::Text("⬅️ Админ-панель".to_string()),
                data: plain("admin:dashboard"),
            },
        ),
    );
    let kb = Keyboard { rows };
    assert(kb@ =~= servers_spec(servers@));
    kb
}

pub open spec fn add_server_row(s: ServerEntry) -> Seq<ButtonView> {
    seq![text_button("🌍 "@ + s.name@ + " · "@ + s.location@, "add:server:"@ + decimal(s.id as int))]
}

/// Choosing the server a new key goes to.
pub open spec fn add_server_spec(servers: Seq<ServerEntry>) -> Seq<Seq<ButtonView>> {
    Seq::new(servers.len(), |k: int| add_server_row(servers[k])) + seq![
        seq![text_button("❌ Отмена"@, "menu"@)],
    ]
}

pub fn add_server_menu(servers: &[ServerEntry]) -> (kb: Keyboard)
    ensures
        kb@ == add_server_spec(servers@),
{
    let mut rows = no_rows();
    let n = servers.len();
    let mut i: usize = 0;
    while i < n
        invariant
            n == servers@.len(),
            i <= n,
            rows_view(rows@) == Seq::new(i as nat, |k: int| add_server_row(servers@[k])),
        decreases n - i,
    {
        let s = &servers[i];
        let mut label = concat3("🌍 ", s.name.as_str(), " · ");
        label.append(s.location.as_str());
        push_row(&mut rows, row1(Button { label: Label::Text(label), data: with_id("add:server:", s.id) }));
        assert(Seq::new((i + 1) as nat, |k: int| add_server_row(servers@[k])) =~= Seq::new(
            i as nat,
            |k: int| add_server_row(servers@[k]),
        ).push(add_server_row(servers@[i as int])));
        i += 1;
    }
    push_row(
        &mut rows,
        row1(Button { label: Label::Text("❌ Отмена".to_string()), data: plain("menu") }),
    );
    let kb = Keyboard { rows };
    assert(kb@ =~= add_server_spec(servers@));
    kb
}

/// The protocol of the newer generation.
pub open spec fn is_awg2(protocol: Seq<char>) -> bool {
    protocol == "amneziawg-2"@
}

pub open spec fn bulk_server_row(s: ServerEntry) -> Seq<ButtonView> {
    seq![
        text_button(
            "📍 "@ + s.location@ + " · "@ + (if is_awg2(s.protocol@) {
                "AWG 2.0"@
            } else {
                "AWG 1.0"@
            }),
            "bulkserver:"@ + decimal(s.id as int),
        ),
    ]
}

/// Choosing the server a batch of keys goes to.
pub open spec fn bulk_servers_spec(servers: Seq<ServerEntry>) -> Seq<Seq<ButtonView>> {
    Seq::new(servers.len(), |k: int| bulk_server_row(servers[k])) + seq![
        seq![text_button("❌ Отмена"@, "admin:keys"@)],
    ]
}

pub fn bulk_servers_menu(servers: &[ServerEntry]) -> (kb: Keyboard)
    ensures
        kb@ == bulk_servers_spec(servers@),
{
    let mut rows = no_rows();
    let n = servers.len();
    let mut i: usize = 0;
    while i < n
        invariant
            n == servers@.len(),
            i <= n,
            rows_view(rows@) == Seq::new(i as nat, |k: int| bulk_server_row(servers@[k])),
        decreases n - i,
    {
        let s = &servers[i];
        let generation = if str_eq(s.protocol.as_str(), "amneziawg-2") {
            "AWG 2.0"
        } else {
            "AWG 1.0"
        };
        let mut label = concat3("📍 ", s.location.as_str(), " · ");
        label.append(generation);
        push_row(&mut rows, row1(Button { label: Label::Text(label), data: with_id("bulkserver:", s.id) }));
        assert(Seq::new((i + 1) as nat, |k: int| bulk_server_row(servers@[k])) =~= Seq::new(
            i as nat,
            |k: int| bulk_server_row(servers@[k]),
        ).push(bulk_server_row(servers@[i as int])));
        i += 1;
    }
    push_row(
        &mut rows,
        row1(Button { label: Label::Text("❌ Отмена".to_string()), data: plain("admin:keys") }),
    );
    let kb = Keyboard { rows };
    assert(kb@ =~= bulk_servers_spec(servers@));
    kb
}

/// Places left on a server of `capacity` with `used` keys (none below zero).
pub open spec fn free_places(capacity: i64, used: i64) -> int {
    if capacity - used < i64::MIN {
        i64::MIN as int
    } else if capacity - used > i64::MAX {
        i64::MAX as int
    } else {
        capacity - used
    }
}

pub open spec fn buy_server_row(s: ServerEntry, used: i64) -> Seq<ButtonView> {
    seq![
        text_button(
            "📍 "@ + s.location@ + " · "@ + (if is_awg2(s.protocol@) {
                "AWG 2.0 · тестовый"@
            } else {
                "AWG 1.0 · стабильно"@
            }) + " · свободно "@ + decimal(free_places(s.capacity, used)),
            "buy:server:"@ + decimal(s.id as int),
        ),
    ]
}

/// Choosing the server for a purchased key: each with its generation and its
/// places left (`used[k]` keys on server `k`).
pub open spec fn buy_servers_spec(servers: Seq<ServerEntry>, used: Seq<i64>) -> Seq<
    Seq<ButtonView>,
> {
    Seq::new(servers.len(), |k: int| buy_server_row(servers[k], used[k])) + seq![
        seq![text_button("⬅️ Кабинет"@, "profile"@)],
    ]
}

pub fn buy_servers_menu(servers: &[ServerEntry], used: &[i64]) -> (kb: Keyboard)
    requires
        used@.len() == servers@.len(),
    ensures
        kb@ == buy_servers_spec(servers@, used@),
{
    let mut rows = no_rows();
    let n = servers.len();
    let mut i: usize = 0;
    while i < n
        invariant
            n == servers@.len(),
            n == used@.len(),
            i <= n,
            rows_view(rows@) == Seq::new(i as nat, |k: int| buy_server_row(servers@[k], used@[k])),
        decreases n - i,
    {
        let s = &servers[i];
        let generation = if str_eq(s.protocol.as_str(), "amneziawg-2") {
            "AWG 2.0 · тестовый"
        } else {
            "AWG 1.0 · стабильно"
        };
        let difference = s.capacity as i128 - used[i] as i128;
        let free: i64 = if difference < i64::MIN as i128 {
            i64::MIN
        } else if difference > i64::MAX as i128 {
            i64::MAX
        } else {
            difference as i64
        };
        let mut label = concat3("📍 ", s.location.as_str(), " · ");
        label.append(generation);
        label.append(" · свободно ");
        let f = format_i64(free);
        label.append(f.as_str());
        push_row(&mut rows, row1(Button { label: Label::Text(label), data: with_id("buy:server:", s.id) }));
        assert(Seq::new((i + 1) as nat, |k: int| buy_server_row(servers@[k], used@[k])) =~= Seq::new(
            i as nat,
            |k: int| buy_server_row(servers@[k], used@[k]),
        ).push(buy_server_row(servers@[i as int], used@[i as int])));
        i += 1;
    }
    push_row(
        &mut rows,
        row1(Button { label: Label::Text("⬅️ Кабинет".to_string()), data: plain("profile") }),
    );
    let kb = Keyboard { rows };
    assert(kb@ =~= buy_servers_spec(servers@, used@));
    kb
}

pub open spec fn move_server_row(name: Seq<char>, s: ServerEntry, used: i64) -> Seq<ButtonView> {
    seq![
        text_button(
            "📍 "@ + s.location@ + " · "@ + s.protocol@ + " ("@ + decimal(used as int) + "/"@ + decimal(
                s.capacity as int,
            ) + ")"@,
            "move:run:"@ + name + ":"@ + decimal(s.id as int),
        ),
    ]
}

/// Choosing the server that key `name` moves to: each with its load
/// (`used[k]` keys on server `k`).
pub open spec fn customer_move_servers_spec(
    name: Seq<char>,
    servers: Seq<ServerEntry>,
    used: Seq<i64>,
) -> Seq<Seq<ButtonView>> {
    Seq::new(servers.len(), |k: int| move_server_row(name, servers[k], used[k])) + seq![
        seq![text_button("⬅️ Назад"@, "mykey:"@ + name)],
    ]
}

pub fn customer_move_servers_menu(name: &str, servers: &[ServerEntry], used: &[i64]) -> (kb:
    Keyboard)
    requires
        used@.len() == servers@.len(),
    ensures
        kb@ == customer_move_servers_spec(name@, servers@, used@),
{
    let mut rows = no_rows();
    let n = servers.len();
    let mut i: usize = 0;
    while i < n
        invariant
            n == servers@.len(),
            n == used@.len(),
            i <= n,
            rows_view(rows@) == Seq::new(
                i as nat,
                |k: int| move_server_row(name@, servers@[k], used@[k]),
            ),
        decreases n - i,
    {
        let s = &servers[i];
        let mut label = concat3("📍 ", s.location.as_str(), " · ");
        label.append(s.protocol.as_str());
        label.append(" (");
        let u = format_i64(used[i]);
        label.append(u.as_str());
        label.append("/");
        let c = format_i64(s.capacity);
        label.append(c.as_str());
        label.append(")");
        let mut data = with_name("move:run:", name);
        data.append(":");
        let id = format_i64(s.id);
        data.append(id.as_str());
        push_row(&mut rows, row1(Button { label: Label::Text(label), data }));
        assert(Seq::new((i + 1) as nat, |k: int| move_server_row(name@, servers@[k], used@[k])) =~= Seq::new(
            i as nat,
            |k: int| move_server_row(name@, servers@[k], used@[k]),
        ).push(move_server_row(name@, servers@[i as int], used@[i as int])));
        i += 1;
    }
    push_row(
        &mut rows,
        row1(Button { label: Label::Text("⬅️ Назад".to_string()), data: with_name("mykey:", name) }),
    );
    let kb = Keyboard { rows };
    assert(kb@ =~= customer_move_servers_spec(name@, servers@, used@));
    kb
}

// ---------------------------------------------------------------------------
// Users
// ---------------------------------------------------------------------------

pub open spec fn user_label(u: UserEntry) -> Seq<char> {
    match u.username {
        Some(name) => "@"@ + name@,
        None => u.display_name@ + " · "@ + decimal(u.user_id as int),
    }
}

pub open spec fn user_row(u: UserEntry) -> Seq<ButtonView> {
    seq![text_button(user_label(u), "admin:user:"@ + decimal(u.user_id as int))]
}

/// The user list's navigation row: back, the position, forward.
pub open spec fn users_nav_row(page: nat, pages: nat) -> Seq<ButtonView> {
    (if page > 0 {
        seq![text_button("⬅️"@, "admin:owners:page:"@ + decimal(page - 1int))]
    } else {
        Seq::<ButtonView>::empty()
    }) + seq![text_button(decimal(page + 1int) + "/"@ + decimal(pages as int), "noop"@)] + (if page
        + 1 < pages {
        seq![text_button("➡️"@, "admin:owners:page:"@ + decimal(page + 1int))]
    } else {
        Seq::<ButtonView>::empty()
    })
}

/// The page navigation of the user list, shown only with several pages.
pub open spec fn users_nav_spec(page: nat, pages: nat) -> Seq<Seq<ButtonView>> {
    if pages > 1 {
        seq![users_nav_row(page, pages)]
    } else {
        Seq::empty()
    }
}

/// One page of users, the navigation, searching, and back.
pub open spec fn admin_users_spec(users: Seq<UserEntry>, page: nat, pages: nat) -> Seq<
    Seq<ButtonView>,
> {
    Seq::new(users.len(), |k: int| user_row(users[k])) + users_nav_spec(page, pages) + seq![
        seq![text_button("🔎 Найти пользователя"@, "admin:search"@)],
        seq![text_button("⬅️ Админ-панель"@, "admin:dashboard"@)],
    ]
}

fn user_label_text(u: &UserEntry) -> (s: String)
    ensures
        s@ == user_label(*u),
{
    match &u.username {
        Some(name) => concat2("@", name.as_str()),
        None => {
            let mut s = concat2(u.display_name.as_str(), " · ");
            let id = format_i64(u.user_id);
            s.append(id.as_str());
            s
        },
    }
}

pub fn admin_users_menu(users: &[UserEntry], page: usize, pages: usize) -> (kb: Keyboard)
    requires
        page < usize::MAX,
    ensures
        kb@ == admin_users_spec(users@, page as nat, pages as nat),
{
    let mut rows = no_rows();
    let n = users.len();
    let mut i: usize = 0;
    while i < n
        invariant
            n == users@.len(),
            i <= n,
            rows_view(rows@) == Seq::new(i as nat, |k: int| user_row(users@[k])),
        decreases n - i,
    {
        let u = &users[i];
        push_row(
            &mut rows,
            row1(Button { label: Label::Text(user_label_text(u)), data: with_id("admin:user:", u.user_id) }),
        );
        assert(Seq::new((i + 1) as nat, |k: int| user_row(users@[k])) =~= Seq::new(
            i as nat,
            |k: int| user_row(users@[k]),
        ).push(user_row(users@[i as int])));
        i += 1;
    }
    let ghost listed = rows_view(rows@);
    if pages > 1 {
        let mut nav: Vec<Button> = Vec::new();
        let ghost mut expected: Seq<ButtonView> = Seq::empty();
        if page > 0 {
            let mut data = "admin:owners:page:".to_string();
            let p = format_usize(page - 1);
            data.append(p.as_str());
            nav.push(Button { label: Label::Text("⬅️".to_string()), data });
            proof {
                expected = seq![text_button("⬅️"@, "admin:owners:page:"@ + decimal(page - 1int))];
            }
        }
        assert(row_view(nav) =~= expected);
        let mut position = format_usize(page + 1);
        position.append("/");
        let total = format_usize(pages);
        position.append(total.as_str());
        nav.push(Button { label: Label::Text(position), data: plain("noop") });
        proof {
            expected = expected.push(
                text_button(decimal(page + 1int) + "/"@ + decimal(pages as int), "noop"@),
            );
        }
        assert(row_view(nav) =~= expected);
        if page + 1 < pages {
            let mut data = "admin:owners:page:".to_string();
            let p = format_usize(page + 1);
            data.append(p.as_str());
            nav.push(Button { label: Label::Text("➡️".to_string()), data });
            proof {
                expected = expected.push(
                    text_button("➡️"@, "admin:owners:page:"@ + decimal(page + 1int)),
                );
            }
        }
        assert(row_view(nav) =~= expected);
        assert(expected =~= users_nav_row(page as nat, pages as nat));
        push_row(&mut rows, nav);
        assert(rows_view(rows@) =~= listed + users_nav_spec(page as nat, pages as nat));
    } else {
        assert(rows_view(rows@) =~= listed + users_nav_spec(page as nat, pages as nat));
    }
    push_row(
        &mut rows,
        row1(
            Button {
                label: Label::Text("🔎 Найти пользователя".to_string()),
                data: plain("admin:search"),
            },
        ),
    );
    push_row(
        &mut rows,
        row1(
            Button {
                label: Label::Text("⬅️ Админ-панель".to_string()),
                data: plain("admin:dashboard"),
            },
        ),
    );
    let kb = Keyboard { rows };
    assert(kb@ =~= admin_users_spec(users@, page as nat, pages as nat));
    kb
}

// ---------------------------------------------------------------------------
// Support tickets
// ---------------------------------------------------------------------------

pub open spec fn ticket_row(t: TicketEntry) -> Seq<ButtonView> {
    seq![
        text_button(
            "#"@ + decimal(t.id as int) + " · "@ + t.category@ + " · "@ + t.priority@ + " · "@
                + t.status@,
            "support:ticket:"@ + decimal(t.id as int),
        ),
    ]
}

pub open spec fn ticket_rows(tickets: Seq<TicketEntry>) -> Seq<Seq<ButtonView>> {
    Seq::new(tickets.len(), |k: int| ticket_row(tickets[k]))
}

fn ticket_button(t: &TicketEntry) -> (b: Button)
    ensures
        seq![b@] == ticket_row(*t),
{
    let mut label = with_id("#", t.id);
    label.append(" · ");
    label.append(t.category.as_str());
    label.append(" · ");
    label.append(t.priority.as_str());
    label.append(" · ");
    label.append(t.status.as_str());
    Button { label: Label::Text(label), data: with_id("support:ticket:", t.id) }
}

fn push_tickets(rows: &mut Vec<Vec<Button>>, tickets: &[TicketEntry])
    ensures
        rows_view(final(rows)@) == rows_view(old(rows)@) + ticket_rows(tickets@),
{
    let ghost before = rows_view(rows@);
    let n = tickets.len();
    let mut i: usize = 0;
    while i < n
        invariant
            n == tickets@.len(),
            i <= n,
            rows_view(rows@) == before + Seq::new(i as nat, |k: int| ticket_row(tickets@[k])),
        decreases n - i,
    {
        let b = ticket_button(&tickets[i]);
        push_row(rows, row1(b));
        assert(before + Seq::new((i + 1) as nat, |k: int| ticket_row(tickets@[k])) =~= (before
            + Seq::new(i as nat, |k: int| ticket_row(tickets@[k]))).push(ticket_row(tickets@[i as int])));
        i += 1;
    }
}

/// One button per ticket.
pub open spec fn support_tickets_spec(tickets: Seq<TicketEntry>) -> Seq<Seq<ButtonView>> {
    ticket_rows(tickets)
}

pub fn support_tickets_menu(tickets: &[TicketEntry]) -> (kb: Keyboard)
    ensures
        kb@ == support_tickets_spec(tickets@),
{
    let mut rows = no_rows();
    push_tickets(&mut rows, tickets);
    let kb = Keyboard { rows };
    assert(kb@ =~= support_tickets_spec(tickets@));
    kb
}

/// The ticket filters, the tickets, and back.
pub open spec fn support_filters_spec(tickets: Seq<TicketEntry>) -> Seq<Seq<ButtonView>> {
    seq![
        seq![
            text_button("🆕 Новые"@, "support:filter:open"@),
            text_button("🛠 В работе"@, "support:filter:in_progress"@),
            text_button("✅ Закрытые"@, "support:filter:closed"@),
        ],
    ] + ticket_rows(tickets) + seq![seq![text_button("⬅️ Админ-панель"@, "admin:dashboard"@)]]
}

pub fn support_filters_menu(tickets: &[TicketEntry]) -> (kb: Keyboard)
    ensures
        kb@ == support_filters_spec(tickets@),
{
    let mut rows = no_rows();
    push_row(
        &mut rows,
        row3(
            Button { label: Label::Text("🆕 Новые".to_string()), data: plain("support:filter:open") },
            Button {
                label: Label::Text("🛠 В работе".to_string()),
                data: plain("support:filter:in_progress"),
            },
            Button {
                label: Label::Text("✅ Закрытые".to_string()),
                data: plain("support:filter:closed"),
            },
        ),
    );
    push_tickets(&mut rows, tickets);
    push_row(
        &mut rows,
        row1(
            Button {
                label: Label::Text("⬅️ Админ-панель".to_string()),
                data: plain("admin:dashboard"),
            },
        ),
    );
    let kb = Keyboard { rows };
    assert(kb@ =~= support_filters_spec(tickets@));
    kb
}

// ---------------------------------------------------------------------------
// Key requests
// ---------------------------------------------------------------------------

pub open spec fn request_rows(r: KeyRequestEntry) -> Seq<Seq<ButtonView>> {
    seq![
        seq![
            text_button(
                "#"@ + decimal(r.id as int) + " · user "@ + decimal(r.user_id as int) + " · "@
                    + r.requested_name@,
                "admin:user:"@ + decimal(r.user_id as int),
            ),
        ],
        seq![
            text_button("✅ Одобрить"@, "legacy:req:ok:"@ + decimal(r.id as int)),
            text_button("❌ Отклонить"@, "legacy:req:no:"@ + decimal(r.id as int)),
        ],
    ]
}

pub open spec fn requests_rows(requests: Seq<KeyRequestEntry>) -> Seq<Seq<ButtonView>>
    decreases requests.len(),
{
    if requests.len() == 0 {
        Seq::empty()
    } else {
        requests_rows(requests.drop_last()) + request_rows(requests.last())
    }
}

/// Each key request with its user and its decision buttons, then the
/// renewal price, the promo codes, and back.
pub open spec fn legacy_admin_spec(requests: Seq<KeyRequestEntry>) -> Seq<Seq<ButtonView>> {
    requests_rows(requests) + seq![
        seq![text_button("💰 Изменить цену продления"@, "legacy:price"@)],
        seq![text_button("🎟 Legacy-промокоды"@, "admin:promos"@)],
        seq![text_button("⬅️ Админ-панель"@, "admin:dashboard"@)],
    ]
}

pub fn legacy_admin_menu(requests: &[KeyRequestEntry]) -> (kb: Keyboard)
    ensures
        kb@ == legacy_admin_spec(requests@),
{
    let mut rows = no_rows();
    let n = requests.len();
    let mut i: usize = 0;
    while i < n
        invariant
            n == requests@.len(),
            i <= n,
            rows_view(rows@) == requests_rows(requests@.take(i as int)),
        decreases n - i,
    {
        let r = &requests[i];
        let mut label = with_id("#", r.id);
        label.append(" · user ");
        let u = format_i64(r.user_id);
        label.append(u.as_str());
        label.append(" · ");
        label.append(r.requested_name.as_str());
        push_row(
            &mut rows,
            row1(Button { label: Label::Text(label), data: with_id("admin:user:", r.user_id) }),
        );
        push_row(
            &mut rows,
            row2(
                Button {
                    label: Label::Text("✅ Одобрить".to_string()),
                    data: with_id("legacy:req:ok:", r.id),
                },
                Button {
                    label: Label::Text("❌ Отклонить".to_string()),
                    data: with_id("legacy:req:no:", r.id),
                },
            ),
        );
        assert(requests@.take(i + 1).drop_last() =~= requests@.take(i as int));
        assert(rows_view(rows@) =~= requests_rows(requests@.take(i as int)) + request_rows(
            requests@[i as int],
        ));
        i += 1;
    }
    assert(requests@.take(n as int) =~= requests@);
    push_row(
        &mut rows,
        row1(
            Button {
                label: Label::Text("💰 Изменить цену продления".to_string()),
                data: plain("legacy:price"),
            },
        ),
    );
    push_row(
        &mut rows,
        row1(
            Button { label: Label::Text("🎟 Legacy-промокоды".to_string()), data: plain("admin:promos") },
        ),
    );
    push_row(
        &mut rows,
        row1(
            Button {
                label: Label::Text("⬅️ Админ-панель".to_string()),
                data: plain("admin:dashboard"),
            },
        ),
    );
    let kb = Keyboard { rows };
    assert(kb@ =~= legacy_admin_spec(requests@));
    kb
}

// ---------------------------------------------------------------------------
// Prices
// ---------------------------------------------------------------------------

/// Whole rubles in an amount of kopecks (rounded toward zero).
pub open spec fn rubles(kopecks: i64) -> int {
    if kopecks >= 0 {
        kopecks / 100
    } else {
        -((-kopecks) / 100)
    }
}

pub open spec fn term_text(months: Seq<char>, kopecks: i64) -> Seq<char> {
    months + " — "@ + decimal(rubles(kopecks)) + " ₽"@
}

fn term_label(months: &str, kopecks: i64) -> (s: String)
    ensures
        s@ == term_text(months@, kopecks),
{
    let mut s = concat2(months, " — ");
    let r = format_i64(kopecks / 100);
    s.append(r.as_str());
    s.append(" ₽");
    s
}

/// The four terms of a new key with their prices (`prices` in kopecks, for
/// one, three, six and twelve months).
pub open spec fn buy_terms_spec(prices: Seq<i64>) -> Seq<Seq<ButtonView>> {
    seq![
        seq![
            text_button(term_text("1 месяц"@, prices[0]), "buy:term:1"@),
            text_button(term_text("3 месяца"@, prices[1]), "buy:term:3"@),
        ],
        seq![
            text_button(term_text("6 месяцев"@, prices[2]), "buy:term:6"@),
            text_button(term_text("12 месяцев"@, prices[3]), "buy:term:12"@),
        ],
    ]
}

pub fn buy_terms_menu(prices: [i64; 4]) -> (kb: Keyboard)
    ensures
        kb@ == buy_terms_spec(prices@),
{
    let mut rows = no_rows();
    push_row(
        &mut rows,
        row2(
            Button { label: Label::Text(term_label("1 месяц", prices[0])), data: plain("buy:term:1") },
            Button { label: Label::Text(term_label("3 месяца", prices[1])), data: plain("buy:term:3") },
        ),
    );
    push_row(
        &mut rows,
        row2(
            Button { label: Label::Text(term_label("6 месяцев", prices[2])), data: plain("buy:term:6") },
            Button {
                label: Label::Text(term_label("12 месяцев", prices[3])),
                data: plain("buy:term:12"),
            },
        ),
    );
    let kb = Keyboard { rows };
    assert(kb@ =~= buy_terms_spec(prices@));
    kb
}

/// The four renewal terms of key `name` with their prices.
pub open spec fn renew_terms_spec(name: Seq<char>, prices: Seq<i64>) -> Seq<Seq<ButtonView>> {
    seq![
        seq![
            text_button(term_text("1 месяц"@, prices[0]), "renew:term:"@ + name + ":1"@),
            text_button(term_text("3 месяца"@, prices[1]), "renew:term:"@ + name + ":3"@),
        ],
        seq![
            text_button(term_text("6 месяцев"@, prices[2]), "renew:term:"@ + name + ":6"@),
            text_button(term_text("12 месяцев"@, prices[3]), "renew:term:"@ + name + ":12"@),
        ],
    ]
}

pub fn renew_terms_menu(name: &str, prices: [i64; 4]) -> (kb: Keyboard)
    ensures
        kb@ == renew_terms_spec(name@, prices@),
{
    let mut rows = no_rows();
    push_row(
        &mut rows,
        row2(
            Button {
                label: Label::Text(term_label("1 месяц", prices[0])),
                data: concat3("renew:term:", name, ":1"),
            },
            Button {
                label: Label::Text(term_label("3 месяца", prices[1])),
                data: concat3("renew:term:", name, ":3"),
            },
        ),
    );
    push_row(
        &mut rows,
        row2(
            Button {
                label: Label::Text(term_label("6 месяцев", prices[2])),
                data: concat3("renew:term:", name, ":6"),
            },
            Button {
                label: Label::Text(term_label("12 месяцев", prices[3])),
                data: concat3("renew:term:", name, ":12"),
            },
        ),
    );
    let kb = Keyboard { rows };
    assert(kb@ =~= renew_terms_spec(name@, prices@));
    kb
}

} // verus!
