//! The client list's keyboard: one page of clients, the page navigation, the
//! filter row, and the owner's extra buttons.

use vstd::prelude::*;
use vstd::string::*;
use crate::keyboard::{
    catalog_button, concat2, no_rows, plain, push_row, row1, row_view, rows_view, text_button,
    with_index, with_name, Button, ButtonView, CatalogText, Keyboard, Label, LabelView,
};
use crate::model::{filter_name, ClientFilter, Lang};
use crate::numbers::{decimal, format_usize};

verus! {

// ---------------------------------------------------------------------------
// Filters
// ---------------------------------------------------------------------------

/// The filters in the order the filter row shows them.
pub open spec fn filter_at(k: int) -> ClientFilter {
    if k == 0 {
        ClientFilter::All
    } else if k == 1 {
        ClientFilter::Online
    } else if k == 2 {
        ClientFilter::Offline
    } else {
        ClientFilter::Never
    }
}

pub open spec fn filter_button(f: ClientFilter, current: ClientFilter) -> ButtonView {
    (LabelView::Filter { filter: f, active: f == current }, "listfilter:"@ + filter_name(f))
}

/// The filter row: every filter, the one in use marked.
pub open spec fn filter_row_spec(current: ClientFilter) -> Seq<ButtonView> {
    Seq::new(4, |k: int| filter_button(filter_at(k), current))
}

fn filter_button_of(f: ClientFilter, current: ClientFilter) -> (b: Button)
    ensures
        b@ == filter_button(f, current),
{
    let active = match (f, current) {
        (ClientFilter::All, ClientFilter::All) => true,
        (ClientFilter::Online, ClientFilter::Online) => true,
        (ClientFilter::Offline, ClientFilter::Offline) => true,
        (ClientFilter::Never, ClientFilter::Never) => true,
        _ => false,
    };
    Button { label: Label::Filter { filter: f, active }, data: with_name("listfilter:", f.as_str()) }
}

/// The filter row with `current` marked.
pub fn filter_row(lang: Lang, current: ClientFilter) -> (row: Vec<Button>)
    ensures
        row_view(row) == filter_row_spec(current),
{
    let mut row: Vec<Button> = Vec::new();
    row.push(filter_button_of(ClientFilter::All, current));
    row.push(filter_button_of(ClientFilter::Online, current));
    row.push(filter_button_of(ClientFilter::Offline, current));
    row.push(filter_button_of(ClientFilter::Never, current));
    assert(row_view(row) =~= filter_row_spec(current));
    row
}

pub open spec fn scope_text(lang: Lang) -> Seq<char> {
    if lang == Lang::Ru {
        "🗂 Фильтр по группе"@
    } else {
        "🗂 Group filter"@
    }
}

fn scope_label(lang: Lang) -> (s: String)
    ensures
        s@ == scope_text(lang),
{
    match lang {
        Lang::Ru => "🗂 Фильтр по группе".to_string(),
        Lang::En => "🗂 Group filter".to_string(),
    }
}

pub open spec fn owner_scope_rows(is_owner: bool, lang: Lang) -> Seq<Seq<ButtonView>> {
    if is_owner {
        seq![seq![text_button(scope_text(lang), "gscope"@)]]
    } else {
        Seq::empty()
    }
}

/// The keyboard when a filter or scope leaves no client: showing all keys,
/// the filter row, the owner's group filter, and back.
pub open spec fn clients_empty_spec(lang: Lang, current: ClientFilter, is_owner: bool) -> Seq<
    Seq<ButtonView>,
> {
    seq![
        seq![
            text_button(
                if lang == Lang::Ru {
                    "👥 Показать все ключи"@
                } else {
                    "👥 Show all keys"@
                },
                "listfilter:all"@,
            ),
        ],
        filter_row_spec(current),
    ] + owner_scope_rows(is_owner, lang) + seq![seq![catalog_button(CatalogText::Back, "menu"@)]]
}

pub fn clients_empty_menu(lang: Lang, current_filter: ClientFilter, is_owner: bool) -> (kb:
    Keyboard)
    ensures
        kb@ == clients_empty_spec(lang, current_filter, is_owner),
{
    let mut rows = no_rows();
    let show_all = match lang {
        Lang::Ru => "👥 Показать все ключи",
        Lang::En => "👥 Show all keys",
    };
    push_row(
        &mut rows,
        row1(Button { label: Label::Text(show_all.to_string()), data: plain("listfilter:all") }),
    );
    push_row(&mut rows, filter_row(lang, current_filter));
    if is_owner {
        push_row(&mut rows, row1(Button { label: Label::Text(scope_label(lang)), data: plain("gscope") }));
    }
    push_row(&mut rows, row1(Button { label: Label::Catalog(CatalogText::Back), data: plain("menu") }));
    let kb = Keyboard { rows };
    assert(kb@ =~= clients_empty_spec(lang, current_filter, is_owner));
    kb
}

// ---------------------------------------------------------------------------
// Pages
// ---------------------------------------------------------------------------

/// Pages of `per_page` clients needed for `count` clients; at least one.
pub open spec fn page_count(count: nat, per_page: nat) -> nat {
    if count == 0 || per_page == 0 {
        1
    } else {
        ((count + per_page - 1) / per_page as int) as nat
    }
}

/// The positions of the clients on page `page`: from `start` up to `end`.
pub open spec fn page_bounds(count: nat, page: nat, per_page: nat) -> (nat, nat) {
    let start = page * per_page;
    if start >= count {
        (count, count)
    } else if start + per_page >= count {
        (start, count)
    } else {
        (start, start + per_page)
    }
}

/// The navigation row of page `page`: back a page when there is one, the
/// refresh button showing the position, forward a page when there is one.
pub open spec fn nav_row_spec(page: nat, pages: nat) -> Seq<ButtonView> {
    (if page > 0 {
        seq![text_button("◀️"@, "page:"@ + decimal(page - 1int))]
    } else {
        Seq::<ButtonView>::empty()
    }) + seq![
        text_button("🔄 "@ + decimal(page + 1int) + "/"@ + decimal(pages as int), "page:"@ + decimal(page as int)),
    ] + (if page + 1 < pages {
        seq![text_button("▶️"@, "page:"@ + decimal(page + 1int))]
    } else {
        Seq::<ButtonView>::empty()
    })
}

/// A client in the list: its name and the label the list shows for it.
pub struct ClientEntry {
    pub name: String,
    /// The status mark (a coloured circle).
    pub mark: String,
    /// The status word.
    pub state: String,
    /// The last handshake, compactly ("2 мин", "никогда").
    pub handshake: String,
}

/// The expiry badge of the client at `i` (by its place in the whole list).
pub open spec fn badge_at(badges: Seq<Option<String>>, i: int) -> Option<Seq<char>> {
    if 0 <= i < badges.len() {
        match badges[i] {
            Some(b) => Some(b@),
            None => None,
        }
    } else {
        None
    }
}

/// A client's button label: mark, name, state and handshake, then the
/// expiry badge where there is one.
pub open spec fn client_label(c: ClientEntry, badge: Option<Seq<char>>) -> Seq<char> {
    c.mark@ + " "@ + c.name@ + " · "@ + c.state@ + " · "@ + c.handshake@ + match badge {
        Some(b) => " "@ + b,
        None => Seq::empty(),
    }
}

pub open spec fn client_row(c: ClientEntry, badge: Option<Seq<char>>) -> Seq<ButtonView> {
    seq![text_button(client_label(c, badge), "client:"@ + c.name@)]
}

/// The list's keyboard: the clients of page `page`, the navigation, the
/// filter row, the owner's group filter and reissue of every key, and back.
/// With no clients per page, only back.
pub open spec fn clients_list_spec(
    lang: Lang,
    clients: Seq<ClientEntry>,
    badges: Seq<Option<String>>,
    page: nat,
    per_page: nat,
    current: ClientFilter,
    is_owner: bool,
) -> Seq<Seq<ButtonView>> {
    if per_page == 0 {
        seq![seq![catalog_button(CatalogText::Back, "menu"@)]]
    } else {
        let (start, end) = page_bounds(clients.len(), page, per_page);
        Seq::new((end - start) as nat, |k: int| client_row(clients[start + k], badge_at(badges, start + k))) + seq![
            nav_row_spec(page, page_count(clients.len(), per_page)),
            filter_row_spec(current),
        ] + owner_scope_rows(is_owner, lang) + (if is_owner {
            seq![seq![catalog_button(CatalogText::RegenAll, "regen_all"@)]]
        } else {
            Seq::<Seq<ButtonView>>::empty()
        }) + seq![seq![catalog_button(CatalogText::Back, "menu"@)]]
    }
}

fn page_button(label: &str, page: usize) -> (b: Button)
    ensures
        b@ == text_button(label@, "page:"@ + decimal(page as int)),
{
    Button { label: Label::Text(label.to_string()), data: with_index("page:", page) }
}

/// The navigation row of page `page` of `pages`.
pub fn nav_row(page: usize, pages: usize) -> (row: Vec<Button>)
    requires
        page < usize::MAX,
    ensures
        row_view(row) == nav_row_spec(page as nat, pages as nat),
{
    let mut row: Vec<Button> = Vec::new();
    let ghost mut expected: Seq<ButtonView> = Seq::empty();
    if page > 0 {
        row.push(page_button("◀️", page - 1));
        proof {
            expected = seq![text_button("◀️"@, "page:"@ + decimal(page - 1))];
        }
    }
    assert(row_view(row) =~= expected);
    let mut label = concat2("🔄 ", format_usize(page + 1).as_str());
    label.append("/");
    let total = format_usize(pages);
    label.append(total.as_str());
    row.push(Button { label: Label::Text(label), data: with_index("page:", page) });
    proof {
        expected = expected.push(
            text_button(
                "🔄 "@ + decimal(page + 1) + "/"@ + decimal(pages as int),
                "page:"@ + decimal(page as int),
            ),
        );
    }
    assert(row_view(row) =~= expected);
    if page + 1 < pages {
        row.push(page_button("▶️", page + 1));
        proof {
            expected = expected.push(text_button("▶️"@, "page:"@ + decimal(page + 1)));
        }
    }
    assert(row_view(row) =~= expected);
    assert(expected =~= nav_row_spec(page as nat, pages as nat));
    row
}

/// The number of pages for `count` clients, `per_page` to a page.
pub fn pages_for(count: usize, per_page: usize) -> (pages: usize)
    requires
        per_page > 0,
    ensures
        pages == page_count(count as nat, per_page as nat),
{
    if count == 0 {
        1
    } else {
        let full = count / per_page;
        if count % per_page == 0 {
            proof {
                assert((count + per_page - 1) / per_page as int == full) by (nonlinear_arith)
                    requires
                        per_page > 0,
                        count % per_page == 0,
                        full == count / per_page,
                ;
            }
            full
        } else {
            proof {
                assert((count + per_page - 1) / per_page as int == full + 1) by (nonlinear_arith)
                    requires
                        per_page > 0,
                        count % per_page != 0,
                        full == count / per_page,
                ;
                assert(full + 1 <= count) by (nonlinear_arith)
                    requires
                        per_page > 0,
                        count > 0,
                        full == count / per_page,
                        count % per_page != 0,
                ;
            }
            full + 1
        }
    }
}

fn client_label_of(c: &ClientEntry, badges: &[Option<String>], i: usize) -> (label: String)
    ensures
        label@ == client_label(*c, badge_at(badges@, i as int)),
{
    let mut label = c.mark.clone();
    label.append(" ");
    label.append(c.name.as_str());
    label.append(" · ");
    label.append(c.state.as_str());
    label.append(" · ");
    label.append(c.handshake.as_str());
    if i < badges.len() {
        if let Some(b) = &badges[i] {
            label.append(" ");
            label.append(b.as_str());
        }
    }
    assert(label@ =~= client_label(*c, badge_at(badges@, i as int)));
    label
}

/// The client list's keyboard (see `clients_list_spec`): each client's label
/// carries the expiry badge of its place in the whole list.
pub fn clients_list(
    lang: Lang,
    clients: &[ClientEntry],
    badges: &[Option<String>],
    page: usize,
    per_page: usize,
    current_filter: ClientFilter,
    is_owner: bool,
) -> (kb: Keyboard)
    requires
        page * per_page <= usize::MAX,
        page < usize::MAX,
    ensures
        kb@ == clients_list_spec(
            lang,
            clients@,
            badges@,
            page as nat,
            per_page as nat,
            current_filter,
            is_owner,
        ),
{
    let mut rows = no_rows();
    if per_page == 0 {
        push_row(&mut rows, row1(Button { label: Label::Catalog(CatalogText::Back), data: plain("menu") }));
        let kb = Keyboard { rows };
        assert(kb@ =~= clients_list_spec(lang, clients@, badges@, page as nat, per_page as nat, current_filter, is_owner));
        return kb;
    }
    let n = clients.len();
    let start = page * per_page;
    let (lo, hi) = if start >= n {
        (n, n)
    } else if per_page >= n - start {
        (start, n)
    } else {
        (start, start + per_page)
    };
    assert((lo as nat, hi as nat) == page_bounds(n as nat, page as nat, per_page as nat));
    let mut i = lo;
    while i < hi
        invariant
            lo <= i <= hi <= n,
            n == clients@.len(),
            rows_view(rows@) == Seq::new((i - lo) as nat, |k: int| client_row(clients@[lo + k], badge_at(badges@, lo + k))),
        decreases hi - i,
    {
        let c = &clients[i];
        let label = client_label_of(c, badges, i);
        push_row(
            &mut rows,
            row1(Button { label: Label::Text(label), data: with_name("client:", c.name.as_str()) }),
        );
        assert(Seq::new((i + 1 - lo) as nat, |k: int| client_row(clients@[lo + k], badge_at(badges@, lo + k))) =~= Seq::new(
            (i - lo) as nat,
            |k: int| client_row(clients@[lo + k], badge_at(badges@, lo + k)),
        ).push(client_row(clients@[i as int], badge_at(badges@, i as int))));
        i += 1;
    }
    let pages = pages_for(n, per_page);
    push_row(&mut rows, nav_row(page, pages));
    push_row(&mut rows, filter_row(lang, current_filter));
    if is_owner {
        push_row(&mut rows, row1(Button { label: Label::Text(scope_label(lang)), data: plain("gscope") }));
        push_row(
            &mut rows,
            row1(Button { label: Label::Catalog(CatalogText::RegenAll), data: plain("regen_all") }),
        );
    }
    push_row(&mut rows, row1(Button { label: Label::Catalog(CatalogText::Back), data: plain("menu") }));
    let kb = Keyboard { rows };
    assert(kb@ =~= clients_list_spec(lang, clients@, badges@, page as nat, per_page as nat, current_filter, is_owner));
    kb
}

/// On a page that exists, every page the navigation leads to exists too, and
/// the refresh button keeps the page.
pub proof fn law_navigation_stays_in_range(page: nat, pages: nat)
    requires
        page < pages,
    ensures
        forall|k: int| 0 <= k < nav_row_spec(page, pages).len() ==> exists|p: nat| p < pages
            && #[trigger] nav_row_spec(page, pages)[k].1 == "page:"@ + decimal(p as int),
        exists|k: int| 0 <= k < nav_row_spec(page, pages).len() && #[trigger] nav_row_spec(page, pages)[k].1
            == "page:"@ + decimal(page as int),
{
    let row = nav_row_spec(page, pages);
    let back: int = if page > 0 { 1 } else { 0 };
    assert(row[back].1 == "page:"@ + decimal(page as int));
    assert forall|k: int| 0 <= k < row.len() implies exists|p: nat| p < pages && #[trigger] row[k].1
        == "page:"@ + decimal(p as int) by {
        if page > 0 && k == 0 {
            let p: nat = (page - 1) as nat;
            assert(row[k].1 == "page:"@ + decimal(p as int));
        } else if k == back {
            assert(row[k].1 == "page:"@ + decimal(page as int));
        } else {
            let p: nat = page + 1;
            assert(row[k].1 == "page:"@ + decimal(p as int));
        }
    }
}

/// The pages together show every client once, in order: page `p` starts
/// where page `p - 1` ends.
pub proof fn law_pages_tile_the_list(count: nat, page: nat, per_page: nat)
    requires
        per_page > 0,
    ensures
        page_bounds(count, page + 1, per_page).0 == page_bounds(count, page, per_page).1,
        page_bounds(count, 0, per_page).0 == 0,
        page < page_count(count, per_page) ==> page_bounds(count, page, per_page).0 < page_bounds(
            count,
            page,
            per_page,
        ).1 || count == 0,
        page_bounds(count, page_count(count, per_page), per_page).0 == count,
{
    assert((page + 1) * per_page == page * per_page + per_page) by (nonlinear_arith);
    assert(0 * per_page == 0) by (nonlinear_arith);
    if count > 0 && page < page_count(count, per_page) {
        assert(page * per_page < count) by (nonlinear_arith)
            requires
                per_page > 0,
                count > 0,
                page < (count + per_page - 1) / per_page as int,
        ;
    }
    if count > 0 {
        assert(page_count(count, per_page) * per_page >= count) by (nonlinear_arith)
            requires
                per_page > 0,
                count > 0,
                page_count(count, per_page) == (count + per_page - 1) / per_page as int,
        ;
    }
}

} // verus!
