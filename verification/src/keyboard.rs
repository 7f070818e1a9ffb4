//! Keyboards the bot shows: rows of buttons, each with a label and the
//! callback data the button sends back. A label is either literal text or an
//! entry of the interface's text catalog, which the caller renders in the
//! user's language.

use vstd::prelude::*;
use vstd::string::*;
use crate::model::{ClientFilter, ModifyParam};
use crate::numbers::{decimal, format_i64, format_usize};

verus! {

/// Catalog texts that buttons use.
#[derive(Debug, Clone, Copy, PartialEq, Eq, Structural)]
pub enum CatalogText {
    Back,
    Clients,
    Add,
    Bulk,
    Stats,
    Backup,
    Check,
    Diagnose,
    Restart,
    Repair,
    Groups,
    Settings,
    GroupClients,
    GroupRename,
    GroupQuota,
    GroupAdmins,
    InviteRevoke,
    GroupInvite,
    AdminById,
    GroupRegen,
    GroupDelete,
    DeleteDetach,
    DeleteWithClients,
    SwitchGroup,
    LangRu,
    LangEn,
    PskToggle(bool),
    ConfToggle(bool),
    QrToggle(bool),
    LinkToggle(bool),
    CreateWithPsk,
    CreateNoPsk,
    HistoryBack,
    RegenAllGo,
    RegenAllRoutes,
    Param(ModifyParam),
    RestartGo,
    BackupNew,
    BackupList,
    Download,
    Restore,
    Confirm,
    CardQr,
    CardLink,
    CardAll,
    Regen,
    Modify,
    History,
    ClientMove,
    RegenAll,
    GroupCreate,
    NoGroup,
    ScopeAll,
}

/// A button's label.
#[derive(Debug, Clone, PartialEq)]
pub enum Label {
    Text(String),
    Catalog(CatalogText),
    /// The list filter `filter`'s name with its mark; `active` for the filter
    /// in use.
    Filter { filter: ClientFilter, active: bool },
}

pub enum LabelView {
    Text(Seq<char>),
    Catalog(CatalogText),
    Filter { filter: ClientFilter, active: bool },
}

impl View for Label {
    type V = LabelView;

    open spec fn view(&self) -> LabelView {
        match self {
            Label::Text(t) => LabelView::Text(t@),
            Label::Catalog(c) => LabelView::Catalog(*c),
            Label::Filter { filter, active } => LabelView::Filter { filter: *filter, active: *active },
        }
    }
}

/// A button that sends `data` back when pressed.
#[derive(Debug, Clone, PartialEq)]
pub struct Button {
    pub label: Label,
    pub data: String,
}

/// A button as its label and callback data.
pub type ButtonView = (LabelView, Seq<char>);

impl View for Button {
    type V = ButtonView;

    open spec fn view(&self) -> ButtonView {
        (self.label@, self.data@)
    }
}

/// An inline keyboard: rows of buttons, top to bottom.
#[derive(Debug, Clone, PartialEq)]
pub struct Keyboard {
    pub rows: Vec<Vec<Button>>,
}

pub open spec fn row_view(row: Vec<Button>) -> Seq<ButtonView> {
    row@.map_values(|b: Button| b@)
}

impl View for Keyboard {
    type V = Seq<Seq<ButtonView>>;

    open spec fn view(&self) -> Seq<Seq<ButtonView>> {
        self.rows@.map_values(|r: Vec<Button>| row_view(r))
    }
}

/// A reply keyboard: rows of texts the user sends by tapping, sized to fit
/// and kept open when `persistent`.
#[derive(Debug, Clone, PartialEq)]
pub struct ReplyKeyboard {
    pub rows: Vec<Vec<String>>,
    pub resize: bool,
    pub persistent: bool,
}

pub open spec fn text_row_view(row: Vec<String>) -> Seq<Seq<char>> {
    row@.map_values(|t: String| t@)
}

impl View for ReplyKeyboard {
    type V = (Seq<Seq<Seq<char>>>, bool, bool);

    open spec fn view(&self) -> (Seq<Seq<Seq<char>>>, bool, bool) {
        (self.rows@.map_values(|r: Vec<String>| text_row_view(r)), self.resize, self.persistent)
    }
}

/// A reply row of one text.
pub fn reply_row1(a: &str) -> (r: Vec<String>)
    ensures
        text_row_view(r) == seq![a@],
{
    let mut r: Vec<String> = Vec::new();
    r.push(a.to_string());
    assert(text_row_view(r) =~= seq![a@]);
    r
}

/// A reply row of two texts.
pub fn reply_row2(a: &str, b: &str) -> (r: Vec<String>)
    ensures
        text_row_view(r) == seq![a@, b@],
{
    let mut r: Vec<String> = Vec::new();
    r.push(a.to_string());
    r.push(b.to_string());
    assert(text_row_view(r) =~= seq![a@, b@]);
    r
}

/// The rows of a keyboard under construction.
pub open spec fn rows_view(rows: Seq<Vec<Button>>) -> Seq<Seq<ButtonView>> {
    rows.map_values(|r: Vec<Button>| row_view(r))
}

/// The button with literal text `text` sending `data`.
pub open spec fn text_button(text: Seq<char>, data: Seq<char>) -> ButtonView {
    (LabelView::Text(text), data)
}

/// The button with catalog text `entry` sending `data`.
pub open spec fn catalog_button(entry: CatalogText, data: Seq<char>) -> ButtonView {
    (LabelView::Catalog(entry), data)
}

/// Every callback data the keyboard `kb` sends.
pub open spec fn sends(kb: Seq<Seq<ButtonView>>, data: Seq<char>) -> bool {
    exists|i: int, j: int| 0 <= i < kb.len() && 0 <= j < kb[i].len() && #[trigger] kb[i][j].1 == data
}

pub fn text(t: &str, data: String) -> (b: Button)
    ensures
        b@ == text_button(t@, data@),
{
    Button { label: Label::Text(t.to_string()), data }
}

pub fn catalog(entry: CatalogText, data: String) -> (b: Button)
    ensures
        b@ == catalog_button(entry, data@),
{
    Button { label: Label::Catalog(entry), data }
}

/// Callback data `prefix` followed by the decimal `id`.
pub fn with_id(prefix: &str, id: i64) -> (s: String)
    ensures
        s@ == prefix@ + decimal(id as int),
{
    let mut s = prefix.to_string();
    let n = format_i64(id);
    s.append(n.as_str());
    s
}

/// Callback data `prefix` followed by the decimal `n`.
pub fn with_index(prefix: &str, n: usize) -> (s: String)
    ensures
        s@ == prefix@ + decimal(n as int),
{
    let mut s = prefix.to_string();
    let d = format_usize(n);
    s.append(d.as_str());
    s
}

/// Callback data `prefix` followed by `name`.
pub fn with_name(prefix: &str, name: &str) -> (s: String)
    ensures
        s@ == prefix@ + name@,
{
    let mut s = prefix.to_string();
    s.append(name);
    s
}

/// `a` followed by `b`.
pub fn concat2(a: &str, b: &str) -> (s: String)
    ensures
        s@ == a@ + b@,
{
    let mut s = a.to_string();
    s.append(b);
    s
}

/// `a`, `b` and `c` in a row.
pub fn concat3(a: &str, b: &str, c: &str) -> (s: String)
    ensures
        s@ == a@ + b@ + c@,
{
    let mut s = a.to_string();
    s.append(b);
    s.append(c);
    s
}

/// Callback data exactly `data`.
pub fn plain(data: &str) -> (s: String)
    ensures
        s@ == data@,
{
    data.to_string()
}

pub fn row1(a: Button) -> (r: Vec<Button>)
    ensures
        row_view(r) == seq![a@],
{
    let mut r = Vec::new();
    r.push(a);
    assert(row_view(r) =~= seq![a@]);
    r
}

pub fn row2(a: Button, b: Button) -> (r: Vec<Button>)
    ensures
        row_view(r) == seq![a@, b@],
{
    let mut r = Vec::new();
    r.push(a);
    r.push(b);
    assert(row_view(r) =~= seq![a@, b@]);
    r
}

pub fn row3(a: Button, b: Button, c: Button) -> (r: Vec<Button>)
    ensures
        row_view(r) == seq![a@, b@, c@],
{
    let mut r = Vec::new();
    r.push(a);
    r.push(b);
    r.push(c);
    assert(row_view(r) =~= seq![a@, b@, c@]);
    r
}

pub fn row4(a: Button, b: Button, c: Button, d: Button) -> (r: Vec<Button>)
    ensures
        row_view(r) == seq![a@, b@, c@, d@],
{
    let mut r = Vec::new();
    r.push(a);
    r.push(b);
    r.push(c);
    r.push(d);
    assert(row_view(r) =~= seq![a@, b@, c@, d@]);
    r
}

/// Adds `row` below the keyboard's rows.
pub fn push_row(rows: &mut Vec<Vec<Button>>, row: Vec<Button>)
    ensures
        final(rows)@.map_values(|r: Vec<Button>| row_view(r)) == old(rows)@.map_values(
            |r: Vec<Button>| row_view(r),
        ).push(row_view(row)),
{
    rows.push(row);
    assert(final(rows)@.map_values(|r: Vec<Button>| row_view(r)) =~= old(rows)@.map_values(
        |r: Vec<Button>| row_view(r),
    ).push(row_view(row)));
}

/// A keyboard of no rows.
pub fn no_rows() -> (rows: Vec<Vec<Button>>)
    ensures
        rows@.map_values(|r: Vec<Button>| row_view(r)) == Seq::<Seq<ButtonView>>::empty(),
{
    let rows: Vec<Vec<Button>> = Vec::new();
    assert(rows@.map_values(|r: Vec<Button>| row_view(r)) =~= Seq::<Seq<ButtonView>>::empty());
    rows
}

} // verus!
