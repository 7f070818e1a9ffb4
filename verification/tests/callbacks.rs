use awgram::action::{parse_callback, Action};
use awgram::model::{ClientFilter, ModifyParam};
use awgram::store::ListScope;

#[test]
fn parses_all_actions() {
    assert_eq!(parse_callback("menu"), Action::Menu);
    assert_eq!(parse_callback("list"), Action::List);
    assert_eq!(parse_callback("add"), Action::Add);
    assert_eq!(parse_callback("stats"), Action::Stats);
    assert_eq!(parse_callback("page:3"), Action::Page(3));
    assert_eq!(
        parse_callback("client:alice"),
        Action::ShowClient("alice".into())
    );
    assert_eq!(
        parse_callback("conf:alice"),
        Action::SendConf("alice".into())
    );
    assert_eq!(
        parse_callback("del:alice"),
        Action::AskDelete("alice".into())
    );
    assert_eq!(
        parse_callback("delyes:alice"),
        Action::ConfirmDelete("alice".into())
    );
    assert_eq!(
        parse_callback("recreate:alice"),
        Action::Recreate("alice".into())
    );
    assert_eq!(parse_callback("exp:30d"), Action::Expiry("30d".into()));
    assert_eq!(
        parse_callback("exp:custom"),
        Action::Expiry("custom".into())
    );
    assert_eq!(parse_callback("settings"), Action::Settings);
    assert_eq!(parse_callback("lang:ru"), Action::Lang("ru".into()));
    assert_eq!(parse_callback("lang:en"), Action::Lang("en".into()));
    assert_eq!(parse_callback("set:lang:ru"), Action::SetLang("ru".into()));
    assert_eq!(parse_callback("set:lang:en"), Action::SetLang("en".into()));
    assert_eq!(parse_callback("set:psk:on"), Action::SetPsk(true));
    assert_eq!(parse_callback("set:psk:off"), Action::SetPsk(false));
    assert_eq!(parse_callback("set:slug:on"), Action::SetSlug(true));
    assert_eq!(parse_callback("set:slug:off"), Action::SetSlug(false));
    assert_eq!(parse_callback("add:psk:on"), Action::AddPsk(true));
    assert_eq!(parse_callback("add:psk:off"), Action::AddPsk(false));
    assert_eq!(parse_callback("add:server:42"), Action::AddServer(42));
    assert_eq!(parse_callback("backup"), Action::Backup);
    assert_eq!(parse_callback("bk:new"), Action::BackupNew);
    assert_eq!(parse_callback("bk:list"), Action::BackupList);
    assert_eq!(parse_callback("bk:restore_yes:2"), Action::RestoreYes(2));
    assert_eq!(parse_callback("bk:restore:2"), Action::Restore(2));
    assert_eq!(parse_callback("bk:dl:1"), Action::BackupDownload(1));
    assert_eq!(parse_callback("bk:card:0"), Action::BackupCard(0));
    assert_eq!(parse_callback("migration:local"), Action::LocalMigration);
    assert_eq!(
        parse_callback("migration:preflight"),
        Action::LocalMigrationPreflight
    );
    assert_eq!(
        parse_callback("migration:start"),
        Action::LocalMigrationStart
    );
    assert_eq!(
        parse_callback("migration:status"),
        Action::LocalMigrationStatus
    );
    assert_eq!(
        parse_callback("migration:rollback"),
        Action::LocalMigrationRollback
    );
    assert_eq!(parse_callback("check"), Action::Check);
    assert_eq!(parse_callback("garbage"), Action::Unknown);
}

#[test]
fn parse_history_callback() {
    assert_eq!(
        parse_callback("history:alice"),
        Action::ClientHistory("alice".to_string())
    );
}

#[test]
fn parse_callback_listfilter_variants() {
    assert_eq!(
        parse_callback("listfilter:all"),
        Action::SetListFilter(ClientFilter::All)
    );
    assert_eq!(
        parse_callback("listfilter:online"),
        Action::SetListFilter(ClientFilter::Online)
    );
    assert_eq!(
        parse_callback("listfilter:offline"),
        Action::SetListFilter(ClientFilter::Offline)
    );
    assert_eq!(
        parse_callback("listfilter:never"),
        Action::SetListFilter(ClientFilter::Never)
    );
    // Неизвестное значение фильтра → Unknown (craftable callback guard).
    assert_eq!(parse_callback("listfilter:garbage"), Action::Unknown);
}

#[test]
fn parse_callback_listfilter_does_not_collide_with_list() {
    // "list" — точный match (Action::List), "listfilter:..." — префикс.
    // Они не должны пересекаться.
    assert_eq!(parse_callback("list"), Action::List);
    assert!(matches!(
        parse_callback("listfilter:all"),
        Action::SetListFilter(_)
    ));
}

#[test]
fn parse_callback_diagnose() {
    assert_eq!(parse_callback("diagnose"), Action::Diagnose);
}

#[test]
fn parse_callback_regen_client() {
    assert_eq!(parse_callback("regen:alice"), Action::Regen("alice".into()));
}

#[test]
fn parse_callback_regen_all_variants() {
    assert_eq!(parse_callback("regen_all"), Action::RegenAll);
    assert_eq!(parse_callback("regen_all_go"), Action::RegenAllRun(false));
    assert_eq!(
        parse_callback("regen_all_routes"),
        Action::RegenAllRun(true)
    );
    // "regen_all…" не должен съедаться префиксом "regen:" (там двоеточие).
    assert_eq!(parse_callback("regen:alice"), Action::Regen("alice".into()));
}

#[test]
fn parses_bulk_and_artifact_actions() {
    assert_eq!(parse_callback("bulk:1"), Action::AddBulkRun(1));
    assert_eq!(parse_callback("bulk:10"), Action::AddBulkRun(10));
    assert_eq!(parse_callback("qr:alice"), Action::SendQr("alice".into()));
    assert_eq!(
        parse_callback("uri:alice"),
        Action::SendLink("alice".into())
    );
    assert_eq!(parse_callback("all:alice"), Action::SendAll("alice".into()));
    assert_eq!(parse_callback("set:conf:on"), Action::SetConf(true));
    assert_eq!(parse_callback("set:conf:off"), Action::SetConf(false));
    assert_eq!(parse_callback("set:qr:on"), Action::SetQr(true));
    assert_eq!(parse_callback("set:link:on"), Action::SetLink(true));
}

#[test]
fn parse_callback_addbulk_keyword() {
    assert_eq!(parse_callback("addbulk"), Action::AddBulk);
}

#[test]
fn parse_callback_bulk_expiry_and_psk() {
    assert_eq!(
        parse_callback("bulkexp:none"),
        Action::BulkExpiry("none".into())
    );
    assert_eq!(
        parse_callback("bulkexp:30d"),
        Action::BulkExpiry("30d".into())
    );
    assert_eq!(parse_callback("bulkadd:psk:on"), Action::AddBulkPsk(true));
    assert_eq!(parse_callback("bulkadd:psk:off"), Action::AddBulkPsk(false));
}

#[test]
fn parse_callback_no_collision_uri_vs_other_prefixes() {
    // "uri:" не должен коллизировать с существующими префиксами
    assert_eq!(
        parse_callback("uri:alice"),
        Action::SendLink("alice".into())
    );
    // "all:" — тоже уникален
    assert_eq!(parse_callback("all:alice"), Action::SendAll("alice".into()));
}

#[test]
fn parse_callback_modify_and_restart_and_repair() {
    assert_eq!(parse_callback("mod:alice"), Action::Modify("alice".into()));
    // modparam: должен парситься ДО mod: (длинный префикс), но mod:alice не
    // начинается с modparam:, так что отдельная проверка не нужна — проверяем сам modparam:.
    assert!(matches!(
        parse_callback("modparam:alice:keepalive"),
        Action::ModifyParam(_, _)
    ));
    assert_eq!(parse_callback("restart"), Action::Restart);
    assert_eq!(parse_callback("restart_go"), Action::RestartRun);
    assert_eq!(parse_callback("repair"), Action::RepairModule);
}

#[test]
fn parse_callback_modparam_before_mod_prefix() {
    // modparam:... не должен триггерить mod: — но они разные по разделителю.
    // Проверка: modparam:x:y не парсится как Action::Modify.
    let r = parse_callback("modparam:x:keepalive");
    assert!(!matches!(r, Action::Modify(_)));
}

#[test]
fn parse_callback_group_actions() {
    assert_eq!(parse_callback("groups"), Action::Groups);
    assert_eq!(parse_callback("g:new"), Action::GroupCreate);
    assert_eq!(parse_callback("g:card:5"), Action::GroupCard(5));
    assert_eq!(parse_callback("g:ren:5"), Action::GroupRenameAsk(5));
    assert_eq!(parse_callback("g:quota:5"), Action::GroupQuotaAsk(5));
    assert_eq!(parse_callback("g:adm:5"), Action::GroupAdmins(5));
    assert_eq!(
        parse_callback("g:admdel:5:42"),
        Action::GroupAdminRemove(5, 42)
    );
    assert_eq!(parse_callback("g:inv:5"), Action::GroupInvite(5));
    assert_eq!(parse_callback("g:invrev:5"), Action::GroupInviteRevoke(5));
    assert_eq!(parse_callback("g:admid:5"), Action::GroupAdminById(5));
    assert_eq!(parse_callback("g:del:5"), Action::GroupDeleteAsk(5));
    assert_eq!(
        parse_callback("g:deldetach:5"),
        Action::GroupDeleteDetach(5)
    );
    assert_eq!(parse_callback("g:delall:5"), Action::GroupDeleteAllAsk(5));
    assert_eq!(
        parse_callback("g:delallyes:5"),
        Action::GroupDeleteAllYes(5)
    );
    assert_eq!(parse_callback("g:regen:5"), Action::GroupRegenAsk(5));
    assert_eq!(parse_callback("g:regengo:5"), Action::GroupRegenRun(5));
    assert_eq!(parse_callback("g:sel:5"), Action::GroupSelect(5));
    assert_eq!(parse_callback("g:selmenu"), Action::GroupSelectMenu);
    assert_eq!(
        parse_callback("gmove:alice"),
        Action::MoveClientAsk("alice".into())
    );
    assert_eq!(
        parse_callback("gmoveto:none:alice"),
        Action::MoveClientTo(None, "alice".into())
    );
    assert_eq!(
        parse_callback("gmoveto:7:alice"),
        Action::MoveClientTo(Some(7), "alice".into())
    );
    // мусор → Unknown
    assert_eq!(parse_callback("g:card:x"), Action::Unknown);
    assert_eq!(parse_callback("gmoveto:xx:alice"), Action::Unknown);
}

#[test]
fn parse_callback_group_scope() {
    assert_eq!(parse_callback("gscope"), Action::GroupScopeAsk);
    assert_eq!(
        parse_callback("gscope:all"),
        Action::GroupScopeSet(ListScope::All)
    );
    assert_eq!(
        parse_callback("gscope:none"),
        Action::GroupScopeSet(ListScope::NoGroup)
    );
    assert_eq!(
        parse_callback("gscope:7"),
        Action::GroupScopeSet(ListScope::Group(7))
    );
    assert_eq!(parse_callback("gscope:x"), Action::Unknown);
}
