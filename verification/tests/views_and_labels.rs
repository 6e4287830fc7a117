use rusty_app::app_state::{probe_result, AppEvent, AppState, ConnectionProbe, Screen};
use rusty_app::adapter_selector::AdapterSelectorMessage;
use rusty_app::components::editor::EditorComponent;
use rusty_app::components::table_list::{table_label, TableListComponent, TableMetadata};
use rusty_app::components::ComponentId;
use rusty_app::connection_form::{form_fields, form_kinds, outcome_text, FormField};
use rusty_app::container::converter::{filter_running, sync_with_listing};
use rusty_app::container::{ContainerInfo, ContainerStatus};
use rusty_app::database::DatabaseType;
use rusty_app::menu_bar::{submenu_entries, MenuAction, MenuItem, ViewMenuItem, FileMenuItem};
use rusty_app::settings::{Settings, SettingsManager};
use rusty_app::text::trim_trailing_newlines;
use rusty_app::views::{RegionId, ViewRegistry};

#[test]
fn editor_area_text() {
    let mut e = EditorComponent::new();
    assert_eq!(e.editor_text(), "(No tabs open)");
    e.add_tab("Query 1".to_string());
    assert_eq!(e.editor_text(), "Query 1: (Enter SQL query...)");
    e.set_query("SELECT 1".to_string());
    assert_eq!(e.editor_text(), "Query 1: SELECT 1");
}

#[test]
fn table_labels_and_placeholder() {
    let t = TableMetadata { schema: "public".to_string(), name: "users".to_string(), row_count: Some(100) };
    assert_eq!(table_label(&t), "public.users (100)");
    let t = TableMetadata { schema: "s".to_string(), name: "t".to_string(), row_count: None };
    assert_eq!(table_label(&t), "s.t");
    let mut c = TableListComponent::new();
    assert_eq!(c.placeholder(), Some("(Select a server)"));
    c.set_selected_server(Some("a".to_string()));
    assert_eq!(c.placeholder(), Some("(No tables)"));
    c.set_tables(vec![TableMetadata { schema: "s".to_string(), name: "t".to_string(), row_count: None }]);
    assert_eq!(c.placeholder(), None);
}

#[test]
fn menu_entries_mark_shown_views() {
    let mut registry: ViewRegistry<()> = ViewRegistry::new();
    registry.register(ComponentId::ServerList, (), RegionId::LeftPanel);
    registry.register(ComponentId::TableList, (), RegionId::LeftPanel);
    registry.disable(ComponentId::TableList);
    let view = submenu_entries(MenuItem::View, &registry);
    assert_eq!(view.len(), ViewMenuItem::all().len());
    let label_of = |item: ViewMenuItem| view.iter().find(|e| e.1 == MenuAction::View(item)).unwrap().0.clone();
    assert_eq!(label_of(ViewMenuItem::Servers), format!("✓ {}", ViewMenuItem::Servers.name()));
    assert_eq!(label_of(ViewMenuItem::Tables), format!("  {}", ViewMenuItem::Tables.name()));
    assert_eq!(label_of(ViewMenuItem::Properties), format!("  {}", ViewMenuItem::Properties.name()));
    assert_eq!(label_of(ViewMenuItem::ToggleLeftPanel), ViewMenuItem::ToggleLeftPanel.name());
    let file = submenu_entries(MenuItem::File, &registry);
    assert_eq!(file[0], ("New Connection".to_string(), MenuAction::File(FileMenuItem::NewConnection)));
    assert_eq!(file.len(), 4);
}

#[test]
fn screens() {
    let m = SettingsManager::from_loaded(String::new(), String::new(), Settings::default());
    let mut s: AppState<()> = AppState::new(m, Vec::new(), ());
    assert_eq!(s.screen(), Screen::Tabs);
    s.update(AppEvent::NewConnection, 0);
    assert_eq!(s.screen(), Screen::AdapterSelector);
    s.update(AppEvent::AdapterSelector(AdapterSelectorMessage::AdapterSelected(DatabaseType::SQLite)), 0);
    s.update(AppEvent::AdapterSelector(AdapterSelectorMessage::Continue), 0);
    assert_eq!(s.screen(), Screen::SQLiteForm);
    s.selected_adapter = Some(DatabaseType::Oracle);
    assert_eq!(s.screen(), Screen::OracleForm);
    s.selected_adapter = Some(DatabaseType::MongoDB);
    assert_eq!(s.screen(), Screen::ConnectionForm);
    s.update(AppEvent::ShowSettings, 0);
    assert_eq!(s.screen(), Screen::SettingsEditor);
}

#[test]
fn probe_results() {
    assert_eq!(probe_result(ConnectionProbe::Answered(true)), Ok(()));
    assert_eq!(
        probe_result(ConnectionProbe::Answered(false)),
        Err("Connection failed: Unable to connect to database".to_string())
    );
    assert_eq!(probe_result(ConnectionProbe::Failed("bad password".to_string())), Err("Connection error: bad password".to_string()));
    assert_eq!(
        probe_result(ConnectionProbe::TimedOut),
        Err("Connection timeout: Failed to connect within 10 seconds".to_string())
    );
}

#[test]
fn trailing_newlines() {
    assert_eq!(trim_trailing_newlines("SELECT 1\n\n"), "SELECT 1");
    assert_eq!(trim_trailing_newlines("a\nb"), "a\nb");
    assert_eq!(trim_trailing_newlines("\n"), "");
    assert_eq!(trim_trailing_newlines("x\r\n"), "x\r");
}

#[test]
fn listing_sync_uses_running_containers_only() {
    let listed = vec![
        ContainerInfo::new("icitadel-dev-postgres".to_string(), ContainerStatus::Running, "5432".to_string()),
        ContainerInfo::new("icitadel-dev-mysql".to_string(), ContainerStatus::Stopped, "3306".to_string()),
    ];
    assert_eq!(filter_running(&listed).len(), 1);
    let synced = sync_with_listing(&listed, &[]);
    assert_eq!(synced.len(), 1);
    assert_eq!(synced[0].id, "local-postgres");
}

#[test]
fn general_form_fields_and_kinds() {
    assert_eq!(form_fields(DatabaseType::SQLite), vec![FormField::Name, FormField::DatabaseType, FormField::FilePath]);
    assert_eq!(form_fields(DatabaseType::Oracle).len(), 7);
    assert_eq!(form_fields(DatabaseType::Postgres)[2], FormField::Host);
    let kinds: Vec<DatabaseType> = form_kinds().into_iter().map(DatabaseType::from).collect();
    assert_eq!(kinds, vec![DatabaseType::Postgres, DatabaseType::MySQL, DatabaseType::SQLite]);
    assert_eq!(outcome_text(&None), None);
    assert_eq!(outcome_text(&Some(Ok(()))), Some("✓ Connection successful!".to_string()));
    assert_eq!(outcome_text(&Some(Err("refused".to_string()))), Some("✗ Connection failed: refused".to_string()));
}
