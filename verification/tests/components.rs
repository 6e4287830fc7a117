use rusty_app::components::connection_form::{ConnectionFormComponent, ConnectionFormData};
use rusty_app::components::editor::EditorComponent;
use rusty_app::components::properties::{PropertiesComponent, Property};
use rusty_app::components::results_view::ResultsViewComponent;
use rusty_app::components::server_list::ServerListComponent;
use rusty_app::components::table_list::{TableListComponent, TableMetadata};
use rusty_app::components::{ComponentId, ConnectionFormAction, EditorAction, PropertiesAction};
use rusty_app::database::{ConnectionConfig, DatabaseType};

fn create_test_connection(id: &str, name: &str) -> ConnectionConfig {
    ConnectionConfig {
        id: id.to_string(),
        name: name.to_string(),
        db_type: DatabaseType::Postgres,
        host: Some("localhost".to_string()),
        port: Some(5432),
        database: "testdb".to_string(),
        username: Some("user".to_string()),
        use_ssl: false,
    }
}

fn create_test_table(schema: &str, name: &str, row_count: Option<u64>) -> TableMetadata {
    TableMetadata { schema: schema.to_string(), name: name.to_string(), row_count }
}

#[test]
fn test_editor_component_new() {
    let component = EditorComponent::new();
    assert_eq!(component.id(), ComponentId::Editor);
    assert_eq!(component.tabs().len(), 0);
    assert_eq!(component.active_tab(), None);
}

#[test]
fn test_editor_add_tab() {
    let mut component = EditorComponent::new();
    let tab_id = component.add_tab("Query 1".to_string());

    assert_eq!(component.tabs().len(), 1);
    assert_eq!(component.active_tab(), Some(tab_id));
    assert_eq!(component.tabs()[0].title, "Query 1");
}

#[test]
fn test_editor_close_tab() {
    let mut component = EditorComponent::new();
    let tab1 = component.add_tab("Query 1".to_string());
    let tab2 = component.add_tab("Query 2".to_string());

    assert_eq!(component.tabs().len(), 2);
    assert_eq!(component.active_tab(), Some(tab2));

    assert!(component.close_tab(tab1));
    assert_eq!(component.tabs().len(), 1);
    assert_eq!(component.active_tab(), Some(tab2));
}

#[test]
fn test_editor_select_tab() {
    let mut component = EditorComponent::new();
    let tab1 = component.add_tab("Query 1".to_string());
    let tab2 = component.add_tab("Query 2".to_string());

    assert_eq!(component.active_tab(), Some(tab2));

    assert!(component.select_tab(tab1));
    assert_eq!(component.active_tab(), Some(tab1));
}

#[test]
fn test_editor_set_query() {
    let mut component = EditorComponent::new();
    component.add_tab("Query 1".to_string());

    component.set_query("SELECT * FROM users".to_string());
    assert_eq!(component.query(), Some("SELECT * FROM users"));
}

#[test]
fn test_editor_close_active_tab_selects_next() {
    let mut component = EditorComponent::new();
    let tab1 = component.add_tab("Query 1".to_string());
    let tab2 = component.add_tab("Query 2".to_string());

    assert_eq!(component.active_tab(), Some(tab2));

    component.close_tab(tab2);
    assert_eq!(component.active_tab(), Some(tab1));
}

#[test]
fn editor_close_unknown_tab_changes_nothing() {
    let mut component = EditorComponent::new();
    let tab1 = component.add_tab("Query 1".to_string());
    assert!(!component.close_tab(tab1 + 7));
    assert!(!component.select_tab(tab1 + 7));
    assert_eq!(component.tabs().len(), 1);
    assert_eq!(component.active_tab(), Some(tab1));
}

#[test]
fn editor_close_last_tab_leaves_none_active() {
    let mut component = EditorComponent::new();
    let tab1 = component.add_tab("Query 1".to_string());
    assert!(component.close_tab(tab1));
    assert_eq!(component.active_tab(), None);
    assert_eq!(component.query(), None);
}

#[test]
fn editor_closing_middle_active_tab_selects_tab_at_same_position() {
    let mut component = EditorComponent::new();
    let _tab1 = component.add_tab("A".to_string());
    let tab2 = component.add_tab("B".to_string());
    let tab3 = component.add_tab("C".to_string());
    assert!(component.select_tab(tab2));
    assert!(component.close_tab(tab2));
    assert_eq!(component.active_tab(), Some(tab3));
}

#[test]
fn editor_identifiers_are_never_reused() {
    let mut component = EditorComponent::new();
    let tab1 = component.add_tab("A".to_string());
    component.close_tab(tab1);
    let tab2 = component.add_tab("B".to_string());
    assert_ne!(tab1, tab2);
}

#[test]
fn editor_new_tab_action_numbers_titles() {
    let mut component = EditorComponent::new();
    component.update(EditorAction::NewTab);
    component.update(EditorAction::NewTab);
    assert_eq!(component.tabs().len(), 2);
    assert_eq!(component.tabs()[0].title, "Query 1");
    assert_eq!(component.tabs()[1].title, "Query 2");
    component.update(EditorAction::QueryChanged("SELECT 1".to_string()));
    assert_eq!(component.query(), Some("SELECT 1"));
    assert_eq!(component.tabs()[0].query, "");
}

#[test]
fn editor_set_query_without_tab_does_nothing() {
    let mut component = EditorComponent::new();
    component.set_query("SELECT 1".to_string());
    assert_eq!(component.query(), None);
    assert_eq!(component.tabs().len(), 0);
}

#[test]
fn test_properties_component_new() {
    let component = PropertiesComponent::new();
    assert_eq!(component.id(), ComponentId::Properties);
    assert_eq!(component.properties().len(), 0);
    assert_eq!(component.selected_object(), None);
}

#[test]
fn test_properties_set_properties() {
    let mut component = PropertiesComponent::new();
    let properties = vec![
        Property { key: "Name".to_string(), value: "users".to_string() },
        Property { key: "Type".to_string(), value: "Table".to_string() },
    ];

    component.set_properties(properties);
    assert_eq!(component.properties().len(), 2);
    assert_eq!(component.properties()[0].key, "Name");
}

#[test]
fn test_properties_add_property() {
    let mut component = PropertiesComponent::new();

    component.add_property("Schema".to_string(), "public".to_string());
    assert_eq!(component.properties().len(), 1);
    assert_eq!(component.properties()[0].key, "Schema");
    assert_eq!(component.properties()[0].value, "public");
}

#[test]
fn test_properties_update_property() {
    let mut component = PropertiesComponent::new();
    component.add_property("Status".to_string(), "Active".to_string());

    assert!(component.update_property("Status", "Inactive".to_string()));
    assert_eq!(component.properties()[0].value, "Inactive");

    assert!(!component.update_property("NonExistent", "Value".to_string()));
}

#[test]
fn properties_update_changes_only_first_match() {
    let mut component = PropertiesComponent::new();
    component.add_property("K".to_string(), "1".to_string());
    component.add_property("K".to_string(), "2".to_string());
    component.update(PropertiesAction::UpdateProperty("K".to_string(), "3".to_string()));
    assert_eq!(component.properties()[0].value, "3");
    assert_eq!(component.properties()[1].value, "2");
}

#[test]
fn test_properties_clear() {
    let mut component = PropertiesComponent::new();
    component.add_property("Key1".to_string(), "Value1".to_string());
    component.add_property("Key2".to_string(), "Value2".to_string());

    assert_eq!(component.properties().len(), 2);

    component.clear();
    assert_eq!(component.properties().len(), 0);
}

#[test]
fn test_properties_set_selected_object() {
    let mut component = PropertiesComponent::new();

    component.set_selected_object(Some("table1".to_string()));
    assert_eq!(component.selected_object(), Some("table1"));

    component.set_selected_object(None);
    assert_eq!(component.selected_object(), None);
}

#[test]
fn test_properties_clear_on_object_change() {
    let mut component = PropertiesComponent::new();
    component.set_selected_object(Some("table1".to_string()));
    component.add_property("Name".to_string(), "table1".to_string());

    assert_eq!(component.properties().len(), 1);

    component.set_selected_object(None);
    assert_eq!(component.properties().len(), 0);
}

#[test]
fn test_results_view_component_new() {
    let component = ResultsViewComponent::new();
    assert_eq!(component.id(), ComponentId::ResultsView);
}

#[test]
fn test_results_view_component_default() {
    let component = ResultsViewComponent::default();
    assert_eq!(component.id(), ComponentId::ResultsView);
}

#[test]
fn test_results_view_component_id() {
    let component = ResultsViewComponent::new();
    assert_eq!(component.id(), ComponentId::ResultsView);
}

#[test]
fn test_results_view_component_title() {
    let component = ResultsViewComponent::new();
    assert_eq!(component.title(), "Results");
}

#[test]
fn test_results_view_component_cloneable() {
    let component = ResultsViewComponent::new();
    let cloned = component.clone();

    assert_eq!(component.id(), cloned.id());
}

#[test]
fn test_results_view_component_debug() {
    let component = ResultsViewComponent::new();
    let debug_str = format!("{:?}", component);
    assert!(debug_str.contains("ResultsViewComponent"));
}

#[test]
fn test_server_list_component_new() {
    let component = ServerListComponent::new();
    assert_eq!(component.id(), ComponentId::ServerList);
    assert_eq!(component.connections().len(), 0);
}

#[test]
fn test_server_list_add_connection() {
    let mut component = ServerListComponent::new();
    let conn = create_test_connection("test1", "Test Connection 1");

    component.add_connection(conn);
    assert_eq!(component.connections().len(), 1);
    assert_eq!(component.connections()[0].name, "Test Connection 1");
}

#[test]
fn test_server_list_set_connections() {
    let mut component = ServerListComponent::new();
    let connections =
        vec![create_test_connection("test1", "Test 1"), create_test_connection("test2", "Test 2")];

    component.set_connections(connections);
    assert_eq!(component.connections().len(), 2);
}

#[test]
fn test_server_list_remove_connection() {
    let mut component = ServerListComponent::new();
    component.add_connection(create_test_connection("test1", "Test 1"));
    component.add_connection(create_test_connection("test2", "Test 2"));

    assert_eq!(component.connections().len(), 2);

    assert!(component.remove_connection("test1"));
    assert_eq!(component.connections().len(), 1);
    assert_eq!(component.connections()[0].id, "test2");

    assert!(!component.remove_connection("nonexistent"));
    assert_eq!(component.connections().len(), 1);
}

#[test]
fn test_table_list_component_new() {
    let component = TableListComponent::new();
    assert_eq!(component.id(), ComponentId::TableList);
    assert_eq!(component.tables().len(), 0);
    assert_eq!(component.selected_server(), None);
}

#[test]
fn test_table_list_set_tables() {
    let mut component = TableListComponent::new();
    let tables = vec![
        create_test_table("public", "users", Some(100)),
        create_test_table("public", "orders", Some(250)),
    ];

    component.set_tables(tables);
    assert_eq!(component.tables().len(), 2);
    assert_eq!(component.tables()[0].name, "users");
}

#[test]
fn test_table_list_set_selected_server() {
    let mut component = TableListComponent::new();

    component.set_selected_server(Some("server1".to_string()));
    assert_eq!(component.selected_server(), Some("server1"));

    component.set_selected_server(None);
    assert_eq!(component.selected_server(), None);
}

#[test]
fn test_table_list_clear_on_server_change() {
    let mut component = TableListComponent::new();
    component.set_selected_server(Some("server1".to_string()));
    component.set_tables(vec![create_test_table("public", "users", None)]);

    assert_eq!(component.tables().len(), 1);

    component.set_selected_server(None);
    assert_eq!(component.tables().len(), 0);
}

#[test]
fn test_table_list_clear() {
    let mut component = TableListComponent::new();
    component.set_tables(vec![
        create_test_table("public", "users", None),
        create_test_table("public", "orders", None),
    ]);

    assert_eq!(component.tables().len(), 2);

    component.clear();
    assert_eq!(component.tables().len(), 0);
}

#[test]
fn test_connection_form_data_default() {
    let data = ConnectionFormData::default();
    assert_eq!(data.db_type, DatabaseType::Postgres);
    assert_eq!(data.host, "localhost");
    assert_eq!(data.port, "5432");
    assert!(data.name.is_empty());
    assert!(data.database.is_empty());
}

#[test]
fn test_connection_form_component_new() {
    let component = ConnectionFormComponent::new();
    assert_eq!(component.id(), ComponentId::ConnectionForm);
    assert_eq!(component.data().db_type, DatabaseType::Postgres);
}

#[test]
fn test_connection_form_component_update() {
    let mut component = ConnectionFormComponent::new();

    component.update(ConnectionFormAction::NameChanged("Test".to_string()));
    assert_eq!(component.data().name, "Test");

    component.update(ConnectionFormAction::HostChanged("192.168.1.1".to_string()));
    assert_eq!(component.data().host, "192.168.1.1");
}

#[test]
fn test_connection_form_component_reset() {
    let mut component = ConnectionFormComponent::new();
    component.update(ConnectionFormAction::NameChanged("Test".to_string()));
    assert_eq!(component.data().name, "Test");

    component.reset();
    assert!(component.data().name.is_empty());
}

#[test]
fn connection_form_component_db_type_change_sets_default_port() {
    let mut component = ConnectionFormComponent::new();
    component.update(ConnectionFormAction::DbTypeChanged(DatabaseType::MongoDB));
    assert_eq!(component.data().db_type, DatabaseType::MongoDB);
    assert_eq!(component.data().port, "27017");
    component.update(ConnectionFormAction::PortChanged("1234".to_string()));
    component.update(ConnectionFormAction::DbTypeChanged(DatabaseType::SQLite));
    assert_eq!(component.data().port, "1234");
}

#[test]
fn connection_form_component_buttons_leave_data_unchanged() {
    let mut component = ConnectionFormComponent::new();
    component.update(ConnectionFormAction::NameChanged("X".to_string()));
    component.update(ConnectionFormAction::Save);
    component.update(ConnectionFormAction::TestConnection);
    component.update(ConnectionFormAction::Cancel);
    assert_eq!(component.data().name, "X");
}

#[test]
fn test_validate_postgres_valid() {
    let data = ConnectionFormData {
        db_type: DatabaseType::Postgres,
        name: "Test".to_string(),
        host: "localhost".to_string(),
        port: "5432".to_string(),
        database: "testdb".to_string(),
        username: "user".to_string(),
        password: "pass".to_string(),
        file_path: String::new(),
    };
    assert!(data.validate().is_ok());
}

#[test]
fn editor_close_after_add_restores_tabs() {
    let mut component = EditorComponent::new();
    component.add_tab("A".to_string());
    component.add_tab("B".to_string());
    let before: Vec<_> = component.tabs().to_vec();
    let id = component.add_tab("C".to_string());
    assert!(component.close_tab(id));
    assert_eq!(component.tabs().to_vec(), before);
    assert_eq!(component.active_tab(), Some(before[1].id));
}
