use rusty_app::connection_manager::{ActiveConnection, ConnectionManager, ConnectionStatus};
use rusty_app::database::{ConnectionConfig, DatabaseType};

fn config(id: &str) -> ConnectionConfig {
    ConnectionConfig {
        id: id.to_string(),
        name: format!("Connection {}", id),
        db_type: DatabaseType::Postgres,
        host: Some("localhost".to_string()),
        port: Some(5432),
        database: "db".to_string(),
        username: None,
        use_ssl: false,
    }
}

#[test]
fn active_connection_starts_disconnected() {
    let c = ActiveConnection::new(config("a"), Some("pw".to_string()), 7u8);
    assert_eq!(c.id, "a");
    assert_eq!(c.status, ConnectionStatus::Disconnected);
    assert_eq!(c.password, Some("pw".to_string()));
    assert_eq!(ConnectionStatus::default(), ConnectionStatus::Disconnected);
}

#[test]
fn connection_outcomes_set_status() {
    let mut c = ActiveConnection::new(config("a"), None, ());
    assert_eq!(c.record_connect(Ok(())), Ok(()));
    assert_eq!(c.status, ConnectionStatus::Connected);
    assert!(c.connected_given(true));
    assert!(!c.connected_given(false));
    assert_eq!(c.record_disconnect(Ok(())), Ok(()));
    assert_eq!(c.status, ConnectionStatus::Disconnected);
    assert!(!c.connected_given(true));
    assert_eq!(c.record_connect(Err("refused".to_string())), Err("refused".to_string()));
    assert_eq!(c.status, ConnectionStatus::Error("refused".to_string()));
    assert_eq!(c.record_disconnect(Err("gone".to_string())), Err("gone".to_string()));
    assert_eq!(c.status, ConnectionStatus::Error("gone".to_string()));
}

#[test]
fn manager_adds_replaces_and_removes() {
    let mut m: ConnectionManager<u8> = ConnectionManager::new();
    assert_eq!(m.connection_count(), 0);
    m.add_connection(ActiveConnection::new(config("a"), None, 1));
    m.add_connection(ActiveConnection::new(config("b"), None, 2));
    assert_eq!(m.connection_count(), 2);
    assert_eq!(m.connection_ids(), vec!["a".to_string(), "b".to_string()]);
    m.add_connection(ActiveConnection::new(config("a"), None, 3));
    assert_eq!(m.connection_count(), 2);
    assert_eq!(m.get_connection("a").unwrap().adapter, 3);
    let removed = m.remove_connection("a").unwrap();
    assert_eq!(removed.adapter, 3);
    assert!(m.get_connection("a").is_none());
    assert!(m.remove_connection("a").is_none());
    assert_eq!(m.connection_count(), 1);
}

#[test]
fn manager_selection() {
    let mut m: ConnectionManager<u8> = ConnectionManager::default();
    m.add_connection(ActiveConnection::new(config("a"), None, 1));
    assert!(m.selected_connection().is_none());
    m.set_selected(Some("a".to_string()));
    assert_eq!(m.selected_id(), Some("a"));
    assert_eq!(m.selected_connection().unwrap().adapter, 1);
    if let Some(c) = m.selected_connection_mut() {
        c.adapter = 9;
    }
    assert_eq!(m.get_connection("a").unwrap().adapter, 9);
    if let Some(c) = m.get_connection_mut("a") {
        c.record_connect(Ok(())).unwrap();
    }
    assert_eq!(m.get_connection("a").unwrap().status, ConnectionStatus::Connected);
    m.set_selected(Some("zzz".to_string()));
    assert!(m.selected_connection().is_none());
    m.set_selected(Some("a".to_string()));
    m.remove_connection("a");
    assert_eq!(m.selected_id(), None);
}

#[test]
fn disconnect_all_records_each_outcome() {
    let mut m: ConnectionManager<u8> = ConnectionManager::new();
    m.add_connection(ActiveConnection::new(config("a"), None, 1));
    m.add_connection(ActiveConnection::new(config("b"), None, 2));
    m.get_connection_mut("a").unwrap().record_connect(Ok(())).unwrap();
    let results = m.record_disconnect_all(&vec![Ok(()), Err("busy".to_string())]);
    assert_eq!(results, vec![("a".to_string(), Ok(())), ("b".to_string(), Err("busy".to_string()))]);
    assert_eq!(m.get_connection("a").unwrap().status, ConnectionStatus::Disconnected);
    assert_eq!(m.get_connection("b").unwrap().status, ConnectionStatus::Error("busy".to_string()));
    assert_eq!(m.connection_count(), 2);
}
