use rusty_app::connection_list::{database_icon, ConnectionStatus};
use rusty_app::database::DatabaseType;

#[test]
fn test_connection_status_indicator() {
    assert_eq!(ConnectionStatus::Connected.indicator(), "●");
    assert_eq!(ConnectionStatus::Disconnected.indicator(), "○");
}

#[test]
fn test_database_icon_mapping() {
    assert_eq!(database_icon(&DatabaseType::Postgres), "🐘");
    assert_eq!(database_icon(&DatabaseType::MySQL), "🐬");
    assert_eq!(database_icon(&DatabaseType::SQLite), "💾");
    assert_eq!(database_icon(&DatabaseType::MongoDB), "🍃");
    assert_eq!(database_icon(&DatabaseType::SQLServer), "⚡");
    assert_eq!(database_icon(&DatabaseType::Oracle), "🔷");
}

#[test]
fn test_connection_status_equality() {
    assert_eq!(ConnectionStatus::Connected, ConnectionStatus::Connected);
    assert_eq!(ConnectionStatus::Disconnected, ConnectionStatus::Disconnected);
    assert_ne!(ConnectionStatus::Connected, ConnectionStatus::Disconnected);
}

#[test]
fn test_connection_status_debug() {
    let status = ConnectionStatus::Connected;
    let debug_str = format!("{:?}", status);
    assert!(debug_str.contains("Connected"));
}
