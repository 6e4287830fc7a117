use rusty_app::adapter_selector::{available_adapters, DisplayableDatabaseType};
use rusty_app::connection_form::ConnectionFormData;
use rusty_app::database::DatabaseType;

fn form(db_type: DatabaseType, name: &str, host: &str, port: &str, database: &str, file_path: &str) -> ConnectionFormData {
    ConnectionFormData {
        db_type,
        name: name.to_string(),
        host: host.to_string(),
        port: port.to_string(),
        database: database.to_string(),
        username: "user".to_string(),
        password: "pass".to_string(),
        file_path: file_path.to_string(),
    }
}

#[test]
fn connection_form_test_connection_form_data_default() {
    let data = ConnectionFormData::default();
    assert_eq!(data.db_type, DatabaseType::Postgres);
    assert_eq!(data.host, "localhost");
    assert_eq!(data.port, "5432");
    assert!(data.name.is_empty());
    assert!(data.database.is_empty());
}

#[test]
fn test_connection_form_data_new() {
    let data = ConnectionFormData::new();
    assert_eq!(data.db_type, DatabaseType::Postgres);
}

#[test]
fn test_with_db_type_postgres() {
    let data = ConnectionFormData::new().with_db_type(DatabaseType::Postgres);
    assert_eq!(data.db_type, DatabaseType::Postgres);
    assert_eq!(data.port, "5432");
}

#[test]
fn test_with_db_type_mysql() {
    let data = ConnectionFormData::new().with_db_type(DatabaseType::MySQL);
    assert_eq!(data.db_type, DatabaseType::MySQL);
    assert_eq!(data.port, "3306");
}

#[test]
fn test_with_db_type_sqlite() {
    let data = ConnectionFormData::new().with_db_type(DatabaseType::SQLite);
    assert_eq!(data.db_type, DatabaseType::SQLite);
}

#[test]
fn with_db_type_sets_every_default_port() {
    assert_eq!(ConnectionFormData::new().with_db_type(DatabaseType::MongoDB).port, "27017");
    assert_eq!(ConnectionFormData::new().with_db_type(DatabaseType::SQLServer).port, "1433");
    assert_eq!(ConnectionFormData::new().with_db_type(DatabaseType::Oracle).port, "1521");
    // SQLite has no port: the previous text stays.
    assert_eq!(ConnectionFormData::new().with_db_type(DatabaseType::SQLite).port, "5432");
}

#[test]
fn connection_form_test_validate_postgres_valid() {
    let data = form(DatabaseType::Postgres, "Test", "localhost", "5432", "testdb", "");
    assert!(data.validate().is_ok());
}

#[test]
fn test_validate_postgres_missing_name() {
    let data = form(DatabaseType::Postgres, "", "localhost", "5432", "testdb", "");
    assert!(data.validate().is_err());
    assert_eq!(data.validate().unwrap_err(), "Connection name is required");
}

#[test]
fn test_validate_postgres_missing_host() {
    let data = form(DatabaseType::Postgres, "Test", "", "5432", "testdb", "");
    assert!(data.validate().is_err());
    assert_eq!(data.validate().unwrap_err(), "Host is required");
}

#[test]
fn test_validate_postgres_missing_database() {
    let data = form(DatabaseType::Postgres, "Test", "localhost", "5432", "", "");
    assert!(data.validate().is_err());
    assert_eq!(data.validate().unwrap_err(), "Database is required");
}

#[test]
fn test_validate_postgres_invalid_port() {
    let data = form(DatabaseType::Postgres, "Test", "localhost", "invalid", "testdb", "");
    assert!(data.validate().is_err());
    assert_eq!(data.validate().unwrap_err(), "Port must be a valid number (1-65535)");
}

#[test]
fn validate_port_bounds() {
    // The port is read as a `u16`: zero is accepted, 65536 is not.
    let zero = form(DatabaseType::MySQL, "T", "h", "0", "d", "");
    assert!(zero.validate().is_ok());
    let too_big = form(DatabaseType::MySQL, "T", "h", "65536", "d", "");
    assert_eq!(too_big.validate().unwrap_err(), "Port must be a valid number (1-65535)");
    let max = form(DatabaseType::MySQL, "T", "h", "65535", "d", "");
    assert!(max.validate().is_ok());
    let empty = form(DatabaseType::MySQL, "T", "h", "  ", "d", "");
    assert_eq!(empty.validate().unwrap_err(), "Port is required");
    let padded = form(DatabaseType::MySQL, "T", "h", " 80", "d", "");
    assert_eq!(padded.validate().unwrap_err(), "Port must be a valid number (1-65535)");
    let signed = form(DatabaseType::MySQL, "T", "h", "+80", "d", "");
    assert!(signed.validate().is_ok());
    let bare_sign = form(DatabaseType::MySQL, "T", "h", "+", "d", "");
    assert_eq!(bare_sign.validate().unwrap_err(), "Port must be a valid number (1-65535)");
}

#[test]
fn validate_blank_fields_count_as_missing() {
    let data = form(DatabaseType::Postgres, "   ", "localhost", "5432", "testdb", "");
    assert_eq!(data.validate().unwrap_err(), "Connection name is required");
    let data = form(DatabaseType::Postgres, "T", " \t", "5432", "testdb", "");
    assert_eq!(data.validate().unwrap_err(), "Host is required");
}

#[test]
fn validate_checks_name_first() {
    let data = form(DatabaseType::Postgres, "", "", "x", "", "");
    assert_eq!(data.validate().unwrap_err(), "Connection name is required");
}

#[test]
fn connection_form_test_validate_sqlite_valid() {
    let data = ConnectionFormData {
        db_type: DatabaseType::SQLite,
        name: "Test".to_string(),
        host: String::new(),
        port: String::new(),
        database: String::new(),
        username: String::new(),
        password: String::new(),
        file_path: "/path/to/db.sqlite".to_string(),
    };
    assert!(data.validate().is_ok());
}

#[test]
fn connection_form_test_validate_sqlite_missing_path() {
    let data = ConnectionFormData {
        db_type: DatabaseType::SQLite,
        name: "Test".to_string(),
        host: String::new(),
        port: String::new(),
        database: String::new(),
        username: String::new(),
        password: String::new(),
        file_path: "".to_string(),
    };
    assert!(data.validate().is_err());
    assert_eq!(data.validate().unwrap_err(), "File path is required for SQLite");
}

#[test]
fn test_database_type_display() {
    assert_eq!(DisplayableDatabaseType(DatabaseType::Postgres).display_string(), "PostgreSQL");
    assert_eq!(DisplayableDatabaseType(DatabaseType::MySQL).display_string(), "MySQL");
    assert_eq!(DisplayableDatabaseType(DatabaseType::SQLite).display_string(), "SQLite");
}

#[test]
fn test_displayable_database_type_display() {
    assert_eq!(DisplayableDatabaseType(DatabaseType::Postgres).display_string(), "PostgreSQL");
    assert_eq!(DisplayableDatabaseType(DatabaseType::MySQL).display_string(), "MySQL");
    assert_eq!(DisplayableDatabaseType(DatabaseType::SQLite).display_string(), "SQLite");
    assert_eq!(DisplayableDatabaseType(DatabaseType::SQLServer).display_string(), "SQL Server");
}

#[test]
fn test_displayable_database_type_conversions() {
    let db_type = DatabaseType::Postgres;
    let displayable = DisplayableDatabaseType::from(db_type);
    assert_eq!(displayable.0, db_type);

    let converted_back = DatabaseType::from(displayable);
    assert_eq!(converted_back, db_type);
}

#[test]
fn adapter_picker_lists_six_kinds() {
    let all = available_adapters();
    assert_eq!(all.len(), 6);
    assert_eq!(all[0].0, DatabaseType::Postgres);
    assert_eq!(all[5].0, DatabaseType::Oracle);
}

#[test]
fn default_ports() {
    assert_eq!(DatabaseType::Postgres.default_port(), Some(5432));
    assert_eq!(DatabaseType::MySQL.default_port(), Some(3306));
    assert_eq!(DatabaseType::SQLite.default_port(), None);
    assert_eq!(DatabaseType::MongoDB.default_port(), Some(27017));
    assert_eq!(DatabaseType::SQLServer.default_port(), Some(1433));
    assert_eq!(DatabaseType::Oracle.default_port(), Some(1521));
}
