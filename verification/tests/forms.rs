use rusty_app::oracle_connection_form::OracleConnectionFormData;
use rusty_app::sqlite_connection_form::SQLiteConnectionFormData;

fn oracle(name: &str, host: &str, port: &str, database: &str) -> OracleConnectionFormData {
    OracleConnectionFormData {
        name: name.to_string(),
        host: host.to_string(),
        port: port.to_string(),
        database: database.to_string(),
        username: "system".to_string(),
        password: "pass".to_string(),
    }
}

#[test]
fn test_oracle_connection_form_data_default() {
    let data = OracleConnectionFormData::default();
    assert_eq!(data.host, "localhost");
    assert_eq!(data.port, "1521");
    assert!(data.name.is_empty());
    assert!(data.database.is_empty());
}

#[test]
fn test_oracle_connection_form_data_new() {
    let data = OracleConnectionFormData::new();
    assert_eq!(data.port, "1521");
}

#[test]
fn test_validate_oracle_valid() {
    let data = oracle("Test", "localhost", "1521", "ORCL");
    assert!(data.validate().is_ok());
}

#[test]
fn test_validate_oracle_missing_name() {
    let data = oracle("", "localhost", "1521", "ORCL");
    assert!(data.validate().is_err());
    assert_eq!(data.validate().unwrap_err(), "Connection name is required");
}

#[test]
fn validate_oracle_each_error() {
    assert_eq!(oracle("T", "", "1521", "ORCL").validate().unwrap_err(), "Host is required");
    assert_eq!(oracle("T", "h", "1521", " ").validate().unwrap_err(), "SID/Service Name is required");
    assert_eq!(oracle("T", "h", "", "ORCL").validate().unwrap_err(), "Port is required");
    assert_eq!(
        oracle("T", "h", "99999", "ORCL").validate().unwrap_err(),
        "Port must be a valid number (1-65535)"
    );
    assert_eq!(
        oracle("T", "h", "15a", "ORCL").validate().unwrap_err(),
        "Port must be a valid number (1-65535)"
    );
}

#[test]
fn test_sqlite_connection_form_data_default() {
    let data = SQLiteConnectionFormData::default();
    assert!(data.name.is_empty());
    assert!(data.file_path.is_empty());
}

#[test]
fn test_sqlite_connection_form_data_new() {
    let data = SQLiteConnectionFormData::new();
    assert!(data.name.is_empty());
}

#[test]
fn sqlite_connection_form_test_validate_sqlite_valid() {
    let data = SQLiteConnectionFormData {
        name: "Test".to_string(),
        file_path: "/path/to/db.sqlite".to_string(),
    };
    assert!(data.validate().is_ok());
}

#[test]
fn test_validate_sqlite_missing_name() {
    let data = SQLiteConnectionFormData {
        name: "".to_string(),
        file_path: "/path/to/db.sqlite".to_string(),
    };
    assert!(data.validate().is_err());
    assert_eq!(data.validate().unwrap_err(), "Connection name is required");
}

#[test]
fn sqlite_connection_form_test_validate_sqlite_missing_path() {
    let data = SQLiteConnectionFormData { name: "Test".to_string(), file_path: "".to_string() };
    assert!(data.validate().is_err());
    assert_eq!(data.validate().unwrap_err(), "File path is required");
}
