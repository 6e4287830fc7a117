use rusty_app::container::converter::{
    container_db_type_to_enum, container_to_connection, sync_connections_with_containers,
};
use rusty_app::container::{
    operation_failure, parse_container_list, parse_container_row, parse_container_status,
    ComposeOperation, ContainerError, ContainerInfo, ContainerManager, ContainerStatus,
};
use rusty_app::database::{ConnectionConfig, DatabaseType};

fn conn(id: &str, name: &str, db_type: DatabaseType, host: &str, port: u16, database: &str, user: &str, ssl: bool) -> ConnectionConfig {
    ConnectionConfig {
        id: id.to_string(),
        name: name.to_string(),
        db_type,
        host: Some(host.to_string()),
        port: Some(port),
        database: database.to_string(),
        username: Some(user.to_string()),
        use_ssl: ssl,
    }
}

fn running(name: &str, ports: &str) -> ContainerInfo {
    ContainerInfo::new(name.to_string(), ContainerStatus::Running, ports.to_string())
}

#[test]
fn test_container_status_display() {
    assert_eq!(ContainerStatus::Running.display_string(), "Running");
    assert_eq!(ContainerStatus::Stopped.display_string(), "Stopped");
    assert_eq!(ContainerStatus::NotFound.display_string(), "Not Found");
}

#[test]
fn test_container_status_equality() {
    assert_eq!(ContainerStatus::Running, ContainerStatus::Running);
    assert_ne!(ContainerStatus::Running, ContainerStatus::Stopped);
}

#[test]
fn test_container_info_new() {
    let info = ContainerInfo::new(
        "icitadel-dev-postgres".to_string(),
        ContainerStatus::Running,
        "5432".to_string(),
    );

    assert_eq!(info.name, "icitadel-dev-postgres");
    assert_eq!(info.status, ContainerStatus::Running);
    assert_eq!(info.ports, "5432");
}

#[test]
fn test_container_info_is_running() {
    let running = ContainerInfo::new("test".to_string(), ContainerStatus::Running, "".to_string());
    assert!(running.is_running());

    let stopped = ContainerInfo::new("test".to_string(), ContainerStatus::Stopped, "".to_string());
    assert!(!stopped.is_running());
}

#[test]
fn test_container_info_database_type() {
    assert_eq!(running("icitadel-dev-postgres", "").database_type(), Some("postgres"));
    assert_eq!(running("icitadel-dev-mysql", "").database_type(), Some("mysql"));
    assert_eq!(running("icitadel-dev-mongodb", "").database_type(), Some("mongodb"));
    assert_eq!(running("icitadel-dev-mssql", "").database_type(), Some("mssql"));
    assert_eq!(running("icitadel-dev-oracle", "").database_type(), Some("oracle"));
    assert_eq!(running("other-container", "").database_type(), None);
}

#[test]
fn container_database_type_of_bare_prefix_is_empty() {
    assert_eq!(running("icitadel-dev-", "").database_type(), Some(""));
}

#[test]
fn test_container_info_clone() {
    let info = ContainerInfo::new("test".to_string(), ContainerStatus::Running, "5432".to_string());
    let cloned = info.clone();

    assert_eq!(info, cloned);
}

#[test]
fn test_container_manager_creation() {
    let manager = ContainerManager::new("rusty-data".to_string());
    assert_eq!(manager.compose_dir(), "rusty-data");
}

#[test]
fn test_container_manager_default() {
    let manager = ContainerManager::default();
    assert_eq!(manager.compose_dir(), "rusty-data");
}

#[test]
fn container_error_messages() {
    assert_eq!(
        ContainerError::PodmanNotAvailable.message(),
        "Podman command not found. Please install podman."
    );
    assert_eq!(ContainerError::ContainerNotFound("x".to_string()).message(), "Container 'x' not found");
    assert_eq!(
        ContainerError::ComposeFileNotFound("d/compose.yml".to_string()).message(),
        "Compose file not found at d/compose.yml"
    );
    assert_eq!(ContainerError::ParseError("bad".to_string()).message(), "Failed to parse command output: bad");
    assert_eq!(ContainerError::CommandFailed("c".to_string()).message(), "Failed to execute command: c");
    assert_eq!(ContainerError::IoError("e".to_string()).message(), "IO error: e");
}

#[test]
fn operation_failures_name_the_operation() {
    let e = operation_failure(ComposeOperation::Start, "pg", "boom");
    assert_eq!(e.message(), "Container operation failed: Failed to start container 'pg': boom");
    let e = operation_failure(ComposeOperation::Stop, "pg", "boom");
    assert_eq!(e.message(), "Container operation failed: Failed to stop container 'pg': boom");
    let e = operation_failure(ComposeOperation::StartAll, "", "x");
    assert_eq!(e.message(), "Container operation failed: Failed to start all containers: x");
    let e = operation_failure(ComposeOperation::StopAll, "", "y");
    assert_eq!(e.message(), "Container operation failed: Failed to stop all containers: y");
}

#[test]
fn parse_rows_of_a_listing() {
    let out = "icitadel-dev-postgres\tUp 2 hours\t0.0.0.0:5432->5432/tcp\nicitadel-dev-mysql\tExited (0)\n\nlonely\n";
    let list = parse_container_list(out);
    assert_eq!(list.len(), 2);
    assert_eq!(list[0].name, "icitadel-dev-postgres");
    assert_eq!(list[0].status, ContainerStatus::Running);
    assert_eq!(list[0].ports, "0.0.0.0:5432->5432/tcp");
    assert_eq!(list[1].name, "icitadel-dev-mysql");
    assert_eq!(list[1].status, ContainerStatus::Stopped);
    assert_eq!(list[1].ports, "");
}

#[test]
fn parse_row_status_ignores_case() {
    let row = parse_container_row("a\tup 1 minute\tp").unwrap();
    assert_eq!(row.status, ContainerStatus::Running);
    let row = parse_container_row("a\tUP").unwrap();
    assert_eq!(row.status, ContainerStatus::Running);
    let row = parse_container_row("a\tCreated").unwrap();
    assert_eq!(row.status, ContainerStatus::Stopped);
    assert!(parse_container_row("   ").is_none());
    assert!(parse_container_row("only-a-name").is_none());
}

#[test]
fn parse_empty_listing() {
    assert_eq!(parse_container_list("").len(), 0);
}

#[test]
fn parse_status_output() {
    assert_eq!(parse_container_status(""), ContainerStatus::NotFound);
    assert_eq!(parse_container_status("  \n"), ContainerStatus::NotFound);
    assert_eq!(parse_container_status("Up 3 seconds\n"), ContainerStatus::Running);
    assert_eq!(parse_container_status("Exited (1) 2 minutes ago\n"), ContainerStatus::Stopped);
}

#[test]
fn test_container_db_type_to_enum() {
    assert_eq!(container_db_type_to_enum("postgres"), Some(DatabaseType::Postgres));
    assert_eq!(container_db_type_to_enum("mysql"), Some(DatabaseType::MySQL));
    assert_eq!(container_db_type_to_enum("mongodb"), Some(DatabaseType::MongoDB));
    assert_eq!(container_db_type_to_enum("mssql"), Some(DatabaseType::SQLServer));
    assert_eq!(container_db_type_to_enum("oracle"), Some(DatabaseType::Oracle));
    assert_eq!(container_db_type_to_enum("invalid"), None);
}

#[test]
fn test_container_to_connection_postgres() {
    let container = running("icitadel-dev-postgres", "5432");
    let connection = container_to_connection(&container).unwrap();

    assert_eq!(connection.id, "local-postgres");
    assert_eq!(connection.name, "Local PostgreSQL (Container)");
    assert_eq!(connection.db_type, DatabaseType::Postgres);
    assert_eq!(connection.host, Some("localhost".to_string()));
    assert_eq!(connection.port, Some(5432));
    assert_eq!(connection.database, "test_db");
    assert_eq!(connection.username, Some("test_user".to_string()));
    assert!(!connection.use_ssl);
}

#[test]
fn test_container_to_connection_mysql() {
    let connection = container_to_connection(&running("icitadel-dev-mysql", "3306")).unwrap();

    assert_eq!(connection.id, "local-mysql");
    assert_eq!(connection.name, "Local MySQL (Container)");
    assert_eq!(connection.db_type, DatabaseType::MySQL);
    assert_eq!(connection.port, Some(3306));
    assert_eq!(connection.database, "test_db");
    assert_eq!(connection.username, Some("test_user".to_string()));
}

#[test]
fn test_container_to_connection_mongodb() {
    let connection = container_to_connection(&running("icitadel-dev-mongodb", "27017")).unwrap();

    assert_eq!(connection.id, "local-mongodb");
    assert_eq!(connection.name, "Local MongoDB (Container)");
    assert_eq!(connection.db_type, DatabaseType::MongoDB);
    assert_eq!(connection.port, Some(27017));
    assert_eq!(connection.database, "test_db");
}

#[test]
fn test_container_to_connection_mssql() {
    let connection = container_to_connection(&running("icitadel-dev-mssql", "1433")).unwrap();

    assert_eq!(connection.id, "local-mssql");
    assert_eq!(connection.name, "Local SQL Server (Container)");
    assert_eq!(connection.db_type, DatabaseType::SQLServer);
    assert_eq!(connection.port, Some(1433));
    assert_eq!(connection.database, "master");
    assert_eq!(connection.username, Some("sa".to_string()));
}

#[test]
fn test_container_to_connection_oracle() {
    let connection = container_to_connection(&running("icitadel-dev-oracle", "1521")).unwrap();

    assert_eq!(connection.id, "local-oracle");
    assert_eq!(connection.name, "Local Oracle (Container)");
    assert_eq!(connection.db_type, DatabaseType::Oracle);
    assert_eq!(connection.port, Some(1521));
    assert_eq!(connection.database, "XE");
}

#[test]
fn test_container_to_connection_invalid() {
    let connection = container_to_connection(&running("other-container", "8080"));
    assert!(connection.is_none());
}

#[test]
fn test_sync_connections_with_containers_add_new() {
    let containers = vec![running("icitadel-dev-postgres", "5432")];

    let synced = sync_connections_with_containers(&containers, &[]);

    assert_eq!(synced.len(), 1);
    assert_eq!(synced[0].id, "local-postgres");
}

#[test]
fn test_sync_connections_with_containers_remove_stopped() {
    let containers = vec![];
    let existing = vec![conn(
        "local-postgres",
        "Local PostgreSQL",
        DatabaseType::Postgres,
        "localhost",
        5432,
        "test_db",
        "test_user",
        false,
    )];

    let synced = sync_connections_with_containers(&containers, &existing);
    assert_eq!(synced.len(), 0);
}

#[test]
fn test_sync_connections_preserve_non_local() {
    let containers = vec![];
    let existing = vec![conn(
        "production-db",
        "Production Database",
        DatabaseType::Postgres,
        "prod.example.com",
        5432,
        "prod_db",
        "prod_user",
        true,
    )];

    let synced = sync_connections_with_containers(&containers, &existing);
    assert_eq!(synced.len(), 1);
    assert_eq!(synced[0].id, "production-db");
}

#[test]
fn test_sync_connections_mixed() {
    let containers = vec![running("icitadel-dev-postgres", "5432"), running("icitadel-dev-mysql", "3306")];
    let existing = vec![
        conn("production-db", "Production", DatabaseType::Postgres, "prod.example.com", 5432, "prod", "prod_user", true),
        conn("local-oracle", "Local Oracle", DatabaseType::Oracle, "localhost", 1521, "XE", "test_user", false),
    ];

    let synced = sync_connections_with_containers(&containers, &existing);
    assert_eq!(synced.len(), 3);

    let ids: Vec<&str> = synced.iter().map(|c| c.id.as_str()).collect();
    assert!(ids.contains(&"production-db"));
    assert!(ids.contains(&"local-postgres"));
    assert!(ids.contains(&"local-mysql"));
    assert!(!ids.contains(&"local-oracle"));
}

#[test]
fn test_sync_connections_no_duplicates() {
    let containers = vec![running("icitadel-dev-postgres", "5432")];
    let existing = vec![conn(
        "local-postgres",
        "Local PostgreSQL",
        DatabaseType::Postgres,
        "localhost",
        5432,
        "test_db",
        "test_user",
        false,
    )];

    let synced = sync_connections_with_containers(&containers, &existing);
    assert_eq!(synced.len(), 1);
    assert_eq!(synced[0].id, "local-postgres");
}

#[test]
fn sync_is_idempotent_on_an_example() {
    let containers = vec![running("icitadel-dev-postgres", "5432"), running("other", "1")];
    let existing = vec![
        conn("production-db", "Production", DatabaseType::Postgres, "prod", 5432, "p", "u", true),
        conn("local-mysql", "Local MySQL", DatabaseType::MySQL, "localhost", 3306, "t", "u", false),
    ];
    let once = sync_connections_with_containers(&containers, &existing);
    let twice = sync_connections_with_containers(&containers, &once);
    assert_eq!(once, twice);
    assert_eq!(once.len(), 2);
    assert_eq!(once[0].id, "production-db");
    assert_eq!(once[1].id, "local-postgres");
}

#[test]
fn sync_takes_the_given_containers_as_running() {
    // The caller hands over the running containers; the status is not read.
    let containers = vec![ContainerInfo::new(
        "icitadel-dev-postgres".to_string(),
        ContainerStatus::Stopped,
        "5432".to_string(),
    )];
    let synced = sync_connections_with_containers(&containers, &[]);
    assert_eq!(synced.len(), 1);
}

#[test]
fn sync_adds_one_connection_per_kind() {
    let containers = vec![running("icitadel-dev-postgres", "5432"), running("icitadel-dev-postgres", "5433")];
    let synced = sync_connections_with_containers(&containers, &[]);
    assert_eq!(synced.len(), 1);
}
