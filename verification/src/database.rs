//! Database kinds and saved connection descriptions.

use vstd::prelude::*;

verus! {

/// The database systems that connections can target.
#[derive(Debug, Clone, Copy, PartialEq, Eq, Structural, Hash)]
pub enum DatabaseType {
    Postgres,
    MySQL,
    SQLite,
    MongoDB,
    SQLServer,
    Oracle,
}

/// The port that a server of the given kind listens on unless configured
/// otherwise; file-based databases have none.
pub open spec fn spec_default_port(db_type: DatabaseType) -> Option<u16> {
    match db_type {
        DatabaseType::Postgres => Some(5432u16),
        DatabaseType::MySQL => Some(3306u16),
        DatabaseType::SQLite => None,
        DatabaseType::MongoDB => Some(27017u16),
        DatabaseType::SQLServer => Some(1433u16),
        DatabaseType::Oracle => Some(1521u16),
    }
}

impl DatabaseType {
    /// The conventional server port of this kind of database.
    pub fn default_port(&self) -> (port: Option<u16>)
        ensures
            port == spec_default_port(*self),
    {
        match self {
            DatabaseType::Postgres => Some(5432),
            DatabaseType::MySQL => Some(3306),
            DatabaseType::SQLite => None,
            DatabaseType::MongoDB => Some(27017),
            DatabaseType::SQLServer => Some(1433),
            DatabaseType::Oracle => Some(1521),
        }
    }
}

/// The text view of an optional string.
pub open spec fn opt_view(o: Option<String>) -> Option<Seq<char>> {
    match o {
        Some(s) => Some(s@),
        None => None,
    }
}

/// Copies an optional string.
pub fn copy_opt_string(o: &Option<String>) -> (r: Option<String>)
    ensures
        r == *o,
{
    match o {
        Some(s) => Some(s.clone()),
        None => None,
    }
}

/// A saved description of how to reach a database.
#[derive(Debug, PartialEq)]
pub struct ConnectionConfig {
    pub id: String,
    pub name: String,
    pub db_type: DatabaseType,
    pub host: Option<String>,
    pub port: Option<u16>,
    pub database: String,
    pub username: Option<String>,
    pub use_ssl: bool,
}

/// What a connection description says, as plain values.
pub struct ConnectionView {
    pub id: Seq<char>,
    pub name: Seq<char>,
    pub db_type: DatabaseType,
    pub host: Option<Seq<char>>,
    pub port: Option<u16>,
    pub database: Seq<char>,
    pub username: Option<Seq<char>>,
    pub use_ssl: bool,
}

impl View for ConnectionConfig {
    type V = ConnectionView;

    open spec fn view(&self) -> ConnectionView {
        ConnectionView {
            id: self.id@,
            name: self.name@,
            db_type: self.db_type,
            host: opt_view(self.host),
            port: self.port,
            database: self.database@,
            username: opt_view(self.username),
            use_ssl: self.use_ssl,
        }
    }
}

impl Clone for ConnectionConfig {
    fn clone(&self) -> (r: Self)
        ensures
            r == *self,
    {
        ConnectionConfig {
            id: self.id.clone(),
            name: self.name.clone(),
            db_type: self.db_type,
            host: copy_opt_string(&self.host),
            port: self.port,
            database: self.database.clone(),
            username: copy_opt_string(&self.username),
            use_ssl: self.use_ssl,
        }
    }
}

} // verus!
