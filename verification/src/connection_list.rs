//! Status indicators and database icons of the connection list.

use crate::database::DatabaseType;
use vstd::prelude::*;

verus! {

/// Connection status for display.
#[derive(Debug, Clone, Copy, PartialEq, Eq, Structural)]
pub enum ConnectionStatus {
    Connected,
    Disconnected,
}

/// The glyph shown for a connection status.
pub open spec fn status_indicator(s: ConnectionStatus) -> Seq<char> {
    match s {
        ConnectionStatus::Connected => "●"@,
        ConnectionStatus::Disconnected => "○"@,
    }
}

impl ConnectionStatus {
    /// Get the display indicator for this status.
    pub fn indicator(&self) -> (s: &'static str)
        ensures
            s@ == status_indicator(*self),
    {
        match self {
            ConnectionStatus::Connected => "●",
            ConnectionStatus::Disconnected => "○",
        }
    }
}

/// The icon shown beside a connection of each database kind.
pub open spec fn spec_database_icon(db_type: DatabaseType) -> Seq<char> {
    match db_type {
        DatabaseType::Postgres => "🐘"@,
        DatabaseType::MySQL => "🐬"@,
        DatabaseType::SQLite => "💾"@,
        DatabaseType::MongoDB => "🍃"@,
        DatabaseType::SQLServer => "⚡"@,
        DatabaseType::Oracle => "🔷"@,
    }
}

/// Get the icon for a database type.
pub fn database_icon(db_type: &DatabaseType) -> (s: &'static str)
    ensures
        s@ == spec_database_icon(*db_type),
{
    match db_type {
        DatabaseType::Postgres => "🐘",
        DatabaseType::MySQL => "🐬",
        DatabaseType::SQLite => "💾",
        DatabaseType::MongoDB => "🍃",
        DatabaseType::SQLServer => "⚡",
        DatabaseType::Oracle => "🔷",
    }
}

} // verus!
