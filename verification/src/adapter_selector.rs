//! Choosing which kind of database a new connection is for.

use crate::database::DatabaseType;
use vstd::prelude::*;

verus! {

/// A database kind as the adapter picker shows it.
#[derive(Debug, Clone, Copy, PartialEq, Eq, Structural)]
pub struct DisplayableDatabaseType(pub DatabaseType);

/// The name the picker shows for a database kind.
pub open spec fn spec_display_name(db_type: DatabaseType) -> Seq<char> {
    match db_type {
        DatabaseType::Postgres => "PostgreSQL"@,
        DatabaseType::MySQL => "MySQL"@,
        DatabaseType::SQLite => "SQLite"@,
        DatabaseType::MongoDB => "MongoDB"@,
        DatabaseType::SQLServer => "SQL Server"@,
        DatabaseType::Oracle => "Oracle"@,
    }
}

impl DisplayableDatabaseType {
    /// The name shown in the picker.
    pub fn display_string(&self) -> (s: String)
        ensures
            s@ == spec_display_name(self.0),
    {
        match self.0 {
            DatabaseType::Postgres => "PostgreSQL".to_string(),
            DatabaseType::MySQL => "MySQL".to_string(),
            DatabaseType::SQLite => "SQLite".to_string(),
            DatabaseType::MongoDB => "MongoDB".to_string(),
            DatabaseType::SQLServer => "SQL Server".to_string(),
            DatabaseType::Oracle => "Oracle".to_string(),
        }
    }
}

impl From<DatabaseType> for DisplayableDatabaseType {
    fn from(db_type: DatabaseType) -> (r: Self) {
        DisplayableDatabaseType(db_type)
    }
}

impl vstd::std_specs::convert::FromSpecImpl<DatabaseType> for DisplayableDatabaseType {
    open spec fn obeys_from_spec() -> bool {
        true
    }

    open spec fn from_spec(db_type: DatabaseType) -> Self {
        DisplayableDatabaseType(db_type)
    }
}

impl From<DisplayableDatabaseType> for DatabaseType {
    fn from(d: DisplayableDatabaseType) -> (r: Self) {
        d.0
    }
}

impl vstd::std_specs::convert::FromSpecImpl<DisplayableDatabaseType> for DatabaseType {
    open spec fn obeys_from_spec() -> bool {
        true
    }

    open spec fn from_spec(d: DisplayableDatabaseType) -> Self {
        d.0
    }
}

/// Messages of the adapter picker.
#[derive(Debug, Clone, Copy, PartialEq, Eq, Structural)]
pub enum AdapterSelectorMessage {
    AdapterSelected(DatabaseType),
    Continue,
    Cancel,
}

/// The kinds the picker offers, in the order it lists them.
pub open spec fn spec_available_adapters() -> Seq<DatabaseType> {
    seq![
        DatabaseType::Postgres,
        DatabaseType::MySQL,
        DatabaseType::SQLite,
        DatabaseType::MongoDB,
        DatabaseType::SQLServer,
        DatabaseType::Oracle,
    ]
}

/// The kinds the picker offers, in the order it lists them.
pub fn available_adapters() -> (v: Vec<DisplayableDatabaseType>)
    ensures
        v@.len() == spec_available_adapters().len(),
        forall|i: int| 0 <= i < v@.len() ==> #[trigger] v@[i].0 == spec_available_adapters()[i],
{
    vec![
        DisplayableDatabaseType(DatabaseType::Postgres),
        DisplayableDatabaseType(DatabaseType::MySQL),
        DisplayableDatabaseType(DatabaseType::SQLite),
        DisplayableDatabaseType(DatabaseType::MongoDB),
        DisplayableDatabaseType(DatabaseType::SQLServer),
        DisplayableDatabaseType(DatabaseType::Oracle),
    ]
}

} // verus!
