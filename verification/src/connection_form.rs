//! Data and messages of the general connection form.

use crate::adapter_selector::DisplayableDatabaseType;
use crate::database::{opt_view, DatabaseType};
use vstd::prelude::*;

pub use crate::components::connection_form::ConnectionFormData;

verus! {

/// Messages for the connection form.
#[derive(Debug, Clone)]
pub enum ConnectionFormMessage {
    NameChanged(String),
    DbTypeChanged(DatabaseType),
    HostChanged(String),
    PortChanged(String),
    DatabaseChanged(String),
    UsernameChanged(String),
    PasswordChanged(String),
    FilePathChanged(String),
    TestConnection,
    Save,
    Cancel,
}

/// A field of the general connection form.
#[derive(Debug, Clone, Copy, PartialEq, Eq, Structural)]
pub enum FormField {
    Name,
    DatabaseType,
    FilePath,
    Host,
    Port,
    Database,
    Username,
    Password,
}

/// The fields the general form shows for a kind, in order: a SQLite
/// connection names a file, every other kind a server.
pub open spec fn spec_form_fields(t: DatabaseType) -> Seq<FormField> {
    if t == DatabaseType::SQLite {
        seq![FormField::Name, FormField::DatabaseType, FormField::FilePath]
    } else {
        seq![
            FormField::Name,
            FormField::DatabaseType,
            FormField::Host,
            FormField::Port,
            FormField::Database,
            FormField::Username,
            FormField::Password,
        ]
    }
}

/// The fields the general form shows for a kind, in order.
pub fn form_fields(t: DatabaseType) -> (v: Vec<FormField>)
    ensures
        v@ == spec_form_fields(t),
{
    let v = match t {
        DatabaseType::SQLite => vec![FormField::Name, FormField::DatabaseType, FormField::FilePath],
        _ => vec![
            FormField::Name,
            FormField::DatabaseType,
            FormField::Host,
            FormField::Port,
            FormField::Database,
            FormField::Username,
            FormField::Password,
        ],
    };
    assert(v@ =~= spec_form_fields(t));
    v
}

/// The kinds the general form's picker offers, in order.
pub open spec fn spec_form_kinds() -> Seq<DatabaseType> {
    seq![DatabaseType::Postgres, DatabaseType::MySQL, DatabaseType::SQLite]
}

/// The kinds the general form's picker offers, in order.
pub fn form_kinds() -> (v: Vec<DisplayableDatabaseType>)
    ensures
        v@.len() == spec_form_kinds().len(),
        forall|i: int| 0 <= i < v@.len() ==> #[trigger] v@[i].0 == spec_form_kinds()[i],
{
    vec![
        DisplayableDatabaseType(DatabaseType::Postgres),
        DisplayableDatabaseType(DatabaseType::MySQL),
        DisplayableDatabaseType(DatabaseType::SQLite),
    ]
}

/// The line a connection form shows for the outcome of its last test or
/// save, if any.
pub open spec fn spec_outcome_text(r: Option<Result<(), String>>) -> Option<Seq<char>> {
    match r {
        None => None,
        Some(Ok(())) => Some("✓ Connection successful!"@),
        Some(Err(e)) => Some("✗ Connection failed: "@ + e@),
    }
}

/// The line a connection form shows for the outcome of its last test or
/// save, if any.
pub fn outcome_text(r: &Option<Result<(), String>>) -> (s: Option<String>)
    ensures
        opt_view(s) == spec_outcome_text(*r),
{
    match r {
        None => None,
        Some(Ok(())) => Some("✓ Connection successful!".to_string()),
        Some(Err(e)) => Some("✗ Connection failed: ".to_string().concat(e.as_str())),
    }
}

} // verus!
