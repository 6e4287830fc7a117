//! The rules that connection forms are checked against.

use crate::database::DatabaseType;
use crate::text::{is_blank, parsed_up_to};
use vstd::prelude::*;

verus! {

/// A port field that `str::parse::<u16>` accepts.
pub open spec fn valid_port(port: Seq<char>) -> bool {
    parsed_up_to(port, 65535) is Some
}

/// The first problem found with a general connection form, if any: a name is
/// always required; a SQLite connection needs a file path; every other kind
/// needs a host, a database and a valid port.
pub open spec fn connection_form_error(
    db_type: DatabaseType,
    name: Seq<char>,
    host: Seq<char>,
    port: Seq<char>,
    database: Seq<char>,
    file_path: Seq<char>,
) -> Option<Seq<char>> {
    if is_blank(name) {
        Some("Connection name is required"@)
    } else if db_type == DatabaseType::SQLite {
        if is_blank(file_path) {
            Some("File path is required for SQLite"@)
        } else {
            None
        }
    } else if is_blank(host) {
        Some("Host is required"@)
    } else if is_blank(database) {
        Some("Database is required"@)
    } else if is_blank(port) {
        Some("Port is required"@)
    } else if !valid_port(port) {
        Some("Port must be a valid number (1-65535)"@)
    } else {
        None
    }
}

/// The first problem found with a SQLite connection form, if any.
pub open spec fn sqlite_form_error(name: Seq<char>, file_path: Seq<char>) -> Option<Seq<char>> {
    if is_blank(name) {
        Some("Connection name is required"@)
    } else if is_blank(file_path) {
        Some("File path is required"@)
    } else {
        None
    }
}

/// The first problem found with an Oracle connection form, if any.
pub open spec fn oracle_form_error(
    name: Seq<char>,
    host: Seq<char>,
    port: Seq<char>,
    database: Seq<char>,
) -> Option<Seq<char>> {
    if is_blank(name) {
        Some("Connection name is required"@)
    } else if is_blank(host) {
        Some("Host is required"@)
    } else if is_blank(database) {
        Some("SID/Service Name is required"@)
    } else if is_blank(port) {
        Some("Port is required"@)
    } else if !valid_port(port) {
        Some("Port must be a valid number (1-65535)"@)
    } else {
        None
    }
}

/// A validation outcome agrees with the first problem found.
pub open spec fn reports(r: Result<(), String>, problem: Option<Seq<char>>) -> bool {
    match r {
        Ok(()) => problem is None,
        Err(e) => problem == Some(e@),
    }
}

} // verus!
