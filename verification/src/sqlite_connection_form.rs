//! Data and messages of the SQLite connection form.

use crate::text::is_blank_str;
use crate::validation::{reports, sqlite_form_error};
use vstd::prelude::*;

verus! {

/// SQLite connection form data.
#[derive(Debug, PartialEq)]
pub struct SQLiteConnectionFormData {
    pub name: String,
    pub file_path: String,
}

impl Clone for SQLiteConnectionFormData {
    fn clone(&self) -> (r: Self)
        ensures
            r == *self,
    {
        SQLiteConnectionFormData { name: self.name.clone(), file_path: self.file_path.clone() }
    }
}

impl Default for SQLiteConnectionFormData {
    fn default() -> (d: Self)
        ensures
            d.name@ == Seq::<char>::empty(),
            d.file_path@ == Seq::<char>::empty(),
    {
        SQLiteConnectionFormData { name: String::new(), file_path: String::new() }
    }
}

impl SQLiteConnectionFormData {
    /// Create a new SQLite connection form with empty fields.
    pub fn new() -> (d: Self)
        ensures
            d.name@ == Seq::<char>::empty(),
            d.file_path@ == Seq::<char>::empty(),
    {
        Self::default()
    }

    /// Validate the form data, reporting the first problem found.
    pub fn validate(&self) -> (r: Result<(), String>)
        ensures
            reports(r, sqlite_form_error(self.name@, self.file_path@)),
    {
        if is_blank_str(self.name.as_str()) {
            return Err("Connection name is required".to_string());
        }
        if is_blank_str(self.file_path.as_str()) {
            return Err("File path is required".to_string());
        }
        Ok(())
    }
}

/// Messages for the SQLite connection form.
#[derive(Debug, Clone)]
pub enum SQLiteConnectionFormMessage {
    NameChanged(String),
    FilePathChanged(String),
    TestConnection,
    Save,
    Cancel,
}

} // verus!
