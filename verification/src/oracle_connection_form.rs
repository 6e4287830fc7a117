//! Data and messages of the Oracle connection form.

use crate::text::{is_blank_str, parse_u16};
use crate::validation::{oracle_form_error, reports};
use vstd::prelude::*;

verus! {

/// Oracle connection form data; `database` holds the SID or service name.
#[derive(Debug, PartialEq)]
pub struct OracleConnectionFormData {
    pub name: String,
    pub host: String,
    pub port: String,
    pub database: String,
    pub username: String,
    pub password: String,
}

impl Clone for OracleConnectionFormData {
    fn clone(&self) -> (r: Self)
        ensures
            r == *self,
    {
        OracleConnectionFormData {
            name: self.name.clone(),
            host: self.host.clone(),
            port: self.port.clone(),
            database: self.database.clone(),
            username: self.username.clone(),
            password: self.password.clone(),
        }
    }
}

/// A freshly opened Oracle form: `localhost:1521` with every other field empty.
pub open spec fn is_blank_oracle_form(d: OracleConnectionFormData) -> bool {
    &&& d.name@ == Seq::<char>::empty()
    &&& d.host@ == "localhost"@
    &&& d.port@ == "1521"@
    &&& d.database@ == Seq::<char>::empty()
    &&& d.username@ == Seq::<char>::empty()
    &&& d.password@ == Seq::<char>::empty()
}

impl Default for OracleConnectionFormData {
    fn default() -> (d: Self)
        ensures
            is_blank_oracle_form(d),
    {
        OracleConnectionFormData {
            name: String::new(),
            host: "localhost".to_string(),
            port: "1521".to_string(),
            database: String::new(),
            username: String::new(),
            password: String::new(),
        }
    }
}

impl OracleConnectionFormData {
    /// Create a new Oracle connection form with default values.
    pub fn new() -> (d: Self)
        ensures
            is_blank_oracle_form(d),
    {
        Self::default()
    }

    /// Validate the form data, reporting the first problem found.
    pub fn validate(&self) -> (r: Result<(), String>)
        ensures
            reports(r, oracle_form_error(self.name@, self.host@, self.port@, self.database@)),
    {
        if is_blank_str(self.name.as_str()) {
            return Err("Connection name is required".to_string());
        }
        if is_blank_str(self.host.as_str()) {
            return Err("Host is required".to_string());
        }
        if is_blank_str(self.database.as_str()) {
            return Err("SID/Service Name is required".to_string());
        }
        if is_blank_str(self.port.as_str()) {
            return Err("Port is required".to_string());
        }
        if parse_u16(self.port.as_str()).is_none() {
            return Err("Port must be a valid number (1-65535)".to_string());
        }
        Ok(())
    }
}

/// Messages for the Oracle connection form.
#[derive(Debug, Clone)]
pub enum OracleConnectionFormMessage {
    NameChanged(String),
    HostChanged(String),
    PortChanged(String),
    DatabaseChanged(String),
    UsernameChanged(String),
    PasswordChanged(String),
    TestConnection,
    Save,
    Cancel,
}

} // verus!
