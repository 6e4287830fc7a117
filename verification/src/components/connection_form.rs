//! Connection form component for creating database connections.

use crate::components::{component_name, ComponentId, ConnectionFormAction};
use crate::database::{spec_default_port, DatabaseType};
use crate::text::{decimal, is_blank_str, parse_u16, usize_to_decimal};
use crate::validation::{connection_form_error, reports};
use vstd::prelude::*;
use vstd::string::*;

verus! {

/// Connection form data.
#[derive(Debug, PartialEq)]
pub struct ConnectionFormData {
    pub db_type: DatabaseType,
    pub name: String,
    pub host: String,
    pub port: String,
    pub database: String,
    pub username: String,
    pub password: String,
    pub file_path: String,
}

impl Clone for ConnectionFormData {
    fn clone(&self) -> (r: Self)
        ensures
            r == *self,
    {
        ConnectionFormData {
            db_type: self.db_type,
            name: self.name.clone(),
            host: self.host.clone(),
            port: self.port.clone(),
            database: self.database.clone(),
            username: self.username.clone(),
            password: self.password.clone(),
            file_path: self.file_path.clone(),
        }
    }
}

/// A freshly opened form: a PostgreSQL connection to `localhost:5432` with
/// every other field empty.
pub open spec fn is_blank_form(d: ConnectionFormData) -> bool {
    &&& d.db_type == DatabaseType::Postgres
    &&& d.name@ == Seq::<char>::empty()
    &&& d.host@ == "localhost"@
    &&& d.port@ == "5432"@
    &&& d.database@ == Seq::<char>::empty()
    &&& d.username@ == Seq::<char>::empty()
    &&& d.password@ == Seq::<char>::empty()
    &&& d.file_path@ == Seq::<char>::empty()
}

/// A freshly opened form for a database of kind `db_type`: a blank form
/// switched to that kind, so its port is that kind's default.
pub open spec fn is_blank_form_of(d: ConnectionFormData, db_type: DatabaseType) -> bool {
    &&& d.db_type == db_type
    &&& d.name@ == Seq::<char>::empty()
    &&& d.host@ == "localhost"@
    &&& d.port@ == port_after_switch(db_type, "5432"@)
    &&& d.database@ == Seq::<char>::empty()
    &&& d.username@ == Seq::<char>::empty()
    &&& d.password@ == Seq::<char>::empty()
    &&& d.file_path@ == Seq::<char>::empty()
}

/// The port text a form shows after switching to `db_type`: that kind's
/// default port, or the previous text when it has none.
pub open spec fn port_after_switch(db_type: DatabaseType, port: Seq<char>) -> Seq<char> {
    match spec_default_port(db_type) {
        Some(p) => decimal(p as nat),
        None => port,
    }
}

impl Default for ConnectionFormData {
    fn default() -> (d: Self)
        ensures
            is_blank_form(d),
    {
        ConnectionFormData {
            db_type: DatabaseType::Postgres,
            name: String::new(),
            host: "localhost".to_string(),
            port: "5432".to_string(),
            database: String::new(),
            username: String::new(),
            password: String::new(),
            file_path: String::new(),
        }
    }
}

impl ConnectionFormData {
    /// The first problem with this form, if any.
    pub open spec fn problem(&self) -> Option<Seq<char>> {
        connection_form_error(
            self.db_type,
            self.name@,
            self.host@,
            self.port@,
            self.database@,
            self.file_path@,
        )
    }

    /// Create a new connection form with default values.
    pub fn new() -> (d: Self)
        ensures
            is_blank_form(d),
    {
        Self::default()
    }

    /// Switch the database type, moving the port to that type's default.
    pub fn with_db_type(self, db_type: DatabaseType) -> (r: Self)
        ensures
            r.db_type == db_type,
            r.port@ == port_after_switch(db_type, self.port@),
            r.name == self.name,
            r.host == self.host,
            r.database == self.database,
            r.username == self.username,
            r.password == self.password,
            r.file_path == self.file_path,
    {
        let mut d = self;
        d.db_type = db_type;
        match db_type.default_port() {
            Some(port) => {
                d.port = usize_to_decimal(port as usize);
            },
            None => {},
        }
        d
    }

    /// Validate the form data, reporting the first problem found.
    pub fn validate(&self) -> (r: Result<(), String>)
        ensures
            reports(r, self.problem()),
    {
        if is_blank_str(self.name.as_str()) {
            return Err("Connection name is required".to_string());
        }
        match self.db_type {
            DatabaseType::SQLite => {
                if is_blank_str(self.file_path.as_str()) {
                    return Err("File path is required for SQLite".to_string());
                }
            },
            DatabaseType::Postgres
            | DatabaseType::MySQL
            | DatabaseType::MongoDB
            | DatabaseType::SQLServer
            | DatabaseType::Oracle => {
                if is_blank_str(self.host.as_str()) {
                    return Err("Host is required".to_string());
                }
                if is_blank_str(self.database.as_str()) {
                    return Err("Database is required".to_string());
                }
                if is_blank_str(self.port.as_str()) {
                    return Err("Port is required".to_string());
                }
                if parse_u16(self.port.as_str()).is_none() {
                    return Err("Port must be a valid number (1-65535)".to_string());
                }
            },
        }
        Ok(())
    }
}

/// Connection form component with internal state.
#[derive(Debug, Clone)]
pub struct ConnectionFormComponent {
    data: ConnectionFormData,
}

impl ConnectionFormComponent {
    /// The data the form currently holds.
    pub closed spec fn form(&self) -> ConnectionFormData {
        self.data
    }

    /// Create a new connection form component with default values.
    pub fn new() -> (c: Self)
        ensures
            is_blank_form(c.form()),
    {
        ConnectionFormComponent { data: ConnectionFormData::new() }
    }

    /// Identifies this component.
    pub fn id(&self) -> (id: ComponentId)
        ensures
            id == ComponentId::ConnectionForm,
    {
        ComponentId::ConnectionForm
    }

    /// Display name for tabs and menus.
    pub fn title(&self) -> (t: &'static str)
        ensures
            t@ == component_name(ComponentId::ConnectionForm),
    {
        ComponentId::ConnectionForm.name()
    }

    /// Get the current form data.
    pub fn data(&self) -> (d: &ConnectionFormData)
        ensures
            *d == self.form(),
    {
        &self.data
    }

    /// Get the form data for modification.
    pub fn data_mut(&mut self) -> (d: &mut ConnectionFormData)
        ensures
            *d == old(self).form(),
            final(self).form() == *final(d),
    {
        &mut self.data
    }

    /// Reset the form to default values.
    pub fn reset(&mut self)
        ensures
            is_blank_form(final(self).form()),
    {
        self.data = ConnectionFormData::new();
    }

    /// Update the component based on an action: field edits change that field,
    /// a new database type also resets the port, and the buttons leave the
    /// form as it is for the parent to act on.
    pub fn update(&mut self, action: ConnectionFormAction)
        ensures
            ({
                let o = old(self).form();
                let n = final(self).form();
                match action {
                    ConnectionFormAction::NameChanged(v) => n == ConnectionFormData { name: v, ..o },
                    ConnectionFormAction::DbTypeChanged(t) => {
                        &&& n.db_type == t
                        &&& n.port@ == port_after_switch(t, o.port@)
                        &&& n == ConnectionFormData { db_type: t, port: n.port, ..o }
                    },
                    ConnectionFormAction::HostChanged(v) => n == ConnectionFormData { host: v, ..o },
                    ConnectionFormAction::PortChanged(v) => n == ConnectionFormData { port: v, ..o },
                    ConnectionFormAction::DatabaseChanged(v) => n == ConnectionFormData {
                        database: v,
                        ..o
                    },
                    ConnectionFormAction::UsernameChanged(v) => n == ConnectionFormData {
                        username: v,
                        ..o
                    },
                    ConnectionFormAction::PasswordChanged(v) => n == ConnectionFormData {
                        password: v,
                        ..o
                    },
                    ConnectionFormAction::FilePathChanged(v) => n == ConnectionFormData {
                        file_path: v,
                        ..o
                    },
                    ConnectionFormAction::TestConnection
                    | ConnectionFormAction::Save
                    | ConnectionFormAction::Cancel => n == o,
                }
            }),
    {
        match action {
            ConnectionFormAction::NameChanged(name) => {
                self.data.name = name;
            },
            ConnectionFormAction::DbTypeChanged(db_type) => {
                self.data = self.data.clone().with_db_type(db_type);
            },
            ConnectionFormAction::HostChanged(host) => {
                self.data.host = host;
            },
            ConnectionFormAction::PortChanged(port) => {
                self.data.port = port;
            },
            ConnectionFormAction::DatabaseChanged(database) => {
                self.data.database = database;
            },
            ConnectionFormAction::UsernameChanged(username) => {
                self.data.username = username;
            },
            ConnectionFormAction::PasswordChanged(password) => {
                self.data.password = password;
            },
            ConnectionFormAction::FilePathChanged(file_path) => {
                self.data.file_path = file_path;
            },
            ConnectionFormAction::Save
            | ConnectionFormAction::Cancel
            | ConnectionFormAction::TestConnection => {},
        }
    }
}

impl Default for ConnectionFormComponent {
    fn default() -> (c: Self)
        ensures
            is_blank_form(c.form()),
    {
        Self::new()
    }
}

} // verus!
