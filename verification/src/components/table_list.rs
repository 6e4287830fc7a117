//! Table list component: the tables of the selected server.

use crate::components::{component_name, ComponentId, TableListAction};
use crate::text::{decimal, u64_to_decimal};
use vstd::prelude::*;

verus! {

/// Metadata for a database table.
#[derive(Debug, Clone, PartialEq)]
pub struct TableMetadata {
    pub schema: String,
    pub name: String,
    pub row_count: Option<u64>,
}

/// How a table is listed: `schema.name`, followed by its row count in
/// parentheses when it is known.
pub open spec fn table_label_text(t: TableMetadata) -> Seq<char> {
    let base = t.schema@ + "."@ + t.name@;
    match t.row_count {
        Some(n) => base + " ("@ + decimal(n as nat) + ")"@,
        None => base,
    }
}

/// How a table is listed.
pub fn table_label(t: &TableMetadata) -> (s: String)
    ensures
        s@ == table_label_text(*t),
{
    let base = t.schema.clone().concat(".").concat(t.name.as_str());
    match t.row_count {
        Some(n) => base.concat(" (").concat(u64_to_decimal(n).as_str()).concat(")"),
        None => base,
    }
}

/// Table list component with internal table list.
#[derive(Debug, Clone)]
pub struct TableListComponent {
    tables: Vec<TableMetadata>,
    selected_server: Option<String>,
}

impl TableListComponent {
    /// The listed tables, in order.
    pub closed spec fn table_seq(&self) -> Seq<TableMetadata> {
        self.tables@
    }

    /// The selected server.
    pub closed spec fn server(&self) -> Option<String> {
        self.selected_server
    }

    /// Create a new table list component with no server selected.
    pub fn new() -> (c: Self)
        ensures
            c.table_seq().len() == 0,
            c.server() is None,
    {
        TableListComponent { tables: Vec::new(), selected_server: None }
    }

    /// Identifies this component.
    pub fn id(&self) -> (id: ComponentId)
        ensures
            id == ComponentId::TableList,
    {
        ComponentId::TableList
    }

    /// Display name for tabs and menus.
    pub fn title(&self) -> (t: &'static str)
        ensures
            t@ == component_name(ComponentId::TableList),
    {
        ComponentId::TableList.name()
    }

    /// Get the current tables.
    pub fn tables(&self) -> (t: &[TableMetadata])
        ensures
            t@ == self.table_seq(),
    {
        self.tables.as_slice()
    }

    /// Set the tables list.
    pub fn set_tables(&mut self, tables: Vec<TableMetadata>)
        ensures
            final(self).table_seq() == tables@,
            final(self).server() == old(self).server(),
    {
        self.tables = tables;
    }

    /// Set the selected server; deselecting clears the tables.
    pub fn set_selected_server(&mut self, server: Option<String>)
        ensures
            final(self).server() == server,
            final(self).table_seq() == if server is None {
                Seq::<TableMetadata>::empty()
            } else {
                old(self).table_seq()
            },
    {
        let is_none = server.is_none();
        self.selected_server = server;
        if is_none {
            self.tables.clear();
        }
    }

    /// Get the selected server.
    pub fn selected_server(&self) -> (s: Option<&str>)
        ensures
            s is None <==> self.server() is None,
            s matches Some(t) ==> t@ == self.server().unwrap()@,
    {
        match &self.selected_server {
            Some(o) => Some(o.as_str()),
            None => None,
        }
    }

    /// Clear all tables.
    pub fn clear(&mut self)
        ensures
            final(self).table_seq() == Seq::<TableMetadata>::empty(),
            final(self).server() == old(self).server(),
    {
        self.tables.clear();
    }

    /// Update the component based on an action; selection and refresh are
    /// handled by the parent, so the component itself is left as it is.
    pub fn update(&mut self, action: TableListAction)
        ensures
            *final(self) == *old(self),
    {
        match action {
            TableListAction::SelectTable(_table_name) => {},
            TableListAction::RefreshTables => {},
        }
    }
}

impl TableListComponent {
    /// The note shown in place of the list: none is selected, or the
    /// selected server has no tables; `None` when tables are listed.
    pub fn placeholder(&self) -> (p: Option<&'static str>)
        ensures
            self.server() is None ==> (p matches Some(t) && t@ == "(Select a server)"@),
            self.server() is Some && self.table_seq().len() == 0 ==> (p matches Some(t) && t@
                == "(No tables)"@),
            self.server() is Some && self.table_seq().len() > 0 ==> p is None,
    {
        if self.selected_server.is_none() {
            Some("(Select a server)")
        } else if self.tables.len() == 0 {
            Some("(No tables)")
        } else {
            None
        }
    }
}

impl Default for TableListComponent {
    fn default() -> (c: Self)
        ensures
            c.table_seq().len() == 0,
            c.server() is None,
    {
        Self::new()
    }
}

} // verus!
