//! Identifiers and actions shared by the UI components.

use crate::database::DatabaseType;
use vstd::prelude::*;

pub mod connection_form;
pub mod editor;
pub mod properties;
pub mod results_view;
pub mod server_list;
pub mod table_list;

verus! {

/// Unique identifier for each component type.
#[derive(Debug, Clone, Copy, PartialEq, Eq, Structural, Hash)]
pub enum ComponentId {
    ServerList,
    TableList,
    Properties,
    Editor,
    ConnectionForm,
    ResultsView,
}

/// The human-readable name of a component.
pub open spec fn component_name(id: ComponentId) -> Seq<char> {
    match id {
        ComponentId::ServerList => "Servers"@,
        ComponentId::TableList => "Tables"@,
        ComponentId::Properties => "Properties"@,
        ComponentId::Editor => "Query Editor"@,
        ComponentId::ConnectionForm => "Connection Manager"@,
        ComponentId::ResultsView => "Results"@,
    }
}

/// Every component identifier, in menu order.
pub open spec fn all_component_ids() -> Seq<ComponentId> {
    seq![
        ComponentId::ServerList,
        ComponentId::TableList,
        ComponentId::Properties,
        ComponentId::Editor,
        ComponentId::ConnectionForm,
        ComponentId::ResultsView,
    ]
}

impl ComponentId {
    /// All component IDs.
    pub fn all() -> (ids: &'static [ComponentId])
        ensures
            ids@ == all_component_ids(),
    {
        let ids: &'static [ComponentId] = &[
            ComponentId::ServerList,
            ComponentId::TableList,
            ComponentId::Properties,
            ComponentId::Editor,
            ComponentId::ConnectionForm,
            ComponentId::ResultsView,
        ];
        ids
    }

    /// Human-readable name.
    pub fn name(&self) -> (s: &'static str)
        ensures
            s@ == component_name(*self),
    {
        match self {
            ComponentId::ServerList => "Servers",
            ComponentId::TableList => "Tables",
            ComponentId::Properties => "Properties",
            ComponentId::Editor => "Query Editor",
            ComponentId::ConnectionForm => "Connection Manager",
            ComponentId::ResultsView => "Results",
        }
    }
}

/// Actions for the server list component.
#[derive(Debug, Clone)]
pub enum ServerListAction {
    SelectServer(String),
    NewConnection,
    RefreshList,
}

/// Actions for the table list component.
#[derive(Debug, Clone)]
pub enum TableListAction {
    SelectTable(String),
    RefreshTables,
}

/// Actions for the properties component.
#[derive(Debug, Clone)]
pub enum PropertiesAction {
    UpdateProperty(String, String),
}

/// Actions for the editor component.
#[derive(Debug, Clone)]
pub enum EditorAction {
    NewTab,
    CloseTab(usize),
    SelectTab(usize),
    QueryChanged(String),
    ExecuteQuery,
}

/// Actions for the connection form component.
#[derive(Debug, Clone)]
pub enum ConnectionFormAction {
    NameChanged(String),
    DbTypeChanged(DatabaseType),
    HostChanged(String),
    PortChanged(String),
    DatabaseChanged(String),
    UsernameChanged(String),
    PasswordChanged(String),
    FilePathChanged(String),
    TestConnection,
    Save,
    Cancel,
}

/// Actions for the results view component. The view is a read-only display
/// with no actions yet, so no value of this type can be made outside the crate.
#[derive(Debug, Clone, Copy)]
pub struct ResultsViewAction {
    no_action: (),
}

/// Unified action type for all components.
#[derive(Debug, Clone)]
pub enum ComponentAction {
    ServerList(ServerListAction),
    TableList(TableListAction),
    Properties(PropertiesAction),
    Editor(EditorAction),
    ConnectionForm(ConnectionFormAction),
    ResultsView(ResultsViewAction),
}

} // verus!
