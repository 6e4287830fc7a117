//! Server list component: the saved database connections.

use crate::components::{component_name, ComponentId, ServerListAction};
use crate::database::ConnectionConfig;
use crate::seq_util::{any_match, first_match, lemma_first_match};
use crate::text::str_eq;
use vstd::prelude::*;

verus! {

/// The connection carries the identifier `id`.
pub open spec fn conn_id_is(id: Seq<char>) -> spec_fn(ConnectionConfig) -> bool {
    |c: ConnectionConfig| c.id@ == id
}

/// Server list component with internal connection list.
#[derive(Debug, Clone)]
pub struct ServerListComponent {
    connections: Vec<ConnectionConfig>,
}

impl ServerListComponent {
    /// The listed connections, in order.
    pub closed spec fn connection_seq(&self) -> Seq<ConnectionConfig> {
        self.connections@
    }

    /// Create a new server list component with no connections.
    pub fn new() -> (c: Self)
        ensures
            c.connection_seq().len() == 0,
    {
        ServerListComponent { connections: Vec::new() }
    }

    /// Identifies this component.
    pub fn id(&self) -> (id: ComponentId)
        ensures
            id == ComponentId::ServerList,
    {
        ComponentId::ServerList
    }

    /// Display name for tabs and menus.
    pub fn title(&self) -> (t: &'static str)
        ensures
            t@ == component_name(ComponentId::ServerList),
    {
        ComponentId::ServerList.name()
    }

    /// Get the current connections.
    pub fn connections(&self) -> (c: &[ConnectionConfig])
        ensures
            c@ == self.connection_seq(),
    {
        self.connections.as_slice()
    }

    /// Set the connections list.
    pub fn set_connections(&mut self, connections: Vec<ConnectionConfig>)
        ensures
            final(self).connection_seq() == connections@,
    {
        self.connections = connections;
    }

    /// Add a connection at the end of the list.
    pub fn add_connection(&mut self, connection: ConnectionConfig)
        ensures
            final(self).connection_seq() == old(self).connection_seq().push(connection),
    {
        self.connections.push(connection);
    }

    /// Remove the first connection with identifier `id`; returns whether one
    /// was found.
    pub fn remove_connection(&mut self, id: &str) -> (found: bool)
        ensures
            found == any_match(old(self).connection_seq(), conn_id_is(id@)),
            final(self).connection_seq() == if found {
                old(self).connection_seq().remove(
                    first_match(old(self).connection_seq(), conn_id_is(id@)),
                )
            } else {
                old(self).connection_seq()
            },
    {
        let mut i: usize = 0;
        while i < self.connections.len()
            invariant
                i <= self.connections.len(),
                self.connections@ == old(self).connections@,
                forall|j: int|
                    0 <= j < i ==> !(conn_id_is(id@))(#[trigger] self.connections@[j]),
            decreases self.connections.len() - i,
        {
            if str_eq(self.connections[i].id.as_str(), id) {
                proof {
                    lemma_first_match(self.connections@, conn_id_is(id@), i as int);
                }
                self.connections.remove(i);
                return true;
            }
            i = i + 1;
        }
        false
    }

    /// Update the component based on an action; selection, new connections
    /// and refreshing are handled by the parent.
    pub fn update(&mut self, action: ServerListAction)
        ensures
            *final(self) == *old(self),
    {
        match action {
            ServerListAction::SelectServer(_id) => {},
            ServerListAction::NewConnection => {},
            ServerListAction::RefreshList => {},
        }
    }
}

impl Default for ServerListComponent {
    fn default() -> (c: Self)
        ensures
            c.connection_seq().len() == 0,
    {
        Self::new()
    }
}

} // verus!
