//! Bookkeeping of active database connections and the selected one.

use crate::database::ConnectionConfig;
use crate::text::str_eq;
use vstd::prelude::*;

verus! {

/// Status of a database connection.
#[derive(Debug, Clone, PartialEq, Eq)]
pub enum ConnectionStatus {
    Connected,
    Disconnected,
    Error(String),
}

impl Default for ConnectionStatus {
    fn default() -> (s: Self)
        ensures
            s == ConnectionStatus::Disconnected,
    {
        ConnectionStatus::Disconnected
    }
}

/// An active database connection with its state; `adapter` is the driver
/// object that talks to the database.
pub struct ActiveConnection<D> {
    pub id: String,
    pub config: ConnectionConfig,
    pub adapter: D,
    pub status: ConnectionStatus,
    pub password: Option<String>,
}

/// The status that an attempt to connect leaves behind.
pub open spec fn status_after_connect(outcome: Result<(), String>) -> ConnectionStatus {
    match outcome {
        Ok(()) => ConnectionStatus::Connected,
        Err(m) => ConnectionStatus::Error(m),
    }
}

/// The status that an attempt to disconnect leaves behind.
pub open spec fn status_after_disconnect(outcome: Result<(), String>) -> ConnectionStatus {
    match outcome {
        Ok(()) => ConnectionStatus::Disconnected,
        Err(m) => ConnectionStatus::Error(m),
    }
}

fn copy_outcome(outcome: &Result<(), String>) -> (r: Result<(), String>)
    ensures
        r == *outcome,
{
    match outcome {
        Ok(u) => Ok(*u),
        Err(m) => Err(m.clone()),
    }
}

impl<D> ActiveConnection<D> {
    /// Create a disconnected connection for `config`, identified by the
    /// configuration's identifier.
    pub fn new(config: ConnectionConfig, password: Option<String>, adapter: D) -> (c: Self)
        ensures
            c.id == config.id,
            c.config == config,
            c.adapter == adapter,
            c.status == ConnectionStatus::Disconnected,
            c.password == password,
    {
        let id = config.id.clone();
        ActiveConnection { id, config, adapter, status: ConnectionStatus::Disconnected, password }
    }

    /// Record the outcome of a connection attempt and hand it back.
    pub fn record_connect(&mut self, outcome: Result<(), String>) -> (r: Result<(), String>)
        ensures
            r == outcome,
            *final(self) == (ActiveConnection {
                status: status_after_connect(outcome),
                ..*old(self)
            }),
    {
        let r = copy_outcome(&outcome);
        self.status = match outcome {
            Ok(()) => ConnectionStatus::Connected,
            Err(m) => ConnectionStatus::Error(m),
        };
        r
    }

    /// Record the outcome of a disconnection attempt and hand it back.
    pub fn record_disconnect(&mut self, outcome: Result<(), String>) -> (r: Result<(), String>)
        ensures
            r == outcome,
            *final(self) == (ActiveConnection {
                status: status_after_disconnect(outcome),
                ..*old(self)
            }),
    {
        let r = copy_outcome(&outcome);
        self.status = match outcome {
            Ok(()) => ConnectionStatus::Disconnected,
            Err(m) => ConnectionStatus::Error(m),
        };
        r
    }

    /// Whether the connection counts as connected, given whether its driver
    /// reports a live connection: both must agree.
    pub fn connected_given(&self, adapter_connected: bool) -> (b: bool)
        ensures
            b == (adapter_connected && self.status == ConnectionStatus::Connected),
    {
        adapter_connected && match self.status {
            ConnectionStatus::Connected => true,
            _ => false,
        }
    }
}

/// No key occurs twice.
pub open spec fn keys_unique<D>(s: Seq<(String, ActiveConnection<D>)>) -> bool {
    forall|i: int, j: int| 0 <= i < j < s.len() ==> #[trigger] s[i].0@ != #[trigger] s[j].0@
}

/// Some entry is keyed `id`.
pub open spec fn has_key<D>(s: Seq<(String, ActiveConnection<D>)>, id: Seq<char>) -> bool {
    exists|i: int| 0 <= i < s.len() && #[trigger] s[i].0@ == id
}

/// The position of the entry keyed `id` (meaningful when `has_key`).
pub open spec fn key_pos<D>(s: Seq<(String, ActiveConnection<D>)>, id: Seq<char>) -> int {
    choose|i: int| 0 <= i < s.len() && #[trigger] s[i].0@ == id
}

proof fn lemma_key_pos<D>(s: Seq<(String, ActiveConnection<D>)>, id: Seq<char>, p: int)
    requires
        keys_unique(s),
        0 <= p < s.len(),
        s[p].0@ == id,
    ensures
        key_pos(s, id) == p,
        has_key(s, id),
{
    assert(s[p].0@ == id);
    let q = key_pos(s, id);
    if q != p {
        if q < p {
            assert(s[q].0@ != s[p].0@);
        } else {
            assert(s[p].0@ != s[q].0@);
        }
    }
}

/// Manager for all active database connections, keyed by identifier, with an
/// optional selection.
pub struct ConnectionManager<D> {
    connections: Vec<(String, ActiveConnection<D>)>,
    selected_id: Option<String>,
}

impl<D> ConnectionManager<D> {
    /// The connections with their keys, in the order they were added.
    pub closed spec fn entries(&self) -> Seq<(String, ActiveConnection<D>)> {
        self.connections@
    }

    /// The selected identifier.
    pub closed spec fn selection(&self) -> Option<String> {
        self.selected_id
    }

    /// The manager's invariant: one connection per key.
    pub open spec fn wf(&self) -> bool {
        keys_unique(self.entries())
    }

    /// `new` is `old` with `connection` kept under its identifier: in place
    /// of a connection kept under the same identifier, or at the end.
    pub open spec fn added(old: Self, new: Self, connection: ActiveConnection<D>) -> bool {
        let id = connection.id@;
        &&& new.selection() == old.selection()
        &&& has_key(old.entries(), id) ==> {
            &&& new.entries().len() == old.entries().len()
            &&& new.entries()[key_pos(old.entries(), id)].1 == connection
            &&& forall|i: int|
                0 <= i < old.entries().len() ==> #[trigger] new.entries()[i].0@ == old.entries()[i].0@
                    && (i != key_pos(old.entries(), id) ==> new.entries()[i] == old.entries()[i])
        }
        &&& !has_key(old.entries(), id) ==> {
            &&& new.entries().len() == old.entries().len() + 1
            &&& new.entries().drop_last() == old.entries()
            &&& new.entries().last().0@ == id
            &&& new.entries().last().1 == connection
        }
    }

    /// Create an empty manager with nothing selected.
    pub fn new() -> (m: Self)
        ensures
            m.wf(),
            m.entries().len() == 0,
            m.selection() is None,
    {
        ConnectionManager { connections: Vec::new(), selected_id: None }
    }

    fn position(&self, id: &str) -> (p: Option<usize>)
        requires
            self.wf(),
        ensures
            p is None <==> !has_key(self.entries(), id@),
            p matches Some(i) ==> i < self.entries().len() && i == key_pos(self.entries(), id@)
                && self.entries()[i as int].0@ == id@,
    {
        let mut i: usize = 0;
        while i < self.connections.len()
            invariant
                i <= self.connections.len(),
                keys_unique(self.connections@),
                forall|k: int| 0 <= k < i ==> #[trigger] self.connections@[k].0@ != id@,
            decreases self.connections.len() - i,
        {
            if str_eq(self.connections[i].0.as_str(), id) {
                proof {
                    lemma_key_pos(self.connections@, id@, i as int);
                }
                return Some(i);
            }
            i = i + 1;
        }
        None
    }

    /// Add a connection under its identifier, replacing one already kept
    /// under that identifier.
    pub fn add_connection(&mut self, connection: ActiveConnection<D>)
        requires
            old(self).wf(),
        ensures
            final(self).wf(),
            Self::added(*old(self), *final(self), connection),
    {
        let key = connection.id.clone();
        match self.position(key.as_str()) {
            Some(p) => {
                self.connections.set(p, (key, connection));
                proof {
                    assert forall|i: int, j: int|
                        0 <= i < j < self.connections@.len() implies #[trigger] self.connections@[i].0@
                        != #[trigger] self.connections@[j].0@ by {
                        assert(old(self).connections@[i].0@ != old(self).connections@[j].0@);
                    }
                }
            },
            None => {
                self.connections.push((key, connection));
                proof {
                    assert(self.connections@.drop_last() =~= old(self).connections@);
                    assert forall|i: int, j: int|
                        0 <= i < j < self.connections@.len() implies #[trigger] self.connections@[i].0@
                        != #[trigger] self.connections@[j].0@ by {
                        if j < old(self).connections@.len() {
                            assert(old(self).connections@[i].0@ != old(self).connections@[j].0@);
                        } else {
                            assert(old(self).connections@[i] == self.connections@[i]);
                        }
                    }
                }
            },
        }
    }

    /// Remove the connection kept under `id`, returning it; if it was
    /// selected, the selection is cleared.
    pub fn remove_connection(&mut self, id: &str) -> (r: Option<ActiveConnection<D>>)
        requires
            old(self).wf(),
        ensures
            final(self).wf(),
            final(self).selection() == if old(self).selection() matches Some(s) && s@ == id@ {
                None
            } else {
                old(self).selection()
            },
            !has_key(old(self).entries(), id@) ==> r is None && final(self).entries() == old(
                self,
            ).entries(),
            has_key(old(self).entries(), id@) ==> {
                let p = key_pos(old(self).entries(), id@);
                &&& r == Some(old(self).entries()[p].1)
                &&& final(self).entries() == old(self).entries().remove(p)
            },
    {
        let clear = match &self.selected_id {
            Some(s) => str_eq(s.as_str(), id),
            None => false,
        };
        if clear {
            self.selected_id = None;
        }
        match self.position(id) {
            Some(p) => {
                let (_, c) = self.connections.remove(p);
                proof {
                    assert forall|i: int, j: int|
                        0 <= i < j < self.connections@.len() implies #[trigger] self.connections@[i].0@
                        != #[trigger] self.connections@[j].0@ by {
                        assert(old(self).connections@[i].0@ != old(self).connections@[j + 1].0@);
                        assert(old(self).connections@[i + 1].0@ != old(self).connections@[j + 1].0@);
                        assert(old(self).connections@[i].0@ != old(self).connections@[j].0@);
                    }
                }
                Some(c)
            },
            None => None,
        }
    }

    /// Get the connection kept under `id`.
    pub fn get_connection(&self, id: &str) -> (r: Option<&ActiveConnection<D>>)
        requires
            self.wf(),
        ensures
            r is None <==> !has_key(self.entries(), id@),
            r matches Some(c) ==> *c == self.entries()[key_pos(self.entries(), id@)].1,
    {
        match self.position(id) {
            Some(p) => Some(&self.connections[p].1),
            None => None,
        }
    }

    /// Get the connection kept under `id` for modification.
    pub fn get_connection_mut(&mut self, id: &str) -> (r: Option<&mut ActiveConnection<D>>)
        requires
            old(self).wf(),
        ensures
            final(self).selection() == old(self).selection(),
            !has_key(old(self).entries(), id@) ==> r is None && final(self).entries() == old(
                self,
            ).entries(),
            has_key(old(self).entries(), id@) ==> {
                let p = key_pos(old(self).entries(), id@);
                r matches Some(c) && {
                    &&& *c == old(self).entries()[p].1
                    &&& final(self).entries() == old(self).entries().update(
                        p,
                        (old(self).entries()[p].0, *final(c)),
                    )
                }
            },
    {
        match self.position(id) {
            Some(p) => Some(&mut self.connections[p].1),
            None => None,
        }
    }

    /// The identifiers of all connections, in the order they were added.
    pub fn connection_ids(&self) -> (ids: Vec<String>)
        ensures
            ids@.len() == self.entries().len(),
            forall|i: int| 0 <= i < ids@.len() ==> #[trigger] ids@[i] == self.entries()[i].0,
    {
        let mut ids: Vec<String> = Vec::new();
        let mut i: usize = 0;
        while i < self.connections.len()
            invariant
                i <= self.connections.len(),
                ids@.len() == i,
                forall|k: int| 0 <= k < i ==> #[trigger] ids@[k] == self.connections@[k].0,
            decreases self.connections.len() - i,
        {
            ids.push(self.connections[i].0.clone());
            i = i + 1;
        }
        ids
    }

    /// The selected identifier.
    pub fn selected_id(&self) -> (s: Option<&str>)
        ensures
            s is None <==> self.selection() is None,
            s matches Some(t) ==> t@ == self.selection().unwrap()@,
    {
        match &self.selected_id {
            Some(s) => Some(s.as_str()),
            None => None,
        }
    }

    /// Select a connection by identifier, or clear the selection.
    pub fn set_selected(&mut self, id: Option<String>)
        ensures
            final(self).selection() == id,
            final(self).entries() == old(self).entries(),
    {
        self.selected_id = id;
    }

    /// The selected connection, when the selection names a kept connection.
    pub fn selected_connection(&self) -> (r: Option<&ActiveConnection<D>>)
        requires
            self.wf(),
        ensures
            match self.selection() {
                None => r is None,
                Some(s) => if has_key(self.entries(), s@) {
                    r == Some(&self.entries()[key_pos(self.entries(), s@)].1)
                } else {
                    r is None
                },
            },
    {
        match &self.selected_id {
            Some(s) => self.get_connection(s.as_str()),
            None => None,
        }
    }

    /// The selected connection for modification.
    pub fn selected_connection_mut(&mut self) -> (r: Option<&mut ActiveConnection<D>>)
        requires
            old(self).wf(),
        ensures
            final(self).selection() == old(self).selection(),
            match old(self).selection() {
                None => r is None && final(self).entries() == old(self).entries(),
                Some(s) => if has_key(old(self).entries(), s@) {
                    let p = key_pos(old(self).entries(), s@);
                    r matches Some(c) && {
                        &&& *c == old(self).entries()[p].1
                        &&& final(self).entries() == old(self).entries().update(
                            p,
                            (old(self).entries()[p].0, *final(c)),
                        )
                    }
                } else {
                    r is None && final(self).entries() == old(self).entries()
                },
            },
    {
        let p = match &self.selected_id {
            Some(s) => self.position(s.as_str()),
            None => None,
        };
        match p {
            Some(i) => Some(&mut self.connections[i].1),
            None => None,
        }
    }

    /// Record the outcomes of disconnecting every kept connection, given in
    /// the order the connections are kept; returns each identifier with its
    /// outcome.
    pub fn record_disconnect_all(&mut self, outcomes: &Vec<Result<(), String>>) -> (r: Vec<
        (String, Result<(), String>),
    >)
        requires
            old(self).wf(),
            outcomes@.len() == old(self).entries().len(),
        ensures
            final(self).wf(),
            final(self).selection() == old(self).selection(),
            final(self).entries().len() == old(self).entries().len(),
            forall|i: int|
                0 <= i < old(self).entries().len() ==> #[trigger] final(self).entries()[i] == (
                old(self).entries()[i].0,
                ActiveConnection {
                    status: status_after_disconnect(outcomes@[i]),
                    ..old(self).entries()[i].1
                },
            ),
            r@.len() == old(self).entries().len(),
            forall|i: int|
                0 <= i < r@.len() ==> (#[trigger] r@[i]).0@ == old(self).entries()[i].0@ && r@[i].1
                    == outcomes@[i],
    {
        let mut r: Vec<(String, Result<(), String>)> = Vec::new();
        let mut i: usize = 0;
        while i < self.connections.len()
            invariant
                i <= self.connections@.len(),
                self.connections@.len() == old(self).connections@.len(),
                outcomes@.len() == old(self).connections@.len(),
                self.selected_id == old(self).selected_id,
                forall|k: int|
                    0 <= k < i ==> #[trigger] self.connections@[k] == (
                        old(self).connections@[k].0,
                        ActiveConnection {
                            status: status_after_disconnect(outcomes@[k]),
                            ..old(self).connections@[k].1
                        },
                    ),
                forall|k: int|
                    i <= k < self.connections@.len() ==> #[trigger] self.connections@[k]
                        == old(self).connections@[k],
                r@.len() == i,
                forall|k: int|
                    0 <= k < i ==> (#[trigger] r@[k]).0@ == old(self).connections@[k].0@ && r@[k].1
                        == outcomes@[k],
            decreases self.connections@.len() - i,
        {
            let (key, mut c) = self.connections.remove(i);
            let outcome = copy_outcome(&outcomes[i]);
            let result = c.record_disconnect(outcome);
            r.push((key.clone(), result));
            self.connections.insert(i, (key, c));
            i = i + 1;
        }
        proof {
            assert forall|a: int, b: int|
                0 <= a < b < self.connections@.len() implies #[trigger] self.connections@[a].0@
                != #[trigger] self.connections@[b].0@ by {
                assert(old(self).connections@[a].0@ != old(self).connections@[b].0@);
            }
        }
        r
    }

    /// The number of connections kept.
    pub fn connection_count(&self) -> (n: usize)
        ensures
            n == self.entries().len(),
    {
        self.connections.len()
    }
}

impl<D> Default for ConnectionManager<D> {
    fn default() -> (m: Self)
        ensures
            m.wf(),
            m.entries().len() == 0,
            m.selection() is None,
    {
        Self::new()
    }
}

/// A connection just added is the one found under its identifier, and
/// removing a connection added under a new identifier gives back the
/// connections kept before.
pub proof fn law_add_then_find<D>(
    m0: ConnectionManager<D>,
    m1: ConnectionManager<D>,
    connection: ActiveConnection<D>,
)
    requires
        m0.wf(),
        m1.wf(),
        ConnectionManager::added(m0, m1, connection),
    ensures
        has_key(m1.entries(), connection.id@),
        m1.entries()[key_pos(m1.entries(), connection.id@)].1 == connection,
        !has_key(m0.entries(), connection.id@) ==> key_pos(m1.entries(), connection.id@)
            == m0.entries().len() && m1.entries().remove(m0.entries().len() as int)
            == m0.entries(),
{
    let id = connection.id@;
    if has_key(m0.entries(), id) {
        let p = key_pos(m0.entries(), id);
        lemma_key_pos(m0.entries(), id, p);
        lemma_key_pos(m1.entries(), id, p);
    } else {
        let n = m0.entries().len() as int;
        assert(m1.entries()[n] == m1.entries().last());
        lemma_key_pos(m1.entries(), id, n);
        assert(m1.entries().remove(n) =~= m0.entries());
    }
}

} // verus!
