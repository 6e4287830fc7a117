//! Turning running containers into saved connections.

use crate::container::{container_name_prefix, ContainerInfo, ContainerStatus};
use crate::database::{spec_default_port, ConnectionConfig, ConnectionView, DatabaseType};
use crate::text::{has_prefix, starts_with_str, str_eq, strip_prefix};
use vstd::prelude::*;
use vstd::string::*;

verus! {

/// Credentials of the local development containers.
struct ContainerCredentials {
    username: &'static str,
    password: &'static str,
    database: &'static str,
}

/// The user name a development container of each kind accepts.
pub open spec fn container_username(t: DatabaseType) -> Seq<char> {
    match t {
        DatabaseType::SQLServer => "sa"@,
        DatabaseType::SQLite => ""@,
        _ => "test_user"@,
    }
}

/// The database a development container of each kind serves.
pub open spec fn container_database(t: DatabaseType) -> Seq<char> {
    match t {
        DatabaseType::SQLServer => "master"@,
        DatabaseType::Oracle => "XE"@,
        DatabaseType::SQLite => "memory.db"@,
        _ => "test_db"@,
    }
}

/// The password a development container of each kind accepts.
pub open spec fn container_password(t: DatabaseType) -> Seq<char> {
    match t {
        DatabaseType::SQLServer => "TestPassword123!"@,
        DatabaseType::SQLite => ""@,
        _ => "test_password"@,
    }
}

impl ContainerCredentials {
    /// Get credentials for a specific container database type.
    fn for_database(db_type: DatabaseType) -> (c: Self)
        ensures
            c.username@ == container_username(db_type),
            c.password@ == container_password(db_type),
            c.database@ == container_database(db_type),
    {
        match db_type {
            DatabaseType::Postgres => ContainerCredentials {
                username: "test_user",
                password: "test_password",
                database: "test_db",
            },
            DatabaseType::MySQL => ContainerCredentials {
                username: "test_user",
                password: "test_password",
                database: "test_db",
            },
            DatabaseType::MongoDB => ContainerCredentials {
                username: "test_user",
                password: "test_password",
                database: "test_db",
            },
            DatabaseType::SQLServer => ContainerCredentials {
                username: "sa",
                password: "TestPassword123!",
                database: "master",
            },
            DatabaseType::Oracle => ContainerCredentials {
                username: "test_user",
                password: "test_password",
                database: "XE",
            },
            DatabaseType::SQLite => ContainerCredentials {
                username: "",
                password: "",
                database: "memory.db",
            },
        }
    }
}

/// The database kind a container's type name stands for.
pub open spec fn db_type_of_text(s: Seq<char>) -> Option<DatabaseType> {
    if s == "postgres"@ {
        Some(DatabaseType::Postgres)
    } else if s == "mysql"@ {
        Some(DatabaseType::MySQL)
    } else if s == "mongodb"@ {
        Some(DatabaseType::MongoDB)
    } else if s == "mssql"@ {
        Some(DatabaseType::SQLServer)
    } else if s == "oracle"@ {
        Some(DatabaseType::Oracle)
    } else if s == "sqlite"@ {
        Some(DatabaseType::SQLite)
    } else {
        None
    }
}

/// Convert a container database type name to a database kind.
pub fn container_db_type_to_enum(db_type: &str) -> (t: Option<DatabaseType>)
    ensures
        t == db_type_of_text(db_type@),
{
    if str_eq(db_type, "postgres") {
        Some(DatabaseType::Postgres)
    } else if str_eq(db_type, "mysql") {
        Some(DatabaseType::MySQL)
    } else if str_eq(db_type, "mongodb") {
        Some(DatabaseType::MongoDB)
    } else if str_eq(db_type, "mssql") {
        Some(DatabaseType::SQLServer)
    } else if str_eq(db_type, "oracle") {
        Some(DatabaseType::Oracle)
    } else if str_eq(db_type, "sqlite") {
        Some(DatabaseType::SQLite)
    } else {
        None
    }
}

/// How a kind of database is named in connection names.
pub open spec fn product_name(t: DatabaseType) -> Seq<char> {
    match t {
        DatabaseType::Postgres => "PostgreSQL"@,
        DatabaseType::MySQL => "MySQL"@,
        DatabaseType::MongoDB => "MongoDB"@,
        DatabaseType::SQLServer => "SQL Server"@,
        DatabaseType::Oracle => "Oracle"@,
        DatabaseType::SQLite => "SQLite"@,
    }
}

/// The prefix of the identifiers of connections to local containers.
pub open spec fn local_prefix() -> Seq<char> {
    "local-"@
}

/// The connection to a development container whose type name is `text` and
/// whose kind is `t`: on localhost at the kind's default port, with the
/// container's credentials and without SSL.
pub open spec fn local_connection(text: Seq<char>, t: DatabaseType) -> ConnectionView {
    ConnectionView {
        id: local_prefix() + text,
        name: "Local "@ + product_name(t) + " (Container)"@,
        db_type: t,
        host: Some("localhost"@),
        port: spec_default_port(t),
        database: container_database(t),
        username: Some(container_username(t)),
        use_ssl: false,
    }
}

/// The connection that a container stands for, when its name has the
/// development prefix followed by a known type name.
pub open spec fn container_connection(c: ContainerInfo) -> Option<ConnectionView> {
    match strip_prefix(c.name@, container_name_prefix()) {
        Some(text) => match db_type_of_text(text) {
            Some(t) => Some(local_connection(text, t)),
            None => None,
        },
        None => None,
    }
}

fn product_label(t: DatabaseType) -> (s: &'static str)
    ensures
        s@ == product_name(t),
{
    match t {
        DatabaseType::Postgres => "PostgreSQL",
        DatabaseType::MySQL => "MySQL",
        DatabaseType::MongoDB => "MongoDB",
        DatabaseType::SQLServer => "SQL Server",
        DatabaseType::Oracle => "Oracle",
        DatabaseType::SQLite => "SQLite",
    }
}

/// Convert a container into the connection that reaches it, when the
/// container's name names a known database kind.
pub fn container_to_connection(container: &ContainerInfo) -> (r: Option<ConnectionConfig>)
    ensures
        r is None <==> container_connection(*container) is None,
        r matches Some(c) ==> container_connection(*container) == Some(c@),
{
    let db_type_str = match container.database_type() {
        Some(s) => s,
        None => return None,
    };
    let db_type = match container_db_type_to_enum(db_type_str) {
        Some(t) => t,
        None => return None,
    };
    let credentials = ContainerCredentials::for_database(db_type);
    let connection_id = "local-".to_string().concat(db_type_str);
    let connection_name = "Local ".to_string().concat(product_label(db_type)).concat(
        " (Container)",
    );
    let c = ConnectionConfig {
        id: connection_id,
        name: connection_name,
        db_type,
        host: Some("localhost".to_string()),
        port: db_type.default_port(),
        database: credentials.database.to_string(),
        username: Some(credentials.username.to_string()),
        use_ssl: false,
    };
    assert(c@ == local_connection(db_type_str@, db_type));
    Some(c)
}

/// The connection is one to a local container, by its identifier's prefix.
pub open spec fn is_local(c: ConnectionView) -> bool {
    has_prefix(c.id, local_prefix())
}

/// The connections that are not local, in order.
pub open spec fn non_local(s: Seq<ConnectionView>) -> Seq<ConnectionView>
    decreases s.len(),
{
    if s.len() == 0 {
        Seq::empty()
    } else {
        let r = non_local(s.drop_last());
        if is_local(s.last()) {
            r
        } else {
            r.push(s.last())
        }
    }
}

/// Some connection carries the identifier `id`.
pub open spec fn has_conn_id(s: Seq<ConnectionView>, id: Seq<char>) -> bool {
    exists|i: int| 0 <= i < s.len() && #[trigger] s[i].id == id
}

/// `acc` with the connection of container `c` added, unless `c` stands for
/// none or a connection with its identifier is already there.
pub open spec fn add_container(acc: Seq<ConnectionView>, c: ContainerInfo) -> Seq<ConnectionView> {
    match container_connection(c) {
        Some(v) => if has_conn_id(acc, v.id) {
            acc
        } else {
            acc.push(v)
        },
        None => acc,
    }
}

/// `acc` with the connections of the containers `cs` added in order.
pub open spec fn add_containers(acc: Seq<ConnectionView>, cs: Seq<ContainerInfo>) -> Seq<
    ConnectionView,
>
    decreases cs.len(),
{
    if cs.len() == 0 {
        acc
    } else {
        add_containers(add_container(acc, cs[0]), cs.drop_first())
    }
}

/// The saved connections after syncing with the running containers `cs`:
/// the non-local connections of `existing`, in order, followed by one
/// connection per recognized container whose identifier is not yet present.
pub open spec fn synced(cs: Seq<ContainerInfo>, existing: Seq<ConnectionView>) -> Seq<
    ConnectionView,
> {
    add_containers(non_local(existing), cs)
}

/// The views of a list of connections.
pub open spec fn conn_views(s: Seq<ConnectionConfig>) -> Seq<ConnectionView> {
    s.map_values(|c: ConnectionConfig| c@)
}

fn contains_id(s: &Vec<ConnectionConfig>, id: &String) -> (b: bool)
    ensures
        b == has_conn_id(conn_views(s@), id@),
{
    let mut j: usize = 0;
    while j < s.len()
        invariant
            j <= s.len(),
            forall|k: int| 0 <= k < j ==> #[trigger] s@[k].id@ != id@,
        decreases s.len() - j,
    {
        if s[j].id == *id {
            assert(conn_views(s@)[j as int].id == id@);
            return true;
        }
        j = j + 1;
    }
    assert forall|k: int| 0 <= k < conn_views(s@).len() implies #[trigger] conn_views(s@)[k].id
        != id@ by {
        assert(s@[k].id@ != id@);
    }
    false
}

/// Sync connections with running containers: keep the connections that are
/// not local, drop the local ones, and add one connection per recognized
/// container whose identifier is not already kept.
pub fn sync_connections_with_containers(
    containers: &[ContainerInfo],
    existing_connections: &[ConnectionConfig],
) -> (r: Vec<ConnectionConfig>)
    ensures
        conn_views(r@) == synced(containers@, conn_views(existing_connections@)),
{
    let ghost ev = conn_views(existing_connections@);
    let mut out: Vec<ConnectionConfig> = Vec::new();
    let mut i: usize = 0;
    while i < existing_connections.len()
        invariant
            i <= existing_connections.len(),
            ev == conn_views(existing_connections@),
            conn_views(out@) == non_local(ev.take(i as int)),
        decreases existing_connections.len() - i,
    {
        let conn = &existing_connections[i];
        proof {
            assert(ev.take(i + 1).drop_last() =~= ev.take(i as int));
            assert(ev.take(i + 1).last() == conn@);
        }
        if !starts_with_str(conn.id.as_str(), "local-") {
            let ghost before = out@;
            out.push(conn.clone());
            assert(conn_views(out@) =~= conn_views(before).push(conn@));
        }
        i = i + 1;
    }
    assert(ev.take(ev.len() as int) =~= ev);
    let ghost cs = containers@;
    let mut i: usize = 0;
    assert(cs.skip(0) =~= cs);
    while i < containers.len()
        invariant
            i <= containers.len(),
            cs == containers@,
            synced(cs, ev) == add_containers(conn_views(out@), cs.skip(i as int)),
        decreases containers.len() - i,
    {
        proof {
            assert(cs.skip(i as int)[0] == cs[i as int]);
            assert(cs.skip(i as int).drop_first() =~= cs.skip(i + 1));
        }
        match container_to_connection(&containers[i]) {
            Some(connection) => {
                if !contains_id(&out, &connection.id) {
                    let ghost before = out@;
                    out.push(connection);
                    assert(conn_views(out@) =~= conn_views(before).push(connection@));
                }
            },
            None => {},
        }
        i = i + 1;
    }
    assert(cs.skip(cs.len() as int) =~= Seq::<ContainerInfo>::empty());
    out
}

/// The running containers of a listing, in order.
pub open spec fn running_containers(cs: Seq<ContainerInfo>) -> Seq<ContainerInfo> {
    cs.filter(|c: ContainerInfo| c.status == ContainerStatus::Running)
}

/// The running containers of a listing, in order.
pub fn filter_running(listed: &[ContainerInfo]) -> (r: Vec<ContainerInfo>)
    ensures
        r@ == running_containers(listed@),
{
    let mut r: Vec<ContainerInfo> = Vec::new();
    let mut i: usize = 0;
    while i < listed.len()
        invariant
            i <= listed.len(),
            r@ == running_containers(listed@.take(i as int)),
        decreases listed.len() - i,
    {
        proof {
            assert(listed@.take(i + 1).drop_last() =~= listed@.take(i as int));
            reveal(Seq::filter);
        }
        if listed[i].is_running() {
            r.push(listed[i].clone());
        }
        i = i + 1;
    }
    assert(listed@.take(listed@.len() as int) =~= listed@);
    r
}

/// Sync the known connections with a container listing: the running
/// containers of the listing take part, the others do not.
pub fn sync_with_listing(listed: &[ContainerInfo], existing: &[ConnectionConfig]) -> (r: Vec<
    ConnectionConfig,
>)
    ensures
        conn_views(r@) == synced(running_containers(listed@), conn_views(existing@)),
{
    let running = filter_running(listed);
    sync_connections_with_containers(running.as_slice(), existing)
}

/// Adding containers keeps what was there and adds only local connections,
/// each standing for one of the containers.
pub proof fn lemma_add_containers_extends(acc: Seq<ConnectionView>, cs: Seq<ContainerInfo>)
    ensures
        add_containers(acc, cs).len() >= acc.len(),
        add_containers(acc, cs).subrange(0, acc.len() as int) == acc,
        forall|k: int|
            acc.len() <= k < add_containers(acc, cs).len() ==> exists|i: int|
                0 <= i < cs.len() && container_connection(cs[i]) == Some(
                    #[trigger] add_containers(acc, cs)[k],
                ),
        forall|k: int|
            acc.len() <= k < add_containers(acc, cs).len() ==> is_local(
                #[trigger] add_containers(acc, cs)[k],
            ),
    decreases cs.len(),
{
    if cs.len() > 0 {
        let a1 = add_container(acc, cs[0]);
        lemma_add_containers_extends(a1, cs.drop_first());
        let r = add_containers(acc, cs);
        assert(r == add_containers(a1, cs.drop_first()));
        assert(r.subrange(0, a1.len() as int) == a1);
        assert(a1.subrange(0, acc.len() as int) =~= acc);
        assert(r.subrange(0, acc.len() as int) =~= acc) by {
            assert forall|k: int| 0 <= k < acc.len() implies r[k] == acc[k] by {
                assert(r.subrange(0, a1.len() as int)[k] == a1[k]);
                assert(a1.subrange(0, acc.len() as int)[k] == acc[k]);
            }
        }
        assert forall|k: int| acc.len() <= k < r.len() implies (exists|i: int|
            0 <= i < cs.len() && container_connection(cs[i]) == Some(#[trigger] r[k]))
            && is_local(r[k]) by {
            if k < a1.len() {
                assert(r.subrange(0, a1.len() as int)[k] == a1[k]);
                assert(a1.len() == acc.len() + 1);
                let v = container_connection(cs[0]).unwrap();
                assert(a1[k] == v);
                assert(container_connection(cs[0]) == Some(r[k]));
                let text = strip_prefix(cs[0].name@, container_name_prefix()).unwrap();
                let t = db_type_of_text(text).unwrap();
                assert(v.id.subrange(0, local_prefix().len() as int) =~= local_prefix());
            } else {
                let i = choose|i: int|
                    0 <= i < cs.drop_first().len() && container_connection(
                        cs.drop_first()[i],
                    ) == Some(#[trigger] r[k]);
                assert(cs.drop_first()[i] == cs[i + 1]);
            }
        }
    }
}

/// Dropping local connections from a list followed by local connections
/// gives what dropping them from the list alone gives.
pub proof fn lemma_non_local_append_local(a: Seq<ConnectionView>, b: Seq<ConnectionView>)
    requires
        forall|k: int| 0 <= k < b.len() ==> is_local(#[trigger] b[k]),
    ensures
        non_local(a + b) == non_local(a),
    decreases b.len(),
{
    if b.len() > 0 {
        assert((a + b).drop_last() =~= a + b.drop_last());
        assert((a + b).last() == b[b.len() - 1]);
        lemma_non_local_append_local(a, b.drop_last());
    } else {
        assert(a + b =~= a);
    }
}

/// Dropping local connections twice is dropping them once.
pub proof fn lemma_non_local_idempotent(s: Seq<ConnectionView>)
    ensures
        non_local(non_local(s)) == non_local(s),
    decreases s.len(),
{
    if s.len() > 0 {
        lemma_non_local_idempotent(s.drop_last());
        let r = non_local(s.drop_last());
        if !is_local(s.last()) {
            assert(r.push(s.last()).drop_last() =~= r);
        }
    }
}

/// Syncing is idempotent: syncing again with the same running containers
/// changes nothing.
pub proof fn law_sync_idempotent(cs: Seq<ContainerInfo>, existing: Seq<ConnectionView>)
    ensures
        synced(cs, synced(cs, existing)) == synced(cs, existing),
{
    let acc = non_local(existing);
    let r = synced(cs, existing);
    lemma_add_containers_extends(acc, cs);
    let extra = r.subrange(acc.len() as int, r.len() as int);
    assert(r =~= acc + extra);
    assert forall|k: int| 0 <= k < extra.len() implies is_local(#[trigger] extra[k]) by {
        assert(extra[k] == r[acc.len() + k]);
    }
    lemma_non_local_append_local(acc, extra);
    lemma_non_local_idempotent(existing);
}

/// Syncing keeps every connection that is not local, in order, at the front.
pub proof fn law_sync_preserves_non_local(cs: Seq<ContainerInfo>, existing: Seq<ConnectionView>)
    ensures
        synced(cs, existing).len() >= non_local(existing).len(),
        synced(cs, existing).subrange(0, non_local(existing).len() as int) == non_local(existing),
{
    lemma_add_containers_extends(non_local(existing), cs);
}

/// After syncing, every local connection stands for one of the running
/// containers: those of stopped containers are gone.
pub proof fn law_sync_local_from_containers(
    cs: Seq<ContainerInfo>,
    existing: Seq<ConnectionView>,
    k: int,
)
    requires
        0 <= k < synced(cs, existing).len(),
        is_local(synced(cs, existing)[k]),
    ensures
        exists|i: int|
            0 <= i < cs.len() && container_connection(cs[i]) == Some(synced(cs, existing)[k]),
{
    lemma_add_containers_extends(non_local(existing), cs);
    lemma_non_local_all(existing);
    if k < non_local(existing).len() {
        assert(synced(cs, existing).subrange(0, non_local(existing).len() as int)[k]
            == non_local(existing)[k]);
    }
}

/// No connection left by dropping local ones is local.
pub proof fn lemma_non_local_all(s: Seq<ConnectionView>)
    ensures
        forall|k: int| 0 <= k < non_local(s).len() ==> !is_local(#[trigger] non_local(s)[k]),
    decreases s.len(),
{
    if s.len() > 0 {
        lemma_non_local_all(s.drop_last());
        let r = non_local(s.drop_last());
        assert forall|k: int| 0 <= k < non_local(s).len() implies !is_local(
            #[trigger] non_local(s)[k],
        ) by {
            if k < r.len() {
                assert(non_local(s)[k] == r[k]);
            }
        }
    }
}

/// Adding containers never loses an identifier.
proof fn lemma_add_containers_keeps_ids(acc: Seq<ConnectionView>, cs: Seq<ContainerInfo>, id: Seq<char>)
    requires
        has_conn_id(acc, id),
    ensures
        has_conn_id(add_containers(acc, cs), id),
{
    lemma_add_containers_extends(acc, cs);
    let i = choose|i: int| 0 <= i < acc.len() && #[trigger] acc[i].id == id;
    assert(add_containers(acc, cs).subrange(0, acc.len() as int)[i] == acc[i]);
    assert(add_containers(acc, cs)[i].id == id);
}

/// Adding containers gives every recognized container a connection with its
/// identifier.
proof fn lemma_add_containers_covers(acc: Seq<ConnectionView>, cs: Seq<ContainerInfo>, j: int)
    requires
        0 <= j < cs.len(),
        container_connection(cs[j]) is Some,
    ensures
        has_conn_id(add_containers(acc, cs), container_connection(cs[j]).unwrap().id),
    decreases cs.len(),
{
    let a1 = add_container(acc, cs[0]);
    if j == 0 {
        let v = container_connection(cs[0]).unwrap();
        if !has_conn_id(acc, v.id) {
            assert(a1[acc.len() as int].id == v.id);
        }
        lemma_add_containers_keeps_ids(a1, cs.drop_first(), v.id);
    } else {
        assert(cs.drop_first()[j - 1] == cs[j]);
        lemma_add_containers_covers(a1, cs.drop_first(), j - 1);
    }
}

/// After syncing, every running container that names a known database kind
/// has a connection with its identifier.
pub proof fn law_sync_covers_containers(cs: Seq<ContainerInfo>, existing: Seq<ConnectionView>, j: int)
    requires
        0 <= j < cs.len(),
        container_connection(cs[j]) is Some,
    ensures
        has_conn_id(synced(cs, existing), container_connection(cs[j]).unwrap().id),
{
    lemma_add_containers_covers(non_local(existing), cs, j);
}

/// Adding containers only appends identifiers not present before them.
proof fn lemma_add_containers_fresh(acc: Seq<ConnectionView>, cs: Seq<ContainerInfo>)
    ensures
        forall|i: int, j: int|
            0 <= i < j < add_containers(acc, cs).len() && acc.len() <= j ==> #[trigger] add_containers(
                acc,
                cs,
            )[i].id != #[trigger] add_containers(acc, cs)[j].id,
    decreases cs.len(),
{
    if cs.len() > 0 {
        let a1 = add_container(acc, cs[0]);
        let r = add_containers(acc, cs);
        lemma_add_containers_fresh(a1, cs.drop_first());
        lemma_add_containers_extends(a1, cs.drop_first());
        assert(r == add_containers(a1, cs.drop_first()));
        assert forall|i: int, j: int|
            0 <= i < j < r.len() && acc.len() <= j implies #[trigger] r[i].id != #[trigger] r[j].id by {
            if j >= a1.len() {
            } else {
                assert(a1.len() == acc.len() + 1 && j == acc.len());
                assert(r.subrange(0, a1.len() as int)[j] == a1[j]);
                assert(r.subrange(0, a1.len() as int)[i] == a1[i]);
                assert(a1[i] == acc[i]);
                let v = container_connection(cs[0]).unwrap();
                assert(a1[j] == v);
                assert(!has_conn_id(acc, v.id));
            }
        }
    }
}

/// Syncing never duplicates a connection: every connection it adds for a
/// container has an identifier that no other connection of the result has.
pub proof fn law_sync_no_duplicates(cs: Seq<ContainerInfo>, existing: Seq<ConnectionView>, i: int, j: int)
    requires
        0 <= i < synced(cs, existing).len(),
        0 <= j < synced(cs, existing).len(),
        i != j,
        is_local(synced(cs, existing)[j]),
    ensures
        synced(cs, existing)[i].id != synced(cs, existing)[j].id,
{
    let acc = non_local(existing);
    let r = synced(cs, existing);
    lemma_add_containers_fresh(acc, cs);
    lemma_add_containers_extends(acc, cs);
    lemma_non_local_all(existing);
    if j < acc.len() {
        assert(r.subrange(0, acc.len() as int)[j] == acc[j]);
    }
    if i < j {
        assert(r[i].id != r[j].id);
    } else {
        if i < acc.len() {
            assert(r.subrange(0, acc.len() as int)[i] == acc[i]);
        }
        assert(r[j].id != r[i].id);
    }
}

} // verus!
