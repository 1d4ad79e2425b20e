//! The clients that are connected to the event stream, for the health dashboard.
use crate::text::{found, hex_lower, hex_of, maybe};
use dashmap::DashMap;
use vstd::prelude::*;

verus! {

/// One connection.
#[derive(Debug, PartialEq, Eq)]
pub struct ConnectedClient {
    pub connection_id: String,
    pub environment_id: Option<String>,
    pub sdk_key_name: Option<String>,
    pub client_ip: String,
    pub connected_at: i64,
}

impl View for ConnectedClient {
    /// Connection, environment, name of the SDK key, address, time.
    type V = (Seq<char>, Option<Seq<char>>, Option<Seq<char>>, Seq<char>, i64);

    open spec fn view(&self) -> Self::V {
        (
            self.connection_id@,
            maybe(self.environment_id),
            maybe(self.sdk_key_name),
            self.client_ip@,
            self.connected_at,
        )
    }
}

/// Trusted: the type `dashmap::DashMap` is opaque; [`entries`] names what it holds.
#[verifier::external_type_specification]
#[verifier::external_body]
#[verifier::reject_recursive_types(K)]
#[verifier::reject_recursive_types(V)]
#[verifier::reject_recursive_types(S)]
pub struct ExDashMap<K, V, S>(dashmap::DashMap<K, V, S>);

/// The connections that a map holds, by connection id.
pub uninterp spec fn entries(clients: dashmap::DashMap<String, ConnectedClient>) -> Map<
    Seq<char>,
    (Seq<char>, Option<Seq<char>>, Option<Seq<char>>, Seq<char>, i64),
>;

/// The map without entries.
pub open spec fn no_entries() -> Map<
    Seq<char>,
    (Seq<char>, Option<Seq<char>>, Option<Seq<char>>, Seq<char>, i64),
> {
    Map::empty()
}

/// Trusted: `DashMap::new` gives a map without entries.
#[verifier::external_body]
fn dashmap_new() -> (clients: DashMap<String, ConnectedClient>)
    ensures
        entries(clients) == no_entries(),
{
    DashMap::new()
}

/// Trusted: `DashMap::insert`, with the map to itself. The entry replaces the one that was there
/// under the key, which is given back.
#[verifier::external_body]
fn dashmap_insert(
    clients: &mut DashMap<String, ConnectedClient>,
    key: String,
    client: ConnectedClient,
) -> (previous: Option<ConnectedClient>)
    ensures
        entries(*final(clients)) == entries(*old(clients)).insert(key@, client@),
        maybe(previous) == found(entries(*old(clients)), key@),
{
    clients.insert(key, client)
}

/// Trusted: `DashMap::remove`, with the map to itself. The entry under the key is taken out and
/// given back, where there is one.
#[verifier::external_body]
fn dashmap_remove(clients: &mut DashMap<String, ConnectedClient>, key: &str) -> (removed: Option<
    (String, ConnectedClient),
>)
    ensures
        entries(*final(clients)) == entries(*old(clients)).remove(key@),
        match removed {
            Some((k, client)) => k@ == key@ && found(entries(*old(clients)), key@) == Some(client@),
            None => found(entries(*old(clients)), key@) is None,
        },
{
    clients.remove(key)
}

/// Trusted: `rand::rng` and its `fill`. Nothing is stated of the bytes.
#[verifier::external_body]
fn random_bytes() -> (bytes: [u8; 8]) {
    let mut bytes = [0u8; 8];
    rand::RngExt::fill(&mut rand::rng(), &mut bytes);
    bytes
}

/// The connection id of eight bytes.
pub fn connection_id_of(bytes: &[u8; 8]) -> (id: String)
    ensures
        id@ == hex_of(bytes@),
{
    hex_lower(bytes)
}

/// A fresh connection id: eight random bytes in lower-case hexadecimal.
pub fn random_connection_id() -> (id: String)
    ensures
        exists|bytes: Seq<u8>| bytes.len() == 8 && id@ == #[trigger] hex_of(bytes),
        id@.len() == 16,
{
    let bytes: [u8; 8] = random_bytes();
    assert(bytes@.len() == 8);
    connection_id_of(&bytes)
}

/// The record of a connection that was made so many seconds after the epoch. The seconds are
/// kept in an `i64`, which they fit for the next 292 billion years.
pub fn connected_client(
    connection_id: String,
    environment_id: Option<String>,
    sdk_key_name: Option<String>,
    client_ip: String,
    unix_seconds: u64,
) -> (client: ConnectedClient)
    ensures
        client@ == (
            connection_id@,
            maybe(environment_id),
            maybe(sdk_key_name),
            client_ip@,
            unix_seconds as i64,
        ),
        unix_seconds <= i64::MAX ==> client.connected_at == unix_seconds,
{
    ConnectedClient {
        connection_id,
        environment_id,
        sdk_key_name,
        client_ip,
        connected_at: unix_seconds as i64,
    }
}

/// The connections that are open.
pub struct ClientRegistry {
    clients: DashMap<String, ConnectedClient>,
}

impl View for ClientRegistry {
    type V = Map<Seq<char>, (Seq<char>, Option<Seq<char>>, Option<Seq<char>>, Seq<char>, i64)>;

    closed spec fn view(&self) -> Self::V {
        entries(self.clients)
    }
}

impl ClientRegistry {
    /// A registry without connections.
    pub fn new() -> (registry: ClientRegistry)
        ensures
            registry@ == no_entries(),
    {
        ClientRegistry { clients: dashmap_new() }
    }

    /// Notes a connection under its id, and gives back the one that had the id before.
    pub fn register(&mut self, client: ConnectedClient) -> (previous: Option<ConnectedClient>)
        ensures
            final(self)@ == old(self)@.insert(client.connection_id@, client@),
            maybe(previous) == found(old(self)@, client.connection_id@),
    {
        let id: String = client.connection_id.clone();
        dashmap_insert(&mut self.clients, id, client)
    }

    /// Drops a connection, and gives it back where it was open.
    pub fn unregister(&mut self, connection_id: &str) -> (client: Option<ConnectedClient>)
        ensures
            final(self)@ == old(self)@.remove(connection_id@),
            maybe(client) == found(old(self)@, connection_id@),
    {
        match dashmap_remove(&mut self.clients, connection_id) {
            Some((_, client)) => Some(client),
            None => None,
        }
    }
}

/// One change of the registry: a connection begins, or one ends.
pub enum RegistryChange<T> {
    Connect { id: Seq<char>, client: T },
    Disconnect { id: Seq<char> },
}

/// The connection that a change is about.
pub open spec fn changed_id<T>(change: RegistryChange<T>) -> Seq<char> {
    match change {
        RegistryChange::Connect { id, .. } => id,
        RegistryChange::Disconnect { id } => id,
    }
}

/// The connections after some changes.
pub open spec fn open_after<T>(open: Map<Seq<char>, T>, changes: Seq<RegistryChange<T>>) -> Map<
    Seq<char>,
    T,
>
    decreases changes.len(),
{
    if changes.len() == 0 {
        open
    } else {
        let before = open_after(open, changes.drop_last());
        match changes.last() {
            RegistryChange::Connect { id, client } => before.insert(id, client),
            RegistryChange::Disconnect { id } => before.remove(id),
        }
    }
}

/// A connection is listed under its id, as it was noted, for as long as it is open, whatever other
/// connections begin and end in the meantime; and once it ends, the registry is as if it had never
/// been there, where its id was fresh.
pub proof fn law_disconnecting_undoes_connecting<T>(
    open: Map<Seq<char>, T>,
    id: Seq<char>,
    client: T,
    others: Seq<RegistryChange<T>>,
)
    requires
        !open.contains_key(id),
        forall|k: int| 0 <= k < others.len() ==> changed_id(#[trigger] others[k]) != id,
    ensures
        found(open_after(open.insert(id, client), others), id) == Some(client),
        open_after(open.insert(id, client), others).remove(id) == open_after(open, others),
        !open_after(open, others).contains_key(id),
    decreases others.len(),
{
    if others.len() == 0 {
        assert(open.insert(id, client).remove(id) =~= open);
    } else {
        let earlier = others.drop_last();
        assert forall|k: int| 0 <= k < earlier.len() implies changed_id(#[trigger] earlier[k])
            != id by {
            assert(earlier[k] == others[k]);
        }
        law_disconnecting_undoes_connecting(open, id, client, earlier);
        assert(changed_id(others[others.len() - 1]) != id);
        assert(open_after(open.insert(id, client), others).remove(id) =~= open_after(
            open,
            others,
        ));
    }
}

/// No connection affects another that is listed.
pub proof fn law_connections_are_independent<T>(
    open: Map<Seq<char>, T>,
    id: Seq<char>,
    client: T,
    other: Seq<char>,
)
    requires
        other != id,
    ensures
        found(open.insert(id, client), other) == found(open, other),
        found(open.remove(id), other) == found(open, other),
{
}

} // verus!
