//! Peer-to-peer replication: the listener that accepts replication
//! connections from other Couchbase Lite instances, with no Sync Gateway in
//! between. Deliberately unauthenticated and unencrypted, which suits two
//! machines on a trusted LAN and nothing else.

use vstd::prelude::*;
use crate::collection::{collection_names, collection_path, CollectionName};
use crate::session::{database_of, PluginSession};
use crate::text::owned;

verus! {

/// The running listener, if this process is currently hosting one.
pub struct PeerState<L> {
    pub listener: Option<L>,
}

impl<L> PeerState<L> {
    /// A state hosting no listener.
    pub fn new() -> (s: Self)
        ensures
            s.listener is None,
    {
        PeerState { listener: None }
    }

    /// Makes `listener` the hosted listener. Returns the one it replaces, which
    /// the caller stops: two listeners on one database is not a configuration
    /// anybody wants by accident.
    pub fn install(&mut self, listener: L) -> (previous: Option<L>)
        ensures
            previous == old(self).listener,
            final(self).listener == Some(listener),
    {
        let previous = self.listener.take();
        self.listener = Some(listener);
        previous
    }

    /// Takes the hosted listener out, so that it can be stopped.
    pub fn take(&mut self) -> (taken: Option<L>)
        ensures
            taken == old(self).listener,
            final(self).listener is None,
    {
        self.listener.take()
    }
}

/// Where a started listener can be reached.
#[derive(Debug)]
pub struct PeerListenerInfo {
    /// The port actually bound. Asking for 0 lets the OS choose one.
    pub port: u16,
    /// Every address a peer could dial, as ws:// URLs.
    pub urls: Vec<String>,
}

/// Whether this process is hosting, and how many peers are connected.
#[derive(Debug)]
pub struct PeerConnectionStatus {
    pub listening: bool,
    pub port: u16,
    pub connections: u64,
    pub active_connections: u64,
    pub urls: Vec<String>,
}

/// What a running listener reports about itself.
#[derive(Debug)]
pub struct ListenerSnapshot {
    pub port: u16,
    pub connection_count: u64,
    pub active_connection_count: u64,
    pub urls: Vec<String>,
}

/// The status of the hosted listener, described by its snapshot, or of no
/// listener: not listening, port 0, no connections and no URLs.
pub fn peer_listener_status(snapshot: Option<ListenerSnapshot>) -> (s: PeerConnectionStatus)
    ensures
        match snapshot {
            Some(l) => s.listening && s.port == l.port && s.connections == l.connection_count
                && s.active_connections == l.active_connection_count && s.urls@ == l.urls@,
            None => !s.listening && s.port == 0 && s.connections == 0 && s.active_connections == 0
                && s.urls@.len() == 0,
        },
{
    match snapshot {
        Some(l) => PeerConnectionStatus {
            listening: true,
            port: l.port,
            connections: l.connection_count,
            active_connections: l.active_connection_count,
            urls: l.urls,
        },
        None => PeerConnectionStatus {
            listening: false,
            port: 0,
            connections: 0,
            active_connections: 0,
            urls: Vec::new(),
        },
    }
}

/// How a peer listener is configured.
#[derive(Debug)]
pub struct ListenerPlan {
    /// The collections it serves.
    pub collections: Vec<CollectionName>,
    /// The port to bind; 0 lets the OS choose.
    pub port: u16,
    pub read_only: bool,
    pub enable_delta_sync: bool,
}

/// The error of a listener request that names no collection.
pub open spec fn no_collection_message() -> Seq<char> {
    "start_peer_listener needs at least one collection"@
}

/// Plans a peer listener for the open database: fails with
/// `"Database not open"` when none is open, then when no collection is named;
/// otherwise serves the named collections on the given port (0 when none is
/// given), writable unless `read_only` is given as true, without delta sync.
pub fn plan_peer_listener<'a, D, T, L, R>(
    session: &'a PluginSession<D, T, L, R>,
    collections: &Vec<String>,
    port: Option<u16>,
    read_only: Option<bool>,
) -> (r: Result<(&'a D, ListenerPlan), String>)
    ensures
        match r {
            Ok((db, plan)) => {
                &&& database_of(session.state) == Ok::<D, Seq<char>>(*db)
                &&& collections@.len() > 0
                &&& plan.collections@.len() == collections@.len()
                &&& forall|i: int|
                    0 <= i < collections@.len() ==> #[trigger] plan.collections@[i]@
                        == collection_path(collections@[i]@)
                &&& plan.port == (match port {
                    Some(p) => p,
                    None => 0,
                })
                &&& plan.read_only == (read_only == Some(true))
                &&& !plan.enable_delta_sync
            },
            Err(m) => match database_of(session.state) {
                Err(e) => m@ == e,
                Ok(_) => collections@.len() == 0 && m@ == no_collection_message(),
            },
        },
{
    let db = match session.database() {
        Ok(db) => db,
        Err(m) => return Err(m),
    };
    if collections.len() == 0 {
        return Err(owned("start_peer_listener needs at least one collection"));
    }
    let plan = ListenerPlan {
        collections: collection_names(collections),
        port: match port {
            Some(p) => p,
            None => 0,
        },
        read_only: match read_only {
            Some(b) => b,
            None => false,
        },
        enable_delta_sync: false,
    };
    Ok((db, plan))
}

} // verus!
