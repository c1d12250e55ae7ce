use vstd::prelude::*;
use crate::text::owned;

verus! {

/// The open database, its listeners, and the replicator, if one runs.
///
/// `D` is the database handle, `T` a listener token, `L` a collection change
/// listener and `R` a replicator; the plugin keeps them alive here.
pub struct PluginState<D, T, L, R> {
    pub db: D,
    /// Opaque listener tokens kept alive for the plugin's lifetime.
    pub listeners: Vec<T>,
    /// Collection change listeners (kept alive to receive callbacks).
    pub coll_listeners: Vec<L>,
    pub replicator: Option<R>,
}

/// The plugin's session: the state of the open database, or nothing while no
/// database is open.
pub struct PluginSession<D, T, L, R> {
    pub state: Option<PluginState<D, T, L, R>>,
}

/// The error of a command that needs an open database while none is open.
pub open spec fn not_open_message() -> Seq<char> {
    "Database not open"@
}

/// The database that a command needing one gets from a session state, or the
/// error it fails with.
pub open spec fn database_of<D, T, L, R>(state: Option<PluginState<D, T, L, R>>) -> Result<
    D,
    Seq<char>,
> {
    match state {
        Some(s) => Ok(s.db),
        None => Err(not_open_message()),
    }
}

/// The replicator that a session state runs, if any.
pub open spec fn replicator_of<D, T, L, R>(state: Option<PluginState<D, T, L, R>>) -> Option<R> {
    match state {
        Some(s) => s.replicator,
        None => None,
    }
}

/// A session state with its replicator replaced by `r` (no change while no
/// database is open).
pub open spec fn with_replicator<D, T, L, R>(
    state: Option<PluginState<D, T, L, R>>,
    r: Option<R>,
) -> Option<PluginState<D, T, L, R>> {
    match state {
        Some(s) => Some(PluginState { replicator: r, ..s }),
        None => None,
    }
}

impl<D, T, L, R> PluginSession<D, T, L, R> {
    /// A session with no database open.
    pub fn new() -> (s: Self)
        ensures
            s.state is None,
    {
        PluginSession { state: None }
    }

    /// Whether a database is open.
    pub fn is_open(&self) -> (b: bool)
        ensures
            b == self.state is Some,
    {
        self.state.is_some()
    }

    /// Makes `db` the open database, with the given collection listeners, no
    /// listener tokens and no replicator. Returns the state it replaces, if a
    /// database was already open.
    pub fn open(&mut self, db: D, coll_listeners: Vec<L>) -> (previous: Option<PluginState<D, T, L, R>>)
        ensures
            previous == old(self).state,
            final(self).state matches Some(s) && s.db == db && s.listeners@.len() == 0
                && s.coll_listeners@ == coll_listeners@ && s.replicator is None,
    {
        let previous = self.state.take();
        self.state = Some(
            PluginState { db, listeners: Vec::new(), coll_listeners, replicator: None },
        );
        previous
    }

    /// Closes the session. Returns the state of the database that was open,
    /// so that its replicator and listeners are released and it is closed.
    pub fn close(&mut self) -> (closed: Option<PluginState<D, T, L, R>>)
        ensures
            closed == old(self).state,
            final(self).state is None,
    {
        self.state.take()
    }

    /// The open database, or the error `"Database not open"`.
    pub fn database(&self) -> (r: Result<&D, String>)
        ensures
            match r {
                Ok(d) => database_of(self.state) == Ok::<D, Seq<char>>(*d),
                Err(m) => database_of(self.state) == Err::<D, Seq<char>>(m@),
            },
    {
        match &self.state {
            Some(s) => Ok(&s.db),
            None => Err(owned("Database not open")),
        }
    }

    /// Makes `replicator` the session's replicator. Returns the one it
    /// replaces, if any.
    pub fn install_replicator(&mut self, replicator: R) -> (displaced: Option<R>)
        requires
            old(self).state is Some,
        ensures
            displaced == replicator_of(old(self).state),
            final(self).state == with_replicator(old(self).state, Some(replicator)),
    {
        match &mut self.state {
            Some(s) => {
                let displaced = s.replicator.take();
                s.replicator = Some(replicator);
                displaced
            },
            None => None,
        }
    }

    /// Takes the session's replicator out, so that it can be stopped. Returns
    /// nothing while no database is open or no replicator runs.
    pub fn take_replicator(&mut self) -> (taken: Option<R>)
        ensures
            taken == replicator_of(old(self).state),
            final(self).state == with_replicator(old(self).state, None),
    {
        match &mut self.state {
            Some(s) => s.replicator.take(),
            None => None,
        }
    }
}

/// Once the session is closed, every command that needs a database fails with
/// `"Database not open"`, whatever was open before.
pub proof fn law_closed_session_refuses_commands<D, T, L, R>()
    ensures
        database_of::<D, T, L, R>(None) == Err::<D, Seq<char>>(not_open_message()),
        replicator_of::<D, T, L, R>(None) is None,
{
}

/// A database just opened is the one that commands get, and no replicator
/// runs on it yet.
pub proof fn law_open_database_is_served<D, T, L, R>(state: Option<PluginState<D, T, L, R>>, db: D)
    requires
        state matches Some(s) && s.db == db && s.replicator is None,
    ensures
        database_of(state) == Ok::<D, Seq<char>>(db),
        replicator_of(state) is None,
{
}

/// Stopping replication hands back the replicator last started, and leaves
/// the open database as it was, with no replicator.
pub proof fn law_stop_returns_started_replicator<D, T, L, R>(
    state: Option<PluginState<D, T, L, R>>,
    replicator: R,
)
    requires
        state is Some,
    ensures
        replicator_of(with_replicator(state, Some(replicator))) == Some(replicator),
        replicator_of(with_replicator(with_replicator(state, Some(replicator)), None)) is None,
        database_of(with_replicator(with_replicator(state, Some(replicator)), None))
            == database_of(state),
{
}

/// Starting or stopping replication never opens or closes the database.
pub proof fn law_replication_keeps_database<D, T, L, R>(
    state: Option<PluginState<D, T, L, R>>,
    replicator: Option<R>,
)
    ensures
        database_of(with_replicator(state, replicator)) == database_of(state),
        with_replicator(state, replicator) is Some <==> state is Some,
{
}

} // verus!
