//! Opening a database, and finding the collection that a command addresses.

use vstd::prelude::*;
use crate::collection::{collection_name, collection_names, collection_path, CollectionName};
use crate::events::opt_text;
use crate::session::{database_of, PluginSession};

verus! {

/// How a database is opened.
#[derive(Debug)]
pub struct OpenPlan {
    /// The password the database is encrypted with, if one was given.
    pub encryption_password: Option<String>,
    /// The collections to create if missing and to watch for changes.
    pub collections: Vec<CollectionName>,
}

/// Plans the opening of a database: an empty encryption password counts as
/// none, and each requested collection path is read as scope and name (no
/// collections when none are requested).
pub fn plan_open_database(encryption_password: Option<String>, collections: Option<Vec<String>>) -> (p: OpenPlan)
    ensures
        opt_text(p.encryption_password) == (match encryption_password {
            Some(s) => if s@.len() > 0 {
                Some(s@)
            } else {
                None
            },
            None => None,
        }),
        match collections {
            Some(c) => p.collections@.len() == c@.len() && forall|i: int|
                0 <= i < c@.len() ==> #[trigger] p.collections@[i]@ == collection_path(c@[i]@),
            None => p.collections@.len() == 0,
        },
{
    let encryption_password = match encryption_password {
        Some(s) => if s.as_str().unicode_len() > 0 {
            Some(s)
        } else {
            None
        },
        None => None,
    };
    let collections = match collections {
        Some(c) => collection_names(&c),
        None => Vec::new(),
    };
    OpenPlan { encryption_password, collections }
}

/// The open database and the collection that a command's collection path
/// names; fails with `"Database not open"` while no database is open.
pub fn target_collection<'a, D, T, L, R>(
    session: &'a PluginSession<D, T, L, R>,
    collection: &str,
) -> (r: Result<(&'a D, CollectionName), String>)
    ensures
        match r {
            Ok((db, c)) => database_of(session.state) == Ok::<D, Seq<char>>(*db) && c@
                == collection_path(collection@),
            Err(m) => database_of(session.state) == Err::<D, Seq<char>>(m@),
        },
{
    match session.database() {
        Ok(db) => Ok((db, collection_name(collection))),
        Err(m) => Err(m),
    }
}

} // verus!
