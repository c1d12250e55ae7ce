use vstd::prelude::*;
use crate::text::owned;

verus! {

/// Event emitted when documents in a collection change.
/// Payload: list of changed document IDs.
pub const COLLECTION_CHANGED: &'static str = "cblite://collection-changed";

/// Event emitted when a replicator's status changes.
/// Payload: `{ replicator, activity, error }`, built by
/// [`replication_status_event`].
pub const REPLICATION_STATUS: &'static str = "cblite://replication-status";

/// What a replicator is doing, as its change listener reports it.
#[derive(Clone, Copy, Debug, PartialEq, Eq, Structural)]
pub enum ActivityLevel {
    Stopped,
    Offline,
    Connecting,
    Idle,
    Busy,
}

/// The name under which an activity level is reported to the frontend.
pub open spec fn activity_name(level: ActivityLevel) -> Seq<char> {
    match level {
        ActivityLevel::Stopped => "Stopped"@,
        ActivityLevel::Offline => "Offline"@,
        ActivityLevel::Connecting => "Connecting"@,
        ActivityLevel::Idle => "Idle"@,
        ActivityLevel::Busy => "Busy"@,
    }
}

/// The label of an activity level: `"Stopped"`, `"Offline"`, `"Connecting"`,
/// `"Idle"` or `"Busy"`.
pub fn activity_label(level: ActivityLevel) -> (r: &'static str)
    ensures
        r@ == activity_name(level),
{
    match level {
        ActivityLevel::Stopped => "Stopped",
        ActivityLevel::Offline => "Offline",
        ActivityLevel::Connecting => "Connecting",
        ActivityLevel::Idle => "Idle",
        ActivityLevel::Busy => "Busy",
    }
}

/// The label of a replicator for which the caller gave none.
pub open spec fn default_replicator_label() -> Seq<char> {
    "default"@
}

/// The payload of a replication-status event.
pub struct ReplicationStatusEvent {
    /// The label of the replicator whose status changed.
    pub replicator: String,
    /// Its activity level, by name.
    pub activity: String,
    /// The error that caused the change, if one did.
    pub error: Option<String>,
}

/// The text of an optional owned string.
pub open spec fn opt_text(o: Option<String>) -> Option<Seq<char>> {
    match o {
        Some(s) => Some(s@),
        None => None,
    }
}

/// Builds the payload of a replication-status event: the replicator's label
/// (`"default"` when none was given), the activity by name, and the error that
/// came with the change.
pub fn replication_status_event(
    label: Option<&str>,
    level: ActivityLevel,
    error: Option<String>,
) -> (e: ReplicationStatusEvent)
    ensures
        e.replicator@ == (match label {
            Some(l) => l@,
            None => default_replicator_label(),
        }),
        e.activity@ == activity_name(level),
        opt_text(e.error) == opt_text(error),
{
    let replicator = match label {
        Some(l) => owned(l),
        None => owned("default"),
    };
    ReplicationStatusEvent { replicator, activity: owned(activity_label(level)), error }
}

/// Each activity level has a label of its own, so the frontend can tell the
/// level from the label.
pub proof fn law_activity_labels_distinct(a: ActivityLevel, b: ActivityLevel)
    ensures
        activity_name(a) == activity_name(b) ==> a == b,
{
    reveal_strlit("Stopped");
    reveal_strlit("Offline");
    reveal_strlit("Connecting");
    reveal_strlit("Idle");
    reveal_strlit("Busy");
    if activity_name(a) == activity_name(b) && a != b {
        assert(activity_name(a).len() != activity_name(b).len() || activity_name(a)[0] != activity_name(b)[0]
            || activity_name(a)[1] != activity_name(b)[1]);
    }
}

} // verus!
