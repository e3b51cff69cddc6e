//! Histories of requests: what the store holds after any number of adds and
//! removes, and what is then found under a timestamp.

use crate::database::{after_delete, after_insert, Store};
use crate::service::{event_at, lemma_add_then_get, Outcome};
use vstd::prelude::*;
use vstd::utf8::{encode_utf8_valid_utf8, valid_utf8};

verus! {

/// A request that changes the store.
pub enum Change {
    /// An event is added under a timestamp.
    Add { timestamp: Seq<char>, event: Seq<char> },
    /// What is stored under a timestamp is removed.
    Remove { timestamp: Seq<char> },
}

impl Change {
    /// The timestamp that the request names.
    pub open spec fn timestamp(self) -> Seq<char> {
        match self {
            Change::Add { timestamp, .. } => timestamp,
            Change::Remove { timestamp } => timestamp,
        }
    }

    /// The store after the request was served on `store`.
    pub open spec fn apply(self, store: Store) -> Store {
        match self {
            Change::Add { timestamp, event } => after_insert(store, timestamp, event),
            Change::Remove { timestamp } => after_delete(store, timestamp),
        }
    }
}

/// The store after the requests were served on `store`, one after the other.
pub open spec fn replay(store: Store, changes: Seq<Change>) -> Store
    decreases changes.len(),
{
    if changes.len() == 0 {
        store
    } else {
        changes.last().apply(replay(store, changes.drop_last()))
    }
}

/// Every value of the store is UTF-8.
pub open spec fn well_encoded(store: Store) -> bool {
    forall|timestamp: Seq<char>| #[trigger]
        store.contains_key(timestamp) ==> valid_utf8(store[timestamp])
}

/// A timestamp under which nothing was ever added is not found: nothing is
/// stored under it at the start, and no request since has added under it.
pub proof fn lemma_never_added_not_found(store: Store, changes: Seq<Change>, timestamp: Seq<char>)
    requires
        !store.contains_key(timestamp),
        forall|i: int|
            0 <= i < changes.len() ==> !(#[trigger] changes[i] is Add && changes[i].timestamp()
                == timestamp),
    ensures
        event_at(replay(store, changes), timestamp) == Outcome::NotFound,
    decreases changes.len(),
{
    if changes.len() > 0 {
        let earlier = changes.drop_last();
        lemma_never_added_not_found(store, earlier, timestamp);
    }
}

/// The last request that names a timestamp decides what is found under it:
/// the event of an add, nothing after a remove. Later requests that name
/// other timestamps change nothing of that.
pub proof fn lemma_last_change_decides(
    store: Store,
    changes: Seq<Change>,
    last: int,
    timestamp: Seq<char>,
)
    requires
        0 <= last < changes.len(),
        changes[last].timestamp() == timestamp,
        forall|i: int|
            last < i < changes.len() ==> (#[trigger] changes[i]).timestamp() != timestamp,
    ensures
        event_at(replay(store, changes), timestamp) == match changes[last] {
            Change::Add { event, .. } => Outcome::Event(event),
            Change::Remove { .. } => Outcome::NotFound,
        },
    decreases changes.len(),
{
    let earlier = changes.drop_last();
    if last == changes.len() - 1 {
        match changes[last] {
            Change::Add { event, .. } => {
                lemma_add_then_get(replay(store, earlier), timestamp, event);
            },
            Change::Remove { .. } => {},
        }
    } else {
        lemma_last_change_decides(store, earlier, last, timestamp);
    }
}

/// The service writes nothing but UTF-8: a store whose values are all UTF-8
/// stays so under every request, and never answers that a value is no text.
pub proof fn lemma_encoding_is_kept(store: Store, changes: Seq<Change>, timestamp: Seq<char>)
    requires
        well_encoded(store),
    ensures
        well_encoded(replay(store, changes)),
        event_at(replay(store, changes), timestamp) != Outcome::InvalidEncoding,
    decreases changes.len(),
{
    if changes.len() > 0 {
        let earlier = changes.drop_last();
        lemma_encoding_is_kept(store, earlier, timestamp);
        match changes.last() {
            Change::Add { event, .. } => {
                encode_utf8_valid_utf8(event);
            },
            Change::Remove { .. } => {},
        }
    }
}

} // verus!
