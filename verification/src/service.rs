//! The event service: events are stored under the timestamp of the second in
//! which they were added, and fetched and removed by that timestamp.

use crate::clock::{is_timestamp, local_time, TIMESTAMP_FORMAT};
use crate::database::{after_delete, after_insert, bytes_of, stored, Database, Store};
use vstd::prelude::*;
use vstd::string::StringExecFns;
use vstd::utf8::{decode_utf8, encode_utf8_decode_utf8, encode_utf8_valid_utf8, valid_utf8};

verus! {

/// An event with the timestamp under which it is stored.
#[derive(Debug, PartialEq, Eq)]
pub struct TodoListKv {
    pub timestamp: String,
    pub event: String,
}

/// The acknowledgment of a removal.
#[derive(Debug, PartialEq, Eq)]
pub struct TodoListResponse {
    pub status: String,
}

/// Why an event could not be handed out.
#[derive(Debug, PartialEq, Eq)]
pub enum EventError {
    /// Nothing is stored under the timestamp.
    NotFound { timestamp: String },
    /// The bytes stored under the timestamp are not UTF-8. The service writes
    /// nothing but UTF-8, so this tells of a store that something else wrote to.
    InvalidEncoding { timestamp: String },
}

/// What a store answers when asked for the event under a timestamp.
pub enum Outcome {
    /// The text of the event stored there.
    Event(Seq<char>),
    /// Nothing is stored there.
    NotFound,
    /// What is stored there is not text.
    InvalidEncoding,
}

/// What the bytes that an engine returned for a timestamp amount to.
pub open spec fn decoded(value: Option<Seq<u8>>) -> Outcome {
    match value {
        None => Outcome::NotFound,
        Some(bytes) => if valid_utf8(bytes) {
            Outcome::Event(decode_utf8(bytes))
        } else {
            Outcome::InvalidEncoding
        },
    }
}

/// The answer of `store` to a request for the event under `timestamp`.
pub open spec fn event_at(store: Store, timestamp: Seq<char>) -> Outcome {
    decoded(stored(store, timestamp))
}

/// `found` is the response that goes with `outcome` for a request that named
/// `timestamp`: the event with the timestamp, or the error of the same name,
/// which carries the timestamp.
pub open spec fn answers(
    found: Result<TodoListKv, EventError>,
    timestamp: Seq<char>,
    outcome: Outcome,
) -> bool {
    match found {
        Ok(kv) => kv.timestamp@ == timestamp && outcome == Outcome::Event(kv.event@),
        Err(EventError::NotFound { timestamp: missing }) => missing@ == timestamp && outcome
            == Outcome::NotFound,
        Err(EventError::InvalidEncoding { timestamp: garbled }) => garbled@ == timestamp
            && outcome == Outcome::InvalidEncoding,
    }
}

/// The response to a request for the event under `timestamp`, given what the
/// engine returned for it: the event, if the bytes are text; else what is
/// wrong.
pub fn decode_event(
    timestamp: &str,
    value: Option<Vec<u8>>,
) -> (found: Result<TodoListKv, EventError>)
    ensures
        answers(found, timestamp@, decoded(bytes_of(value))),
{
    match value {
        Some(bytes) => match String::from_utf8(bytes) {
            Ok(event) => Ok(TodoListKv { timestamp: timestamp.to_owned(), event }),
            Err(_) => Err(EventError::InvalidEncoding { timestamp: timestamp.to_owned() }),
        },
        None => Err(EventError::NotFound { timestamp: timestamp.to_owned() }),
    }
}

/// The message that goes with a timestamp under which nothing is stored.
pub fn not_found_message(timestamp: &str) -> (message: String)
    ensures
        message@ == "Event with timestamp: "@ + timestamp@ + " is not found"@,
{
    let mut message = "Event with timestamp: ".to_owned();
    message.append(timestamp);
    message.append(" is not found");
    message
}

/// The service: one store, reached through the storage contract alone.
pub struct TodoListService<T: Database> {
    db: T,
}

impl<T: Database> Default for TodoListService<T> {
    /// A service over the engine that `T::default()` returns.
    fn default() -> (service: Self)
        ensures
            exists|db: T| call_ensures(T::default, (), db) && service@ == db@,
    {
        let db = T::default();
        TodoListService::new(db)
    }
}

impl<T: Database> TodoListService<T> {
    /// The store that the service holds.
    pub closed spec fn view(&self) -> Store {
        self.db@
    }

    /// A service over the given engine.
    pub fn new(db: T) -> (service: Self)
        ensures
            service@ == db@,
    {
        TodoListService { db }
    }

    /// Fetches the event stored under `timestamp`.
    pub fn get_event(&self, timestamp: &str) -> (found: Result<TodoListKv, EventError>)
        ensures
            answers(found, timestamp@, event_at(self@, timestamp@)),
    {
        decode_event(timestamp, self.db.get(timestamp))
    }

    /// Stores `event` under the timestamp of the current second of local
    /// time, in place of an event already stored under it.
    pub fn add_event(&mut self, event: &str) -> (added: TodoListKv)
        ensures
            is_timestamp(added.timestamp@),
            final(self)@ == after_insert(old(self)@, added.timestamp@, event@),
            added.event@ == event@,
            event_at(final(self)@, added.timestamp@) == Outcome::Event(event@),
    {
        let timestamp = local_time(TIMESTAMP_FORMAT);
        self.add_event_at(timestamp, event)
    }

    /// Stores `event` under `timestamp`, in place of an event already stored
    /// under it.
    pub fn add_event_at(&mut self, timestamp: String, event: &str) -> (added: TodoListKv)
        ensures
            final(self)@ == after_insert(old(self)@, timestamp@, event@),
            added.timestamp@ == timestamp@,
            added.event@ == event@,
            event_at(final(self)@, timestamp@) == Outcome::Event(event@),
    {
        proof {
            lemma_add_then_get(self@, timestamp@, event@);
        }
        self.db.insert(timestamp.as_str(), event);
        TodoListKv { timestamp, event: event.to_owned() }
    }

    /// Removes the event stored under `timestamp`, whether there is one or not.
    pub fn remove_event(&mut self, timestamp: &str) -> (done: TodoListResponse)
        ensures
            final(self)@ == after_delete(old(self)@, timestamp@),
            event_at(final(self)@, timestamp@) == Outcome::NotFound,
            done.status@ == "Event successfully deleted"@,
    {
        self.db.delete(timestamp);
        TodoListResponse { status: "Event successfully deleted".to_owned() }
    }
}

/// An event that was added is found under its timestamp, with its text.
pub proof fn lemma_add_then_get(store: Store, timestamp: Seq<char>, event: Seq<char>)
    ensures
        event_at(after_insert(store, timestamp, event), timestamp) == Outcome::Event(event),
{
    encode_utf8_valid_utf8(event);
    encode_utf8_decode_utf8(event);
}

/// An event that was added and then removed is not found.
pub proof fn lemma_add_remove_then_get(store: Store, timestamp: Seq<char>, event: Seq<char>)
    ensures
        event_at(after_delete(after_insert(store, timestamp, event), timestamp), timestamp)
            == Outcome::NotFound,
{
}

/// Two events added under one timestamp, as happens within one second of the
/// clock: the store is as if only the later one had been added, and the later
/// one is what is found. Nothing detects the collision.
pub proof fn lemma_same_timestamp_keeps_later(
    store: Store,
    timestamp: Seq<char>,
    earlier: Seq<char>,
    later: Seq<char>,
)
    ensures
        after_insert(after_insert(store, timestamp, earlier), timestamp, later) == after_insert(
            store,
            timestamp,
            later,
        ),
        event_at(after_insert(after_insert(store, timestamp, earlier), timestamp, later), timestamp)
            == Outcome::Event(later),
{
    assert(after_insert(after_insert(store, timestamp, earlier), timestamp, later)
        =~= after_insert(store, timestamp, later));
    lemma_add_then_get(store, timestamp, later);
}

/// Adding or removing under one timestamp leaves the answer for every other
/// timestamp as it was.
pub proof fn lemma_other_timestamps_unchanged(
    store: Store,
    timestamp: Seq<char>,
    event: Seq<char>,
    other: Seq<char>,
)
    requires
        other != timestamp,
    ensures
        event_at(after_insert(store, timestamp, event), other) == event_at(store, other),
        event_at(after_delete(store, timestamp), other) == event_at(store, other),
{
}

} // verus!
