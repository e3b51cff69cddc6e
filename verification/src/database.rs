//! The storage contract, and the in-memory engine that meets it.
//!
//! A store is modelled as a map from keys (the characters of a string) to
//! values (bytes). Every operation of the contract is stated over that map.

use crate::concurrent_map::{entries, map_get, map_insert, map_new, map_remove};
use dashmap::DashMap;
use vstd::prelude::*;
use vstd::string::StrSliceExecFns;
use vstd::utf8::{
    decode_utf8, encode_utf8, encode_utf8_decode_utf8, encode_utf8_valid_utf8, valid_utf8,
};

verus! {

/// What a store holds: for each key that was written and not deleted since,
/// the bytes last written under it.
pub type Store = Map<Seq<char>, Seq<u8>>;

/// The bytes stored under `key`, or `None` where nothing is.
pub open spec fn stored(store: Store, key: Seq<char>) -> Option<Seq<u8>> {
    if store.contains_key(key) {
        Some(store[key])
    } else {
        None
    }
}

/// The store after `value` was written under `key`: the key now maps to the
/// UTF-8 bytes of the value, and nothing else has changed.
pub open spec fn after_insert(store: Store, key: Seq<char>, value: Seq<char>) -> Store {
    store.insert(key, encode_utf8(value))
}

/// The store after `key` was deleted: nothing is stored under the key, and
/// nothing else has changed.
pub open spec fn after_delete(store: Store, key: Seq<char>) -> Store {
    store.remove(key)
}

/// The bytes of a value that `get` handed out.
pub open spec fn bytes_of(value: Option<Vec<u8>>) -> Option<Seq<u8>> {
    match value {
        Some(bytes) => Some(bytes@),
        None => None,
    }
}

/// What a persistence engine has to offer: read, write and delete by key.
///
/// A value that is absent is told apart from an empty one: `get` returns
/// `None` for the first and `Some` of an empty vector for the second. Writing
/// and deleting take the engine exclusively, so what they do to the store can
/// be stated; an engine that cannot persist a write does not return.
pub trait Database: Send + Sync + 'static + Default {
    /// The store that the engine holds.
    spec fn view(&self) -> Store;

    /// A copy of the bytes stored under `key`, if any.
    fn get(&self, key: &str) -> (value: Option<Vec<u8>>)
        ensures
            bytes_of(value) == stored(self@, key@),
    ;

    /// Stores `value` under `key`, in place of what was stored there.
    fn insert(&mut self, key: &str, value: &str)
        ensures
            final(self)@ == after_insert(old(self)@, key@, value@),
    ;

    /// Removes what is stored under `key`; without such a value, does nothing.
    fn delete(&mut self, key: &str)
        ensures
            final(self)@ == after_delete(old(self)@, key@),
    ;
}

/// An engine that keeps the store in memory, in a concurrent hash map.
pub struct MockDatabase {
    db: DashMap<String, Vec<u8>>,
}

impl Default for MockDatabase {
    /// An engine with an empty store.
    fn default() -> (fresh: Self)
        ensures
            fresh@ == Store::empty(),
    {
        let fresh = MockDatabase { db: map_new() };
        assert(fresh@ =~= Store::empty());
        fresh
    }
}

impl Database for MockDatabase {
    closed spec fn view(&self) -> Store {
        entries(self.db)
    }

    fn get(&self, key: &str) -> (value: Option<Vec<u8>>) {
        map_get(&self.db, key)
    }

    fn insert(&mut self, key: &str, value: &str) {
        let _ = map_insert(&mut self.db, key.to_owned(), value.as_bytes_vec());
    }

    fn delete(&mut self, key: &str) {
        let _ = map_remove(&mut self.db, key);
    }
}

/// Nothing is stored in the empty store, whatever the key.
pub proof fn lemma_empty_store_has_nothing(key: Seq<char>)
    ensures
        stored(Store::empty(), key) is None,
{
}

/// Round trip: after a value was written under a key, the bytes stored under
/// that key are the value's UTF-8 bytes, and they decode to the value.
pub proof fn lemma_insert_then_get(store: Store, key: Seq<char>, value: Seq<char>)
    ensures
        stored(after_insert(store, key, value), key) == Some(encode_utf8(value)),
        valid_utf8(encode_utf8(value)),
        decode_utf8(encode_utf8(value)) == value,
{
    encode_utf8_valid_utf8(value);
    encode_utf8_decode_utf8(value);
}

/// Overwrite: of two writes under one key only the second is left. The store
/// is the one that the second write alone would have given.
pub proof fn lemma_insert_overwrites(
    store: Store,
    key: Seq<char>,
    first: Seq<char>,
    second: Seq<char>,
)
    ensures
        after_insert(after_insert(store, key, first), key, second) == after_insert(
            store,
            key,
            second,
        ),
        stored(after_insert(after_insert(store, key, first), key, second), key) == Some(
            encode_utf8(second),
        ),
{
    assert(after_insert(after_insert(store, key, first), key, second) =~= after_insert(
        store,
        key,
        second,
    ));
}

/// Deleting is idempotent: after a delete nothing is stored under the key, a
/// second delete changes nothing, and so does a delete of a key under which
/// nothing was stored.
pub proof fn lemma_delete_is_idempotent(store: Store, key: Seq<char>)
    ensures
        stored(after_delete(store, key), key) is None,
        after_delete(after_delete(store, key), key) == after_delete(store, key),
        !store.contains_key(key) ==> after_delete(store, key) == store,
{
    assert(after_delete(after_delete(store, key), key) =~= after_delete(store, key));
    if !store.contains_key(key) {
        assert(after_delete(store, key) =~= store);
    }
}

/// A write or a delete under one key leaves what is stored under every other
/// key as it was.
pub proof fn lemma_other_keys_unchanged(
    store: Store,
    key: Seq<char>,
    value: Seq<char>,
    other: Seq<char>,
)
    requires
        other != key,
    ensures
        stored(after_insert(store, key, value), other) == stored(store, other),
        stored(after_delete(store, key), other) == stored(store, other),
{
}

} // verus!
