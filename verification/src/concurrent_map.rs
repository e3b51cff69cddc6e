//! The concurrent hash map of the `dashmap` crate, as far as the in-memory
//! engine uses it. Nothing in this file is proved: each item states what
//! `dashmap` does, and the rest of the library is verified against that.

use dashmap::DashMap;
use vstd::prelude::*;

verus! {

/// Makes `dashmap::DashMap` known as an opaque type.
#[verifier::external_type_specification]
#[verifier::external_body]
#[verifier::reject_recursive_types(K)]
#[verifier::reject_recursive_types(V)]
#[verifier::reject_recursive_types(S)]
pub struct ExDashMap<K, V, S>(DashMap<K, V, S>);

/// The entries that a `DashMap` from strings to byte vectors holds: each key
/// by its characters, each value by its bytes.
pub uninterp spec fn entries(map: DashMap<String, Vec<u8>>) -> Map<Seq<char>, Seq<u8>>;

/// `DashMap::default`: a map without entries.
#[verifier::external_body]
pub(crate) fn map_new() -> (fresh: DashMap<String, Vec<u8>>)
    ensures
        forall|key: Seq<char>| !entries(fresh).contains_key(key),
{
    DashMap::default()
}

/// `DashMap::get`, followed by a copy of the value found: the bytes stored
/// under `key`, or `None` where the map has no such key. The map is left as
/// it was.
#[verifier::external_body]
pub(crate) fn map_get(map: &DashMap<String, Vec<u8>>, key: &str) -> (value: Option<Vec<u8>>)
    ensures
        match value {
            Some(bytes) => entries(*map).contains_key(key@) && bytes@ == entries(*map)[key@],
            None => !entries(*map).contains_key(key@),
        },
{
    match map.get(key) {
        Some(entry) => Some(entry.value().clone()),
        None => None,
    }
}

/// `DashMap::insert`: afterwards `key` maps to `value`, every other entry is
/// as before, and the value that `key` had before, if any, is returned.
#[verifier::external_body]
pub(crate) fn map_insert(
    map: &mut DashMap<String, Vec<u8>>,
    key: String,
    value: Vec<u8>,
) -> (previous: Option<Vec<u8>>)
    ensures
        entries(*final(map)) == entries(*old(map)).insert(key@, value@),
        match previous {
            Some(bytes) => entries(*old(map)).contains_key(key@) && bytes@ == entries(
                *old(map),
            )[key@],
            None => !entries(*old(map)).contains_key(key@),
        },
{
    map.insert(key, value)
}

/// `DashMap::remove`: afterwards the map has no entry under `key`, every
/// other entry is as before, and the entry removed, if any, is returned.
#[verifier::external_body]
pub(crate) fn map_remove(
    map: &mut DashMap<String, Vec<u8>>,
    key: &str,
) -> (removed: Option<(String, Vec<u8>)>)
    ensures
        entries(*final(map)) == entries(*old(map)).remove(key@),
        match removed {
            Some((k, bytes)) => k@ == key@ && entries(*old(map)).contains_key(key@) && bytes@
                == entries(*old(map))[key@],
            None => !entries(*old(map)).contains_key(key@),
        },
{
    map.remove(key)
}

} // verus!
