//! The concurrent map that both tiers of the registry are kept in.
//!
//! Nothing in this file is proved: it states what the `dashmap` crate does.
//! Every function that changes a map takes it by `&mut`, so that a map's
//! contents are a function of its value.

use vstd::prelude::*;
use dashmap::DashMap;
use crate::handle::DocumentHandle;

verus! {

/// `dashmap::DashMap`, declared so that it can stand in fields and
/// signatures. Nothing inside a map is visible to the verifier.
#[verifier::external_type_specification]
#[verifier::external_body]
#[verifier::reject_recursive_types(K)]
#[verifier::reject_recursive_types(V)]
#[verifier::reject_recursive_types(S)]
pub struct ExDashMap<K, V, S>(DashMap<K, V, S>);

/// The entries that a map holds: for each key that is present, its value.
pub uninterp spec fn handle_map_contents(map: DashMap<u128, DocumentHandle>) -> Map<u128, DocumentHandle>;

/// `DashMap::new`: the new map holds nothing.
#[verifier::external_body]
pub(crate) fn handle_map_new() -> (map: DashMap<u128, DocumentHandle>)
    ensures
        handle_map_contents(map) == (Map::<u128, DocumentHandle>::empty()),
{
    DashMap::new()
}

/// `DashMap::get`: a copy of the value stored under `key`, if there is one.
#[verifier::external_body]
pub(crate) fn handle_map_get(map: &DashMap<u128, DocumentHandle>, key: u128) -> (found: Option<DocumentHandle>)
    ensures
        found == if handle_map_contents(*map).contains_key(key) {
            Some(handle_map_contents(*map)[key])
        } else {
            None
        },
{
    match map.get(&key) {
        Some(entry) => Some(*entry.value()),
        None => None,
    }
}

/// `DashMap::contains_key`: whether a value is stored under `key`.
#[verifier::external_body]
pub(crate) fn handle_map_contains_key(map: &DashMap<u128, DocumentHandle>, key: u128) -> (present: bool)
    ensures
        present == handle_map_contents(*map).contains_key(key),
{
    map.contains_key(&key)
}

/// `DashMap::insert`: stores `value` under `key`, replacing and returning the
/// value that was there.
#[verifier::external_body]
pub(crate) fn handle_map_insert(
    map: &mut DashMap<u128, DocumentHandle>,
    key: u128,
    value: DocumentHandle,
) -> (previous: Option<DocumentHandle>)
    ensures
        handle_map_contents(*final(map)) == handle_map_contents(*old(map)).insert(key, value),
        previous == if handle_map_contents(*old(map)).contains_key(key) {
            Some(handle_map_contents(*old(map))[key])
        } else {
            None
        },
{
    map.insert(key, value)
}

/// `DashMap::remove`: takes the entry under `key` out of the map and returns
/// it with its key; other entries stay.
#[verifier::external_body]
pub(crate) fn handle_map_remove(map: &mut DashMap<u128, DocumentHandle>, key: u128) -> (removed: Option<
    (u128, DocumentHandle),
>)
    ensures
        handle_map_contents(*final(map)) == handle_map_contents(*old(map)).remove(key),
        removed == if handle_map_contents(*old(map)).contains_key(key) {
            Some((key, handle_map_contents(*old(map))[key]))
        } else {
            None
        },
{
    map.remove(&key)
}

/// `DashMap::clear`: afterwards the map holds nothing.
#[verifier::external_body]
pub(crate) fn handle_map_clear(map: &mut DashMap<u128, DocumentHandle>)
    ensures
        handle_map_contents(*final(map)) == (Map::<u128, DocumentHandle>::empty()),
{
    map.clear()
}

} // verus!
