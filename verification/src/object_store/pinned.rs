//! The pinned area of the object store: a `dashmap::DashMap` from object id
//! to object. Objects here are never evicted.

use super::types::StoredObject;
use dashmap::DashMap;
use std::collections::hash_map::RandomState;
use vstd::prelude::*;

verus! {

#[verifier::external_type_specification]
#[verifier::external_body]
#[verifier::reject_recursive_types(K)]
#[verifier::reject_recursive_types(V)]
#[verifier::reject_recursive_types(S)]
pub struct ExDashMap<K, V, S>(DashMap<K, V, S>);

/// The objects that a pinned map holds, by id.
pub uninterp spec fn pinned_entries(m: DashMap<u64, StoredObject, RandomState>) -> Map<u64, StoredObject>;

/// The total size of the objects in a finite map.
pub open spec fn map_weight(m: Map<u64, StoredObject>) -> nat
    decreases m.dom().len(),
    when m.dom().finite()
{
    if m.dom().len() == 0 {
        0
    } else {
        let k = m.dom().choose();
        m[k].weight() + map_weight(m.remove(k))
    }
}

/// Removing an entry from a finite map subtracts its size from the total.
pub proof fn lemma_map_weight_remove(m: Map<u64, StoredObject>, k: u64)
    requires
        m.dom().finite(),
        m.contains_key(k),
    ensures
        map_weight(m) == m[k].weight() + map_weight(m.remove(k)),
    decreases m.dom().len(),
{
    let c = m.dom().choose();
    assert(m.dom().contains(c));
    if c != k {
        let mc = m.remove(c);
        let mk = m.remove(k);
        lemma_map_weight_remove(mc, k);
        lemma_map_weight_remove(mk, c);
        assert(mc.remove(k) =~= mk.remove(c));
    }
}

/// Adding an entry under a fresh key to a finite map adds its size to the
/// total.
pub proof fn lemma_map_weight_insert(m: Map<u64, StoredObject>, k: u64, v: StoredObject)
    requires
        m.dom().finite(),
        !m.contains_key(k),
    ensures
        map_weight(m.insert(k, v)) == v.weight() + map_weight(m),
{
    lemma_map_weight_remove(m.insert(k, v), k);
    assert(m.insert(k, v).remove(k) =~= m);
}

/// The empty map weighs nothing.
pub proof fn lemma_map_weight_empty()
    ensures
        map_weight(no_pinned_objects()) == 0,
{
    assert(no_pinned_objects().dom() =~= Set::<u64>::empty());
}

/// The empty map of pinned objects.
pub open spec fn no_pinned_objects() -> Map<u64, StoredObject> {
    Map::empty()
}

/// Makes an empty map.
///
/// Calls `DashMap::new`.
#[verifier::external_body]
pub(crate) fn pinned_new() -> (map: DashMap<u64, StoredObject, RandomState>)
    ensures
        pinned_entries(map) == no_pinned_objects(),
{
    DashMap::new()
}

/// Inserts an entry, replacing the one with the same key.
///
/// Calls `DashMap::insert`, which returns the value it replaced.
#[verifier::external_body]
pub(crate) fn pinned_insert(map: &mut DashMap<u64, StoredObject, RandomState>, k: u64, v: StoredObject) -> (r: Option<StoredObject>)
    ensures
        pinned_entries(*final(map)) == pinned_entries(*old(map)).insert(k, v),
        r == (if pinned_entries(*old(map)).contains_key(k) {
            Some(pinned_entries(*old(map))[k])
        } else {
            None::<StoredObject>
        }),
{
    map.insert(k, v)
}

/// Removes the entry with the given key, if any, and returns its value.
///
/// Calls `DashMap::remove`, which returns the removed key and value.
#[verifier::external_body]
pub(crate) fn pinned_remove(map: &mut DashMap<u64, StoredObject, RandomState>, k: u64) -> (r: Option<StoredObject>)
    ensures
        pinned_entries(*final(map)) == pinned_entries(*old(map)).remove(k),
        !pinned_entries(*old(map)).contains_key(k) ==> *final(map) == *old(map),
        r == (if pinned_entries(*old(map)).contains_key(k) {
            Some(pinned_entries(*old(map))[k])
        } else {
            None::<StoredObject>
        }),
{
    map.remove(&k).map(|(_, v)| v)
}

/// Looks up a key; hands out another handle to its object.
///
/// Calls `DashMap::get` and `StoredObject::duplicate` on the value it
/// returns.
#[verifier::external_body]
pub(crate) fn pinned_get(map: &DashMap<u64, StoredObject, RandomState>, k: u64) -> (r: Option<StoredObject>)
    ensures
        r is Some <==> pinned_entries(*map).contains_key(k),
        r matches Some(v) ==> v.content() == pinned_entries(*map)[k].content()
            && v.metadata == pinned_entries(*map)[k].metadata,
{
    map.get(&k).map(|entry| entry.value().duplicate())
}

/// Whether the key is present.
///
/// Calls `DashMap::contains_key`.
#[verifier::external_body]
pub(crate) fn pinned_contains(map: &DashMap<u64, StoredObject, RandomState>, k: u64) -> (r: bool)
    ensures
        r == pinned_entries(*map).contains_key(k),
{
    map.contains_key(&k)
}

/// Removes every entry.
///
/// Calls `DashMap::clear`.
#[verifier::external_body]
pub(crate) fn pinned_clear(map: &mut DashMap<u64, StoredObject, RandomState>)
    ensures
        pinned_entries(*final(map)) == no_pinned_objects(),
{
    map.clear();
}

} // verus!
