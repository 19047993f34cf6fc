//! In-memory object store.
//!
//! Objects are kept in an LRU cache (`lru.rs`) whose entries, counted one
//! each plus their sizes, stay within the configured memory; pinned objects
//! are moved out of the cache into a separate map (`pinned.rs`) where they
//! are never evicted. Pinned bytes count against the memory limit too: a put
//! evicts least recently used objects until the new one fits in what the
//! pinned objects leave. Reads look in the pinned map first, then in the
//! cache.

use super::buffer::{bytes_clone, bytes_content, bytes_from_vec};
use super::lru::{
    cache_lookup, evicted_count, has_key, keys_unique, lemma_evict_prefix, lemma_lookup_absent,
    lemma_lookup_at, lemma_lookup_front_other, lemma_lookup_prefix, lemma_lookup_remove_other,
    lemma_lookup_some, lemma_move_front, lemma_put_entries, lemma_remove_key_at,
    lemma_remove_key_props, lemma_weight_remove, lru_capacity, lemma_remove_key_absent, lemma_trim_for, lemma_unique_subrange,
    lemma_store_entries, lemma_weight_prefix, lemma_weight_push_front, lemma_weight_remove_key, lru_trim, trim_for, store_entries, store_evicted, lru_clear, lru_entries, lru_get,
    lru_len, lru_new, lru_peek, lru_pop, lru_put_with_weight, lru_weight, put_entries, remove_key, evict_for,
    weight_of, LruCache,
};
use super::pinned::{
    lemma_map_weight_empty, lemma_map_weight_insert, lemma_map_weight_remove, map_weight,
    no_pinned_objects, pinned_clear, pinned_contains, pinned_entries, pinned_get, pinned_insert,
    pinned_new, pinned_remove,
};
use super::types::{instant_now, type_ids_equal, ObjectMetadata, PutResult, StoreConfig, StoreStats, StoredObject};
use crate::error::{Result, RustyRayError};
use crate::types::{decimal_digits, u64_to_decimal, ObjectId};
use bytes::Bytes;
use dashmap::DashMap;
use std::any::TypeId;
use std::collections::hash_map::RandomState;
use vstd::prelude::*;
use vstd::wrapping::u64_specs::wrapping_add;

verus! {

/// Statistics counters of the object store.
#[derive(Debug, Clone, Copy)]
pub struct StatsCollector {
    /// Reads that found their object.
    pub hit_count: u64,
    /// Reads that found nothing.
    pub miss_count: u64,
    /// Successful puts.
    pub put_count: u64,
    /// Reads.
    pub get_count: u64,
    /// Objects evicted from the cache to make room.
    pub eviction_count: u64,
    /// Objects in the pinned area.
    pub pinned_count: usize,
    /// Total size of the objects in the pinned area.
    pub pinned_size: usize,
}

impl StatsCollector {
    /// All counters at zero.
    pub fn new() -> (r: Self)
        ensures
            r == Self::zero(),
    {
        StatsCollector {
            hit_count: 0,
            miss_count: 0,
            put_count: 0,
            get_count: 0,
            eviction_count: 0,
            pinned_count: 0,
            pinned_size: 0,
        }
    }

    /// All counters at zero.
    pub open spec fn zero() -> Self {
        StatsCollector {
            hit_count: 0,
            miss_count: 0,
            put_count: 0,
            get_count: 0,
            eviction_count: 0,
            pinned_count: 0,
            pinned_size: 0,
        }
    }

    /// The counters after a read that found its object.
    pub open spec fn after_hit(self) -> Self {
        StatsCollector {
            hit_count: wrapping_add(self.hit_count, 1),
            get_count: wrapping_add(self.get_count, 1),
            ..self
        }
    }

    /// The counters after a read that found nothing.
    pub open spec fn after_miss(self) -> Self {
        StatsCollector {
            miss_count: wrapping_add(self.miss_count, 1),
            get_count: wrapping_add(self.get_count, 1),
            ..self
        }
    }

    /// The counters after a successful put that evicted `evicted` objects.
    pub open spec fn after_put(self, evicted: nat) -> Self {
        StatsCollector {
            put_count: wrapping_add(self.put_count, 1),
            eviction_count: wrapping_add(self.eviction_count, evicted as u64),
            ..self
        }
    }
}

/// The capacity of the cache for a memory limit: the limit itself, or one
/// when the limit is zero.
pub open spec fn effective_capacity(max_memory: usize) -> nat {
    if max_memory == 0 {
        1
    } else {
        max_memory as nat
    }
}

/// The id `t` steps after `start`, wrapping around after `u64::MAX`.
pub open spec fn probe_id(start: u64, t: nat) -> u64 {
    ((start as nat + t) % 0x1_0000_0000_0000_0000) as u64
}

/// The memory left for an object when pinned objects take `pinned` bytes.
pub open spec fn available_space(max_memory: usize, pinned: usize) -> usize {
    if max_memory >= pinned {
        (max_memory - pinned) as usize
    } else {
        0
    }
}

/// An object with the given flag for being pinned, and otherwise the same.
pub open spec fn with_pin_flag(o: StoredObject, flag: bool) -> StoredObject {
    StoredObject { data: o.data, metadata: ObjectMetadata { is_pinned: flag, ..o.metadata } }
}

/// A freshly stored object holding `data`, labelled `label`, unpinned, with
/// one reference.
pub open spec fn fresh_object(o: StoredObject, data: Seq<u8>, label: Seq<char>) -> bool {
    &&& o.content() == data
    &&& o.metadata.size == data.len()
    &&& o.metadata.ref_count == 1
    &&& o.metadata.type_label@ == label
    &&& !o.metadata.is_pinned
}

pub open spec fn dec(n: usize) -> Seq<char> {
    decimal_digits(n as nat)
}

pub open spec fn msg_exceeds_limit(size: usize, max: usize) -> Seq<char> {
    "Object size ("@ + dec(size) + " bytes) exceeds max memory limit ("@ + dec(max) + " bytes)"@
}

pub open spec fn msg_no_room(size: usize, available: usize, pinned: usize, detailed: bool) -> Seq<char> {
    let base = "Cannot store object: "@ + dec(size) + " bytes needed but only "@ + dec(available)
        + " bytes available"@;
    if detailed {
        base + " (pinned objects consume "@ + dec(pinned) + " bytes)"@
    } else {
        base
    }
}

pub open spec fn msg_too_large(size: usize) -> Seq<char> {
    "Object too large for cache: "@ + dec(size) + " bytes"@
}

pub open spec fn msg_type_mismatch(id: u64, expected: Seq<char>, found: Seq<char>) -> Seq<char> {
    "Type mismatch for "@ + decimal_digits(id as nat) + ": expected "@ + expected + ", found "@ + found
}

pub open spec fn msg_not_found(id: u64) -> Seq<char> {
    "Object "@ + decimal_digits(id as nat) + " not found"@
}

pub open spec fn msg_not_pinned(id: u64) -> Seq<char> {
    "Object "@ + decimal_digits(id as nat) + " not found or not pinned"@
}

pub open spec fn msg_unpin_no_room(id: u64) -> Seq<char> {
    "Cannot unpin object "@ + decimal_digits(id as nat)
        + ": insufficient space in cache. Object remains pinned."@
}

pub open spec fn msg_pin_overflow(id: u64) -> Seq<char> {
    "Cannot pin object "@ + decimal_digits(id as nat) + ": pinned totals would overflow"@
}

/// An internal error whose message is `m`.
pub open spec fn is_internal(e: RustyRayError, m: Seq<char>) -> bool {
    e matches RustyRayError::Internal(s) && s@ == m
}

fn text_exceeds_limit(size: usize, max: usize) -> (s: String)
    ensures
        s@ == msg_exceeds_limit(size, max),
{
    let mut s = "Object size (".to_owned();
    s.append(u64_to_decimal(size as u64).as_str());
    s.append(" bytes) exceeds max memory limit (");
    s.append(u64_to_decimal(max as u64).as_str());
    s.append(" bytes)");
    s
}

fn text_no_room(size: usize, available: usize, pinned: usize, detailed: bool) -> (s: String)
    ensures
        s@ == msg_no_room(size, available, pinned, detailed),
{
    let mut s = "Cannot store object: ".to_owned();
    s.append(u64_to_decimal(size as u64).as_str());
    s.append(" bytes needed but only ");
    s.append(u64_to_decimal(available as u64).as_str());
    s.append(" bytes available");
    if detailed {
        s.append(" (pinned objects consume ");
        s.append(u64_to_decimal(pinned as u64).as_str());
        s.append(" bytes)");
    }
    s
}

fn text_too_large(size: usize) -> (s: String)
    ensures
        s@ == msg_too_large(size),
{
    let mut s = "Object too large for cache: ".to_owned();
    s.append(u64_to_decimal(size as u64).as_str());
    s.append(" bytes");
    s
}

fn text_type_mismatch(id: u64, expected: &str, found: &String) -> (s: String)
    ensures
        s@ == msg_type_mismatch(id, expected@, found@),
{
    let mut s = "Type mismatch for ".to_owned();
    s.append(u64_to_decimal(id).as_str());
    s.append(": expected ");
    s.append(expected);
    s.append(", found ");
    s.append(found.as_str());
    s
}

fn text_object_id(prefix: &str, id: u64, suffix: &str) -> (s: String)
    ensures
        s@ == prefix@ + decimal_digits(id as nat) + suffix@,
{
    let mut s = prefix.to_owned();
    s.append(u64_to_decimal(id).as_str());
    s.append(suffix);
    s
}

/// The type identifier of `Vec<u8>`, the type of raw byte objects.
///
/// Calls `std::any::TypeId::of::<Vec<u8>>`; nothing is claimed of the
/// identifier but that it stands for that type.
#[verifier::external_body]
fn byte_vec_type_id() -> TypeId {
    TypeId::of::<Vec<u8>>()
}

/// In-memory object store.
pub struct InMemoryStore {
    /// Main cache, bounded by the memory limit.
    cache: LruCache,
    /// Pinned objects, which are never evicted.
    pinned: DashMap<u64, StoredObject, RandomState>,
    /// Statistics.
    stats: StatsCollector,
    /// Configuration.
    config: StoreConfig,
}

impl InMemoryStore {
    /// The cache entries, most recently used first.
    pub closed spec fn cache_entries(&self) -> Seq<(u64, StoredObject)> {
        lru_entries(self.cache)
    }

    /// The pinned objects, by id.
    pub closed spec fn pinned_objects(&self) -> Map<u64, StoredObject> {
        pinned_entries(self.pinned)
    }

    /// The statistics counters.
    pub closed spec fn counters(&self) -> StatsCollector {
        self.stats
    }

    /// The configuration the store was made with.
    pub closed spec fn configuration(&self) -> StoreConfig {
        self.config
    }

    /// The capacity of the cache.
    pub closed spec fn capacity(&self) -> nat {
        lru_capacity(self.cache)
    }

    /// The store's invariant.
    pub closed spec fn wf(&self) -> bool {
        &&& keys_unique(self.cache_entries())
        &&& self.capacity() == effective_capacity(self.config.max_memory)
        &&& self.cache_entries().len() + weight_of(self.cache_entries()) <= self.capacity()
        &&& self.pinned_objects().dom().finite()
        &&& self.stats.pinned_count == self.pinned_objects().dom().len()
        &&& self.stats.pinned_size == map_weight(self.pinned_objects())
        &&& weight_of(self.cache_entries()) + self.stats.pinned_size <= self.config.max_memory
        &&& wrapping_add(self.stats.hit_count, self.stats.miss_count) == self.stats.get_count
        &&& forall|i: int|
            0 <= i < self.cache_entries().len() ==> !(#[trigger] self.cache_entries()[i]).1.metadata.is_pinned
        &&& forall|k: u64|
            #[trigger] self.pinned_objects().contains_key(k) ==> self.pinned_objects()[k].metadata.is_pinned
    }

    /// The object a read of `id` finds: the pinned one if any, else the one
    /// in the cache.
    pub open spec fn lookup(&self, id: u64) -> Option<StoredObject> {
        if self.pinned_objects().contains_key(id) {
            Some(self.pinned_objects()[id])
        } else {
            cache_lookup(self.cache_entries(), id)
        }
    }

    /// Configuration and capacity are those of `pre`.
    pub open spec fn same_layout(pre: Self, post: Self) -> bool {
        post.configuration() == pre.configuration() && post.capacity() == pre.capacity()
    }

    /// Why putting `size` bytes is refused, if it is.
    pub open spec fn put_rejection(pre: Self, size: usize, detailed: bool) -> Option<Seq<char>> {
        let max = pre.configuration().max_memory;
        let pinned = pre.counters().pinned_size;
        if size > max {
            Some(msg_exceeds_limit(size, max))
        } else if size > available_space(max, pinned) {
            Some(msg_no_room(size, available_space(max, pinned), pinned, detailed))
        } else if size >= pre.capacity() {
            Some(msg_too_large(size))
        } else {
            None
        }
    }

    /// `post` is `pre` after storing a fresh object holding `data`, labelled
    /// `label`, under `id`.
    pub open spec fn put_done(pre: Self, post: Self, id: u64, data: Seq<u8>, label: Seq<char>) -> bool {
        &&& Self::same_layout(pre, post)
        &&& post.pinned_objects() == pre.pinned_objects()
        &&& post.cache_entries().len() > 0
        &&& fresh_object(post.cache_entries()[0].1, data, label)
        &&& post.cache_entries() == store_entries(pre.cache_entries(), id, post.cache_entries()[0].1, pre.capacity(),
            available_space(pre.configuration().max_memory, pre.counters().pinned_size) as nat)
        &&& post.counters() == pre.counters().after_put(
            store_evicted(pre.cache_entries(), id, data.len(), pre.capacity(),
                available_space(pre.configuration().max_memory, pre.counters().pinned_size) as nat),
        )
    }

    /// `post` is `pre` after a read of `id`.
    pub open spec fn read_done(pre: Self, post: Self, id: u64) -> bool {
        &&& Self::same_layout(pre, post)
        &&& post.pinned_objects() == pre.pinned_objects()
        &&& match pre.lookup(id) {
            Some(o) => {
                &&& post.counters() == pre.counters().after_hit()
                &&& if pre.pinned_objects().contains_key(id) {
                    post.cache_entries() == pre.cache_entries()
                } else {
                    post.cache_entries() == seq![(id, o)] + remove_key(pre.cache_entries(), id)
                }
            },
            None => {
                &&& post.counters() == pre.counters().after_miss()
                &&& post.cache_entries() == pre.cache_entries()
            },
        }
    }

    /// Creates a store with the given configuration.
    pub fn new(config: StoreConfig) -> (s: Self)
        ensures
            s.wf(),
            s.configuration() == config,
            s.capacity() == effective_capacity(config.max_memory),
            s.cache_entries().len() == 0,
            s.pinned_objects() == no_pinned_objects(),
            s.counters() == StatsCollector::zero(),
    {
        let capacity = if config.max_memory == 0 { 1 } else { config.max_memory };
        let s = InMemoryStore {
            cache: lru_new(capacity),
            pinned: pinned_new(),
            stats: StatsCollector::new(),
            config,
        };
        proof {
            lemma_map_weight_empty();
        }
        s
    }

    /// Stores `data` under `id` unless it does not fit; shared by `put` and
    /// `put_with_id`.
    fn insert_object(&mut self, id: ObjectId, data: Vec<u8>, type_id: TypeId, type_label: String, detailed: bool) -> (r: Result<PutResult>)
        requires
            old(self).wf(),
        ensures
            final(self).wf(),
            (match Self::put_rejection(*old(self), data@.len() as usize, detailed) {
                Some(m) => *final(self) == *old(self) && (r matches Err(e) && is_internal(e, m)),
                None => (r matches Ok(p) && p.id == id && p.size == data@.len())
                    && Self::put_done(*old(self), *final(self), id.id, data@, type_label@)
                    && final(self).cache_entries()[0].1.metadata.type_id == type_id,
            }),
    {
        let size = data.len();
        let max = self.config.max_memory;
        if size > max {
            return Err(RustyRayError::Internal(text_exceeds_limit(size, max)));
        }
        let pinned_size = self.stats.pinned_size;
        let available = if max >= pinned_size { max - pinned_size } else { 0 };
        if size > available {
            return Err(RustyRayError::Internal(text_no_room(size, available, pinned_size, detailed)));
        }
        let capacity = if max == 0 { 1 } else { max };
        if size >= capacity {
            return Err(RustyRayError::Internal(text_too_large(size)));
        }
        let metadata = ObjectMetadata {
            size,
            created_at: instant_now(),
            ref_count: 1,
            type_id,
            type_label,
            is_pinned: false,
        };
        let stored = StoredObject { data: bytes_from_vec(data), metadata };
        let ghost pre_entries = self.cache_entries();
        let ghost cap = self.capacity();
        let ghost r = remove_key(pre_entries, id.id);
        let ghost t = trim_for(r, size as nat, available as nat);
        // The object's old entry, if any, is replaced rather than evicted.
        let old_entry = lru_pop(&mut self.cache, id.id);
        proof {
            match old_entry {
                Some(v) => {
                    let i = choose|i: int| 0 <= i < pre_entries.len() && #[trigger] pre_entries[i] == (id.id, v)
                        && self.cache_entries() == pre_entries.remove(i);
                    lemma_remove_key_at(pre_entries, id.id, i);
                },
                None => {
                    lemma_remove_key_absent(pre_entries, id.id);
                },
            }
            lemma_remove_key_props(pre_entries, id.id);
            lemma_trim_for(r, size as nat, available as nat);
            lemma_unique_subrange(r, t.len() as int);
        }
        // Pinned bytes count against the memory limit: make room for the
        // object within what they leave.
        let trimmed = lru_trim(&mut self.cache, size, available);
        let before = lru_len(&self.cache);
        let result = lru_put_with_weight(&mut self.cache, id.id, stored);
        match result {
            Ok(_) => {
                let after = lru_len(&self.cache);
                proof {
                    lemma_store_entries(pre_entries, id.id, stored, cap, available as nat);
                    assert(self.cache_entries() == store_entries(pre_entries, id.id, stored, cap, available as nat));
                    assert(self.cache_entries()[0] == (id.id, stored));
                    lemma_evict_prefix(t, size as nat, cap);
                    assert(r.len() <= pre_entries.len());
                    assert(pre_entries.len() <= cap);
                }
                let evicted = trimmed + (before - (after - 1));
                self.stats.eviction_count = self.stats.eviction_count.wrapping_add(evicted as u64);
                self.stats.put_count = self.stats.put_count.wrapping_add(1);
                proof {
                    assert forall|i: int| 0 <= i < self.cache_entries().len() implies
                        !(#[trigger] self.cache_entries()[i]).1.metadata.is_pinned by {
                        if i > 0 {
                            let j = choose|j: int| 0 <= j < pre_entries.len() && self.cache_entries()[i] == pre_entries[j];
                            assert(!pre_entries[j].1.metadata.is_pinned);
                        }
                    }
                }
                Ok(PutResult { id, size })
            },
            Err(_) => Err(RustyRayError::Internal(text_too_large(size))),
        }
    }

    /// Whether an object is stored under `id`, pinned or cached.
    fn id_in_use(&self, id: u64) -> (b: bool)
        requires
            self.wf(),
        ensures
            b == self.lookup(id) is Some,
    {
        match self.object_exists(ObjectId::from_u64(id)) {
            Ok(b) => b,
            Err(_) => true,
        }
    }

    /// Draws an id under which nothing is stored: a fresh random id, or, if
    /// that one is taken, the next free one after it (wrapping around). Only
    /// when every id is taken does the id returned hold an object.
    fn fresh_object_id(&self) -> (id: ObjectId)
        requires
            self.wf(),
        ensures
            (exists|k: u64| #[trigger] self.lookup(k) is None) ==> self.lookup(id.id) is None,
    {
        let start = ObjectId::new();
        let mut candidate: u64 = start.id;
        let mut t: u64 = 0;
        while t < u64::MAX && self.id_in_use(candidate)
            invariant
                self.wf(),
                t <= u64::MAX,
                candidate == probe_id(start.id, t as nat),
                forall|s: nat| s < t ==> #[trigger] self.lookup(probe_id(start.id, s)) is Some,
            decreases u64::MAX - t,
        {
            proof {
                assert(self.lookup(probe_id(start.id, t as nat)) is Some);
            }
            candidate = candidate.wrapping_add(1);
            t = t + 1;
        }
        proof {
            if self.lookup(candidate) is Some && (exists|k: u64| #[trigger] self.lookup(k) is None) {
                let k = choose|k: u64| #[trigger] self.lookup(k) is None;
                assert(t == u64::MAX);
                let s: nat = ((k as int - start.id as int) % 0x1_0000_0000_0000_0000) as nat;
                assert(probe_id(start.id, s) == k);
                if s < t {
                    assert(self.lookup(probe_id(start.id, s)) is Some);
                } else {
                    assert(s == t);
                }
            }
        }
        ObjectId::from_u64(candidate)
    }

    /// Stores serialized object bytes under a fresh id, with the type
    /// identity they were serialized from. The id is fresh: nothing was
    /// stored under it before (unless every id was taken), so a put never
    /// replaces or hides an object stored earlier.
    pub fn put(&mut self, data: Vec<u8>, type_id: TypeId, type_label: String) -> (r: Result<PutResult>)
        requires
            old(self).wf(),
        ensures
            final(self).wf(),
            (match Self::put_rejection(*old(self), data@.len() as usize, true) {
                Some(m) => *final(self) == *old(self) && (r matches Err(e) && is_internal(e, m)),
                None => (r matches Ok(p) && p.size == data@.len()
                    && Self::put_done(*old(self), *final(self), p.id.id, data@, type_label@))
                    && final(self).cache_entries()[0].1.metadata.type_id == type_id,
            }),
            r matches Ok(p) ==> ((exists|k: u64| #[trigger] old(self).lookup(k) is None) ==> old(self).lookup(p.id.id) is None),
    {
        let id = self.fresh_object_id();
        self.insert_object(id, data, type_id, type_label, true)
    }

    /// Stores raw bytes under a given id (used for task results).
    pub fn put_with_id(&mut self, id: ObjectId, data: Vec<u8>) -> (r: Result<PutResult>)
        requires
            old(self).wf(),
        ensures
            final(self).wf(),
            (match Self::put_rejection(*old(self), data@.len() as usize, false) {
                Some(m) => *final(self) == *old(self) && (r matches Err(e) && is_internal(e, m)),
                None => (r matches Ok(p) && p.id == id && p.size == data@.len())
                    && Self::put_done(*old(self), *final(self), id.id, data@, "Vec<u8>"@),
            }),
    {
        let type_label = "Vec<u8>".to_owned();
        self.insert_object(id, data, byte_vec_type_id(), type_label, false)
    }

    /// Reads `id`: the pinned object if any, else the cached one, which
    /// becomes the most recently used; counts the read as a hit or a miss.
    fn fetch(&mut self, id: ObjectId) -> (r: Option<StoredObject>)
        requires
            old(self).wf(),
        ensures
            final(self).wf(),
            Self::read_done(*old(self), *final(self), id.id),
            (match old(self).lookup(id.id) {
                Some(o) => r matches Some(v) && v.content() == o.content() && v.metadata == o.metadata,
                None => r is None,
            }),
    {
        self.stats.get_count = self.stats.get_count.wrapping_add(1);
        let pinned = pinned_get(&self.pinned, id.id);
        if let Some(entry) = pinned {
            self.stats.hit_count = self.stats.hit_count.wrapping_add(1);
            return Some(entry);
        }
        let ghost pre_entries = self.cache_entries();
        let cached = lru_get(&mut self.cache, id.id);
        match cached {
            Some(entry) => {
                self.stats.hit_count = self.stats.hit_count.wrapping_add(1);
                proof {
                    let i = choose|i: int| 0 <= i < pre_entries.len() && #[trigger] pre_entries[i].0 == id.id
                        && entry.content() == pre_entries[i].1.content()
                        && entry.metadata == pre_entries[i].1.metadata
                        && self.cache_entries() == seq![pre_entries[i]] + pre_entries.remove(i);
                    lemma_move_front(pre_entries, id.id, i);
                    lemma_lookup_at(pre_entries, id.id, i);
                    assert forall|j: int| 0 <= j < self.cache_entries().len() implies
                        !(#[trigger] self.cache_entries()[j]).1.metadata.is_pinned by {
                        let m = choose|m: int| 0 <= m < pre_entries.len() && self.cache_entries()[j] == pre_entries[m];
                        assert(!pre_entries[m].1.metadata.is_pinned);
                    }
                }
                Some(entry)
            },
            None => {
                self.stats.miss_count = self.stats.miss_count.wrapping_add(1);
                proof {
                    lemma_lookup_absent(pre_entries, id.id);
                }
                None
            },
        }
    }

    /// Reads the raw bytes of `id`.
    pub fn get_raw(&mut self, id: ObjectId) -> (r: Result<Option<Bytes>>)
        requires
            old(self).wf(),
        ensures
            final(self).wf(),
            Self::read_done(*old(self), *final(self), id.id),
            (match old(self).lookup(id.id) {
                Some(o) => r matches Ok(Some(b)) && bytes_content(b) == o.content(),
                None => r matches Ok(None),
            }),
    {
        match self.fetch(id) {
            Some(entry) => Ok(Some(entry.data)),
            None => Ok(None),
        }
    }

    /// Reads the bytes of `id`, checking that they were stored from the
    /// expected type.
    pub fn get(&mut self, id: ObjectId, expected_type: &TypeId, expected_label: &str) -> (r: Result<Option<Bytes>>)
        requires
            old(self).wf(),
        ensures
            final(self).wf(),
            Self::read_done(*old(self), *final(self), id.id),
            (match old(self).lookup(id.id) {
                Some(o) => if o.metadata.type_id == *expected_type {
                    r matches Ok(Some(b)) && bytes_content(b) == o.content()
                } else {
                    r matches Err(e) && is_internal(e, msg_type_mismatch(id.id, expected_label@, o.metadata.type_label@))
                },
                None => r matches Ok(None),
            }),
    {
        match self.fetch(id) {
            Some(entry) => {
                if !type_ids_equal(&entry.metadata.type_id, expected_type) {
                    return Err(RustyRayError::Internal(
                        text_type_mismatch(id.id, expected_label, &entry.metadata.type_label),
                    ));
                }
                Ok(Some(entry.data))
            },
            None => Ok(None),
        }
    }

    /// Whether `id` is stored, pinned or cached. Does not count as a read.
    pub fn object_exists(&self, id: ObjectId) -> (r: Result<bool>)
        requires
            self.wf(),
        ensures
            r matches Ok(b) && b == self.lookup(id.id) is Some,
    {
        if pinned_contains(&self.pinned, id.id) {
            return Ok(true);
        }
        proof {
            lemma_lookup_some(self.cache_entries(), id.id);
        }
        Ok(lru_peek(&self.cache, id.id).is_some())
    }

    /// The metadata of `id`, if stored. Does not count as a read.
    pub fn metadata(&self, id: ObjectId) -> (r: Result<Option<ObjectMetadata>>)
        requires
            self.wf(),
        ensures
            (match self.lookup(id.id) {
                Some(o) => r matches Ok(Some(m)) && m == o.metadata,
                None => r matches Ok(None),
            }),
    {
        if let Some(entry) = pinned_get(&self.pinned, id.id) {
            return Ok(Some(entry.metadata));
        }
        match lru_peek(&self.cache, id.id) {
            Some(entry) => {
                proof {
                    let i = choose|i: int| 0 <= i < self.cache_entries().len()
                        && #[trigger] self.cache_entries()[i].0 == id.id
                        && entry.metadata == self.cache_entries()[i].1.metadata;
                    lemma_lookup_at(self.cache_entries(), id.id, i);
                }
                Ok(Some(entry.metadata))
            },
            None => {
                proof {
                    lemma_lookup_absent(self.cache_entries(), id.id);
                }
                Ok(None)
            },
        }
    }

    /// `post` is `pre` after pinning `id`, whose cached object was `o`.
    pub open spec fn pin_done(pre: Self, post: Self, id: u64, o: StoredObject) -> bool {
        &&& Self::same_layout(pre, post)
        &&& post.cache_entries() == remove_key(pre.cache_entries(), id)
        &&& post.pinned_objects() == pre.pinned_objects().insert(id, with_pin_flag(o, true))
        &&& post.counters() == StatsCollector {
            pinned_count: (pre.counters().pinned_count + 1) as usize,
            pinned_size: (pre.counters().pinned_size + o.metadata.size) as usize,
            ..pre.counters()
        }
    }

    /// Pins `id`: moves its object from the cache to the pinned area, where
    /// it is never evicted. Pinning a pinned object does nothing.
    pub fn pin(&mut self, id: ObjectId) -> (r: Result<()>)
        requires
            old(self).wf(),
        ensures
            final(self).wf(),
            (if old(self).pinned_objects().contains_key(id.id) {
                *final(self) == *old(self) && r is Ok
            } else {
                match cache_lookup(old(self).cache_entries(), id.id) {
                    None => *final(self) == *old(self) && (r matches Err(e) && is_internal(e, msg_not_found(id.id))),
                    Some(o) => if old(self).counters().pinned_count + 1 > usize::MAX
                        || old(self).counters().pinned_size + o.metadata.size > usize::MAX {
                        *final(self) == *old(self) && (r matches Err(e) && is_internal(e, msg_pin_overflow(id.id)))
                    } else {
                        r is Ok && Self::pin_done(*old(self), *final(self), id.id, o)
                    },
                }
            }),
    {
        if pinned_contains(&self.pinned, id.id) {
            return Ok(());
        }
        let ghost pre = *self;
        let ghost pre_entries = self.cache_entries();
        let size = match lru_peek(&self.cache, id.id) {
            Some(entry) => {
                proof {
                    let i = choose|i: int| 0 <= i < pre_entries.len() && #[trigger] pre_entries[i].0 == id.id
                        && entry.metadata == pre_entries[i].1.metadata;
                    lemma_lookup_at(pre_entries, id.id, i);
                }
                entry.metadata.size
            },
            None => {
                proof {
                    lemma_lookup_absent(pre_entries, id.id);
                }
                return Err(RustyRayError::Internal(text_object_id("Object ", id.id, " not found")));
            },
        };
        let new_count = match self.stats.pinned_count.checked_add(1) {
            Some(c) => c,
            None => {
                return Err(RustyRayError::Internal(
                    text_object_id("Cannot pin object ", id.id, ": pinned totals would overflow"),
                ));
            },
        };
        let new_size = match self.stats.pinned_size.checked_add(size) {
            Some(c) => c,
            None => {
                return Err(RustyRayError::Internal(
                    text_object_id("Cannot pin object ", id.id, ": pinned totals would overflow"),
                ));
            },
        };
        match lru_pop(&mut self.cache, id.id) {
            Some(mut entry) => {
                proof {
                    let i = choose|i: int| 0 <= i < pre_entries.len() && #[trigger] pre_entries[i] == (id.id, entry)
                        && self.cache_entries() == pre_entries.remove(i);
                    lemma_remove_key_at(pre_entries, id.id, i);
                    lemma_remove_key_props(pre_entries, id.id);
                    lemma_lookup_at(pre_entries, id.id, i);
                    lemma_weight_remove(pre_entries, i);
                    lemma_map_weight_insert(pre.pinned_objects(), id.id, with_pin_flag(entry, true));
                    assert forall|j: int| 0 <= j < self.cache_entries().len() implies
                        !(#[trigger] self.cache_entries()[j]).1.metadata.is_pinned by {
                        let m = choose|m: int| 0 <= m < pre_entries.len() && remove_key(pre_entries, id.id)[j] == pre_entries[m];
                        assert(!pre_entries[m].1.metadata.is_pinned);
                    }
                }
                entry.metadata.is_pinned = true;
                let _ = pinned_insert(&mut self.pinned, id.id, entry);
                self.stats.pinned_count = new_count;
                self.stats.pinned_size = new_size;
                Ok(())
            },
            None => {
                proof {
                    lemma_lookup_some(pre_entries, id.id);
                }
                Err(RustyRayError::Internal(text_object_id("Object ", id.id, " not found")))
            },
        }
    }

    /// `post` is `pre` after unpinning `id`.
    pub open spec fn unpin_done(pre: Self, post: Self, id: u64) -> bool {
        let o = pre.pinned_objects()[id];
        &&& Self::same_layout(pre, post)
        &&& post.pinned_objects() == pre.pinned_objects().remove(id)
        &&& post.cache_entries().len() > 0
        &&& post.cache_entries()[0].1.content() == o.content()
        &&& post.cache_entries()[0].1.metadata == ObjectMetadata { is_pinned: false, ..o.metadata }
        &&& post.cache_entries() == put_entries(pre.cache_entries(), id, post.cache_entries()[0].1, pre.capacity())
        &&& post.counters() == StatsCollector {
            pinned_count: (pre.counters().pinned_count - 1) as usize,
            pinned_size: (pre.counters().pinned_size - o.metadata.size) as usize,
            eviction_count: wrapping_add(
                pre.counters().eviction_count,
                evicted_count(pre.cache_entries(), id, o.weight(), pre.capacity()) as u64,
            ),
            ..pre.counters()
        }
    }

    /// Unpins `id`: moves its object back into the cache, which may evict
    /// other objects to make room. If the object cannot fit in the cache it
    /// stays pinned and nothing changes.
    pub fn unpin(&mut self, id: ObjectId) -> (r: Result<()>)
        requires
            old(self).wf(),
        ensures
            final(self).wf(),
            (if !old(self).pinned_objects().contains_key(id.id) {
                *final(self) == *old(self) && (r matches Err(e) && is_internal(e, msg_not_pinned(id.id)))
            } else if old(self).pinned_objects()[id.id].weight() >= old(self).capacity() {
                *final(self) == *old(self) && (r matches Err(e) && is_internal(e, msg_unpin_no_room(id.id)))
            } else {
                r is Ok && Self::unpin_done(*old(self), *final(self), id.id)
            }),
    {
        let ghost pre = *self;
        let mut entry = match pinned_get(&self.pinned, id.id) {
            Some(e) => e,
            None => {
                return Err(RustyRayError::Internal(
                    text_object_id("Object ", id.id, " not found or not pinned"),
                ));
            },
        };
        entry.metadata.is_pinned = false;
        let size = entry.metadata.size;
        let ghost moved = entry;
        let before = lru_len(&self.cache);
        match lru_put_with_weight(&mut self.cache, id.id, entry) {
            Ok(replaced) => {
                let after = lru_len(&self.cache);
                proof {
                    lemma_put_entries(pre.cache_entries(), id.id, moved, pre.capacity());
                    lemma_remove_key_props(pre.cache_entries(), id.id);
                    lemma_map_weight_remove(pre.pinned_objects(), id.id);
                    assert(self.cache_entries()[0] == (id.id, moved));
                    let rk = remove_key(pre.cache_entries(), id.id);
                    lemma_weight_remove_key(pre.cache_entries(), id.id);
                    lemma_evict_prefix(rk, moved.weight(), pre.capacity());
                    let e = evict_for(rk, moved.weight(), pre.capacity());
                    lemma_weight_prefix(rk, e.len() as int);
                    lemma_weight_push_front((id.id, moved), e);
                }
                let _ = pinned_remove(&mut self.pinned, id.id);
                let rep: usize = if replaced.is_some() { 1 } else { 0 };
                let evicted = (before - rep) - (after - 1);
                self.stats.eviction_count = self.stats.eviction_count.wrapping_add(evicted as u64);
                self.stats.pinned_count = self.stats.pinned_count - 1;
                self.stats.pinned_size = self.stats.pinned_size - size;
                proof {
                    assert forall|i: int| 0 <= i < self.cache_entries().len() implies
                        !(#[trigger] self.cache_entries()[i]).1.metadata.is_pinned by {
                        if i > 0 {
                            let j = choose|j: int| 0 <= j < pre.cache_entries().len()
                                && self.cache_entries()[i] == pre.cache_entries()[j];
                            assert(!pre.cache_entries()[j].1.metadata.is_pinned);
                        }
                    }
                }
                Ok(())
            },
            Err(_) => Err(RustyRayError::Internal(
                text_object_id("Cannot unpin object ", id.id, ": insufficient space in cache. Object remains pinned."),
            )),
        }
    }

    /// `post` is `pre` after deleting `id`, which answered `deleted`.
    pub open spec fn delete_done(pre: Self, post: Self, id: u64, deleted: bool) -> bool {
        if pre.pinned_objects().contains_key(id) {
            &&& deleted
            &&& Self::same_layout(pre, post)
            &&& post.cache_entries() == pre.cache_entries()
            &&& post.pinned_objects() == pre.pinned_objects().remove(id)
            &&& post.counters() == StatsCollector {
                pinned_count: (pre.counters().pinned_count - 1) as usize,
                pinned_size: (pre.counters().pinned_size - pre.pinned_objects()[id].metadata.size) as usize,
                ..pre.counters()
            }
        } else if has_key(pre.cache_entries(), id) {
            &&& deleted
            &&& Self::same_layout(pre, post)
            &&& post.cache_entries() == remove_key(pre.cache_entries(), id)
            &&& post.pinned_objects() == pre.pinned_objects()
            &&& post.counters() == pre.counters()
        } else {
            !deleted && post == pre
        }
    }

    /// Deletes `id` from the store: from the pinned area if it is pinned,
    /// else from the cache. Returns whether anything was deleted.
    pub fn delete(&mut self, id: ObjectId) -> (r: Result<bool>)
        requires
            old(self).wf(),
        ensures
            final(self).wf(),
            (r matches Ok(b) && Self::delete_done(*old(self), *final(self), id.id, b)),
    {
        let ghost pre = *self;
        match pinned_remove(&mut self.pinned, id.id) {
            Some(entry) => {
                proof {
                    lemma_map_weight_remove(pre.pinned_objects(), id.id);
                }
                self.stats.pinned_count = self.stats.pinned_count - 1;
                self.stats.pinned_size = self.stats.pinned_size - entry.metadata.size;
                return Ok(true);
            },
            None => {},
        }
        match lru_pop(&mut self.cache, id.id) {
            Some(entry) => {
                proof {
                    let i = choose|i: int| 0 <= i < pre.cache_entries().len()
                        && #[trigger] pre.cache_entries()[i] == (id.id, entry)
                        && self.cache_entries() == pre.cache_entries().remove(i);
                    lemma_remove_key_at(pre.cache_entries(), id.id, i);
                    lemma_remove_key_props(pre.cache_entries(), id.id);
                    lemma_weight_remove(pre.cache_entries(), i);
                    assert forall|j: int| 0 <= j < self.cache_entries().len() implies
                        !(#[trigger] self.cache_entries()[j]).1.metadata.is_pinned by {
                        let m = choose|m: int| 0 <= m < pre.cache_entries().len()
                            && remove_key(pre.cache_entries(), id.id)[j] == pre.cache_entries()[m];
                        assert(!pre.cache_entries()[m].1.metadata.is_pinned);
                    }
                }
                Ok(true)
            },
            None => Ok(false),
        }
    }

    /// `post` is `pre` after clearing the store.
    pub open spec fn clear_done(pre: Self, post: Self) -> bool {
        &&& Self::same_layout(pre, post)
        &&& post.cache_entries().len() == 0
        &&& post.pinned_objects() == no_pinned_objects()
        &&& post.counters() == (StatsCollector { pinned_count: 0, pinned_size: 0, ..pre.counters() })
    }

    /// Removes every object, pinned or cached, and resets the pinned
    /// counters. The other statistics stay.
    pub fn clear(&mut self) -> (r: Result<()>)
        requires
            old(self).wf(),
        ensures
            final(self).wf(),
            r is Ok,
            Self::clear_done(*old(self), *final(self)),
    {
        pinned_clear(&mut self.pinned);
        lru_clear(&mut self.cache);
        self.stats.pinned_count = 0;
        self.stats.pinned_size = 0;
        proof {
            lemma_map_weight_empty();
        }
        Ok(())
    }

    /// The store's statistics. The total size, pinned and cached, is within
    /// the memory limit; an object count that would exceed `usize::MAX` is
    /// reported as `usize::MAX`.
    pub fn stats(&self) -> (r: StoreStats)
        requires
            self.wf(),
        ensures
            r.total_objects == min_usize(self.cache_entries().len() + self.counters().pinned_count),
            r.total_size == weight_of(self.cache_entries()) + self.counters().pinned_size,
            r.total_size <= self.configuration().max_memory,
            r.hit_count == self.counters().hit_count,
            r.miss_count == self.counters().miss_count,
            r.eviction_count == self.counters().eviction_count,
            r.put_count == self.counters().put_count,
            r.get_count == self.counters().get_count,
            r.pinned_count == self.counters().pinned_count,
            r.size_histogram@.len() == 0,
    {
        let cache_weight = lru_weight(&self.cache);
        let cache_count = lru_len(&self.cache);
        StoreStats {
            total_objects: cache_count.saturating_add(self.stats.pinned_count),
            total_size: cache_weight + self.stats.pinned_size,
            hit_count: self.stats.hit_count,
            miss_count: self.stats.miss_count,
            eviction_count: self.stats.eviction_count,
            put_count: self.stats.put_count,
            get_count: self.stats.get_count,
            pinned_count: self.stats.pinned_count,
            size_histogram: Vec::new(),
        }
    }
}

/// `n`, or `usize::MAX` if `n` is larger.
pub open spec fn min_usize(n: int) -> usize {
    if n > usize::MAX {
        usize::MAX
    } else {
        n as usize
    }
}


// ---------------------------------------------------------------------------
// Laws of the object store
// ---------------------------------------------------------------------------

/// What a successful put stores can be read back under its id (unless that
/// id was already pinned, in which case reads find the pinned object).
pub proof fn law_put_then_read(pre: InMemoryStore, post: InMemoryStore, id: u64, data: Seq<u8>, label: Seq<char>)
    requires
        pre.wf(),
        InMemoryStore::put_done(pre, post, id, data, label),
        !pre.pinned_objects().contains_key(id),
    ensures
        post.lookup(id) matches Some(o) && o.content() == data,
{
    assert(post.cache_entries()[0].0 == id);
}

/// Two puts in a row return different ids, and the second leaves the first's
/// object readable: each put's id is fresh (as `put` ensures whenever some
/// id is free), and the first object can be read back after the first put,
/// so the second put cannot draw the first one's id.
pub proof fn law_puts_get_distinct_ids(
    s0: InMemoryStore, s1: InMemoryStore, id1: u64, data1: Seq<u8>, label1: Seq<char>, id2: u64,
)
    requires
        s0.wf(),
        exists|k: u64| #[trigger] s0.lookup(k) is None,
        s0.lookup(id1) is None,
        InMemoryStore::put_done(s0, s1, id1, data1, label1),
        exists|k: u64| #[trigger] s1.lookup(k) is None,
        s1.lookup(id2) is None,
    ensures
        id1 != id2,
        s1.lookup(id1) matches Some(o) && o.content() == data1,
{
    law_put_then_read(s0, s1, id1, data1, label1);
}

/// A put never changes what another id holds: it can only evict it from the
/// cache.
pub proof fn law_put_keeps_others(pre: InMemoryStore, post: InMemoryStore, id: u64, data: Seq<u8>, label: Seq<char>, k: u64)
    requires
        pre.wf(),
        InMemoryStore::put_done(pre, post, id, data, label),
        k != id,
        post.lookup(k) is Some,
    ensures
        post.lookup(k) == pre.lookup(k),
{
    if !pre.pinned_objects().contains_key(k) {
        let r = remove_key(pre.cache_entries(), id);
        let v = post.cache_entries()[0].1;
        let budget = available_space(pre.configuration().max_memory, pre.counters().pinned_size) as nat;
        lemma_trim_for(r, v.weight(), budget);
        let t = trim_for(r, v.weight(), budget);
        lemma_evict_prefix(t, v.weight(), pre.capacity());
        let e = evict_for(t, v.weight(), pre.capacity());
        assert(e =~= r.subrange(0, e.len() as int));
        lemma_lookup_front_other((id, v), e, k);
        lemma_lookup_prefix(r, e.len() as int, k);
        lemma_lookup_remove_other(pre.cache_entries(), id, k);
    }
}

/// Pinned objects are never evicted: a put leaves every pinned object where
/// it was.
pub proof fn law_put_keeps_pinned(pre: InMemoryStore, post: InMemoryStore, id: u64, data: Seq<u8>, label: Seq<char>, k: u64)
    requires
        InMemoryStore::put_done(pre, post, id, data, label),
        pre.pinned_objects().contains_key(k),
    ensures
        post.lookup(k) == pre.lookup(k),
{
}

/// Pinned objects are never evicted: unpinning one object leaves every other
/// pinned object where it was.
pub proof fn law_unpin_keeps_pinned(pre: InMemoryStore, post: InMemoryStore, id: u64, k: u64)
    requires
        InMemoryStore::unpin_done(pre, post, id),
        pre.pinned_objects().contains_key(k),
        k != id,
    ensures
        post.lookup(k) == pre.lookup(k),
{
}

/// A read changes no id's object: it only refreshes the recency of the one
/// it reads.
pub proof fn law_read_keeps_contents(pre: InMemoryStore, post: InMemoryStore, id: u64, k: u64)
    requires
        pre.wf(),
        InMemoryStore::read_done(pre, post, id),
    ensures
        post.lookup(k) == pre.lookup(k),
{
    if !pre.pinned_objects().contains_key(id) && pre.lookup(id) is Some {
        if k == id {
            assert((seq![(id, pre.lookup(id).unwrap())] + remove_key(pre.cache_entries(), id))[0].0 == id);
        } else {
            lemma_lookup_front_other((id, pre.lookup(id).unwrap()), remove_key(pre.cache_entries(), id), k);
            lemma_lookup_remove_other(pre.cache_entries(), id, k);
        }
    }
}

/// After a delete, the id holds nothing (unless it was both pinned and
/// cached: a delete removes the pinned copy only).
pub proof fn law_delete_removes(pre: InMemoryStore, post: InMemoryStore, id: u64, deleted: bool)
    requires
        pre.wf(),
        InMemoryStore::delete_done(pre, post, id, deleted),
        !(pre.pinned_objects().contains_key(id) && has_key(pre.cache_entries(), id)),
    ensures
        post.lookup(id) is None,
        deleted == pre.lookup(id) is Some,
{
    lemma_lookup_some(pre.cache_entries(), id);
    if pre.pinned_objects().contains_key(id) {
        lemma_lookup_absent(pre.cache_entries(), id);
    } else if has_key(pre.cache_entries(), id) {
        lemma_remove_key_props(pre.cache_entries(), id);
        lemma_lookup_absent(post.cache_entries(), id);
    } else {
        lemma_lookup_absent(pre.cache_entries(), id);
    }
}

/// A delete changes no other id's object.
pub proof fn law_delete_keeps_others(pre: InMemoryStore, post: InMemoryStore, id: u64, deleted: bool, k: u64)
    requires
        pre.wf(),
        InMemoryStore::delete_done(pre, post, id, deleted),
        k != id,
    ensures
        post.lookup(k) == pre.lookup(k),
{
    lemma_lookup_remove_other(pre.cache_entries(), id, k);
}

/// Pinning an object and unpinning it again puts the same bytes and
/// metadata back in the cache, as its most recently used entry, and leaves
/// the pinned area as it was.
pub proof fn law_pin_unpin_roundtrip(s0: InMemoryStore, s1: InMemoryStore, s2: InMemoryStore, id: u64, o: StoredObject)
    requires
        s0.wf(),
        !s0.pinned_objects().contains_key(id),
        cache_lookup(s0.cache_entries(), id) == Some(o),
        InMemoryStore::pin_done(s0, s1, id, o),
        InMemoryStore::unpin_done(s1, s2, id),
    ensures
        s2.pinned_objects() == s0.pinned_objects(),
        s2.cache_entries()[0].0 == id,
        s2.lookup(id) matches Some(v) && v.content() == o.content() && v.metadata == o.metadata,
{
    lemma_lookup_some(s0.cache_entries(), id);
    let i = choose|i: int| 0 <= i < s0.cache_entries().len() && s0.cache_entries()[i].0 == id;
    lemma_lookup_at(s0.cache_entries(), id, i);
    assert(!s0.cache_entries()[i].1.metadata.is_pinned);
    assert(s2.pinned_objects() =~= s0.pinned_objects());
}

/// After a clear, no id holds anything.
pub proof fn law_clear_empties(pre: InMemoryStore, post: InMemoryStore, k: u64)
    requires
        InMemoryStore::clear_done(pre, post),
    ensures
        post.lookup(k) is None,
{
}

/// The cache never holds more than its capacity: the number of cached
/// objects plus their total size stays within the memory limit (or one, for
/// a zero limit).
pub proof fn law_cache_within_memory(s: InMemoryStore)
    requires
        s.wf(),
    ensures
        s.cache_entries().len() + weight_of(s.cache_entries()) <= effective_capacity(s.configuration().max_memory),
{
}

/// The cache's capacity is fixed by the memory limit: the limit itself, or
/// one for a zero limit. So an object is too large for the cache exactly when
/// its size reaches that capacity.
pub proof fn law_capacity_from_memory(s: InMemoryStore)
    requires
        s.wf(),
    ensures
        s.capacity() == effective_capacity(s.configuration().max_memory),
{
}

/// The memory limit covers pinned and cached objects together: their total
/// size never exceeds it.
pub proof fn law_total_within_memory(s: InMemoryStore)
    requires
        s.wf(),
    ensures
        weight_of(s.cache_entries()) + s.counters().pinned_size <= s.configuration().max_memory,
{
}

/// Every read is counted as exactly one hit or one miss (modulo 2^64, as
/// the counters wrap).
pub proof fn law_reads_are_hits_or_misses(s: InMemoryStore)
    requires
        s.wf(),
    ensures
        wrapping_add(s.counters().hit_count, s.counters().miss_count) == s.counters().get_count,
{
}

/// The pinned counters agree with the pinned area: the count is the number
/// of pinned objects and the size is their total size.
pub proof fn law_pinned_counters(s: InMemoryStore)
    requires
        s.wf(),
    ensures
        s.counters().pinned_count == s.pinned_objects().dom().len(),
        s.counters().pinned_size == map_weight(s.pinned_objects()),
{
}

/// An object larger than the memory limit is never stored.
pub proof fn law_oversized_rejected(pre: InMemoryStore, size: usize, detailed: bool)
    requires
        size > pre.configuration().max_memory,
    ensures
        InMemoryStore::put_rejection(pre, size, detailed) == Some(msg_exceeds_limit(size, pre.configuration().max_memory)),
{
}

} // verus!
