//! Plain data types of the object store.

use super::buffer::{bytes_clone, bytes_content};
use crate::types::ObjectId;
use bytes::Bytes;
use std::any::TypeId;
use std::time::Instant;
use vstd::prelude::*;

verus! {

#[verifier::external_type_specification]
#[verifier::external_body]
pub struct ExTypeId(TypeId);

#[verifier::external_type_specification]
#[verifier::external_body]
pub struct ExInstant(Instant);

/// Whether two type identifiers denote the same type.
///
/// Calls `<TypeId as PartialEq>::eq`; type identifiers are equal exactly
/// when they are the same value.
#[verifier::external_body]
pub(crate) fn type_ids_equal(a: &TypeId, b: &TypeId) -> (r: bool)
    ensures
        r == (*a == *b),
{
    *a == *b
}

/// The current instant.
///
/// Calls `std::time::Instant::now`; nothing is claimed of the clock.
#[verifier::external_body]
pub(crate) fn instant_now() -> Instant {
    Instant::now()
}

/// Metadata about stored objects.
#[derive(Debug)]
pub struct ObjectMetadata {
    /// Size of the object in bytes.
    pub size: usize,
    /// When the object was created.
    pub created_at: Instant,
    /// Reference count (kept for statistics).
    pub ref_count: usize,
    /// Type information for runtime type checking.
    pub type_id: TypeId,
    /// Type name for debugging.
    pub type_label: String,
    /// Whether this object is pinned (cannot be evicted).
    pub is_pinned: bool,
}

impl Clone for ObjectMetadata {
    fn clone(&self) -> (r: Self)
        ensures
            r == *self,
    {
        ObjectMetadata {
            size: self.size,
            created_at: self.created_at,
            ref_count: self.ref_count,
            type_id: self.type_id,
            type_label: self.type_label.clone(),
            is_pinned: self.is_pinned,
        }
    }
}

/// Result of a put operation.
#[derive(Debug)]
pub struct PutResult {
    /// The ID assigned to the stored object.
    pub id: ObjectId,
    /// Size of the stored object in bytes.
    pub size: usize,
}

/// Eviction policy for the cache.
#[derive(Debug, Clone, Copy, PartialEq, Eq, Structural)]
pub enum EvictionPolicy {
    /// Least Recently Used.
    LRU,
    /// First In First Out.
    FIFO,
    /// Least Frequently Used.
    LFU,
}

/// Configuration for the object store.
#[derive(Debug, Clone, Copy)]
pub struct StoreConfig {
    /// Maximum memory usage in bytes.
    pub max_memory: usize,
    /// Eviction policy to use when memory is full.
    pub eviction_policy: EvictionPolicy,
    /// Whether to collect detailed statistics.
    pub enable_stats: bool,
}

impl Default for StoreConfig {
    fn default() -> (r: Self)
        ensures
            r.max_memory == 1_073_741_824,
            r.eviction_policy == EvictionPolicy::LRU,
            r.enable_stats,
    {
        StoreConfig {
            max_memory: 1_073_741_824,
            eviction_policy: EvictionPolicy::LRU,
            enable_stats: true,
        }
    }
}

/// Store statistics.
#[derive(Debug)]
pub struct StoreStats {
    /// Total number of objects in the store.
    pub total_objects: usize,
    /// Total size of all objects in bytes.
    pub total_size: usize,
    /// Number of successful get operations.
    pub hit_count: u64,
    /// Number of failed get operations.
    pub miss_count: u64,
    /// Number of objects evicted.
    pub eviction_count: u64,
    /// Number of put operations.
    pub put_count: u64,
    /// Number of get operations.
    pub get_count: u64,
    /// Number of pinned objects.
    pub pinned_count: usize,
    /// Size histogram: (size_bucket_kb, count).
    pub size_histogram: Vec<(usize, usize)>,
}

impl Default for StoreStats {
    fn default() -> (r: Self)
        ensures
            r.total_objects == 0,
            r.total_size == 0,
            r.hit_count == 0,
            r.miss_count == 0,
            r.eviction_count == 0,
            r.put_count == 0,
            r.get_count == 0,
            r.pinned_count == 0,
            r.size_histogram@.len() == 0,
    {
        StoreStats {
            total_objects: 0,
            total_size: 0,
            hit_count: 0,
            miss_count: 0,
            eviction_count: 0,
            put_count: 0,
            get_count: 0,
            pinned_count: 0,
            size_histogram: Vec::new(),
        }
    }
}

/// A stored object: its serialized bytes and its metadata.
pub struct StoredObject {
    /// The serialized object data.
    pub data: Bytes,
    /// Metadata about the object.
    pub metadata: ObjectMetadata,
}

impl StoredObject {
    /// The object's bytes.
    pub open spec fn content(&self) -> Seq<u8> {
        bytes_content(self.data)
    }

    /// The object's size as recorded in its metadata.
    pub open spec fn weight(&self) -> nat {
        self.metadata.size as nat
    }

    /// Another handle to the same object: same bytes, same metadata.
    pub fn duplicate(&self) -> (r: Self)
        ensures
            r.content() == self.content(),
            r.metadata == self.metadata,
    {
        StoredObject { data: bytes_clone(&self.data), metadata: self.metadata.clone() }
    }
}

} // verus!
