use rustyray::object_store::{EvictionPolicy, InMemoryStore, StoreConfig};
use rustyray::types::ObjectId;
use std::any::TypeId;

const TEST_DATA_LABEL: &str = "object_store_tests::TestData";
const OTHER_DATA_LABEL: &str = "object_store_tests::OtherData";

/// Type whose identity labels stored test objects (id, name, values).
struct TestData;

/// Another type, for type-mismatch checks.
struct OtherData;

fn encode(id: u64, name: &str, values: &[i32]) -> Vec<u8> {
    bincode::serde::encode_to_vec(&(id, name, values), bincode::config::standard()).unwrap()
}

fn decode(bytes: &[u8]) -> (u64, String, Vec<i32>) {
    bincode::serde::decode_from_slice(bytes, bincode::config::standard()).unwrap().0
}

fn store_with(max_memory: usize) -> InMemoryStore {
    InMemoryStore::new(StoreConfig {
        max_memory,
        eviction_policy: EvictionPolicy::LRU,
        enable_stats: true,
    })
}

fn create_test_store() -> InMemoryStore {
    store_with(1024 * 1024)
}

fn put_test(store: &mut InMemoryStore, id: u64, name: &str, values: &[i32]) -> rustyray::error::Result<rustyray::object_store::PutResult> {
    store.put(encode(id, name, values), TypeId::of::<TestData>(), TEST_DATA_LABEL.to_string())
}

fn get_test(store: &mut InMemoryStore, id: ObjectId) -> Option<(u64, String, Vec<i32>)> {
    store
        .get(id, &TypeId::of::<TestData>(), TEST_DATA_LABEL)
        .unwrap()
        .map(|b| decode(&b))
}

#[test]
fn test_basic_put_get() {
    let mut store = create_test_store();
    let result = put_test(&mut store, 42, "test", &[1, 2, 3, 4, 5]).unwrap();
    assert!(result.size > 0);

    let retrieved = get_test(&mut store, result.id);
    assert_eq!(retrieved, Some((42, "test".to_string(), vec![1, 2, 3, 4, 5])));

    assert!(store.object_exists(result.id).unwrap());

    let metadata = store.metadata(result.id).unwrap();
    assert!(metadata.is_some());
    let metadata = metadata.unwrap();
    assert_eq!(metadata.size, result.size);
    assert_eq!(metadata.type_label, TEST_DATA_LABEL);
}

#[test]
fn test_type_safety() {
    let mut store = create_test_store();
    let result = put_test(&mut store, 1, "test", &[1, 2, 3]).unwrap();

    let wrong_type = store.get(result.id, &TypeId::of::<OtherData>(), OTHER_DATA_LABEL);
    assert!(wrong_type.is_err());
    let err = wrong_type.unwrap_err();
    assert!(err.to_string().contains("Type mismatch"));
}

#[test]
fn test_get_raw() {
    let mut store = create_test_store();
    let result = put_test(&mut store, 99, "raw_test", &[9, 8, 7]).unwrap();

    let raw_bytes = store.get_raw(result.id).unwrap();
    assert!(raw_bytes.is_some());
    let deserialized = decode(&raw_bytes.unwrap());
    assert_eq!(deserialized, (99, "raw_test".to_string(), vec![9, 8, 7]));
}

#[test]
fn test_pinning() {
    let mut store = create_test_store();
    let mut ids = vec![];
    for i in 0..5u64 {
        let values = vec![i as i32; 100];
        let result = put_test(&mut store, i, &format!("test_{}", i), &values).unwrap();
        ids.push(result.id);
    }

    store.pin(ids[0]).unwrap();
    let stats = store.stats();
    assert_eq!(stats.pinned_count, 1);

    assert!(store.object_exists(ids[0]).unwrap());
    let data = get_test(&mut store, ids[0]);
    assert!(data.is_some(), "Failed to get pinned object");

    store.unpin(ids[0]).unwrap();
    let stats = store.stats();
    assert_eq!(stats.pinned_count, 0);
}

#[test]
fn test_delete() {
    let mut store = create_test_store();

    let initial_stats = store.stats();
    assert_eq!(initial_stats.total_objects, 0);
    assert_eq!(initial_stats.total_size, 0);

    let result = put_test(&mut store, 123, "delete_me", &[1, 2, 3]).unwrap();
    let object_size = result.size;

    let stats_after_put = store.stats();
    assert_eq!(stats_after_put.total_objects, 1);
    assert_eq!(stats_after_put.total_size, object_size);

    assert!(store.object_exists(result.id).unwrap());

    let deleted = store.delete(result.id).unwrap();
    assert!(deleted);

    assert!(!store.object_exists(result.id).unwrap());

    let stats_after_delete = store.stats();
    assert_eq!(stats_after_delete.total_size, 0);
    assert_eq!(stats_after_delete.total_objects, 0);

    let deleted_again = store.delete(result.id).unwrap();
    assert!(!deleted_again);
}

#[test]
fn test_clear() {
    let mut store = create_test_store();
    let mut ids = vec![];
    for i in 0..10u64 {
        let values = vec![i as i32; 10];
        let result = put_test(&mut store, i, &format!("test_{}", i), &values).unwrap();
        ids.push(result.id);
    }

    store.pin(ids[0]).unwrap();
    store.clear().unwrap();

    for id in ids {
        assert!(!store.object_exists(id).unwrap());
    }

    let stats = store.stats();
    assert_eq!(stats.total_objects, 0);
    assert_eq!(stats.pinned_count, 0);
}

#[test]
fn test_stats_tracking() {
    let mut store = create_test_store();

    let stats = store.stats();
    assert_eq!(stats.put_count, 0);
    assert_eq!(stats.get_count, 0);
    assert_eq!(stats.hit_count, 0);
    assert_eq!(stats.miss_count, 0);

    let result = put_test(&mut store, 1, "stats_test", &[1, 2, 3]).unwrap();
    let stats = store.stats();
    assert_eq!(stats.put_count, 1);

    let _ = get_test(&mut store, result.id);
    let stats = store.stats();
    assert_eq!(stats.get_count, 1);
    assert_eq!(stats.hit_count, 1);
    assert_eq!(stats.miss_count, 0);

    let fake_id = ObjectId::new();
    let _ = get_test(&mut store, fake_id);
    let stats = store.stats();
    assert_eq!(stats.get_count, 2);
    assert_eq!(stats.hit_count, 1);
    assert_eq!(stats.miss_count, 1);
}

#[test]
fn test_concurrent_access() {
    let mut store = create_test_store();
    let mut ids = vec![];
    for i in 0..10u64 {
        let values = vec![i as i32; 50];
        let result = put_test(&mut store, i, &format!("concurrent_{}", i), &values).unwrap();
        ids.push(result.id);
    }

    // Five readers, each reading every object once (interleaved here).
    for _ in 0..5 {
        for id in &ids {
            let _ = get_test(&mut store, *id);
        }
    }

    let stats = store.stats();
    assert_eq!(stats.get_count, 50);
    assert_eq!(stats.hit_count, 50);
}

#[test]
fn test_object_not_found() {
    let mut store = create_test_store();
    let fake_id = ObjectId::new();

    let result = get_test(&mut store, fake_id);
    assert!(result.is_none());

    let raw_result = store.get_raw(fake_id).unwrap();
    assert!(raw_result.is_none());

    assert!(!store.object_exists(fake_id).unwrap());

    let metadata = store.metadata(fake_id).unwrap();
    assert!(metadata.is_none());

    let pin_result = store.pin(fake_id);
    assert!(pin_result.is_err());

    let unpin_result = store.unpin(fake_id);
    assert!(unpin_result.is_err());
}

#[test]
fn test_large_object() {
    let mut store = create_test_store();
    let values = vec![42; 10000];
    let result = put_test(&mut store, 9999, "large", &values).unwrap();

    let retrieved = get_test(&mut store, result.id);
    assert_eq!(retrieved, Some((9999, "large".to_string(), values.clone())));

    let metadata = store.metadata(result.id).unwrap().unwrap();
    assert!(metadata.size > 10000);
}

#[test]
fn test_eviction_at_capacity() {
    let mut store = store_with(1000);
    let mut ids = vec![];
    for i in 0..10u64 {
        let values = vec![i as i32; 100];
        let result = put_test(&mut store, i, &format!("eviction_test_{}", i), &values).unwrap();
        ids.push(result.id);
    }

    let stats = store.stats();
    assert!(stats.total_size <= 1000, "Total size should not exceed capacity");
    assert_eq!(stats.put_count, 10);

    let stats_after = store.stats();
    assert!(stats_after.total_size <= 1000, "Total size still within capacity");
}

#[test]
fn test_single_object_exceeds_capacity() {
    let mut store = store_with(1000);
    let values = vec![42; 1000];
    let bytes = encode(999, "huge_object", &values);
    assert!(bytes.len() > 1000);

    let result = put_test(&mut store, 999, "huge_object", &values);
    assert!(result.is_err());
    let err = result.unwrap_err();
    assert!(err.to_string().contains("exceeds max memory limit"));

    let stats = store.stats();
    assert_eq!(stats.total_objects, 0);
    assert_eq!(stats.total_size, 0);
}

#[test]
fn test_concurrent_pin_delete_race() {
    let mut store = create_test_store();
    let result = put_test(&mut store, 100, "race_test", &[1, 2, 3]).unwrap();
    let id = result.id;

    // The three workers' steps, interleaved.
    for _ in 0..100 {
        let _ = store.pin(id);
        let _ = store.delete(id);
        let _ = get_test(&mut store, id);
        let _ = store.unpin(id);
        let _ = put_test(&mut store, 100, "race_test", &[1, 2, 3]);
    }

    let stats = store.stats();
    assert!(stats.pinned_count <= stats.total_objects);
}

#[test]
fn test_delete_unpin_race() {
    let mut store = create_test_store();
    let result = put_test(&mut store, 1, "race_test", &[1, 2, 3]).unwrap();
    let id = result.id;
    store.pin(id).unwrap();

    let mut deleted = false;
    for i in 0..1000 {
        if i % 2 == 0 {
            let _ = store.unpin(id);
        } else {
            let _ = store.pin(id);
        }
        if store.delete(id).unwrap() {
            deleted = true;
            break;
        }
    }

    assert!(deleted, "Object should have been deleted");
    assert!(!store.object_exists(id).unwrap(), "Object should not exist after deletion");
    let stats = store.stats();
    assert_eq!(stats.total_objects, 0, "No objects should remain");
}

#[test]
fn test_unpin_data_loss_scenario() {
    let mut store = store_with(50);
    let large = vec![1; 100];
    let result = put_test(&mut store, 1, "too_large_for_cache", &large);
    assert!(result.is_err(), "Should not be able to store object larger than cache");

    let result2 = put_test(&mut store, 2, "small", &[2, 2]).unwrap();
    store.pin(result2.id).unwrap();

    let unpin_result = store.unpin(result2.id);
    assert!(unpin_result.is_ok(), "Should be able to unpin when object fits");
}

#[test]
fn test_pinned_objects_blocking_capacity() {
    let mut store = store_with(1000);
    let mut pinned_ids = vec![];
    for i in 0..5u64 {
        let values = vec![i as i32; 30];
        let result = put_test(&mut store, i, &format!("pinned_{}", i), &values).unwrap();
        store.pin(result.id).unwrap();
        pinned_ids.push(result.id);
    }

    let mut new_ids = vec![];
    for i in 10..15u64 {
        let values = vec![i as i32; 30];
        let result = put_test(&mut store, i, &format!("new_{}", i), &values).unwrap();
        new_ids.push(result.id);
    }

    for id in &pinned_ids {
        let data = get_test(&mut store, *id);
        assert!(data.is_some(), "Pinned object should never be evicted");
    }

    let stats = store.stats();
    assert_eq!(stats.pinned_count, 5);
    assert!(stats.total_size <= 1000, "Total size should stay under capacity even with pinned objects");
}

// ---------------------------------------------------------------------------
// Further behaviour of the store
// ---------------------------------------------------------------------------

#[test]
fn test_put_with_id_stores_raw_bytes() {
    let mut store = create_test_store();
    let id = ObjectId::from_u64(7);
    let result = store.put_with_id(id, vec![1, 2, 3]).unwrap();
    assert_eq!(result.id, id);
    assert_eq!(result.size, 3);
    let raw = store.get_raw(id).unwrap().unwrap();
    assert_eq!(raw.to_vec(), vec![1, 2, 3]);
    let metadata = store.metadata(id).unwrap().unwrap();
    assert_eq!(metadata.type_label, "Vec<u8>");
    assert_eq!(metadata.ref_count, 1);
    assert!(!metadata.is_pinned);
}

#[test]
fn test_put_with_id_messages() {
    let mut store = store_with(10);
    let err = store.put_with_id(ObjectId::from_u64(1), vec![0; 11]).unwrap_err();
    assert_eq!(err.to_string(), "Internal error: Object size (11 bytes) exceeds max memory limit (10 bytes)");
    let err = store.put_with_id(ObjectId::from_u64(1), vec![0; 10]).unwrap_err();
    assert_eq!(err.to_string(), "Internal error: Object too large for cache: 10 bytes");
}

#[test]
fn test_no_room_message_counts_pinned_bytes() {
    let mut store = store_with(10);
    let id = ObjectId::from_u64(5);
    store.put_with_id(id, vec![0; 6]).unwrap();
    store.pin(id).unwrap();
    let err = store.put(vec![0; 5], TypeId::of::<TestData>(), "t".to_string()).unwrap_err();
    assert_eq!(
        err.to_string(),
        "Internal error: Cannot store object: 5 bytes needed but only 4 bytes available (pinned objects consume 6 bytes)"
    );
    let err = store.put_with_id(ObjectId::from_u64(6), vec![0; 5]).unwrap_err();
    assert_eq!(err.to_string(), "Internal error: Cannot store object: 5 bytes needed but only 4 bytes available");
}

#[test]
fn test_lru_evicts_least_recently_used() {
    // Capacity 100: each entry counts one plus its size.
    let mut store = store_with(100);
    let a = ObjectId::from_u64(1);
    let b = ObjectId::from_u64(2);
    let c = ObjectId::from_u64(3);
    store.put_with_id(a, vec![0; 40]).unwrap();
    store.put_with_id(b, vec![0; 40]).unwrap();
    // Reading `a` makes `b` the least recently used.
    assert!(store.get_raw(a).unwrap().is_some());
    store.put_with_id(c, vec![0; 40]).unwrap();
    assert!(store.object_exists(a).unwrap());
    assert!(!store.object_exists(b).unwrap());
    assert!(store.object_exists(c).unwrap());
    let stats = store.stats();
    assert_eq!(stats.eviction_count, 1);
    assert_eq!(stats.total_objects, 2);
    assert_eq!(stats.total_size, 80);
}

#[test]
fn test_replacing_an_id_is_not_an_eviction() {
    let mut store = store_with(100);
    let a = ObjectId::from_u64(1);
    store.put_with_id(a, vec![1; 10]).unwrap();
    store.put_with_id(a, vec![2; 20]).unwrap();
    let stats = store.stats();
    assert_eq!(stats.eviction_count, 0);
    assert_eq!(stats.total_objects, 1);
    assert_eq!(stats.total_size, 20);
    assert_eq!(store.get_raw(a).unwrap().unwrap().to_vec(), vec![2; 20]);
}

#[test]
fn test_pinned_object_survives_eviction_pressure() {
    let mut store = store_with(100);
    let keep = ObjectId::from_u64(1);
    store.put_with_id(keep, vec![9; 30]).unwrap();
    store.pin(keep).unwrap();
    assert!(store.metadata(keep).unwrap().unwrap().is_pinned);
    for i in 10..20u64 {
        store.put_with_id(ObjectId::from_u64(i), vec![0; 30]).unwrap();
    }
    assert_eq!(store.get_raw(keep).unwrap().unwrap().to_vec(), vec![9; 30]);
    store.unpin(keep).unwrap();
    assert!(!store.metadata(keep).unwrap().unwrap().is_pinned);
    assert_eq!(store.get_raw(keep).unwrap().unwrap().to_vec(), vec![9; 30]);
}

#[test]
fn test_pin_twice_and_unpin_errors() {
    let mut store = create_test_store();
    let id = ObjectId::from_u64(3);
    store.put_with_id(id, vec![1]).unwrap();
    store.pin(id).unwrap();
    store.pin(id).unwrap();
    assert_eq!(store.stats().pinned_count, 1);
    store.unpin(id).unwrap();
    let err = store.unpin(id).unwrap_err();
    assert_eq!(err.to_string(), "Internal error: Object 3 not found or not pinned");
    let err = store.pin(ObjectId::from_u64(4)).unwrap_err();
    assert_eq!(err.to_string(), "Internal error: Object 4 not found");
}

#[test]
fn test_type_mismatch_message() {
    let mut store = create_test_store();
    let id = ObjectId::from_u64(8);
    store.put_with_id(id, vec![1]).unwrap();
    let err = store.get(id, &TypeId::of::<OtherData>(), "OtherData").unwrap_err();
    assert_eq!(err.to_string(), "Internal error: Type mismatch for 8: expected OtherData, found Vec<u8>");
    // The read still counts as a hit.
    let stats = store.stats();
    assert_eq!(stats.hit_count, 1);
    assert_eq!(stats.get_count, 1);
}

#[test]
fn test_zero_memory_store() {
    // A zero limit gives a cache of capacity one: room for one empty object.
    let mut store = store_with(0);
    store.put_with_id(ObjectId::from_u64(1), vec![]).unwrap();
    store.put_with_id(ObjectId::from_u64(2), vec![]).unwrap();
    assert!(!store.object_exists(ObjectId::from_u64(1)).unwrap());
    assert!(store.object_exists(ObjectId::from_u64(2)).unwrap());
    let err = store.put_with_id(ObjectId::from_u64(3), vec![0]).unwrap_err();
    assert_eq!(err.to_string(), "Internal error: Object size (1 bytes) exceeds max memory limit (0 bytes)");
}

#[test]
fn test_store_config_default() {
    let config = StoreConfig::default();
    assert_eq!(config.max_memory, 1_073_741_824);
    assert_eq!(config.eviction_policy, EvictionPolicy::LRU);
    assert!(config.enable_stats);
}

#[test]
fn test_delete_keeps_other_objects() {
    let mut store = create_test_store();
    let a = ObjectId::from_u64(1);
    let b = ObjectId::from_u64(2);
    let c = ObjectId::from_u64(3);
    store.put_with_id(a, vec![1; 4]).unwrap();
    store.put_with_id(b, vec![2; 4]).unwrap();
    store.put_with_id(c, vec![3; 4]).unwrap();
    store.pin(c).unwrap();
    assert!(store.delete(b).unwrap());
    assert_eq!(store.get_raw(a).unwrap().unwrap().to_vec(), vec![1; 4]);
    assert_eq!(store.get_raw(c).unwrap().unwrap().to_vec(), vec![3; 4]);
    assert!(store.get_raw(b).unwrap().is_none());
    // Deleting a pinned object removes it and its pinned counters.
    assert!(store.delete(c).unwrap());
    assert!(!store.object_exists(c).unwrap());
    assert_eq!(store.stats().pinned_count, 0);
}

#[test]
fn test_unpin_keeps_other_pinned_objects() {
    let mut store = store_with(100);
    let a = ObjectId::from_u64(1);
    let b = ObjectId::from_u64(2);
    store.put_with_id(a, vec![1; 10]).unwrap();
    store.put_with_id(b, vec![2; 10]).unwrap();
    store.pin(a).unwrap();
    store.pin(b).unwrap();
    store.unpin(a).unwrap();
    let metadata = store.metadata(b).unwrap().unwrap();
    assert!(metadata.is_pinned);
    assert_eq!(store.get_raw(b).unwrap().unwrap().to_vec(), vec![2; 10]);
    let stats = store.stats();
    assert_eq!(stats.pinned_count, 1);
    assert_eq!(stats.total_objects, 2);
    assert_eq!(stats.total_size, 20);
}

#[test]
fn test_reads_count_hits_and_misses() {
    let mut store = create_test_store();
    let a = ObjectId::from_u64(1);
    store.put_with_id(a, vec![1]).unwrap();
    assert!(store.get_raw(a).unwrap().is_some());
    assert!(store.get_raw(ObjectId::from_u64(99)).unwrap().is_none());
    assert!(store.get_raw(a).unwrap().is_some());
    let stats = store.stats();
    assert_eq!(stats.hit_count, 2);
    assert_eq!(stats.miss_count, 1);
    assert_eq!(stats.get_count, stats.hit_count + stats.miss_count);
    assert_eq!(stats.put_count, 1);
}

#[test]
fn test_pinned_bytes_count_against_memory_limit() {
    let mut store = store_with(1000);
    let pinned = ObjectId::from_u64(1);
    store.put_with_id(pinned, vec![7; 400]).unwrap();
    store.pin(pinned).unwrap();
    let a = ObjectId::from_u64(2);
    let b = ObjectId::from_u64(3);
    let c = ObjectId::from_u64(4);
    store.put_with_id(a, vec![1; 300]).unwrap();
    store.put_with_id(b, vec![2; 300]).unwrap();
    // Only 600 bytes are left beside the pinned object: `a`, the least
    // recently used, makes room for `c`.
    store.put_with_id(c, vec![3; 300]).unwrap();
    assert!(!store.object_exists(a).unwrap());
    assert!(store.object_exists(b).unwrap());
    assert!(store.object_exists(c).unwrap());
    assert_eq!(store.get_raw(pinned).unwrap().unwrap().to_vec(), vec![7; 400]);
    let stats = store.stats();
    assert_eq!(stats.total_size, 1000);
    assert_eq!(stats.eviction_count, 1);
    assert_eq!(stats.pinned_count, 1);
}
