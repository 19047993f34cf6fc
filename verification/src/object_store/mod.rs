//! In-memory object store: serialized objects kept in an LRU cache whose
//! total weight is bounded by the configured memory, plus a pinned area whose
//! objects are never evicted.

pub mod buffer;
pub mod types;
pub mod lru;
pub mod pinned;
pub mod store;
pub mod builder;

pub use builder::ObjectBuilder;
pub use store::{InMemoryStore, StatsCollector};
pub use types::{EvictionPolicy, ObjectMetadata, PutResult, StoreConfig, StoreStats, StoredObject};
pub use crate::types::ObjectId;
