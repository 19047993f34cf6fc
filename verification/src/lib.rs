//! A Ray-style runtime core: an in-memory object store with LRU eviction and
//! pinning, typed identifiers, task specifications and builders, a function
//! registry, the decision logic of task submission, result retrieval and
//! runtime lifecycle, and the analysis that the `remote`/`actor` macros perform.

pub mod types;
pub mod error;
pub mod object_store;
pub mod task;
pub mod object_ref;
pub mod runtime;
pub mod macro_analysis;
