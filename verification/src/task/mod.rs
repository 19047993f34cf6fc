//! Tasks: stateless function calls described by task specifications,
//! resolved through a function registry, with the decisions that task
//! submission, result storage and result retrieval take.

pub mod spec;
pub mod registry;
pub mod system;

pub use registry::{FunctionId, FunctionRegistry};
pub use spec::{TaskArg, TaskResources, TaskSpec, TaskType};
pub use system::{ShutdownAction, ShutdownState, TaskBuilder};
