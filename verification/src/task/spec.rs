//! Task specifications: the unified description of normal tasks, actor
//! tasks and actor creation tasks.

use super::registry::FunctionId;
use crate::types::{ActorId, ObjectId, TaskId};
use vstd::prelude::*;

verus! {

/// The type of task to execute.
#[derive(Debug, Clone, Copy, PartialEq, Eq, Structural)]
pub enum TaskType {
    /// A normal stateless function call that can run anywhere.
    NormalTask,
    /// A method call on a specific actor instance.
    ActorTask {
        /// The actor that runs the method.
        actor_id: ActorId,
    },
    /// A special task that creates a new actor instance.
    ActorCreationTask,
}

/// An argument to a task: a serialized value, or a reference to another
/// task's output.
#[derive(Debug)]
pub enum TaskArg {
    /// A concrete value, serialized as bytes.
    Value(Vec<u8>),
    /// A reference to another task's output.
    ObjectRef(ObjectId),
}

/// The mathematical form of a task argument.
pub enum ArgView {
    Value(Seq<u8>),
    ObjectRef(ObjectId),
}

impl View for TaskArg {
    type V = ArgView;

    open spec fn view(&self) -> ArgView {
        match self {
            TaskArg::Value(bytes) => ArgView::Value(bytes@),
            TaskArg::ObjectRef(id) => ArgView::ObjectRef(*id),
        }
    }
}

impl Clone for TaskArg {
    fn clone(&self) -> (r: Self)
        ensures
            r@ == self@,
    {
        match self {
            TaskArg::Value(bytes) => TaskArg::Value(bytes.clone()),
            TaskArg::ObjectRef(id) => TaskArg::ObjectRef(*id),
        }
    }
}

/// The object ids that a sequence of arguments depends on, in order.
pub open spec fn dependency_ids(args: Seq<ArgView>) -> Seq<ObjectId>
    decreases args.len(),
{
    if args.len() == 0 {
        Seq::empty()
    } else {
        let rest = dependency_ids(args.drop_last());
        match args.last() {
            ArgView::ObjectRef(id) => rest.push(id),
            ArgView::Value(_) => rest,
        }
    }
}

/// The views of a sequence of arguments.
pub open spec fn arg_views(args: Seq<TaskArg>) -> Seq<ArgView> {
    args.map_values(|a: TaskArg| a@)
}

impl TaskArg {
    /// Creates an ObjectRef argument.
    pub fn from_object_ref(id: ObjectId) -> (r: Self)
        ensures
            r == TaskArg::ObjectRef(id),
    {
        TaskArg::ObjectRef(id)
    }

    /// Whether this argument is an ObjectRef dependency.
    pub fn is_dependency(&self) -> (r: bool)
        ensures
            r == self is ObjectRef,
    {
        matches!(self, TaskArg::ObjectRef(_))
    }

    /// The ObjectId, if this is a dependency.
    pub fn as_dependency(&self) -> (r: Option<&ObjectId>)
        ensures
            r is Some == self is ObjectRef,
            r matches Some(id) ==> *id == self->ObjectRef_0,
    {
        match self {
            TaskArg::ObjectRef(id) => Some(id),
            _ => None,
        }
    }
}

/// Resource requirements for a task. The amounts of CPUs and GPUs are kept
/// as the bit patterns of the `f64` values they were given as.
#[derive(Debug, Clone, Copy, PartialEq, Eq, Structural)]
pub struct TaskResources {
    /// Bits of the number of CPUs required.
    pub num_cpus_bits: u64,
    /// Bits of the number of GPUs required.
    pub num_gpus_bits: u64,
}

impl TaskResources {
    /// No CPUs and no GPUs.
    pub open spec fn none() -> Self {
        TaskResources { num_cpus_bits: 0, num_gpus_bits: 0 }
    }
}

impl Default for TaskResources {
    /// No CPUs and no GPUs (the bits of `0.0` are all zero).
    fn default() -> (r: Self)
        ensures
            r.num_cpus_bits == 0,
            r.num_gpus_bits == 0,
    {
        TaskResources { num_cpus_bits: 0, num_gpus_bits: 0 }
    }
}

/// Universal specification for a task.
#[derive(Debug)]
pub struct TaskSpec {
    /// Unique identifier of the task.
    pub task_id: TaskId,
    /// The type of task (normal, actor, or actor creation).
    pub task_type: TaskType,
    /// The function to execute (identified by registration ID).
    pub function_id: FunctionId,
    /// Arguments to pass to the function.
    pub args: Vec<TaskArg>,
    /// Number of return values.
    pub num_returns: usize,
    /// Resource requirements.
    pub resources: TaskResources,
}

impl TaskSpec {
    /// Creates a task specification with a fresh task id, one return value
    /// and no resource requirements.
    pub fn new(task_type: TaskType, function_id: FunctionId, args: Vec<TaskArg>) -> (r: Self)
        ensures
            r.task_type == task_type,
            r.function_id == function_id,
            r.args == args,
            r.num_returns == 1,
            r.resources == TaskResources::none(),
    {
        TaskSpec {
            task_id: TaskId::new(),
            task_type,
            function_id,
            args,
            num_returns: 1,
            resources: TaskResources::default(),
        }
    }

    /// Creates a normal task specification.
    pub fn normal(function_id: FunctionId, args: Vec<TaskArg>) -> (r: Self)
        ensures
            r.task_type == TaskType::NormalTask,
            r.function_id == function_id,
            r.args == args,
            r.num_returns == 1,
            r.resources == TaskResources::none(),
    {
        Self::new(TaskType::NormalTask, function_id, args)
    }

    /// Creates an actor task specification.
    pub fn actor_task(actor_id: ActorId, function_id: FunctionId, args: Vec<TaskArg>) -> (r: Self)
        ensures
            r.task_type == (TaskType::ActorTask { actor_id }),
            r.function_id == function_id,
            r.args == args,
            r.num_returns == 1,
            r.resources == TaskResources::none(),
    {
        Self::new(TaskType::ActorTask { actor_id }, function_id, args)
    }

    /// Creates an actor creation task specification.
    pub fn actor_creation(function_id: FunctionId, args: Vec<TaskArg>) -> (r: Self)
        ensures
            r.task_type == TaskType::ActorCreationTask,
            r.function_id == function_id,
            r.args == args,
            r.num_returns == 1,
            r.resources == TaskResources::none(),
    {
        Self::new(TaskType::ActorCreationTask, function_id, args)
    }

    /// The ObjectRef dependencies among the arguments, in order.
    pub fn dependencies(&self) -> (r: Vec<ObjectId>)
        ensures
            r@ == dependency_ids(arg_views(self.args@)),
    {
        let mut deps: Vec<ObjectId> = Vec::new();
        let mut i: usize = 0;
        while i < self.args.len()
            invariant
                i <= self.args.len(),
                deps@ == dependency_ids(arg_views(self.args@.subrange(0, i as int))),
            decreases self.args.len() - i,
        {
            proof {
                let prefix = arg_views(self.args@.subrange(0, i as int + 1));
                assert(prefix.drop_last() =~= arg_views(self.args@.subrange(0, i as int)));
                assert(prefix.last() == self.args@[i as int]@);
            }
            match self.args[i].as_dependency() {
                Some(id) => deps.push(*id),
                None => {},
            }
            i = i + 1;
        }
        assert(self.args@.subrange(0, self.args.len() as int) =~= self.args@);
        deps
    }

    /// Whether any argument is an ObjectRef dependency.
    pub fn has_dependencies(&self) -> (r: bool)
        ensures
            r == exists|i: int| 0 <= i < self.args.len() && (#[trigger] self.args@[i]) is ObjectRef,
    {
        let mut i: usize = 0;
        while i < self.args.len()
            invariant
                i <= self.args.len(),
                forall|j: int| 0 <= j < i ==> !((#[trigger] self.args@[j]) is ObjectRef),
            decreases self.args.len() - i,
        {
            if self.args[i].is_dependency() {
                return true;
            }
            i = i + 1;
        }
        false
    }

    /// Sets the resource requirements.
    pub fn with_resources(self, resources: TaskResources) -> (r: Self)
        ensures
            r == (TaskSpec { resources, ..self }),
    {
        let mut s = self;
        s.resources = resources;
        s
    }

    /// Sets the number of return values.
    pub fn with_num_returns(self, num_returns: usize) -> (r: Self)
        ensures
            r == (TaskSpec { num_returns, ..self }),
    {
        let mut s = self;
        s.num_returns = num_returns;
        s
    }
}

} // verus!
