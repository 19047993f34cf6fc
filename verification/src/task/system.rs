//! Decisions of the task system: its shutdown state machine, the task
//! builder, and how a task's outcome is stored as bytes.

use super::registry::FunctionId;
use super::spec::{arg_views, ArgView, TaskArg, TaskResources, TaskSpec, TaskType};
use crate::error::{error_message, Result, RustyRayError};
use crate::types::ObjectId;
use vstd::prelude::*;
use vstd::utf8::encode_utf8;

verus! {

/// The current state of the task system.
#[derive(Debug, Clone, Copy, PartialEq, Eq, Structural)]
pub enum ShutdownState {
    Running,
    ShuttingDown,
    Shutdown,
}

/// The state that a stored state code stands for: 0 running, 1 shutting
/// down, anything else shut down.
pub open spec fn state_of_code(value: u8) -> ShutdownState {
    if value == 0 {
        ShutdownState::Running
    } else if value == 1 {
        ShutdownState::ShuttingDown
    } else {
        ShutdownState::Shutdown
    }
}

/// The code under which a state is stored.
pub open spec fn code_of_state(state: ShutdownState) -> u8 {
    match state {
        ShutdownState::Running => 0,
        ShutdownState::ShuttingDown => 1,
        ShutdownState::Shutdown => 2,
    }
}

impl ShutdownState {
    /// The state that a stored code stands for.
    pub fn from_code(value: u8) -> (r: Self)
        ensures
            r == state_of_code(value),
    {
        match value {
            0 => ShutdownState::Running,
            1 => ShutdownState::ShuttingDown,
            _ => ShutdownState::Shutdown,
        }
    }

    /// The code under which this state is stored.
    pub fn code(self) -> (r: u8)
        ensures
            r == code_of_state(self),
    {
        match self {
            ShutdownState::Running => 0,
            ShutdownState::ShuttingDown => 1,
            ShutdownState::Shutdown => 2,
        }
    }
}

impl From<u8> for ShutdownState {
    fn from(value: u8) -> (r: Self) {
        ShutdownState::from_code(value)
    }
}

impl vstd::std_specs::convert::FromSpecImpl<u8> for ShutdownState {
    open spec fn obeys_from_spec() -> bool {
        true
    }

    open spec fn from_spec(v: u8) -> Self {
        state_of_code(v)
    }
}

/// What a call to shutdown has to do.
#[derive(Debug, Clone, Copy, PartialEq, Eq, Structural)]
pub enum ShutdownAction {
    /// This call starts the shutdown: stop the task manager, wait for the
    /// pending result stores, then mark the system shut down.
    Initiate,
    /// Another call is shutting down: wait until it has finished.
    AwaitOther,
    /// The system is already shut down: nothing to do.
    AlreadyDone,
}

/// The state after a shutdown request observed `current`, and what the
/// request has to do: only a running system moves to shutting down.
pub open spec fn shutdown_request(current: ShutdownState) -> (ShutdownState, ShutdownAction) {
    match current {
        ShutdownState::Running => (ShutdownState::ShuttingDown, ShutdownAction::Initiate),
        ShutdownState::ShuttingDown => (ShutdownState::ShuttingDown, ShutdownAction::AwaitOther),
        ShutdownState::Shutdown => (ShutdownState::Shutdown, ShutdownAction::AlreadyDone),
    }
}

/// Shutdown happens once: only a request that finds the system running
/// starts it, every handled request leaves the system no longer running, and
/// a request that follows a handled one never starts it again. Each state
/// is stored as a code that reads back as the same state.
pub proof fn law_shutdown_initiated_once(current: ShutdownState)
    ensures
        (shutdown_request(current).1 == ShutdownAction::Initiate) <==> (current == ShutdownState::Running),
        shutdown_request(current).0 != ShutdownState::Running,
        shutdown_request(shutdown_request(current).0).1 != ShutdownAction::Initiate,
        shutdown_request(ShutdownState::Shutdown) == (ShutdownState::Shutdown, ShutdownAction::AlreadyDone),
        state_of_code(code_of_state(current)) == current,
{
}

/// Shutdown is final: once the initiating call has stored the code of
/// `Shutdown`, the code reads back as `Shutdown`, so every later request
/// finds nothing to do, waiters stop waiting (the state is no longer
/// shutting down) and no task is accepted (it is not running).
pub proof fn law_shutdown_is_final(code: u8)
    requires
        code == code_of_state(ShutdownState::Shutdown),
    ensures
        state_of_code(code) == ShutdownState::Shutdown,
        shutdown_request(state_of_code(code)).1 == ShutdownAction::AlreadyDone,
        state_of_code(code) != ShutdownState::ShuttingDown,
        state_of_code(code) != ShutdownState::Running,
{
}

/// Handles a shutdown request that observed `current`.
pub fn request_shutdown(current: ShutdownState) -> (r: (ShutdownState, ShutdownAction))
    ensures
        r == shutdown_request(current),
{
    match current {
        ShutdownState::Running => (ShutdownState::ShuttingDown, ShutdownAction::Initiate),
        ShutdownState::ShuttingDown => (ShutdownState::ShuttingDown, ShutdownAction::AwaitOther),
        ShutdownState::Shutdown => (ShutdownState::Shutdown, ShutdownAction::AlreadyDone),
    }
}

/// Whether a waiter that reads `current` must keep waiting for another
/// shutdown to finish.
pub fn must_keep_waiting(current: ShutdownState) -> (r: bool)
    ensures
        r == (current == ShutdownState::ShuttingDown),
{
    current == ShutdownState::ShuttingDown
}

/// Whether the system is shut down.
pub fn is_shutdown(current: ShutdownState) -> (r: bool)
    ensures
        r == (current == ShutdownState::Shutdown),
{
    current == ShutdownState::Shutdown
}

/// Whether the system accepts a new task: only while running.
pub fn check_accepting(current: ShutdownState) -> (r: Result<()>)
    ensures
        current == ShutdownState::Running ==> r is Ok,
        current != ShutdownState::Running ==> (r matches Err(RustyRayError::Internal(m))
            && m@ == "Task system is shutting down"@),
{
    if current != ShutdownState::Running {
        return Err(RustyRayError::Internal("Task system is shutting down".to_owned()));
    }
    Ok(())
}

/// Builder for task specifications with a fluent API.
#[derive(Debug)]
pub struct TaskBuilder {
    function_id: FunctionId,
    args: Vec<TaskArg>,
    resources: TaskResources,
    /// The first error that occurred while adding arguments.
    error: Option<RustyRayError>,
}

impl TaskBuilder {
    /// The function the task calls.
    pub closed spec fn function(&self) -> Seq<char> {
        self.function_id@
    }

    /// The arguments added so far.
    pub closed spec fn arguments(&self) -> Seq<ArgView> {
        arg_views(self.args@)
    }

    /// The resource requirements.
    pub closed spec fn requirements(&self) -> TaskResources {
        self.resources
    }

    /// The first error met while adding arguments, if any.
    pub closed spec fn pending_error(&self) -> Option<RustyRayError> {
        self.error
    }

    /// Creates a builder for a task calling `function_id`, with no arguments
    /// and no resource requirements.
    pub fn new(function_id: &str) -> (r: Self)
        ensures
            r.function() == function_id@,
            r.arguments() == Seq::<ArgView>::empty(),
            r.requirements() == TaskResources::none(),
            r.pending_error() is None,
    {
        let r = TaskBuilder {
            function_id: FunctionId::new(function_id),
            args: Vec::new(),
            resources: TaskResources::default(),
            error: None,
        };
        assert(r.arguments() =~= Seq::<ArgView>::empty());
        r
    }

    /// Adds a value argument, given the outcome of serializing it. Once an
    /// error has occurred, later arguments are ignored and the error is kept
    /// for `build`.
    pub fn arg_serialized(self, serialized: Result<Vec<u8>>) -> (r: Self)
        ensures
            r.function() == self.function(),
            r.requirements() == self.requirements(),
            self.pending_error() is Some ==> r.arguments() == self.arguments()
                && r.pending_error() == self.pending_error(),
            self.pending_error() is None ==> (match serialized {
                Ok(bytes) => r.arguments() == self.arguments().push(ArgView::Value(bytes@))
                    && r.pending_error() is None,
                Err(e) => r.arguments() == self.arguments() && r.pending_error() == Some(e),
            }),
    {
        let mut b = self;
        if b.error.is_none() {
            match serialized {
                Ok(bytes) => {
                    let ghost before = b.args@;
                    b.args.push(TaskArg::Value(bytes));
                    assert(arg_views(b.args@) =~= arg_views(before).push(b.args@.last()@));
                },
                Err(e) => {
                    b.error = Some(e);
                },
            }
        }
        b
    }

    /// Adds an ObjectRef argument.
    pub fn arg_ref(self, object_id: ObjectId) -> (r: Self)
        ensures
            r.function() == self.function(),
            r.requirements() == self.requirements(),
            r.pending_error() == self.pending_error(),
            r.arguments() == self.arguments().push(ArgView::ObjectRef(object_id)),
    {
        let mut b = self;
        let ghost before = b.args@;
        b.args.push(TaskArg::from_object_ref(object_id));
        assert(arg_views(b.args@) =~= arg_views(before).push(b.args@.last()@));
        b
    }

    /// Sets the CPU requirement, given as the bits of an `f64`.
    pub fn num_cpus_bits(self, bits: u64) -> (r: Self)
        ensures
            r.function() == self.function(),
            r.arguments() == self.arguments(),
            r.pending_error() == self.pending_error(),
            r.requirements() == (TaskResources { num_cpus_bits: bits, ..self.requirements() }),
    {
        let mut b = self;
        b.resources.num_cpus_bits = bits;
        b
    }

    /// Sets the GPU requirement, given as the bits of an `f64`.
    pub fn num_gpus_bits(self, bits: u64) -> (r: Self)
        ensures
            r.function() == self.function(),
            r.arguments() == self.arguments(),
            r.pending_error() == self.pending_error(),
            r.requirements() == (TaskResources { num_gpus_bits: bits, ..self.requirements() }),
    {
        let mut b = self;
        b.resources.num_gpus_bits = bits;
        b
    }

    /// Builds the task specification: a normal task with the arguments and
    /// requirements given, or the first error met while adding arguments.
    pub fn build(self) -> (r: Result<TaskSpec>)
        ensures
            self.pending_error() matches Some(e) ==> r == Err::<TaskSpec, RustyRayError>(e),
            self.pending_error() is None ==> (r matches Ok(spec)
                && spec.task_type == TaskType::NormalTask
                && spec.function_id@ == self.function()
                && arg_views(spec.args@) == self.arguments()
                && spec.num_returns == 1
                && spec.resources == self.requirements()),
    {
        if let Some(error) = self.error {
            return Err(error);
        }
        Ok(TaskSpec::normal(self.function_id, self.args).with_resources(self.resources))
    }
}

/// The bytes that mark a stored task outcome as an error: the text
/// `__RUSTYRAY_ERROR__`.
pub open spec fn error_marker() -> Seq<u8> {
    seq![95u8, 95, 82, 85, 83, 84, 89, 82, 65, 89, 95, 69, 82, 82, 79, 82, 95, 95]
}

/// The error marker as a vector.
pub fn error_marker_bytes() -> (r: Vec<u8>)
    ensures
        r@ == error_marker(),
{
    let r = vec![95u8, 95, 82, 85, 83, 84, 89, 82, 65, 89, 95, 69, 82, 82, 79, 82, 95, 95];
    assert(r@ =~= error_marker());
    r
}

/// The bytes stored for a task's outcome: its result bytes, or the error
/// marker followed by the UTF-8 text of the error.
pub open spec fn encoded_outcome(outcome: core::result::Result<Seq<u8>, RustyRayError>) -> Seq<u8> {
    match outcome {
        Ok(bytes) => bytes,
        Err(e) => error_marker() + encode_utf8(error_message(e)),
    }
}

/// Encodes a task's outcome as the bytes stored under its result id.
pub fn encode_task_result(outcome: Result<Vec<u8>>) -> (r: Vec<u8>)
    ensures
        r@ == encoded_outcome(match outcome {
            Ok(bytes) => Ok(bytes@),
            Err(e) => Err(e),
        }),
{
    match outcome {
        Ok(bytes) => bytes,
        Err(e) => {
            let mut out = error_marker_bytes();
            let text = e.to_string();
            let mut msg = text.as_str().as_bytes_vec();
            out.append(&mut msg);
            out
        },
    }
}

} // verus!
