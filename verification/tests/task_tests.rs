use rustyray::error::RustyRayError;
use rustyray::object_ref::{decode_task_result, has_error_marker, FetchStep, RetryPolicy};
use rustyray::task::registry::{FunctionId, FunctionRegistry};
use rustyray::task::spec::{TaskArg, TaskResources, TaskSpec, TaskType};
use rustyray::task::system::{
    check_accepting, encode_task_result, is_shutdown, must_keep_waiting, request_shutdown,
    ShutdownAction, ShutdownState, TaskBuilder,
};
use rustyray::types::{ActorId, ObjectId, TaskId};

fn serialize_i32(v: i32) -> Vec<u8> {
    bincode::serde::encode_to_vec(&v, bincode::config::standard()).unwrap()
}

fn deserialize_i32(bytes: &[u8]) -> i32 {
    bincode::serde::decode_from_slice(bytes, bincode::config::standard()).unwrap().0
}

#[test]
fn test_task_id_generation() {
    let id1 = TaskId::new();
    let id2 = TaskId::new();
    assert_ne!(id1, id2);
}

#[test]
fn test_task_arg_serialization() {
    let arg = TaskArg::Value(serialize_i32(42));
    match arg {
        TaskArg::Value(bytes) => {
            let value = deserialize_i32(&bytes);
            assert_eq!(value, 42);
        }
        _ => panic!("Expected Value variant"),
    }

    let obj_id = ObjectId::new();
    let arg = TaskArg::from_object_ref(obj_id);
    assert!(arg.is_dependency());
    assert_eq!(arg.as_dependency(), Some(&obj_id));
}

#[test]
fn test_task_spec_creation() {
    let func_id = FunctionId::new("test_function");
    let args = vec![TaskArg::Value(serialize_i32(1)), TaskArg::Value(serialize_i32(2))];

    let spec = TaskSpec::normal(func_id.clone(), args);
    assert_eq!(spec.task_type, TaskType::NormalTask);
    assert_eq!(spec.function_id, func_id);
    assert_eq!(spec.num_returns, 1);
    assert!(!spec.has_dependencies());
}

#[test]
fn test_task_dependencies() {
    let func_id = FunctionId::new("test_function");
    let obj_id1 = ObjectId::new();
    let obj_id2 = ObjectId::new();

    let args = vec![
        TaskArg::Value(serialize_i32(1)),
        TaskArg::from_object_ref(obj_id1),
        TaskArg::from_object_ref(obj_id2),
    ];

    let spec = TaskSpec::normal(func_id, args);
    assert!(spec.has_dependencies());

    let deps = spec.dependencies();
    assert_eq!(deps.len(), 2);
    assert!(deps.contains(&obj_id1));
    assert!(deps.contains(&obj_id2));
}

#[test]
fn test_function_registration() {
    let mut registry: FunctionRegistry<fn(Vec<Vec<u8>>) -> Vec<u8>> = FunctionRegistry::new();
    let id = FunctionId::new("test_func");

    fn func(_args: Vec<Vec<u8>>) -> Vec<u8> {
        vec![]
    }

    registry.register(id.clone(), func).unwrap();

    assert!(registry.contains(&id));
    assert_eq!(registry.len(), 1);

    let result = registry.register(id.clone(), func);
    assert!(result.is_err());
}

#[test]
fn test_registry_get_and_clear() {
    fn add(args: Vec<Vec<u8>>) -> Vec<u8> {
        let x = deserialize_i32(&args[0]);
        let y = deserialize_i32(&args[1]);
        serialize_i32(x + y)
    }
    let mut registry: FunctionRegistry<fn(Vec<Vec<u8>>) -> Vec<u8>> = FunctionRegistry::new();
    assert!(registry.is_empty());
    registry.register(FunctionId::new("add"), add).unwrap();
    let f = registry.get(&FunctionId::new("add")).unwrap();
    assert_eq!(deserialize_i32(&f(vec![serialize_i32(10), serialize_i32(20)])), 30);
    assert!(registry.get(&FunctionId::new("missing")).is_none());
    let err = registry.register(FunctionId::new("add"), add).unwrap_err();
    assert_eq!(err.to_string(), "Internal error: Function add already registered");
    registry.clear();
    assert!(registry.is_empty());
    assert!(!registry.contains(&FunctionId::new("add")));
}

#[test]
fn test_registry_resolve() {
    fn one(_args: Vec<Vec<u8>>) -> Vec<u8> {
        serialize_i32(1)
    }
    let mut registry: FunctionRegistry<fn(Vec<Vec<u8>>) -> Vec<u8>> = FunctionRegistry::new();
    registry.register(FunctionId::new("one"), one).unwrap();
    let f = registry.resolve(&FunctionId::new("one")).unwrap();
    assert_eq!(deserialize_i32(&f(vec![])), 1);
    let err = registry.resolve(&FunctionId::new("non_existent")).unwrap_err();
    assert_eq!(err.to_string(), "Task execution failed: Function non_existent not found");
}

#[test]
fn test_spec_constructors() {
    let actor = ActorId::new();
    let spec = TaskSpec::actor_task(actor, FunctionId::new("m"), vec![]);
    assert_eq!(spec.task_type, TaskType::ActorTask { actor_id: actor });
    let spec = TaskSpec::actor_creation(FunctionId::new("c"), vec![]);
    assert_eq!(spec.task_type, TaskType::ActorCreationTask);
    let spec = spec
        .with_num_returns(3)
        .with_resources(TaskResources { num_cpus_bits: 2.0f64.to_bits(), num_gpus_bits: 0 });
    assert_eq!(spec.num_returns, 3);
    assert_eq!(f64::from_bits(spec.resources.num_cpus_bits), 2.0);
}

#[test]
fn test_task_builder_build_method() {
    let spec = TaskBuilder::new("test")
        .arg_serialized(Ok(serialize_i32(42)))
        .arg_serialized(Ok(serialize_i32(7)))
        .num_cpus_bits(1.0f64.to_bits())
        .build()
        .unwrap();
    assert_eq!(spec.function_id.as_str(), "test");
    assert_eq!(spec.args.len(), 2);
    assert_eq!(spec.task_type, TaskType::NormalTask);
    assert_eq!(f64::from_bits(spec.resources.num_cpus_bits), 1.0);
}

#[test]
fn test_task_builder_keeps_first_error() {
    let result = TaskBuilder::new("f")
        .arg_serialized(Err(RustyRayError::Internal("first".to_string())))
        .arg_serialized(Err(RustyRayError::Internal("second".to_string())))
        .arg_ref(ObjectId::from_u64(1))
        .build();
    assert_eq!(result.unwrap_err().to_string(), "Internal error: first");
}

#[test]
fn test_builder_arg_ref_is_dependency() {
    let spec = TaskBuilder::new("g").arg_ref(ObjectId::from_u64(9)).build().unwrap();
    assert_eq!(spec.dependencies(), vec![ObjectId::from_u64(9)]);
}

#[test]
fn test_shutdown_state_codes() {
    assert_eq!(ShutdownState::from(0u8), ShutdownState::Running);
    assert_eq!(ShutdownState::from(1u8), ShutdownState::ShuttingDown);
    assert_eq!(ShutdownState::from(2u8), ShutdownState::Shutdown);
    assert_eq!(ShutdownState::from(200u8), ShutdownState::Shutdown);
    assert_eq!(ShutdownState::ShuttingDown.code(), 1);
}

#[test]
fn test_shutdown_is_idempotent() {
    let (state, action) = request_shutdown(ShutdownState::Running);
    assert_eq!(action, ShutdownAction::Initiate);
    assert_eq!(state, ShutdownState::ShuttingDown);
    assert!(must_keep_waiting(state));
    let (state2, action2) = request_shutdown(state);
    assert_eq!(action2, ShutdownAction::AwaitOther);
    assert_eq!(state2, ShutdownState::ShuttingDown);
    let (state3, action3) = request_shutdown(ShutdownState::Shutdown);
    assert_eq!(action3, ShutdownAction::AlreadyDone);
    assert!(is_shutdown(state3));
}

#[test]
fn test_shutdown_is_final() {
    for state in [ShutdownState::Running, ShutdownState::ShuttingDown, ShutdownState::Shutdown] {
        assert_eq!(ShutdownState::from_code(state.code()), state);
    }
    let stored = ShutdownState::Shutdown.code();
    let state = ShutdownState::from_code(stored);
    assert_eq!(request_shutdown(state).1, ShutdownAction::AlreadyDone);
    assert!(!must_keep_waiting(state));
    assert!(check_accepting(state).is_err());
}

#[test]
fn test_no_new_tasks_after_shutdown() {
    assert!(check_accepting(ShutdownState::Running).is_ok());
    let err = check_accepting(ShutdownState::ShuttingDown).unwrap_err();
    assert!(err.to_string().contains("shutting down"));
    assert!(check_accepting(ShutdownState::Shutdown).is_err());
}

#[test]
fn test_task_result_encoding_roundtrip() {
    let ok = encode_task_result(Ok(vec![1, 2, 3]));
    assert_eq!(ok, vec![1, 2, 3]);
    assert!(!has_error_marker(&ok));
    assert_eq!(decode_task_result(ok).unwrap(), vec![1, 2, 3]);

    let err = encode_task_result(Err(RustyRayError::TaskExecutionFailed("boom".to_string())));
    assert!(err.starts_with(b"__RUSTYRAY_ERROR__"));
    assert!(has_error_marker(&err));
    let decoded = decode_task_result(err).unwrap_err();
    assert_eq!(decoded.to_string(), "Internal error: Task execution failed: boom");
}

#[test]
fn test_invalid_utf8_error_text_is_replaced() {
    let mut bytes = b"__RUSTYRAY_ERROR__".to_vec();
    bytes.push(0xff);
    let decoded = decode_task_result(bytes).unwrap_err();
    assert_eq!(decoded.to_string(), "Internal error: \u{FFFD}");
}

#[test]
fn test_retry_policy_backoff() {
    let mut policy = RetryPolicy::new();
    let id = ObjectId::from_u64(12);
    let mut delays = vec![];
    loop {
        match policy.on_fetch(id, None) {
            FetchStep::Sleep(ms) => delays.push(ms),
            FetchStep::Deliver(result) => {
                let err = result.unwrap_err();
                assert_eq!(err.to_string(), "Internal error: Object 12 not found after 100 retries");
                assert!(err.to_string().contains("not found"));
                break;
            }
        }
    }
    assert_eq!(delays.len(), 100);
    assert_eq!(&delays[..8], &[1, 2, 4, 8, 16, 32, 64, 100]);
    assert!(delays.iter().all(|d| *d <= 100));
}

#[test]
fn test_retry_policy_delivers_bytes() {
    let mut policy = RetryPolicy::new();
    let id = ObjectId::from_u64(1);
    assert!(matches!(policy.on_fetch(id, None), FetchStep::Sleep(1)));
    match policy.on_fetch(id, Some(vec![5, 6])) {
        FetchStep::Deliver(Ok(bytes)) => assert_eq!(bytes, vec![5, 6]),
        _ => panic!("expected delivery"),
    }
}

#[test]
fn test_function_id_conversions() {
    let a = FunctionId::new("add");
    assert_eq!(a, FunctionId::from("add"));
    assert_eq!(a, FunctionId::from("add".to_string()));
    assert_eq!(a.as_str(), "add");
    assert_ne!(a, FunctionId::new("sub"));
}
