use rustyray::runtime::{ensure_not_initialized, global, init, is_initialized, shutdown, take_for_shutdown, RuntimeSlot};

#[test]
fn test_runtime_lifecycle() {
    let mut slot: RuntimeSlot<u32> = RuntimeSlot::empty();
    assert!(!is_initialized(&slot));
    let err = global(&slot).unwrap_err();
    assert!(err.to_string().contains("Runtime not initialized"));

    init(&mut slot, 7).unwrap();
    assert!(is_initialized(&slot));
    assert_eq!(*global(&slot).unwrap(), 7);

    let err = init(&mut slot, 8).unwrap_err();
    assert!(err.to_string().contains("Runtime already initialized"));
    assert_eq!(*global(&slot).unwrap(), 7);

    shutdown(&mut slot).unwrap();
    assert!(!is_initialized(&slot));
    let err = shutdown(&mut slot).unwrap_err();
    assert_eq!(err.to_string(), "Internal error: Runtime not initialized. Nothing to shutdown");

    init(&mut slot, 9).unwrap();
    assert_eq!(take_for_shutdown(&mut slot).unwrap(), 9);
    assert!(!is_initialized(&slot));
}

#[test]
fn test_ensure_not_initialized() {
    let mut slot: RuntimeSlot<u32> = RuntimeSlot::empty();
    assert!(ensure_not_initialized(&slot).is_ok());
    init(&mut slot, 1).unwrap();
    let err = ensure_not_initialized(&slot).unwrap_err();
    assert_eq!(
        err.to_string(),
        "Internal error: Runtime already initialized. Call runtime::shutdown() first to reinitialize"
    );
}
