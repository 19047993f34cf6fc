use rustyray::error::{ResultExt, RustyRayError};
use rustyray::types::ActorId;

#[test]
fn test_error_display() {
    let id = ActorId { id: 5 };
    assert_eq!(RustyRayError::ActorNotFound(id).to_string(), "Actor 5 not found");
    assert_eq!(RustyRayError::ActorDead(id).to_string(), "Actor 5 is dead");
    assert_eq!(RustyRayError::MailboxFull(id).to_string(), "Actor 5 mailbox is full");
    assert_eq!(
        RustyRayError::MessageSendFailed("x".to_string()).to_string(),
        "Failed to send message: x"
    );
    assert_eq!(RustyRayError::Timeout("t".to_string()).to_string(), "Operation timed out: t");
    assert_eq!(RustyRayError::InvalidMessage.to_string(), "Invalid message type");
    assert_eq!(
        RustyRayError::RuntimeNotInitialized.to_string(),
        "Runtime not initialized. Call runtime::init() or use #[rustyray::main]"
    );
}

#[test]
fn test_error_context() {
    let err = RustyRayError::Internal("failed to connect".into());
    let err_with_context = err.context("while initializing actor system");
    assert_eq!(
        err_with_context.to_string(),
        "while initializing actor system: Internal error: failed to connect"
    );
    let source = err_with_context.source().unwrap();
    assert_eq!(source.to_string(), "Internal error: failed to connect");
    assert!(source.source().is_none());
}

#[test]
fn test_result_context() {
    let ok: rustyray::error::Result<i32> = Ok(3);
    assert_eq!(ok.context("unused").unwrap(), 3);
    let err: rustyray::error::Result<i32> = Err(RustyRayError::InvalidMessage);
    let err = err.context("outer").unwrap_err();
    assert_eq!(err.to_string(), "outer: Invalid message type");
    let cloned = err.clone();
    assert_eq!(cloned.to_string(), err.to_string());
}
