//! Error types for runtime, task, actor and object store operations.

use crate::types::{decimal_digits, ActorId};
use vstd::prelude::*;

verus! {

/// The main error type.
#[derive(Debug)]
pub enum RustyRayError {
    /// Actor with the given ID was not found.
    ActorNotFound(ActorId),
    /// Actor has been killed/terminated.
    ActorDead(ActorId),
    /// Failed to send message to actor.
    MessageSendFailed(String),
    /// Actor mailbox is full (for bounded channels).
    MailboxFull(ActorId),
    /// Timeout waiting for a response.
    Timeout(String),
    /// Task execution failed.
    TaskExecutionFailed(String),
    /// Message type not recognized by actor.
    InvalidMessage,
    /// Runtime not initialized.
    RuntimeNotInitialized,
    /// Generic internal error.
    Internal(String),
    /// Error with additional context information.
    WithContext {
        /// Additional context about where/why the error occurred.
        context: String,
        /// The underlying error.
        source: Box<RustyRayError>,
    },
}

impl RustyRayError {
    /// A copy of this error.
    pub fn duplicate(&self) -> (r: Self)
        ensures
            r == *self,
        decreases self,
    {
        match self {
            RustyRayError::ActorNotFound(id) => RustyRayError::ActorNotFound(*id),
            RustyRayError::ActorDead(id) => RustyRayError::ActorDead(*id),
            RustyRayError::MessageSendFailed(m) => RustyRayError::MessageSendFailed(m.clone()),
            RustyRayError::MailboxFull(id) => RustyRayError::MailboxFull(*id),
            RustyRayError::Timeout(m) => RustyRayError::Timeout(m.clone()),
            RustyRayError::TaskExecutionFailed(m) => RustyRayError::TaskExecutionFailed(m.clone()),
            RustyRayError::InvalidMessage => RustyRayError::InvalidMessage,
            RustyRayError::RuntimeNotInitialized => RustyRayError::RuntimeNotInitialized,
            RustyRayError::Internal(m) => RustyRayError::Internal(m.clone()),
            RustyRayError::WithContext { context, source } => {
                let inner = source.duplicate();
                RustyRayError::WithContext { context: context.clone(), source: Box::new(inner) }
            },
        }
    }
}

impl Clone for RustyRayError {
    fn clone(&self) -> (r: Self)
        ensures
            r == *self,
    {
        self.duplicate()
    }
}

/// Result type alias for operations of this crate.
pub type Result<T> = core::result::Result<T, RustyRayError>;

/// The text that an error displays as.
pub open spec fn error_message(e: RustyRayError) -> Seq<char>
    decreases e,
{
    match e {
        RustyRayError::ActorNotFound(id) => "Actor "@ + decimal_digits(id.id as nat) + " not found"@,
        RustyRayError::ActorDead(id) => "Actor "@ + decimal_digits(id.id as nat) + " is dead"@,
        RustyRayError::MessageSendFailed(msg) => "Failed to send message: "@ + msg@,
        RustyRayError::MailboxFull(id) => "Actor "@ + decimal_digits(id.id as nat) + " mailbox is full"@,
        RustyRayError::Timeout(msg) => "Operation timed out: "@ + msg@,
        RustyRayError::TaskExecutionFailed(msg) => "Task execution failed: "@ + msg@,
        RustyRayError::InvalidMessage => "Invalid message type"@,
        RustyRayError::RuntimeNotInitialized =>
            "Runtime not initialized. Call runtime::init() or use #[rustyray::main]"@,
        RustyRayError::Internal(msg) => "Internal error: "@ + msg@,
        RustyRayError::WithContext { context, source } =>
            context@ + ": "@ + error_message(*source),
    }
}

impl RustyRayError {
    /// Adds context to this error: the result wraps `self` with `context`.
    pub fn context(self, context: &str) -> (r: Self)
        ensures
            r matches RustyRayError::WithContext { context: c, source: s }
                && c@ == context@ && *s == self,
    {
        RustyRayError::WithContext { context: context.to_owned(), source: Box::new(self) }
    }

    /// The underlying error, for an error that carries context.
    pub fn source(&self) -> (r: Option<&RustyRayError>)
        ensures
            r is Some <==> self is WithContext,
            r matches Some(s) ==> *s == *self->source,
    {
        match self {
            RustyRayError::WithContext { source, .. } => Some(&**source),
            _ => None,
        }
    }

    /// The text this error displays as.
    pub fn to_string(&self) -> (s: String)
        ensures
            s@ == error_message(*self),
        decreases self,
    {
        match self {
            RustyRayError::ActorNotFound(id) => {
                let mut s = "Actor ".to_owned();
                s.append(id.to_string().as_str());
                s.append(" not found");
                s
            },
            RustyRayError::ActorDead(id) => {
                let mut s = "Actor ".to_owned();
                s.append(id.to_string().as_str());
                s.append(" is dead");
                s
            },
            RustyRayError::MessageSendFailed(msg) => {
                let mut s = "Failed to send message: ".to_owned();
                s.append(msg.as_str());
                s
            },
            RustyRayError::MailboxFull(id) => {
                let mut s = "Actor ".to_owned();
                s.append(id.to_string().as_str());
                s.append(" mailbox is full");
                s
            },
            RustyRayError::Timeout(msg) => {
                let mut s = "Operation timed out: ".to_owned();
                s.append(msg.as_str());
                s
            },
            RustyRayError::TaskExecutionFailed(msg) => {
                let mut s = "Task execution failed: ".to_owned();
                s.append(msg.as_str());
                s
            },
            RustyRayError::InvalidMessage => "Invalid message type".to_owned(),
            RustyRayError::RuntimeNotInitialized => {
                "Runtime not initialized. Call runtime::init() or use #[rustyray::main]".to_owned()
            },
            RustyRayError::Internal(msg) => {
                let mut s = "Internal error: ".to_owned();
                s.append(msg.as_str());
                s
            },
            RustyRayError::WithContext { context, source } => {
                let mut s = context.clone();
                s.append(": ");
                let inner = source.to_string();
                s.append(inner.as_str());
                s
            },
        }
    }
}

/// Extension trait for results to add context to their errors.
pub trait ResultExt<T>: Sized {
    /// Adds context to an error; leaves a success unchanged.
    fn context(self, context: &str) -> Result<T>;
}

impl<T> ResultExt<T> for Result<T> {
    fn context(self, context: &str) -> (r: Result<T>)
        ensures
            self matches Ok(v) ==> r == Ok::<T, RustyRayError>(v),
            self matches Err(e) ==> (r matches Err(RustyRayError::WithContext { context: c, source: s })
                && c@ == context@ && *s == e),
    {
        match self {
            Ok(v) => Ok(v),
            Err(e) => Err(e.context(context)),
        }
    }
}

} // verus!
