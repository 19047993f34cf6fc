//! The runtime's lifecycle: at most one runtime is installed at a time; it
//! must be initialized before use and can be shut down and initialized
//! again.

use crate::error::{Result, RustyRayError};
use vstd::prelude::*;

verus! {

/// The place that holds the installed runtime, if any.
pub struct RuntimeSlot<R> {
    runtime: Option<R>,
}

impl<R> RuntimeSlot<R> {
    /// The installed runtime, if any.
    pub closed spec fn current(&self) -> Option<R> {
        self.runtime
    }

    /// A slot with no runtime installed.
    pub fn empty() -> (r: Self)
        ensures
            r.current() is None,
    {
        RuntimeSlot { runtime: None }
    }
}

pub open spec fn msg_already_initialized() -> Seq<char> {
    "Runtime already initialized. Call runtime::shutdown() first to reinitialize"@
}

pub open spec fn msg_not_initialized() -> Seq<char> {
    "Runtime not initialized. Call runtime::init() first or use #[rustyray::main]"@
}

pub open spec fn msg_nothing_to_shutdown() -> Seq<char> {
    "Runtime not initialized. Nothing to shutdown"@
}

/// Installs `runtime`. If a runtime is installed already, it stays and the
/// new one is refused.
pub fn init<R>(slot: &mut RuntimeSlot<R>, runtime: R) -> (r: Result<()>)
    ensures
        old(slot).current() is Some ==> final(slot).current() == old(slot).current()
            && (r matches Err(RustyRayError::Internal(m)) && m@ == msg_already_initialized()),
        old(slot).current() is None ==> final(slot).current() == Some(runtime) && r is Ok,
{
    match ensure_not_initialized(slot) {
        Ok(()) => {},
        Err(e) => return Err(e),
    }
    slot.runtime = Some(runtime);
    Ok(())
}

/// Refuses when a runtime is installed already, with the error that `init`
/// gives; lets a caller check before it builds a runtime.
pub fn ensure_not_initialized<R>(slot: &RuntimeSlot<R>) -> (r: Result<()>)
    ensures
        slot.current() is Some ==> (r matches Err(RustyRayError::Internal(m)) && m@ == msg_already_initialized()),
        slot.current() is None ==> r is Ok,
{
    if slot.runtime.is_some() {
        return Err(RustyRayError::Internal(
            "Runtime already initialized. Call runtime::shutdown() first to reinitialize".to_owned(),
        ));
    }
    Ok(())
}

/// The installed runtime.
pub fn global<R>(slot: &RuntimeSlot<R>) -> (r: Result<&R>)
    ensures
        slot.current() matches Some(x) ==> (r matches Ok(y) && *y == x),
        slot.current() is None ==> (r matches Err(RustyRayError::Internal(m)) && m@ == msg_not_initialized()),
{
    match &slot.runtime {
        Some(rt) => Ok(rt),
        None => Err(RustyRayError::Internal(
            "Runtime not initialized. Call runtime::init() first or use #[rustyray::main]".to_owned(),
        )),
    }
}

/// Removes the installed runtime and hands it over, so that its systems can
/// be shut down in order.
pub fn take_for_shutdown<R>(slot: &mut RuntimeSlot<R>) -> (r: Result<R>)
    ensures
        final(slot).current() is None,
        old(slot).current() matches Some(x) ==> (r matches Ok(y) && y == x),
        old(slot).current() is None ==> (r matches Err(RustyRayError::Internal(m)) && m@ == msg_nothing_to_shutdown()),
{
    match slot.runtime.take() {
        Some(rt) => Ok(rt),
        None => Err(RustyRayError::Internal("Runtime not initialized. Nothing to shutdown".to_owned())),
    }
}

/// Removes the installed runtime, dropping it.
pub fn shutdown<R>(slot: &mut RuntimeSlot<R>) -> (r: Result<()>)
    ensures
        final(slot).current() is None,
        old(slot).current() is Some ==> r is Ok,
        old(slot).current() is None ==> (r matches Err(RustyRayError::Internal(m)) && m@ == msg_nothing_to_shutdown()),
{
    match take_for_shutdown(slot) {
        Ok(_) => Ok(()),
        Err(e) => Err(e),
    }
}

/// Whether a runtime is installed.
pub fn is_initialized<R>(slot: &RuntimeSlot<R>) -> (r: bool)
    ensures
        r == slot.current() is Some,
{
    slot.runtime.is_some()
}

} // verus!
