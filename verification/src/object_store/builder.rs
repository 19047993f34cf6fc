//! Handle for building objects in place (create, write, seal). The
//! create/seal pattern is not implemented yet.

use crate::error::{Result, RustyRayError};
use crate::types::ObjectId;
use vstd::prelude::*;

verus! {

/// Handle for building objects with the Create/Seal pattern.
pub struct ObjectBuilder {
    /// The ID that will be assigned to this object.
    pub id: ObjectId,
    /// Internal implementation details.
    _private: (),
}

/// Whether objects can be built in place. The create/seal pattern belongs to
/// a later phase: no builder can write or seal yet.
pub open spec fn create_seal_implemented() -> bool {
    false
}

impl ObjectBuilder {
    /// Writes data to the object being built.
    ///
    /// Writing is not implemented, so the call is never to be made: its
    /// precondition is that the create/seal pattern is implemented.
    pub fn write(&mut self, _data: &[u8]) -> (r: Result<()>)
        requires
            create_seal_implemented(),
    {
        Err(RustyRayError::Internal("Create/Seal pattern will be implemented in a future phase".to_owned()))
    }
}

} // verus!
