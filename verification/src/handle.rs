//! Handles to objects that live on the rendering device.

use vstd::prelude::*;

verus! {

/// An opaque handle to a device object. The identifier zero is the one handle
/// that never refers to anything.
#[derive(Clone, Copy, PartialEq, Eq, Structural, Debug)]
pub struct Handle {
    pub id: u64,
}

/// Calls `godot::builtin::Rid::new` on the identifier and asks the resulting
/// `Rid` whether it `is_valid`. `Rid::new` yields the `Valid` variant for every
/// identifier but zero, and `is_valid` holds of that variant alone.
#[verifier::external_body]
fn rid_is_valid(id: u64) -> (valid: bool)
    ensures
        valid == (id != 0),
{
    godot::builtin::Rid::new(id).is_valid()
}

impl Handle {
    /// Whether the handle may refer to an object.
    pub open spec fn valid(self) -> bool {
        self.id != 0
    }

    /// The handle with the given identifier.
    pub fn new(id: u64) -> (handle: Handle)
        ensures
            handle.id == id,
    {
        Handle { id }
    }

    /// The handle that refers to nothing.
    pub fn invalid() -> (handle: Handle)
        ensures
            handle.id == 0,
            !handle.valid(),
    {
        Handle { id: 0 }
    }

    /// Whether the handle may refer to an object.
    pub fn is_valid(&self) -> (valid: bool)
        ensures
            valid == self.valid(),
    {
        rid_is_valid(self.id)
    }
}

} // verus!
