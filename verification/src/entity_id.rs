//! Wrapper for a network entity id.

use vstd::prelude::*;

verus! {

/// A network entity id, as carried in Play-state packets.
#[derive(Copy, Clone, Debug, PartialEq, Eq, Hash, Structural)]
pub struct EntityId(pub i32);

impl EntityId {
    /// Wraps a raw id.
    pub fn new(id: i32) -> (r: EntityId)
        ensures
            r.0 == id,
    {
        EntityId(id)
    }

    /// The raw id.
    pub fn as_i32(self) -> (r: i32)
        ensures
            r == self.0,
    {
        self.0
    }
}

} // verus!
