//! What can be attached to a humanoid's head.

use vstd::prelude::*;

verus! {

/// The ways of attaching something to a head.
#[derive(Debug, Clone, Copy, PartialEq, Eq, Structural)]
pub enum Attachment {
    WearOn,
}

impl Attachment {
    /// The key under which the attachment is held.
    pub fn key(self) -> (key: isize)
        ensures
            key == 1,
    {
        1
    }
}

} // verus!
