//! The parts of a humanoid's torso, and what can be attached to it.

pub mod upper;

use vstd::prelude::*;

verus! {

/// The parts of a torso.
#[derive(Debug, Clone, Copy, PartialEq, Eq, Structural)]
pub enum Component {
    Upper,
    Waist,
}

impl Component {
    /// The key under which the part is held.
    pub fn key(self) -> (key: isize)
        ensures
            key == match self {
                Component::Upper => 1isize,
                Component::Waist => 2isize,
            },
    {
        match self {
            Component::Upper => 1,
            Component::Waist => 2,
        }
    }
}

/// The ways of attaching something to a torso.
#[derive(Debug, Clone, Copy, PartialEq, Eq, Structural)]
pub enum Attachment {
    StrapToBack,
}

impl Attachment {
    /// The key under which the attachment is held.
    pub fn key(self) -> (key: isize)
        ensures
            key == 2,
    {
        2
    }
}

} // verus!
