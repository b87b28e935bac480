//! A humanoid's legs, and what can be attached to them.

pub mod leg;

use vstd::prelude::*;

verus! {

/// The two legs.
#[derive(Debug, Clone, Copy, PartialEq, Eq, Structural)]
pub enum Component {
    Left,
    Right,
}

impl Component {
    /// The key under which the leg is held.
    pub fn key(self) -> (key: isize)
        ensures
            key == match self {
                Component::Left => 1isize,
                Component::Right => 2isize,
            },
    {
        match self {
            Component::Left => 1,
            Component::Right => 2,
        }
    }
}

/// The ways of attaching something to the legs.
#[derive(Debug, Clone, Copy, PartialEq, Eq, Structural)]
pub enum Attachment {
    WearOn,
}

impl Attachment {
    /// The key under which the attachment is held.
    pub fn key(self) -> (key: isize)
        ensures
            key == 1,
    {
        1
    }
}

} // verus!
