//! The parts of one leg.

use vstd::prelude::*;

verus! {

/// The parts of a leg.
#[derive(Debug, Clone, Copy, PartialEq, Eq, Structural)]
pub enum Component {
    Shin,
    Foot,
}

impl Component {
    /// The key under which the part is held.
    pub fn key(self) -> (key: isize)
        ensures
            key == match self {
                Component::Shin => 1isize,
                Component::Foot => 2isize,
            },
    {
        match self {
            Component::Shin => 1,
            Component::Foot => 2,
        }
    }
}

} // verus!
