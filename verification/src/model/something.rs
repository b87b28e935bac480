//! What everything that exists in the world shares: an entity.

use crate::model::descriptor::{Descriptive, DescriptiveMut};
use crate::model::entity::{Entity, EntityView};
use crate::model::identity::ID;
use vstd::prelude::*;

verus! {

/// Read access to the entity of a value that exists in the world.
pub trait Thingy: Descriptive {
    /// The entity as a mathematical value.
    spec fn entity_view(&self) -> EntityView;

    /// The entity of this value.
    fn entity(&self) -> (entity: &Entity)
        ensures
            entity@ == self.entity_view(),
    ;

    /// The id of this value's entity.
    fn id(&self) -> (id: ID)
        ensures
            id == self.entity_view().identity.id,
    {
        self.entity().id()
    }
}

/// Write access to the entity of a value that exists in the world.
pub trait Something: Thingy + DescriptiveMut {
    /// The entity of this value, for writing. What is written to it is written
    /// to the value.
    fn entity_mut(&mut self) -> (entity: &mut Entity)
        ensures
            entity@ == old(self).entity_view(),
            final(self).entity_view() == final(entity)@,
    ;
}

} // verus!
