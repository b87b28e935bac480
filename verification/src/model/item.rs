//! Items: things that are not characters.

use crate::model::descriptor::{Descriptive, DescriptiveMut, Descriptor, DescriptorView};
use crate::model::entity::{Entity, EntityView};
use crate::model::identity::{Ident, IdentMut, Identity, IdentityView};
use crate::model::something::{Something, Thingy};
use vstd::prelude::*;

verus! {

/// An item.
#[derive(Debug)]
pub struct Item {
    entity: Entity,
}

impl View for Item {
    type V = EntityView;

    closed spec fn view(&self) -> EntityView {
        self.entity@
    }
}

impl Item {
    /// An item from its entity.
    pub fn new(entity: Entity) -> (item: Self)
        ensures
            item@ == entity@,
    {
        Self { entity }
    }
}

impl Ident for Item {
    open spec fn identity_view(&self) -> IdentityView {
        self@.identity
    }

    fn identity(&self) -> (identity: &Identity) {
        self.entity.identity()
    }
}

impl IdentMut for Item {
    fn identity_mut(&mut self) -> (identity: &mut Identity)
        ensures
            final(self)@ == (EntityView { identity: final(identity)@, ..old(self)@ }),
    {
        self.entity.identity_mut()
    }
}

impl Descriptive for Item {
    open spec fn descriptor_view(&self) -> DescriptorView {
        self@.descriptor
    }

    fn descriptor(&self) -> (descriptor: &Descriptor) {
        self.entity.descriptor()
    }
}

impl DescriptiveMut for Item {
    fn descriptor_mut(&mut self) -> (descriptor: &mut Descriptor)
        ensures
            final(self)@ == (EntityView { descriptor: final(descriptor)@, ..old(self)@ }),
    {
        self.entity.descriptor_mut()
    }
}

impl Thingy for Item {
    open spec fn entity_view(&self) -> EntityView {
        self@
    }

    fn entity(&self) -> (entity: &Entity) {
        &self.entity
    }
}

impl Something for Item {
    fn entity_mut(&mut self) -> (entity: &mut Entity)
        ensures
            final(self)@ == final(entity)@,
    {
        &mut self.entity
    }
}

} // verus!
