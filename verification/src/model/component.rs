//! Component slots.

use crate::model::descriptor::Descriptor;
use crate::model::identity::ID;
use crate::model::inventory::SlotView;
use vstd::prelude::*;

verus! {

/// A part that an entity is made of, and the entity that fills it.
#[derive(Debug)]
pub struct ComponentSlot {
    id: ID,
    descriptor: Descriptor,
    contents_entity_id: ID,
}

impl View for ComponentSlot {
    type V = SlotView;

    closed spec fn view(&self) -> SlotView {
        SlotView {
            id: self.id,
            descriptor: self.descriptor@,
            contents_entity_id: self.contents_entity_id,
        }
    }
}

} // verus!
