//! Inventory slots.

use crate::model::descriptor::{Descriptor, DescriptorView};
use crate::model::identity::ID;
use vstd::prelude::*;

verus! {

/// A slot as a mathematical value.
pub struct SlotView {
    pub id: ID,
    pub descriptor: DescriptorView,
    pub contents_entity_id: ID,
}

/// A place in an entity's inventory, and the entity that it holds.
#[derive(Debug)]
pub struct InventorySlot {
    id: ID,
    descriptor: Descriptor,
    contents_entity_id: ID,
}

impl View for InventorySlot {
    type V = SlotView;

    closed spec fn view(&self) -> SlotView {
        SlotView {
            id: self.id,
            descriptor: self.descriptor@,
            contents_entity_id: self.contents_entity_id,
        }
    }
}

} // verus!
