//! Things: whatever can stand in an area.

use crate::model::builder::{Builder, BuilderMode};
use crate::model::character::Character;
use crate::model::descriptor::{Descriptive, DescriptiveMut, Descriptor, DescriptorView};
use crate::model::entity::{Entity, EntityBuilder, EntityBuilderView, EntityView};
use crate::model::error::{Error, ErrorView};
use crate::model::identity::{Ident, IdentMut, Identity, IdentityView, ID};
use crate::model::item::Item;
use crate::model::something::{Something, Thingy};
use vstd::prelude::*;

verus! {

/// A thing as a mathematical value.
pub enum ThingView {
    Character(EntityView),
    Item(EntityView),
}

impl ThingView {
    /// The thing's entity.
    pub open spec fn entity(self) -> EntityView {
        match self {
            ThingView::Character(entity) => entity,
            ThingView::Item(entity) => entity,
        }
    }

    /// The thing with another entity.
    pub open spec fn with_entity(self, entity: EntityView) -> ThingView {
        match self {
            ThingView::Character(_) => ThingView::Character(entity),
            ThingView::Item(_) => ThingView::Item(entity),
        }
    }
}

/// A character or an item.
#[derive(Debug)]
pub enum Thing {
    Character(Character),
    Item(Item),
}

impl View for Thing {
    type V = ThingView;

    open spec fn view(&self) -> ThingView {
        match self {
            Thing::Character(character) => ThingView::Character(character@),
            Thing::Item(item) => ThingView::Item(item@),
        }
    }
}

/// The fields of an entity builder, or those of a builder for a new entity
/// where there is none.
pub open spec fn fields_or_new(fields: Option<EntityBuilderView>) -> EntityBuilderView {
    match fields {
        Some(fields) => fields,
        None => EntityBuilderView::empty(BuilderMode::Creator),
    }
}

/// A builder that makes a thing from an entity builder.
pub trait ThingBuilder: Builder {
    /// The fields of the entity builder, if the builder has one.
    spec fn entity_fields(&self) -> Option<EntityBuilderView>;

    /// What `build_thing` gives for the fields of an entity builder.
    spec fn built_from(entity: Option<EntityBuilderView>) -> Result<ThingView, ErrorView>;

    /// Sets the entity builder.
    fn entity(&mut self, entity: EntityBuilder) -> (result: Result<(), Error>)
        ensures
            result is Ok,
            final(self).entity_fields() == Some(entity@),
    ;

    /// The entity builder, for writing; one for a new entity where none was
    /// set.
    fn entity_builder(&mut self) -> (entity: &mut EntityBuilder)
        ensures
            entity@ == fields_or_new(old(self).entity_fields()),
            final(self).entity_fields() == Some(final(entity)@),
    ;

    /// Makes the thing, or reports the first field that is missing.
    fn build_thing(self) -> (result: Result<Thing, Error>)
        ensures
            match result {
                Ok(thing) => Self::built_from(self.entity_fields()) == Ok::<ThingView, ErrorView>(
                    thing@,
                ),
                Err(error) => Self::built_from(self.entity_fields()) == Err::<ThingView, ErrorView>(
                    error@,
                ),
            },
    ;
}

impl Thing {
    /// The thing's descriptor, for writing.
    pub fn descriptor_mut(&mut self) -> (descriptor: &mut Descriptor)
        ensures
            descriptor@ == old(self)@.entity().descriptor,
            final(self)@ == old(self)@.with_entity(
                EntityView { descriptor: final(descriptor)@, ..old(self)@.entity() },
            ),
    {
        match self {
            Thing::Character(character) => character.descriptor_mut(),
            Thing::Item(item) => item.descriptor_mut(),
        }
    }

    /// A builder for changing the entity of a thing.
    pub fn editor() -> (builder: EntityBuilder)
        ensures
            builder@ == EntityBuilderView::empty(BuilderMode::Editor),
    {
        Entity::editor()
    }

    /// The id of the thing's entity.
    pub fn id(&self) -> (id: ID)
        ensures
            id == self@.entity().identity.id,
    {
        match self {
            Thing::Character(character) => character.id(),
            Thing::Item(item) => item.entity().id(),
        }
    }
}

impl Ident for Thing {
    open spec fn identity_view(&self) -> IdentityView {
        self@.entity().identity
    }

    fn identity(&self) -> (identity: &Identity) {
        match self {
            Thing::Character(character) => character.identity(),
            Thing::Item(item) => item.identity(),
        }
    }
}

impl IdentMut for Thing {
    fn identity_mut(&mut self) -> (identity: &mut Identity)
        ensures
            final(self)@ == old(self)@.with_entity(
                EntityView { identity: final(identity)@, ..old(self)@.entity() },
            ),
    {
        match self {
            Thing::Character(character) => character.identity_mut(),
            Thing::Item(item) => item.identity_mut(),
        }
    }
}

impl Descriptive for Thing {
    open spec fn descriptor_view(&self) -> DescriptorView {
        self@.entity().descriptor
    }

    fn descriptor(&self) -> (descriptor: &Descriptor) {
        match self {
            Thing::Character(character) => character.descriptor(),
            Thing::Item(item) => item.descriptor(),
        }
    }
}

impl DescriptiveMut for Thing {
    fn descriptor_mut(&mut self) -> (descriptor: &mut Descriptor)
        ensures
            final(self)@ == old(self)@.with_entity(
                EntityView { descriptor: final(descriptor)@, ..old(self)@.entity() },
            ),
    {
        match self {
            Thing::Character(character) => Character::descriptor_mut(character),
            Thing::Item(item) => item.descriptor_mut(),
        }
    }
}

impl Thingy for Thing {
    open spec fn entity_view(&self) -> EntityView {
        self@.entity()
    }

    fn entity(&self) -> (entity: &Entity) {
        match self {
            Thing::Character(character) => character.entity(),
            Thing::Item(item) => item.entity(),
        }
    }
}

impl Something for Thing {
    fn entity_mut(&mut self) -> (entity: &mut Entity)
        ensures
            final(self)@ == old(self)@.with_entity(final(entity)@),
    {
        match self {
            Thing::Character(character) => character.entity_mut(),
            Thing::Item(item) => item.entity_mut(),
        }
    }
}

} // verus!
