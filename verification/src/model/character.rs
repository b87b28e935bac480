//! Characters, and the builder that makes them.

use crate::model::builder::{Builder, BuilderMode, Field, ModifyResult};
use crate::model::descriptor::{Descriptive, DescriptiveMut, Descriptor, DescriptorView};
use crate::model::entity::{Entity, EntityBuilder, EntityBuilderView, EntityView};
use crate::model::error::{field_not_set, Error, ErrorView};
use crate::model::identity::{
    Ident, IdentMut, Identity, IdentityBuilderView, IdentityView, ID,
};
use crate::model::something::{Something, Thingy};
use crate::model::thing::{fields_or_new, Thing, ThingBuilder, ThingView};
use vstd::prelude::*;

verus! {

/// A character.
#[derive(Debug)]
pub struct Character {
    entity: Entity,
}

impl View for Character {
    type V = EntityView;

    closed spec fn view(&self) -> EntityView {
        self.entity@
    }
}

/// The fields that a character builder holds.
pub struct CharacterBuilderView {
    pub mode: BuilderMode,
    pub entity: Option<EntityBuilderView>,
}

/// What making a character from the fields of an entity builder gives: the
/// character's entity, or the first report of what is missing.
pub open spec fn character_created(entity: Option<EntityBuilderView>) -> Result<
    EntityView,
    ErrorView,
> {
    match entity {
        Some(entity) => entity.created(),
        None => Err(field_not_set("Entity", "entity")),
    }
}

/// Collects the fields of a character.
#[derive(Debug)]
pub struct CharacterBuilder {
    builder_mode: BuilderMode,
    entity: Option<EntityBuilder>,
}

impl View for CharacterBuilder {
    type V = CharacterBuilderView;

    closed spec fn view(&self) -> CharacterBuilderView {
        CharacterBuilderView {
            mode: self.builder_mode,
            entity: match self.entity {
                Some(entity) => Some(entity@),
                None => None,
            },
        }
    }
}

impl CharacterBuilder {
    /// A builder with no field set, in a mode.
    pub fn with_mode(mode: BuilderMode) -> (builder: Self)
        ensures
            builder@ == (CharacterBuilderView { mode, entity: None }),
    {
        Self { builder_mode: mode, entity: None }
    }

    /// Sets the id of the character's entity, and keeps whatever else of the
    /// entity was set.
    pub fn id(self, id: ID) -> (builder: Self)
        ensures
            builder@ == (CharacterBuilderView {
                entity: Some(
                    EntityBuilderView {
                        identity: Some(
                            IdentityBuilderView {
                                id: Some(id),
                                ..fields_or_new(self@.entity).identity_or_empty()
                            },
                        ),
                        ..fields_or_new(self@.entity)
                    },
                ),
                ..self@
            }),
    {
        let entity = match self.entity {
            Some(entity) => entity.id(id),
            None => Entity::builder().id(id),
        };
        Self { builder_mode: self.builder_mode, entity: Some(entity) }
    }
}

impl Builder for CharacterBuilder {
    type Type = Character;

    open spec fn mode(&self) -> BuilderMode {
        self@.mode
    }

    fn creator() -> (builder: Self)
        ensures
            builder@ == (CharacterBuilderView { mode: BuilderMode::Creator, entity: None }),
    {
        Self::with_mode(BuilderMode::Creator)
    }

    fn editor() -> (builder: Self)
        ensures
            builder@ == (CharacterBuilderView { mode: BuilderMode::Editor, entity: None }),
    {
        Self::with_mode(BuilderMode::Editor)
    }

    fn builder_mode(&self) -> (mode: BuilderMode) {
        self.builder_mode
    }

    fn create(self) -> (result: Result<Character, Error>)
        ensures
            match result {
                Ok(character) => character_created(self@.entity) == Ok::<EntityView, ErrorView>(
                    character@,
                ),
                Err(error) => character_created(self@.entity) == Err::<EntityView, ErrorView>(
                    error@,
                ),
            },
    {
        match self.entity {
            Some(entity) => Ok(Character { entity: entity.create()? }),
            None => Err(Error::FieldNotSet { class: "Entity", field: "entity" }),
        }
    }

    /// A character has no field of its own to change: its entity is changed
    /// through the entity's builders. Nothing is written and nothing reported.
    fn modify(self, target: &mut Character) -> (result: Result<ModifyResult, Error>)
        ensures
            result matches Ok(changed) && changed@ == Seq::<crate::model::builder::FieldView>::empty(),
            *final(target) == *old(target),
    {
        let fields_changed: Vec<Field> = Vec::new();
        proof {
            assert(fields_changed@.map_values(|field: Field| field@) =~= Seq::empty());
        }
        Ok(ModifyResult::new(fields_changed))
    }
}

impl ThingBuilder for CharacterBuilder {
    open spec fn entity_fields(&self) -> Option<EntityBuilderView> {
        self@.entity
    }

    open spec fn built_from(entity: Option<EntityBuilderView>) -> Result<ThingView, ErrorView> {
        match character_created(entity) {
            Ok(entity) => Ok(ThingView::Character(entity)),
            Err(error) => Err(error),
        }
    }

    fn entity(&mut self, entity: EntityBuilder) -> (result: Result<(), Error>)
        ensures
            final(self)@ == (CharacterBuilderView { entity: Some(entity@), ..old(self)@ }),
    {
        self.entity = Some(entity);
        Ok(())
    }

    fn entity_builder(&mut self) -> (entity: &mut EntityBuilder)
        ensures
            final(self)@ == (CharacterBuilderView { entity: Some(final(entity)@), ..old(self)@ }),
    {
        if self.entity.is_none() {
            self.entity = Some(Entity::creator());
        }
        self.entity.as_mut().unwrap()
    }

    fn build_thing(self) -> (result: Result<Thing, Error>) {
        Ok(Thing::Character(self.create()?))
    }
}

impl Character {
    /// A builder for a new character.
    pub fn builder() -> (builder: CharacterBuilder)
        ensures
            builder@ == (CharacterBuilderView { mode: BuilderMode::Creator, entity: None }),
    {
        CharacterBuilder::creator()
    }

    /// A builder for a new character.
    pub fn creator() -> (builder: CharacterBuilder)
        ensures
            builder@ == (CharacterBuilderView { mode: BuilderMode::Creator, entity: None }),
    {
        CharacterBuilder::creator()
    }

    /// A builder for changing a character.
    pub fn editor() -> (builder: CharacterBuilder)
        ensures
            builder@ == (CharacterBuilderView { mode: BuilderMode::Editor, entity: None }),
    {
        CharacterBuilder::editor()
    }

    /// The character's descriptor, for writing.
    pub fn descriptor_mut(&mut self) -> (descriptor: &mut Descriptor)
        ensures
            descriptor@ == old(self)@.descriptor,
            final(self)@ == (EntityView { descriptor: final(descriptor)@, ..old(self)@ }),
    {
        self.entity.descriptor_mut()
    }

    /// The id of the character's entity.
    pub fn id(&self) -> (id: ID)
        ensures
            id == self@.identity.id,
    {
        self.entity.id()
    }
}

impl Ident for Character {
    open spec fn identity_view(&self) -> IdentityView {
        self@.identity
    }

    fn identity(&self) -> (identity: &Identity) {
        self.entity.identity()
    }
}

impl IdentMut for Character {
    fn identity_mut(&mut self) -> (identity: &mut Identity)
        ensures
            final(self)@ == (EntityView { identity: final(identity)@, ..old(self)@ }),
    {
        self.entity.identity_mut()
    }
}

impl Descriptive for Character {
    open spec fn descriptor_view(&self) -> DescriptorView {
        self@.descriptor
    }

    fn descriptor(&self) -> (descriptor: &Descriptor) {
        self.entity.descriptor()
    }
}

impl DescriptiveMut for Character {
    fn descriptor_mut(&mut self) -> (descriptor: &mut Descriptor)
        ensures
            final(self)@ == (EntityView { descriptor: final(descriptor)@, ..old(self)@ }),
    {
        self.entity.descriptor_mut()
    }
}

impl Thingy for Character {
    open spec fn entity_view(&self) -> EntityView {
        self@
    }

    fn entity(&self) -> (entity: &Entity) {
        &self.entity
    }
}

impl Something for Character {
    fn entity_mut(&mut self) -> (entity: &mut Entity)
        ensures
            final(self)@ == final(entity)@,
    {
        &mut self.entity
    }
}

} // verus!
