//! Entities: what every thing in the world is made of.

use crate::model::builder::{Builder, BuilderMode, Field, ModifyResult};
use crate::model::component::ComponentSlot;
use crate::model::descriptor::{
    Descriptive, DescriptiveMut, Descriptor, DescriptorBuilder, DescriptorBuilderView,
    DescriptorView,
};
use crate::model::error::{field_not_set, Error, ErrorView};
use crate::model::identity::{
    Ident, IdentMut, Identity, IdentityBuilder, IdentityBuilderView, IdentityView, ID,
};
use crate::model::inventory::{InventorySlot, SlotView};
use vstd::prelude::*;

verus! {

/// An entity as a mathematical value.
pub struct EntityView {
    pub identity: IdentityView,
    pub descriptor: DescriptorView,
    pub inventory: Seq<SlotView>,
    pub components: Seq<SlotView>,
}

/// An identity, a descriptor, and what the entity holds and is made of.
#[derive(Debug)]
pub struct Entity {
    identity: Identity,
    descriptor: Descriptor,
    inventory: Vec<InventorySlot>,
    components: Vec<ComponentSlot>,
}

impl View for Entity {
    type V = EntityView;

    closed spec fn view(&self) -> EntityView {
        EntityView {
            identity: self.identity@,
            descriptor: self.descriptor@,
            inventory: self.inventory@.map_values(|slot: InventorySlot| slot@),
            components: self.components@.map_values(|slot: ComponentSlot| slot@),
        }
    }
}

/// The fields that an entity builder holds.
pub struct EntityBuilderView {
    pub mode: BuilderMode,
    pub identity: Option<IdentityBuilderView>,
    pub descriptor: Option<DescriptorBuilderView>,
}

impl EntityBuilderView {
    /// A builder with no field set.
    pub open spec fn empty(mode: BuilderMode) -> EntityBuilderView {
        EntityBuilderView { mode, identity: None, descriptor: None }
    }

    /// The identity fields, or none set where the builder has no identity
    /// builder yet.
    pub open spec fn identity_or_empty(self) -> IdentityBuilderView {
        match self.identity {
            Some(identity) => identity,
            None => IdentityBuilderView::empty(self.mode),
        }
    }

    /// The descriptor fields, or none set where the builder has no descriptor
    /// builder yet.
    pub open spec fn descriptor_or_empty(self) -> DescriptorBuilderView {
        match self.descriptor {
            Some(descriptor) => descriptor,
            None => DescriptorBuilderView::empty(self.mode),
        }
    }

    /// What `create` gives: an entity that holds nothing and is made of
    /// nothing, or the first report of what is missing, the identity before the
    /// descriptor.
    pub open spec fn created(self) -> Result<EntityView, ErrorView> {
        match self.identity {
            None => Err(field_not_set("Entity", "identity")),
            Some(identity) => match identity.created() {
                Err(error) => Err(error),
                Ok(identity) => match self.descriptor {
                    None => Err(field_not_set("Entity", "descriptor")),
                    Some(descriptor) => match descriptor.created() {
                        Err(error) => Err(error),
                        Ok(descriptor) => Ok(
                            EntityView {
                                identity,
                                descriptor,
                                inventory: Seq::empty(),
                                components: Seq::empty(),
                            },
                        ),
                    },
                },
            },
        }
    }
}

/// Collects the fields of an entity.
#[derive(Debug)]
pub struct EntityBuilder {
    builder_mode: BuilderMode,
    identity: Option<IdentityBuilder>,
    descriptor: Option<DescriptorBuilder>,
}

impl View for EntityBuilder {
    type V = EntityBuilderView;

    closed spec fn view(&self) -> EntityBuilderView {
        EntityBuilderView {
            mode: self.builder_mode,
            identity: match self.identity {
                Some(identity) => Some(identity@),
                None => None,
            },
            descriptor: match self.descriptor {
                Some(descriptor) => Some(descriptor@),
                None => None,
            },
        }
    }
}

impl EntityBuilder {
    pub const CLASSNAME: &'static str = "Entity";

    pub const FIELDNAME_IDENTITY: &'static str = "identity";

    pub const FIELDNAME_DESCRIPTOR: &'static str = "descriptor";

    /// A builder with no field set, in a mode.
    pub fn with_mode(mode: BuilderMode) -> (builder: Self)
        ensures
            builder@ == EntityBuilderView::empty(mode),
    {
        Self { builder_mode: mode, identity: None, descriptor: None }
    }

    /// Sets the id, and keeps whatever else of the identity was set.
    pub fn id(self, id: ID) -> (builder: Self)
        ensures
            builder@ == (EntityBuilderView {
                identity: Some(IdentityBuilderView { id: Some(id), ..self@.identity_or_empty() }),
                ..self@
            }),
    {
        let mut builder = self;
        let _ = builder.identity_builder().id(id);
        builder
    }

    /// Sets the identity builder.
    pub fn identity(&mut self, identity: IdentityBuilder) -> (result: Result<(), Error>)
        ensures
            result is Ok,
            final(self)@ == (EntityBuilderView { identity: Some(identity@), ..old(self)@ }),
    {
        self.identity = Some(identity);
        Ok(())
    }

    /// The identity builder, for writing; a new one where none was set.
    pub fn identity_builder(&mut self) -> (identity: &mut IdentityBuilder)
        ensures
            identity@ == old(self)@.identity_or_empty(),
            final(self)@ == (EntityBuilderView { identity: Some(final(identity)@), ..old(self)@ }),
    {
        if self.identity.is_none() {
            self.identity = Some(IdentityBuilder::with_mode(self.builder_mode));
        }
        self.identity.as_mut().unwrap()
    }

    /// The identity builder, if one was set.
    pub fn get_identity(&self) -> (identity: Option<&IdentityBuilder>)
        ensures
            match identity {
                Some(identity) => self@.identity == Some(identity@),
                None => self@.identity.is_none(),
            },
    {
        self.identity.as_ref()
    }

    /// Sets the descriptor builder.
    pub fn descriptor(&mut self, descriptor: DescriptorBuilder) -> (result: Result<(), Error>)
        ensures
            result is Ok,
            final(self)@ == (EntityBuilderView { descriptor: Some(descriptor@), ..old(self)@ }),
    {
        self.descriptor = Some(descriptor);
        Ok(())
    }

    /// The descriptor builder, for writing; a new one where none was set.
    pub fn descriptor_builder(&mut self) -> (descriptor: &mut DescriptorBuilder)
        ensures
            descriptor@ == old(self)@.descriptor_or_empty(),
            final(self)@ == (EntityBuilderView {
                descriptor: Some(final(descriptor)@),
                ..old(self)@
            }),
    {
        if self.descriptor.is_none() {
            self.descriptor = Some(DescriptorBuilder::with_mode(self.builder_mode));
        }
        self.descriptor.as_mut().unwrap()
    }
}

impl Builder for EntityBuilder {
    type Type = Entity;

    open spec fn mode(&self) -> BuilderMode {
        self@.mode
    }

    fn creator() -> (builder: Self)
        ensures
            builder@ == EntityBuilderView::empty(BuilderMode::Creator),
    {
        Self::with_mode(BuilderMode::Creator)
    }

    fn editor() -> (builder: Self)
        ensures
            builder@ == EntityBuilderView::empty(BuilderMode::Editor),
    {
        Self::with_mode(BuilderMode::Editor)
    }

    fn builder_mode(&self) -> (mode: BuilderMode) {
        self.builder_mode
    }

    fn create(self) -> (result: Result<Entity, Error>)
        ensures
            match result {
                Ok(entity) => self@.created() == Ok::<EntityView, ErrorView>(entity@),
                Err(error) => self@.created() == Err::<EntityView, ErrorView>(error@),
            },
    {
        let identity = match self.identity {
            Some(identity) => identity.create()?,
            None => {
                return Err(
                    Error::FieldNotSet {
                        class: Self::CLASSNAME,
                        field: Self::FIELDNAME_IDENTITY,
                    },
                );
            },
        };
        let descriptor = match self.descriptor {
            Some(descriptor) => descriptor.create()?,
            None => {
                return Err(
                    Error::FieldNotSet {
                        class: Self::CLASSNAME,
                        field: Self::FIELDNAME_DESCRIPTOR,
                    },
                );
            },
        };
        let entity = Entity { identity, descriptor, inventory: Vec::new(), components: Vec::new() };
        proof {
            assert(entity@.inventory =~= Seq::empty());
            assert(entity@.components =~= Seq::empty());
        }
        Ok(entity)
    }

    /// An entity has no field of its own to change: its identity and its
    /// descriptor are changed through their own builders. Nothing is written and
    /// nothing reported.
    fn modify(self, target: &mut Entity) -> (result: Result<ModifyResult, Error>)
        ensures
            result matches Ok(changed) && changed@ == Seq::<crate::model::builder::FieldView>::empty(),
            *final(target) == *old(target),
    {
        let fields_changed: Vec<Field> = Vec::new();
        proof {
            assert(fields_changed@.map_values(|field: Field| field@) =~= Seq::empty());
        }
        Ok(ModifyResult::new(fields_changed))
    }
}

impl Entity {
    /// A builder for a new entity.
    pub fn builder() -> (builder: EntityBuilder)
        ensures
            builder@ == EntityBuilderView::empty(BuilderMode::Creator),
    {
        EntityBuilder::creator()
    }

    /// A builder for a new entity.
    pub fn creator() -> (builder: EntityBuilder)
        ensures
            builder@ == EntityBuilderView::empty(BuilderMode::Creator),
    {
        EntityBuilder::creator()
    }

    /// A builder for changing an entity.
    pub fn editor() -> (builder: EntityBuilder)
        ensures
            builder@ == EntityBuilderView::empty(BuilderMode::Editor),
    {
        EntityBuilder::editor()
    }

    /// The entity's descriptor, for writing.
    pub fn descriptor_mut(&mut self) -> (descriptor: &mut Descriptor)
        ensures
            descriptor@ == old(self)@.descriptor,
            final(self)@ == (EntityView { descriptor: final(descriptor)@, ..old(self)@ }),
    {
        &mut self.descriptor
    }

    /// The entity's id.
    pub fn id(&self) -> (id: ID)
        ensures
            id == self@.identity.id,
    {
        self.identity.id()
    }
}

impl Ident for Entity {
    open spec fn identity_view(&self) -> IdentityView {
        self@.identity
    }

    fn identity(&self) -> (identity: &Identity) {
        assert(self.identity_view() == self.identity@);
        &self.identity
    }
}

impl IdentMut for Entity {
    fn identity_mut(&mut self) -> (identity: &mut Identity)
        ensures
            final(self)@ == (EntityView { identity: final(identity)@, ..old(self)@ }),
    {
        &mut self.identity
    }
}

impl Descriptive for Entity {
    open spec fn descriptor_view(&self) -> DescriptorView {
        self@.descriptor
    }

    fn descriptor(&self) -> (descriptor: &Descriptor) {
        assert(self.descriptor_view() == self.descriptor@);
        &self.descriptor
    }
}

impl DescriptiveMut for Entity {
    fn descriptor_mut(&mut self) -> (descriptor: &mut Descriptor)
        ensures
            final(self)@ == (EntityView { descriptor: final(descriptor)@, ..old(self)@ }),
    {
        &mut self.descriptor
    }
}

} // verus!
