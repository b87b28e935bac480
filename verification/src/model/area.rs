//! Areas: the places of a world.

use crate::model::builder::{Builder, BuilderMode, Field, ModifyResult};
use crate::model::descriptor::{
    Descriptive, DescriptiveMut, Descriptor, DescriptorBuilder, DescriptorBuilderView,
    DescriptorView,
};
use crate::model::error::{field_not_set, Error, ErrorView};
use crate::model::identity::{
    Ident, IdentMut, Identity, IdentityBuilder, IdentityBuilderView, IdentityView, ID,
};
use crate::model::route::{Route, RouteView};
use vstd::prelude::*;

verus! {

/// An exit as a mathematical value.
pub struct ExitView {
    pub id: ID,
    pub descriptor: DescriptorView,
    pub area_id: ID,
}

/// A way out of an area, into another.
#[derive(Debug)]
pub struct Exit {
    id: ID,
    descriptor: Descriptor,
    area_id: ID,
}

impl View for Exit {
    type V = ExitView;

    closed spec fn view(&self) -> ExitView {
        ExitView { id: self.id, descriptor: self.descriptor@, area_id: self.area_id }
    }
}

impl Exit {
    /// An exit that leads to an area.
    pub fn new(id: ID, descriptor: Descriptor, area_id: ID) -> (exit: Self)
        ensures
            exit@ == (ExitView { id, descriptor: descriptor@, area_id }),
    {
        Self { id, descriptor, area_id }
    }

    /// The area that the exit leads to.
    pub fn area_id(&self) -> (area_id: ID)
        ensures
            area_id == self@.area_id,
    {
        self.area_id
    }
}

/// An area as a mathematical value.
pub struct AreaView {
    pub identity: IdentityView,
    pub descriptor: DescriptorView,
    pub thing_ids: Seq<ID>,
    pub routes: Seq<RouteView>,
}

/// A place: its identity, its descriptor, the things in it and the routes that
/// leave it.
#[derive(Debug)]
pub struct Area {
    identity: Identity,
    descriptor: Descriptor,
    thing_ids: Vec<ID>,
    routes: Vec<Route>,
}

impl View for Area {
    type V = AreaView;

    closed spec fn view(&self) -> AreaView {
        AreaView {
            identity: self.identity@,
            descriptor: self.descriptor@,
            thing_ids: self.thing_ids@,
            routes: self.routes@.map_values(|route: Route| route@),
        }
    }
}

/// The fields that an area builder holds.
pub struct AreaBuilderView {
    pub mode: BuilderMode,
    pub identity: Option<IdentityBuilderView>,
    pub descriptor: Option<DescriptorBuilderView>,
}

impl AreaBuilderView {
    /// A builder with no field set.
    pub open spec fn empty(mode: BuilderMode) -> AreaBuilderView {
        AreaBuilderView { mode, identity: None, descriptor: None }
    }

    /// The identity fields, or none set where the builder has no identity
    /// builder yet.
    pub open spec fn identity_or_empty(self) -> IdentityBuilderView {
        match self.identity {
            Some(identity) => identity,
            None => IdentityBuilderView::empty(self.mode),
        }
    }

    /// What `create` gives: an area without things and routes, or the first
    /// report of what is missing, the identity before the descriptor.
    pub open spec fn created(self) -> Result<AreaView, ErrorView> {
        match self.identity {
            None => Err(field_not_set("Area", "identity")),
            Some(identity) => match identity.created() {
                Err(error) => Err(error),
                Ok(identity) => match self.descriptor {
                    None => Err(field_not_set("Area", "descriptor")),
                    Some(descriptor) => match descriptor.created() {
                        Err(error) => Err(error),
                        Ok(descriptor) => Ok(
                            AreaView {
                                identity,
                                descriptor,
                                thing_ids: Seq::empty(),
                                routes: Seq::empty(),
                            },
                        ),
                    },
                },
            },
        }
    }
}

/// Collects the fields of an area.
#[derive(Debug)]
pub struct AreaBuilder {
    builder_mode: BuilderMode,
    identity: Option<IdentityBuilder>,
    descriptor: Option<DescriptorBuilder>,
}

impl View for AreaBuilder {
    type V = AreaBuilderView;

    closed spec fn view(&self) -> AreaBuilderView {
        AreaBuilderView {
            mode: self.builder_mode,
            identity: match self.identity {
                Some(identity) => Some(identity@),
                None => None,
            },
            descriptor: match self.descriptor {
                Some(descriptor) => Some(descriptor@),
                None => None,
            },
        }
    }
}

impl AreaBuilder {
    pub const CLASSNAME: &'static str = "Area";

    pub const FIELDNAME_IDENTITY: &'static str = "identity";

    pub const FIELDNAME_DESCRIPTOR: &'static str = "descriptor";

    /// A builder with no field set, for a new area.
    pub fn new() -> (builder: Self)
        ensures
            builder@ == AreaBuilderView::empty(BuilderMode::Creator),
    {
        Self::with_mode(BuilderMode::Creator)
    }

    /// A builder with no field set, in a mode.
    pub fn with_mode(mode: BuilderMode) -> (builder: Self)
        ensures
            builder@ == AreaBuilderView::empty(mode),
    {
        Self { builder_mode: mode, identity: None, descriptor: None }
    }

    /// Sets the id, and keeps whatever else of the identity was set.
    pub fn id(self, id: ID) -> (builder: Self)
        ensures
            builder@ == (AreaBuilderView {
                identity: Some(IdentityBuilderView { id: Some(id), ..self@.identity_or_empty() }),
                ..self@
            }),
    {
        let mut builder = self;
        let _ = builder.identity_builder().id(id);
        builder
    }

    /// Sets the identity builder.
    pub fn identity(&mut self, identity: IdentityBuilder) -> (result: Result<(), Error>)
        ensures
            result is Ok,
            final(self)@ == (AreaBuilderView { identity: Some(identity@), ..old(self)@ }),
    {
        self.identity = Some(identity);
        Ok(())
    }

    /// The identity builder, for writing; a new one where none was set.
    pub fn identity_builder(&mut self) -> (identity: &mut IdentityBuilder)
        ensures
            identity@ == old(self)@.identity_or_empty(),
            final(self)@ == (AreaBuilderView { identity: Some(final(identity)@), ..old(self)@ }),
    {
        if self.identity.is_none() {
            self.identity = Some(IdentityBuilder::with_mode(self.builder_mode));
        }
        self.identity.as_mut().unwrap()
    }

    /// Sets the descriptor builder.
    pub fn descriptor(&mut self, descriptor: DescriptorBuilder) -> (result: Result<(), Error>)
        ensures
            result is Ok,
            final(self)@ == (AreaBuilderView { descriptor: Some(descriptor@), ..old(self)@ }),
    {
        self.descriptor = Some(descriptor);
        Ok(())
    }

    /// Makes the area from a builder whose fields are all set.
    pub fn build(self) -> (area: Area)
        requires
            self@.created() is Ok,
        ensures
            self@.created() == Ok::<AreaView, ErrorView>(area@),
    {
        self.create().unwrap()
    }
}

impl Builder for AreaBuilder {
    type Type = Area;

    open spec fn mode(&self) -> BuilderMode {
        self@.mode
    }

    fn creator() -> (builder: Self)
        ensures
            builder@ == AreaBuilderView::empty(BuilderMode::Creator),
    {
        Self::with_mode(BuilderMode::Creator)
    }

    fn editor() -> (builder: Self)
        ensures
            builder@ == AreaBuilderView::empty(BuilderMode::Editor),
    {
        Self::with_mode(BuilderMode::Editor)
    }

    fn builder_mode(&self) -> (mode: BuilderMode) {
        self.builder_mode
    }

    fn create(self) -> (result: Result<Area, Error>)
        ensures
            match result {
                Ok(area) => self@.created() == Ok::<AreaView, ErrorView>(area@),
                Err(error) => self@.created() == Err::<AreaView, ErrorView>(error@),
            },
    {
        let identity = match self.identity {
            Some(identity) => identity.create()?,
            None => {
                return Err(
                    Error::FieldNotSet {
                        class: Self::CLASSNAME,
                        field: Self::FIELDNAME_IDENTITY,
                    },
                );
            },
        };
        let descriptor = match self.descriptor {
            Some(descriptor) => descriptor.create()?,
            None => {
                return Err(
                    Error::FieldNotSet {
                        class: Self::CLASSNAME,
                        field: Self::FIELDNAME_DESCRIPTOR,
                    },
                );
            },
        };
        let area = Area { identity, descriptor, thing_ids: Vec::new(), routes: Vec::new() };
        proof {
            assert(area@.thing_ids =~= Seq::empty());
            assert(area@.routes =~= Seq::empty());
        }
        Ok(area)
    }

    /// An area has no field of its own to change: its identity and its
    /// descriptor are changed through their own builders. Nothing is written and
    /// nothing reported.
    fn modify(self, target: &mut Area) -> (result: Result<ModifyResult, Error>)
        ensures
            result matches Ok(changed) && changed@ == Seq::<crate::model::builder::FieldView>::empty(),
            *final(target) == *old(target),
    {
        let fields_changed: Vec<Field> = Vec::new();
        proof {
            assert(fields_changed@.map_values(|field: Field| field@) =~= Seq::empty());
        }
        Ok(ModifyResult::new(fields_changed))
    }
}

impl Area {
    /// The area's id.
    pub fn id(&self) -> (id: ID)
        ensures
            id == self@.identity.id,
    {
        self.identity.id()
    }

    /// A builder for a new area.
    pub fn builder() -> (builder: AreaBuilder)
        ensures
            builder@ == AreaBuilderView::empty(BuilderMode::Creator),
    {
        AreaBuilder::new()
    }

    /// A builder for a new area.
    pub fn creator() -> (builder: AreaBuilder)
        ensures
            builder@ == AreaBuilderView::empty(BuilderMode::Creator),
    {
        AreaBuilder::creator()
    }

    /// A builder for changing an area.
    pub fn editor() -> (builder: AreaBuilder)
        ensures
            builder@ == AreaBuilderView::empty(BuilderMode::Editor),
    {
        AreaBuilder::editor()
    }

    /// The ids of the things in the area.
    pub fn thing_ids(&self) -> (thing_ids: &Vec<ID>)
        ensures
            thing_ids@ == self@.thing_ids,
    {
        &self.thing_ids
    }

    /// The routes that leave the area.
    pub fn routes(&self) -> (routes: &Vec<Route>)
        ensures
            routes@.map_values(|route: Route| route@) == self@.routes,
    {
        &self.routes
    }
}

impl Ident for Area {
    open spec fn identity_view(&self) -> IdentityView {
        self@.identity
    }

    fn identity(&self) -> (identity: &Identity) {
        &self.identity
    }
}

impl IdentMut for Area {
    fn identity_mut(&mut self) -> (identity: &mut Identity)
        ensures
            final(self)@ == (AreaView { identity: final(identity)@, ..old(self)@ }),
    {
        &mut self.identity
    }
}

impl Descriptive for Area {
    open spec fn descriptor_view(&self) -> DescriptorView {
        self@.descriptor
    }

    fn descriptor(&self) -> (descriptor: &Descriptor) {
        &self.descriptor
    }
}

impl DescriptiveMut for Area {
    fn descriptor_mut(&mut self) -> (descriptor: &mut Descriptor)
        ensures
            final(self)@ == (AreaView { descriptor: final(descriptor)@, ..old(self)@ }),
    {
        &mut self.descriptor
    }
}

} // verus!
