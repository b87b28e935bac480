//! Identities: the number of a value and of the region, world and universe that
//! it belongs to.

use crate::model::builder::{Builder, BuilderMode, Field, FieldValueType, FieldView, ModifyResult};
use crate::model::error::{field_not_set, Error};
use vstd::prelude::*;

verus! {

pub type ID = u64;

pub type RegionID = u16;

pub type WorldID = u16;

pub type UniverseID = u32;

/// An identity as a mathematical value.
pub struct IdentityView {
    pub id: ID,
    pub region_id: RegionID,
    pub world_id: WorldID,
    pub universe_id: UniverseID,
}

/// Who a value is.
#[derive(Debug, PartialEq, Eq)]
pub struct Identity {
    id: ID,
    region_id: RegionID,
    world_id: WorldID,
    universe_id: UniverseID,
}

impl View for Identity {
    type V = IdentityView;

    closed spec fn view(&self) -> IdentityView {
        IdentityView {
            id: self.id,
            region_id: self.region_id,
            world_id: self.world_id,
            universe_id: self.universe_id,
        }
    }
}

/// Read access to an identity.
pub trait Ident {
    /// The identity as a mathematical value.
    spec fn identity_view(&self) -> IdentityView;

    fn identity(&self) -> (identity: &Identity)
        ensures
            identity@ == self.identity_view(),
    ;

    fn id(&self) -> (id: ID)
        ensures
            id == self.identity_view().id,
    {
        self.identity().id
    }

    fn region_id(&self) -> (region_id: RegionID)
        ensures
            region_id == self.identity_view().region_id,
    {
        self.identity().region_id
    }

    fn world_id(&self) -> (world_id: WorldID)
        ensures
            world_id == self.identity_view().world_id,
    {
        self.identity().world_id
    }

    fn universe_id(&self) -> (universe_id: UniverseID)
        ensures
            universe_id == self.identity_view().universe_id,
    {
        self.identity().universe_id
    }
}

/// Write access to an identity.
pub trait IdentMut: Ident {
    fn identity_mut(&mut self) -> (identity: &mut Identity)
        ensures
            identity@ == old(self).identity_view(),
            final(self).identity_view() == final(identity)@,
    ;
}

impl Ident for Identity {
    open spec fn identity_view(&self) -> IdentityView {
        self@
    }

    fn identity(&self) -> (identity: &Identity) {
        self
    }
}

impl IdentMut for Identity {
    fn identity_mut(&mut self) -> (identity: &mut Identity) {
        self
    }
}

/// The fields of an identity.
#[derive(Debug, Clone, Copy, PartialEq, Eq, Structural)]
pub enum IdentityField {
    ID,
    RegionID,
    WorldID,
    UniverseID,
}

impl IdentityField {
    pub const CLASSNAME: &'static str = "Identity";

    pub const FIELDNAME_ID: &'static str = "id";

    pub const FIELDNAME_REGION_ID: &'static str = "region_id";

    pub const FIELDNAME_WORLD_ID: &'static str = "world_id";

    pub const FIELDNAME_UNIVERSE_ID: &'static str = "universe_id";

    /// The description of a field.
    pub open spec fn described(self) -> FieldView {
        match self {
            IdentityField::ID => FieldView { name: "id"@, value_type: FieldValueType::String },
            IdentityField::RegionID => FieldView {
                name: "region_id"@,
                value_type: FieldValueType::StringArray,
            },
            IdentityField::WorldID => FieldView {
                name: "world_id"@,
                value_type: FieldValueType::String,
            },
            IdentityField::UniverseID => FieldView {
                name: "universe_id"@,
                value_type: FieldValueType::String,
            },
        }
    }

    /// The description of this field.
    pub fn field(&self) -> (field: Field)
        ensures
            field@ == self.described(),
    {
        match self {
            Self::ID => Field::new(Self::FIELDNAME_ID, FieldValueType::String),
            Self::RegionID => Field::new(Self::FIELDNAME_REGION_ID, FieldValueType::StringArray),
            Self::WorldID => Field::new(Self::FIELDNAME_WORLD_ID, FieldValueType::String),
            Self::UniverseID => Field::new(Self::FIELDNAME_UNIVERSE_ID, FieldValueType::String),
        }
    }
}

/// The fields that an identity builder holds.
pub struct IdentityBuilderView {
    pub mode: BuilderMode,
    pub id: Option<ID>,
    pub region_id: Option<RegionID>,
    pub world_id: Option<WorldID>,
    pub universe_id: Option<UniverseID>,
}

impl IdentityBuilderView {
    /// A builder with no field set.
    pub open spec fn empty(mode: BuilderMode) -> IdentityBuilderView {
        IdentityBuilderView { mode, id: None, region_id: None, world_id: None, universe_id: None }
    }

    /// The builder with all four fields set.
    pub open spec fn with_guid(
        self,
        id: ID,
        region_id: RegionID,
        world_id: WorldID,
        universe_id: UniverseID,
    ) -> IdentityBuilderView {
        IdentityBuilderView {
            mode: self.mode,
            id: Some(id),
            region_id: Some(region_id),
            world_id: Some(world_id),
            universe_id: Some(universe_id),
        }
    }

    /// What `create` gives: the identity, or the first field that is missing, in
    /// the order id, region, world, universe.
    pub open spec fn created(self) -> Result<IdentityView, crate::model::error::ErrorView> {
        if self.id.is_none() {
            Err(field_not_set("Identity", "id"))
        } else if self.region_id.is_none() {
            Err(field_not_set("Identity", "region_id"))
        } else if self.world_id.is_none() {
            Err(field_not_set("Identity", "world_id"))
        } else if self.universe_id.is_none() {
            Err(field_not_set("Identity", "universe_id"))
        } else {
            Ok(
                IdentityView {
                    id: self.id.unwrap(),
                    region_id: self.region_id.unwrap(),
                    world_id: self.world_id.unwrap(),
                    universe_id: self.universe_id.unwrap(),
                },
            )
        }
    }

    /// What `modify` leaves of an identity: each field that was set replaces the
    /// identity's.
    pub open spec fn modified(self, target: IdentityView) -> IdentityView {
        IdentityView {
            id: match self.id {
                Some(id) => id,
                None => target.id,
            },
            region_id: match self.region_id {
                Some(region_id) => region_id,
                None => target.region_id,
            },
            world_id: match self.world_id {
                Some(world_id) => world_id,
                None => target.world_id,
            },
            universe_id: match self.universe_id {
                Some(universe_id) => universe_id,
                None => target.universe_id,
            },
        }
    }

    /// The fields that `modify` reports: those that were set, in the order id,
    /// region, world, universe.
    pub open spec fn changed(self) -> Seq<FieldView> {
        (if self.id.is_some() {
            seq![IdentityField::ID.described()]
        } else {
            seq![]
        }) + (if self.region_id.is_some() {
            seq![IdentityField::RegionID.described()]
        } else {
            seq![]
        }) + (if self.world_id.is_some() {
            seq![IdentityField::WorldID.described()]
        } else {
            seq![]
        }) + (if self.universe_id.is_some() {
            seq![IdentityField::UniverseID.described()]
        } else {
            seq![]
        })
    }
}

/// Collects the fields of an identity.
#[derive(Debug)]
pub struct IdentityBuilder {
    builder_mode: BuilderMode,
    id: Option<ID>,
    region_id: Option<RegionID>,
    world_id: Option<WorldID>,
    universe_id: Option<UniverseID>,
}

impl View for IdentityBuilder {
    type V = IdentityBuilderView;

    closed spec fn view(&self) -> IdentityBuilderView {
        IdentityBuilderView {
            mode: self.builder_mode,
            id: self.id,
            region_id: self.region_id,
            world_id: self.world_id,
            universe_id: self.universe_id,
        }
    }
}

impl IdentityBuilder {
    /// A builder with no field set, in a mode.
    pub fn with_mode(mode: BuilderMode) -> (builder: Self)
        ensures
            builder@ == (IdentityBuilderView {
                mode,
                id: None,
                region_id: None,
                world_id: None,
                universe_id: None,
            }),
    {
        Self { builder_mode: mode, id: None, region_id: None, world_id: None, universe_id: None }
    }

    /// Sets the id.
    pub fn id(&mut self, id: ID) -> (result: Result<(), Error>)
        ensures
            result is Ok,
            final(self)@ == (IdentityBuilderView { id: Some(id), ..old(self)@ }),
    {
        self.id = Some(id);
        Ok(())
    }

    /// Sets all four fields.
    pub fn guid(&mut self, id: ID, region_id: RegionID, world_id: WorldID, universe_id: UniverseID) -> (result:
        Result<(), Error>)
        ensures
            result is Ok,
            final(self)@ == (IdentityBuilderView {
                mode: old(self)@.mode,
                id: Some(id),
                region_id: Some(region_id),
                world_id: Some(world_id),
                universe_id: Some(universe_id),
            }),
    {
        self.id = Some(id);
        self.region_id = Some(region_id);
        self.world_id = Some(world_id);
        self.universe_id = Some(universe_id);
        Ok(())
    }

    /// The id that was set.
    pub fn get_id(&self) -> (id: Option<ID>)
        ensures
            id == self@.id,
    {
        self.id
    }

    /// The region that was set.
    pub fn get_region_id(&self) -> (region_id: Option<RegionID>)
        ensures
            region_id == self@.region_id,
    {
        self.region_id
    }

    /// The world that was set.
    pub fn get_world_id(&self) -> (world_id: Option<WorldID>)
        ensures
            world_id == self@.world_id,
    {
        self.world_id
    }

    /// The universe that was set.
    pub fn get_universe_id(&self) -> (universe_id: Option<UniverseID>)
        ensures
            universe_id == self@.universe_id,
    {
        self.universe_id
    }
}

impl Builder for IdentityBuilder {
    type Type = Identity;

    open spec fn mode(&self) -> BuilderMode {
        self@.mode
    }

    fn creator() -> (builder: Self)
        ensures
            builder@ == (IdentityBuilderView {
                mode: BuilderMode::Creator,
                id: None,
                region_id: None,
                world_id: None,
                universe_id: None,
            }),
    {
        Self::with_mode(BuilderMode::Creator)
    }

    fn editor() -> (builder: Self)
        ensures
            builder@ == (IdentityBuilderView {
                mode: BuilderMode::Editor,
                id: None,
                region_id: None,
                world_id: None,
                universe_id: None,
            }),
    {
        Self::with_mode(BuilderMode::Editor)
    }

    fn builder_mode(&self) -> (mode: BuilderMode) {
        self.builder_mode
    }

    fn create(self) -> (result: Result<Identity, Error>)
        ensures
            match result {
                Ok(identity) => self@.created() == Ok::<IdentityView, crate::model::error::ErrorView>(
                    identity@,
                ),
                Err(error) => self@.created() == Err::<IdentityView, crate::model::error::ErrorView>(
                    error@,
                ),
            },
    {
        let id = match self.id {
            Some(id) => id,
            None => {
                return Err(
                    Error::FieldNotSet {
                        class: IdentityField::CLASSNAME,
                        field: IdentityField::FIELDNAME_ID,
                    },
                );
            },
        };
        let region_id = match self.region_id {
            Some(region_id) => region_id,
            None => {
                return Err(
                    Error::FieldNotSet {
                        class: IdentityField::CLASSNAME,
                        field: IdentityField::FIELDNAME_REGION_ID,
                    },
                );
            },
        };
        let world_id = match self.world_id {
            Some(world_id) => world_id,
            None => {
                return Err(
                    Error::FieldNotSet {
                        class: IdentityField::CLASSNAME,
                        field: IdentityField::FIELDNAME_WORLD_ID,
                    },
                );
            },
        };
        let universe_id = match self.universe_id {
            Some(universe_id) => universe_id,
            None => {
                return Err(
                    Error::FieldNotSet {
                        class: IdentityField::CLASSNAME,
                        field: IdentityField::FIELDNAME_UNIVERSE_ID,
                    },
                );
            },
        };
        Ok(Identity { id, region_id, world_id, universe_id })
    }

    fn modify(self, target: &mut Identity) -> (result: Result<ModifyResult, Error>)
        ensures
            result matches Ok(changed) && changed@ == self@.changed(),
            final(target)@ == self@.modified(old(target)@),
    {
        let mut fields_changed: Vec<Field> = Vec::new();
        if let Some(id) = self.id {
            target.id = id;
            fields_changed.push(IdentityField::ID.field());
        }
        if let Some(region_id) = self.region_id {
            target.region_id = region_id;
            fields_changed.push(IdentityField::RegionID.field());
        }
        if let Some(world_id) = self.world_id {
            target.world_id = world_id;
            fields_changed.push(IdentityField::WorldID.field());
        }
        if let Some(universe_id) = self.universe_id {
            target.universe_id = universe_id;
            fields_changed.push(IdentityField::UniverseID.field());
        }
        proof {
            assert(fields_changed@.map_values(|field: Field| field@) =~= self@.changed());
        }
        Ok(ModifyResult::new(fields_changed))
    }
}

impl Identity {
    /// A builder for a new identity.
    pub fn builder() -> (builder: IdentityBuilder)
        ensures
            builder@ == (IdentityBuilderView {
                mode: BuilderMode::Creator,
                id: None,
                region_id: None,
                world_id: None,
                universe_id: None,
            }),
    {
        IdentityBuilder::creator()
    }

    /// A builder for a new identity.
    pub fn creator() -> (builder: IdentityBuilder)
        ensures
            builder@ == (IdentityBuilderView {
                mode: BuilderMode::Creator,
                id: None,
                region_id: None,
                world_id: None,
                universe_id: None,
            }),
    {
        IdentityBuilder::creator()
    }

    /// A builder for changing an identity.
    pub fn editor() -> (builder: IdentityBuilder)
        ensures
            builder@ == (IdentityBuilderView {
                mode: BuilderMode::Editor,
                id: None,
                region_id: None,
                world_id: None,
                universe_id: None,
            }),
    {
        IdentityBuilder::editor()
    }
}

} // verus!
