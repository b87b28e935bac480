//! Worlds: areas and the things in them.

use crate::model::area::{Area, AreaBuilder, AreaBuilderView, AreaView};
use crate::model::builder::{Builder, BuilderMode, Field, FieldValueType, FieldView, ModifyResult};
use crate::model::descriptor::{
    Descriptive, DescriptiveMut, Descriptor, DescriptorBuilder, DescriptorBuilderView,
    DescriptorView,
};
use crate::model::entity::EntityBuilderView;
use crate::model::error::{field_not_set, Error, ErrorView};
use crate::model::identity::{
    Ident, IdentMut, Identity, IdentityBuilder, IdentityBuilderView, IdentityView, ID,
};
use crate::model::thing::{fields_or_new, Thing, ThingBuilder, ThingView};
use crate::search::{
    first_position, lemma_filter_empty, lemma_filter_step, lemma_first_position_is,
    lemma_first_position_none,
};
use crate::text::same_text;
use vstd::prelude::*;

verus! {

/// A world as a mathematical value.
pub struct WorldView {
    pub identity: IdentityView,
    pub descriptor: DescriptorView,
    pub areas: Seq<AreaView>,
    pub things: Seq<ThingView>,
    pub next_id: ID,
}

impl WorldView {
    /// Where the first area with an id stands.
    pub open spec fn area_position(self, id: ID) -> Option<int> {
        first_position(self.areas, |area: AreaView| area.identity.id == id)
    }

    /// Where the first area with a key stands.
    pub open spec fn area_key_position(self, key: Seq<char>) -> Option<int> {
        first_position(self.areas, |area: AreaView| area.descriptor.has_key(key))
    }

    /// The areas with a name, in their order.
    pub open spec fn areas_named(self, name: Seq<char>) -> Seq<AreaView> {
        self.areas.filter(|area: AreaView| area.descriptor.name == name)
    }

    /// Where the first thing with an id stands.
    pub open spec fn thing_position(self, id: ID) -> Option<int> {
        first_position(self.things, |thing: ThingView| thing.entity().identity.id == id)
    }

    /// Where the first thing with a key stands.
    pub open spec fn thing_key_position(self, key: Seq<char>) -> Option<int> {
        first_position(self.things, |thing: ThingView| thing.entity().descriptor.has_key(key))
    }

    /// The things with a name, in their order.
    pub open spec fn things_named(self, name: Seq<char>) -> Seq<ThingView> {
        self.things.filter(|thing: ThingView| thing.entity().descriptor.name == name)
    }

    /// The fields of the entity builder of a thing that is spawned next: those
    /// that the thing's builder holds, with the identity set to the world's next
    /// id and the world's region, world and universe.
    pub open spec fn spawn_fields(self, fields: Option<EntityBuilderView>) -> EntityBuilderView {
        let fields = fields_or_new(fields);
        EntityBuilderView {
            identity: Some(
                fields.identity_or_empty().with_guid(
                    self.next_id,
                    self.identity.region_id,
                    self.identity.world_id,
                    self.identity.universe_id,
                ),
            ),
            ..fields
        }
    }
}

/// The views of a run of areas.
pub open spec fn area_views(areas: Seq<Area>) -> Seq<AreaView> {
    areas.map_values(|area: Area| area@)
}

/// The views of a run of borrowed areas.
pub open spec fn area_ref_views(areas: Seq<&Area>) -> Seq<AreaView> {
    areas.map_values(|area: &Area| area@)
}

/// The views of a run of things.
pub open spec fn thing_views(things: Seq<Thing>) -> Seq<ThingView> {
    things.map_values(|thing: Thing| thing@)
}

/// The views of a run of borrowed things.
pub open spec fn thing_ref_views(things: Seq<&Thing>) -> Seq<ThingView> {
    things.map_values(|thing: &Thing| thing@)
}

/// The views of a run of area builders.
pub open spec fn area_builder_views(areas: Seq<AreaBuilder>) -> Seq<AreaBuilderView> {
    areas.map_values(|area: AreaBuilder| area@)
}

/// A world: its areas and the things in them.
#[derive(Debug)]
pub struct World {
    identity: Identity,
    descriptor: Descriptor,
    areas: Vec<Area>,
    things: Vec<Thing>,
    next_id: ID,
}

impl View for World {
    type V = WorldView;

    closed spec fn view(&self) -> WorldView {
        WorldView {
            identity: self.identity@,
            descriptor: self.descriptor@,
            areas: area_views(self.areas@),
            things: thing_views(self.things@),
            next_id: self.next_id,
        }
    }
}

/// The fields of a world.
#[derive(Debug, Clone, Copy, PartialEq, Eq, Structural)]
pub enum WorldField {
    Identity,
    Descriptor,
    Areas,
    Things,
}

impl WorldField {
    pub const CLASSNAME: &'static str = "World";

    pub const FIELDNAME_IDENTITY: &'static str = "identity";

    pub const FIELDNAME_DESCRIPTOR: &'static str = "descriptor";

    pub const FIELDNAME_AREAS: &'static str = "areas";

    pub const FIELDNAME_THINGS: &'static str = "things";

    /// The description of a field.
    pub open spec fn described(self) -> FieldView {
        match self {
            WorldField::Identity => FieldView {
                name: "identity"@,
                value_type: FieldValueType::Object,
            },
            WorldField::Descriptor => FieldView {
                name: "descriptor"@,
                value_type: FieldValueType::Object,
            },
            WorldField::Areas => FieldView {
                name: "areas"@,
                value_type: FieldValueType::ObjectArray,
            },
            WorldField::Things => FieldView {
                name: "things"@,
                value_type: FieldValueType::ObjectArray,
            },
        }
    }

    /// The description of this field.
    pub fn field(&self) -> (field: Field)
        ensures
            field@ == self.described(),
    {
        match self {
            Self::Identity => Field::new(Self::FIELDNAME_IDENTITY, FieldValueType::Object),
            Self::Descriptor => Field::new(Self::FIELDNAME_DESCRIPTOR, FieldValueType::Object),
            Self::Areas => Field::new(Self::FIELDNAME_AREAS, FieldValueType::ObjectArray),
            Self::Things => Field::new(Self::FIELDNAME_THINGS, FieldValueType::ObjectArray),
        }
    }
}

/// The fields that a world builder holds.
pub struct WorldBuilderView {
    pub mode: BuilderMode,
    pub identity: Option<IdentityBuilderView>,
    pub descriptor: Option<DescriptorBuilderView>,
    pub areas: Seq<AreaBuilderView>,
    pub things: Seq<ThingView>,
    pub next_id: ID,
}

/// The error for an area that is added before the world knows a part of its
/// own identity.
pub open spec fn area_before_identity() -> ErrorView {
    ErrorView::FieldNotSetFirst { class: "World"@, field: "areas"@, required_field: "identity"@ }
}

impl WorldBuilderView {
    /// A builder with no field set. The first id that it gives out is 1.
    pub open spec fn empty(mode: BuilderMode) -> WorldBuilderView {
        WorldBuilderView {
            mode,
            identity: None,
            descriptor: None,
            areas: Seq::empty(),
            things: Seq::empty(),
            next_id: 1,
        }
    }

    /// The identity fields, or none set where the builder has no identity
    /// builder yet.
    pub open spec fn identity_or_empty(self) -> IdentityBuilderView {
        match self.identity {
            Some(identity) => identity,
            None => IdentityBuilderView::empty(self.mode),
        }
    }

    /// The descriptor fields, or none set where the builder has no descriptor
    /// builder yet.
    pub open spec fn descriptor_or_empty(self) -> DescriptorBuilderView {
        match self.descriptor {
            Some(descriptor) => descriptor,
            None => DescriptorBuilderView::empty(self.mode),
        }
    }

    /// Whether the world's region, world and universe are set, which an area
    /// takes over when it is added.
    pub open spec fn knows_itself(self) -> bool {
        self.identity matches Some(identity) && identity.region_id.is_some()
            && identity.world_id.is_some() && identity.universe_id.is_some()
    }

    /// The builder after an area was added: the area gets the next id and the
    /// world's region, world and universe, and stands last.
    pub open spec fn with_area(self, area: AreaBuilderView) -> WorldBuilderView {
        WorldBuilderView {
            areas: self.areas.push(
                AreaBuilderView {
                    identity: Some(
                        area.identity_or_empty().with_guid(
                            self.next_id,
                            self.identity.unwrap().region_id.unwrap(),
                            self.identity.unwrap().world_id.unwrap(),
                            self.identity.unwrap().universe_id.unwrap(),
                        ),
                    ),
                    ..area
                },
            ),
            next_id: (self.next_id + 1) as ID,
            ..self
        }
    }

    /// Where the first area stands that cannot be made.
    pub open spec fn failing_area(self) -> Option<int> {
        first_position(self.areas, |area: AreaBuilderView| area.created() is Err)
    }

    /// What `create` gives: the world with its areas and without things, or the
    /// first report of what is missing: of the identity, then of the
    /// descriptor, then of the areas in their order. The world's next id is one
    /// past the builder's, as long as there is one.
    pub open spec fn created(self) -> Result<WorldView, ErrorView> {
        match self.identity {
            None => Err(field_not_set("World", "identity")),
            Some(identity) => match identity.created() {
                Err(error) => Err(error),
                Ok(identity) => match self.descriptor {
                    None => Err(field_not_set("World", "descriptor")),
                    Some(descriptor) => match descriptor.created() {
                        Err(error) => Err(error),
                        Ok(descriptor) => match self.failing_area() {
                            Some(position) => Err(self.areas[position].created()->Err_0),
                            None => Ok(
                                WorldView {
                                    identity,
                                    descriptor,
                                    areas: self.areas.map_values(
                                        |area: AreaBuilderView| area.created()->Ok_0,
                                    ),
                                    things: Seq::empty(),
                                    next_id: if self.next_id < u64::MAX {
                                        (self.next_id + 1) as ID
                                    } else {
                                        self.next_id
                                    },
                                },
                            ),
                        },
                    },
                },
            },
        }
    }
}

/// Collects the fields and the areas of a world.
#[derive(Debug)]
pub struct WorldBuilder {
    builder_mode: BuilderMode,
    identity: Option<IdentityBuilder>,
    descriptor: Option<DescriptorBuilder>,
    areas: Vec<AreaBuilder>,
    things: Vec<Thing>,
    next_id: ID,
}

impl View for WorldBuilder {
    type V = WorldBuilderView;

    closed spec fn view(&self) -> WorldBuilderView {
        WorldBuilderView {
            mode: self.builder_mode,
            identity: match self.identity {
                Some(identity) => Some(identity@),
                None => None,
            },
            descriptor: match self.descriptor {
                Some(descriptor) => Some(descriptor@),
                None => None,
            },
            areas: area_builder_views(self.areas@),
            things: thing_views(self.things@),
            next_id: self.next_id,
        }
    }
}

impl WorldBuilder {
    /// A builder with no field set, in a mode.
    pub fn with_mode(mode: BuilderMode) -> (builder: Self)
        ensures
            builder@ == WorldBuilderView::empty(mode),
    {
        let builder = Self {
            builder_mode: mode,
            identity: None,
            descriptor: None,
            areas: Vec::new(),
            things: Vec::new(),
            next_id: 1,
        };
        proof {
            assert(builder@.areas =~= Seq::empty());
            assert(builder@.things =~= Seq::empty());
        }
        builder
    }

    /// Sets the identity builder.
    pub fn identity(&mut self, identity: IdentityBuilder) -> (result: Result<(), Error>)
        ensures
            result is Ok,
            final(self)@ == (WorldBuilderView { identity: Some(identity@), ..old(self)@ }),
    {
        self.identity = Some(identity);
        Ok(())
    }

    /// The identity builder, for writing; a new one where none was set.
    pub fn identity_builder(&mut self) -> (identity: &mut IdentityBuilder)
        ensures
            identity@ == old(self)@.identity_or_empty(),
            final(self)@ == (WorldBuilderView { identity: Some(final(identity)@), ..old(self)@ }),
    {
        if self.identity.is_none() {
            self.identity = Some(IdentityBuilder::with_mode(self.builder_mode));
        }
        self.identity.as_mut().unwrap()
    }

    /// The identity builder, if one was set.
    pub fn get_identity(&self) -> (identity: Option<&IdentityBuilder>)
        ensures
            match identity {
                Some(identity) => self@.identity == Some(identity@),
                None => self@.identity.is_none(),
            },
    {
        self.identity.as_ref()
    }

    /// Sets the descriptor builder.
    pub fn descriptor(&mut self, descriptor: DescriptorBuilder) -> (result: Result<(), Error>)
        ensures
            result is Ok,
            final(self)@ == (WorldBuilderView { descriptor: Some(descriptor@), ..old(self)@ }),
    {
        self.descriptor = Some(descriptor);
        Ok(())
    }

    /// The descriptor builder, for writing; a new one where none was set.
    pub fn descriptor_builder(&mut self) -> (descriptor: &mut DescriptorBuilder)
        ensures
            descriptor@ == old(self)@.descriptor_or_empty(),
            final(self)@ == (WorldBuilderView {
                descriptor: Some(final(descriptor)@),
                ..old(self)@
            }),
    {
        if self.descriptor.is_none() {
            self.descriptor = Some(DescriptorBuilder::with_mode(self.builder_mode));
        }
        self.descriptor.as_mut().unwrap()
    }

    /// The id that the next area gets.
    pub fn next_id(&self) -> (id: ID)
        ensures
            id == self@.next_id,
    {
        self.next_id
    }

    /// Takes the next id.
    fn generate_id(&mut self) -> (id: ID)
        requires
            old(self)@.next_id < u64::MAX,
        ensures
            id == old(self)@.next_id,
            final(self)@ == (WorldBuilderView { next_id: (id + 1) as ID, ..old(self)@ }),
    {
        let id = self.next_id;
        self.next_id = self.next_id + 1;
        id
    }

    /// Adds an area and returns the id that it was given. The area takes the
    /// next id and the world's region, world and universe, which must be set
    /// first; where they are not, nothing is added and no id is spent.
    pub fn add_area(&mut self, area: AreaBuilder) -> (result: Result<ID, Error>)
        requires
            old(self)@.next_id < u64::MAX,
        ensures
            if old(self)@.knows_itself() {
                &&& result == Ok::<ID, Error>(old(self)@.next_id)
                &&& final(self)@ == old(self)@.with_area(area@)
            } else {
                &&& result matches Err(error) && error@ == area_before_identity()
                &&& final(self)@ == old(self)@
            },
    {
        let refused = Error::FieldNotSetFirst {
            class: WorldField::CLASSNAME,
            field: WorldField::FIELDNAME_AREAS,
            required_field: WorldField::FIELDNAME_IDENTITY,
        };
        let (region_id, world_id, universe_id) = match self.get_identity() {
            Some(identity) => match (
                identity.get_region_id(),
                identity.get_world_id(),
                identity.get_universe_id(),
            ) {
                (Some(region_id), Some(world_id), Some(universe_id)) => (
                    region_id,
                    world_id,
                    universe_id,
                ),
                _ => {
                    return Err(refused);
                },
            },
            None => {
                return Err(refused);
            },
        };
        let ghost before = self@;
        let id = self.generate_id();
        let mut area = area;
        let _ = area.identity_builder().guid(id, region_id, world_id, universe_id);
        self.areas.push(area);
        proof {
            assert(self@.areas =~= before.with_area(area@).areas) by {
                assert(self@.areas =~= before.areas.push(area@));
            }
        }
        Ok(id)
    }
}

impl Builder for WorldBuilder {
    type Type = World;

    open spec fn mode(&self) -> BuilderMode {
        self@.mode
    }

    fn creator() -> (builder: Self)
        ensures
            builder@ == WorldBuilderView::empty(BuilderMode::Creator),
    {
        Self::with_mode(BuilderMode::Creator)
    }

    fn editor() -> (builder: Self)
        ensures
            builder@ == WorldBuilderView::empty(BuilderMode::Editor),
    {
        Self::with_mode(BuilderMode::Editor)
    }

    fn builder_mode(&self) -> (mode: BuilderMode) {
        self.builder_mode
    }

    #[verifier::loop_isolation(false)]
    fn create(self) -> (result: Result<World, Error>)
        ensures
            match result {
                Ok(world) => self@.created() == Ok::<WorldView, ErrorView>(world@),
                Err(error) => self@.created() == Err::<WorldView, ErrorView>(error@),
            },
    {
        let identity = match self.identity {
            Some(identity) => identity.create()?,
            None => {
                return Err(
                    Error::FieldNotSet {
                        class: WorldField::CLASSNAME,
                        field: WorldField::FIELDNAME_IDENTITY,
                    },
                );
            },
        };
        let descriptor = match self.descriptor {
            Some(descriptor) => descriptor.create()?,
            None => {
                return Err(
                    Error::FieldNotSet {
                        class: WorldField::CLASSNAME,
                        field: WorldField::FIELDNAME_DESCRIPTOR,
                    },
                );
            },
        };
        let ghost builders = area_builder_views(self.areas@);
        let ghost fails = |area: AreaBuilderView| area.created() is Err;
        let mut areas: Vec<Area> = Vec::new();
        let mut pending = self.areas;
        let mut count: usize = 0;
        let total = pending.len();
        while pending.len() > 0
            invariant
                count + pending.len() == total,
                total == builders.len(),
                fails == (|area: AreaBuilderView| area.created() is Err),
                area_builder_views(pending@) =~= builders.skip(count as int),
                areas@.len() == count,
                forall|j: int|
                    0 <= j < count ==> !fails(#[trigger] builders[j]) && builders[j].created()
                        == Ok::<AreaView, ErrorView>(areas@[j]@),
            decreases pending.len(),
        {
            let ghost waiting = pending@;
            let builder = pending.remove(0);
            proof {
                assert(area_builder_views(waiting)[0] == builders.skip(count as int)[0]);
                assert(builder@ == builders[count as int]);
                assert forall|j: int| 0 <= j < pending@.len() implies area_builder_views(
                    pending@,
                )[j] == builders.skip(count + 1)[j] by {
                    assert(pending@[j] == waiting[j + 1]);
                    assert(area_builder_views(waiting)[j + 1] == builders.skip(count as int)[j
                        + 1]);
                }
                assert(area_builder_views(pending@) =~= builders.skip(count + 1));
            }
            match builder.create() {
                Ok(area) => {
                    areas.push(area);
                },
                Err(error) => {
                    proof {
                        lemma_first_position_is(builders, fails, count as int);
                    }
                    return Err(error);
                },
            }
            count = count + 1;
        }
        proof {
            lemma_first_position_none(builders, fails);
        }
        let next_id = if self.next_id < u64::MAX {
            self.next_id + 1
        } else {
            self.next_id
        };
        let world = World { identity, descriptor, areas, things: Vec::new(), next_id };
        proof {
            assert(world@.things =~= Seq::empty());
            assert(world@.areas =~= builders.map_values(|area: AreaBuilderView| area.created()->Ok_0));
        }
        Ok(world)
    }

    /// A world has no field of its own to change: its identity and its
    /// descriptor are changed through their own builders. Nothing is written and
    /// nothing reported.
    fn modify(self, target: &mut World) -> (result: Result<ModifyResult, Error>)
        ensures
            result matches Ok(changed) && changed@ == Seq::<FieldView>::empty(),
            *final(target) == *old(target),
    {
        let fields_changed: Vec<Field> = Vec::new();
        proof {
            assert(fields_changed@.map_values(|field: Field| field@) =~= Seq::empty());
        }
        Ok(ModifyResult::new(fields_changed))
    }
}

impl World {
    /// A builder for a new world.
    pub fn builder() -> (builder: WorldBuilder)
        ensures
            builder@ == WorldBuilderView::empty(BuilderMode::Creator),
    {
        WorldBuilder::creator()
    }

    /// A builder for a new world.
    pub fn creator() -> (builder: WorldBuilder)
        ensures
            builder@ == WorldBuilderView::empty(BuilderMode::Creator),
    {
        WorldBuilder::creator()
    }

    /// A builder for changing a world.
    pub fn editor() -> (builder: WorldBuilder)
        ensures
            builder@ == WorldBuilderView::empty(BuilderMode::Editor),
    {
        WorldBuilder::editor()
    }

    /// The id that the next thing gets.
    pub fn next_id(&self) -> (id: ID)
        ensures
            id == self@.next_id,
    {
        self.next_id
    }

    /// Takes the next id.
    fn generate_id(&mut self) -> (id: ID)
        requires
            old(self)@.next_id < u64::MAX,
        ensures
            id == old(self)@.next_id,
            final(self)@ == (WorldView { next_id: (id + 1) as ID, ..old(self)@ }),
    {
        let id = self.next_id;
        self.next_id = self.next_id + 1;
        id
    }

    fn thing_index(&self, id: ID) -> (position: Option<usize>)
        ensures
            match position {
                Some(found) => self@.thing_position(id) == Some(found as int) && found
                    < self.things@.len(),
                None => self@.thing_position(id).is_none(),
            },
    {
        let ghost wanted = |thing: ThingView| thing.entity().identity.id == id;
        let mut i: usize = 0;
        while i < self.things.len()
            invariant
                i <= self.things.len(),
                wanted == (|thing: ThingView| thing.entity().identity.id == id),
                forall|j: int| 0 <= j < i ==> !wanted(#[trigger] thing_views(self.things@)[j]),
            decreases self.things.len() - i,
        {
            if self.things[i].id() == id {
                proof {
                    lemma_first_position_is(thing_views(self.things@), wanted, i as int);
                }
                return Some(i);
            }
            i = i + 1;
        }
        proof {
            lemma_first_position_none(thing_views(self.things@), wanted);
        }
        None
    }

    fn thing_key_index(&self, key: &str) -> (position: Option<usize>)
        ensures
            match position {
                Some(found) => self@.thing_key_position(key@) == Some(found as int) && found
                    < self.things@.len(),
                None => self@.thing_key_position(key@).is_none(),
            },
    {
        let ghost wanted = |thing: ThingView| thing.entity().descriptor.has_key(key@);
        let mut i: usize = 0;
        while i < self.things.len()
            invariant
                i <= self.things.len(),
                wanted == (|thing: ThingView| thing.entity().descriptor.has_key(key@)),
                forall|j: int| 0 <= j < i ==> !wanted(#[trigger] thing_views(self.things@)[j]),
            decreases self.things.len() - i,
        {
            let has_key = match self.things[i].key() {
                Some(found) => same_text(found.as_str(), key),
                None => false,
            };
            if has_key {
                proof {
                    lemma_first_position_is(thing_views(self.things@), wanted, i as int);
                }
                return Some(i);
            }
            i = i + 1;
        }
        proof {
            lemma_first_position_none(thing_views(self.things@), wanted);
        }
        None
    }

    /// The first thing with an id.
    pub fn thing(&self, id: ID) -> (thing: Option<&Thing>)
        ensures
            match thing {
                Some(thing) => self@.thing_position(id) matches Some(position)
                    && self@.things[position] == thing@,
                None => self@.thing_position(id).is_none(),
            },
    {
        match self.thing_index(id) {
            Some(position) => Some(&self.things[position]),
            None => None,
        }
    }

    /// The first thing with an id, for writing. What is written to it is
    /// written to the world.
    pub fn thing_mut(&mut self, id: ID) -> (thing: Option<&mut Thing>)
        ensures
            match thing {
                Some(thing) => old(self)@.thing_position(id) matches Some(position) && old(
                    self,
                )@.things[position] == thing@ && final(self)@ == (WorldView {
                    things: old(self)@.things.update(position, final(thing)@),
                    ..old(self)@
                }),
                None => old(self)@.thing_position(id).is_none() && *final(self) == *old(self),
            },
    {
        match self.thing_index(id) {
            Some(position) => {
                let ghost before = self.things@;
                let thing = &mut self.things[position];
                proof {
                    assert(thing_views(before.update(position as int, *final(thing)))
                        =~= thing_views(before).update(position as int, final(thing)@));
                }
                Some(thing)
            },
            None => None,
        }
    }

    /// The first area with an id.
    pub fn area(&self, id: ID) -> (area: Option<&Area>)
        ensures
            match area {
                Some(area) => self@.area_position(id) matches Some(position)
                    && self@.areas[position] == area@,
                None => self@.area_position(id).is_none(),
            },
    {
        let ghost wanted = |area: AreaView| area.identity.id == id;
        let mut i: usize = 0;
        while i < self.areas.len()
            invariant
                i <= self.areas.len(),
                wanted == (|area: AreaView| area.identity.id == id),
                forall|j: int| 0 <= j < i ==> !wanted(#[trigger] area_views(self.areas@)[j]),
            decreases self.areas.len() - i,
        {
            if self.areas[i].id() == id {
                proof {
                    lemma_first_position_is(area_views(self.areas@), wanted, i as int);
                }
                return Some(&self.areas[i]);
            }
            i = i + 1;
        }
        proof {
            lemma_first_position_none(area_views(self.areas@), wanted);
        }
        None
    }

    /// The areas with a name, in their order.
    pub fn find_areas(&self, query: &str) -> (areas: Vec<&Area>)
        ensures
            area_ref_views(areas@) == self@.areas_named(query@),
    {
        let ghost wanted = |area: AreaView| area.descriptor.name == query@;
        let ghost all = area_views(self.areas@);
        let mut found: Vec<&Area> = Vec::new();
        let mut i: usize = 0;
        proof {
            lemma_filter_empty(all, wanted);
            assert(area_ref_views(found@) =~= Seq::empty());
        }
        while i < self.areas.len()
            invariant
                i <= self.areas.len(),
                all == area_views(self.areas@),
                wanted == (|area: AreaView| area.descriptor.name == query@),
                area_ref_views(found@) == all.take(i as int).filter(wanted),
            decreases self.areas.len() - i,
        {
            let area = &self.areas[i];
            proof {
                lemma_filter_step(all, wanted, i as int);
            }
            if same_text(area.name(), query) {
                let ghost kept = found@;
                found.push(area);
                proof {
                    assert(area_ref_views(found@) =~= area_ref_views(kept).push(area@));
                }
            }
            i = i + 1;
        }
        proof {
            lemma_filter_empty(all, wanted);
        }
        found
    }

    /// The first area with a key.
    pub fn find_area(&self, key: &str) -> (area: Option<&Area>)
        ensures
            match area {
                Some(area) => self@.area_key_position(key@) matches Some(position)
                    && self@.areas[position] == area@,
                None => self@.area_key_position(key@).is_none(),
            },
    {
        let ghost wanted = |area: AreaView| area.descriptor.has_key(key@);
        let mut i: usize = 0;
        while i < self.areas.len()
            invariant
                i <= self.areas.len(),
                wanted == (|area: AreaView| area.descriptor.has_key(key@)),
                forall|j: int| 0 <= j < i ==> !wanted(#[trigger] area_views(self.areas@)[j]),
            decreases self.areas.len() - i,
        {
            let has_key = match self.areas[i].key() {
                Some(found) => same_text(found.as_str(), key),
                None => false,
            };
            if has_key {
                proof {
                    lemma_first_position_is(area_views(self.areas@), wanted, i as int);
                }
                return Some(&self.areas[i]);
            }
            i = i + 1;
        }
        proof {
            lemma_first_position_none(area_views(self.areas@), wanted);
        }
        None
    }

    /// The things with a name, in their order.
    pub fn find_things(&self, query: &str) -> (things: Vec<&Thing>)
        ensures
            thing_ref_views(things@) == self@.things_named(query@),
    {
        let ghost wanted = |thing: ThingView| thing.entity().descriptor.name == query@;
        let ghost all = thing_views(self.things@);
        let mut found: Vec<&Thing> = Vec::new();
        let mut i: usize = 0;
        proof {
            lemma_filter_empty(all, wanted);
            assert(thing_ref_views(found@) =~= Seq::empty());
        }
        while i < self.things.len()
            invariant
                i <= self.things.len(),
                all == thing_views(self.things@),
                wanted == (|thing: ThingView| thing.entity().descriptor.name == query@),
                thing_ref_views(found@) == all.take(i as int).filter(wanted),
            decreases self.things.len() - i,
        {
            let thing = &self.things[i];
            proof {
                lemma_filter_step(all, wanted, i as int);
            }
            if same_text(thing.name(), query) {
                let ghost kept = found@;
                found.push(thing);
                proof {
                    assert(thing_ref_views(found@) =~= thing_ref_views(kept).push(thing@));
                }
            }
            i = i + 1;
        }
        proof {
            lemma_filter_empty(all, wanted);
        }
        found
    }

    /// The first thing with a key.
    pub fn find_thing(&self, key: &str) -> (thing: Option<&Thing>)
        ensures
            match thing {
                Some(thing) => self@.thing_key_position(key@) matches Some(position)
                    && self@.things[position] == thing@,
                None => self@.thing_key_position(key@).is_none(),
            },
    {
        match self.thing_key_index(key) {
            Some(position) => Some(&self.things[position]),
            None => None,
        }
    }

    /// The first thing with a key, for writing. What is written to it is
    /// written to the world.
    pub fn find_thing_mut(&mut self, key: &str) -> (thing: Option<&mut Thing>)
        ensures
            match thing {
                Some(thing) => old(self)@.thing_key_position(key@) matches Some(position) && old(
                    self,
                )@.things[position] == thing@ && final(self)@ == (WorldView {
                    things: old(self)@.things.update(position, final(thing)@),
                    ..old(self)@
                }),
                None => old(self)@.thing_key_position(key@).is_none() && *final(self) == *old(
                    self,
                ),
            },
    {
        match self.thing_key_index(key) {
            Some(position) => {
                let ghost before = self.things@;
                let thing = &mut self.things[position];
                proof {
                    assert(thing_views(before.update(position as int, *final(thing)))
                        =~= thing_views(before).update(position as int, final(thing)@));
                }
                Some(thing)
            },
            None => None,
        }
    }

    /// Makes a thing and puts it into the world; returns the id that it was
    /// given. The thing takes the world's next id and the world's region, world
    /// and universe. Where the thing cannot be made, nothing is added and no id
    /// is spent.
    pub fn spawn_thing<T: ThingBuilder>(&mut self, thing: T, area_id: ID) -> (result: Result<
        ID,
        Error,
    >)
        requires
            old(self)@.area_position(area_id).is_some(),
            old(self)@.next_id < u64::MAX,
        ensures
            match T::built_from(
                Some(old(self)@.spawn_fields(thing.entity_fields())),
            ) {
                Ok(made) => {
                    &&& result == Ok::<ID, Error>(old(self)@.next_id)
                    &&& final(self)@ == (WorldView {
                        things: old(self)@.things.push(made),
                        next_id: (old(self)@.next_id + 1) as ID,
                        ..old(self)@
                    })
                },
                Err(error) => {
                    &&& result matches Err(reported) && reported@ == error
                    &&& final(self)@ == old(self)@
                },
            },
    {
        let mut builder = thing;
        let thing_id = self.next_id;
        let _ = builder.entity_builder().identity_builder().guid(
            thing_id,
            self.identity.region_id(),
            self.identity.world_id(),
            self.identity.universe_id(),
        );
        let thing = builder.build_thing()?;
        let ghost before = self.things@;
        self.things.push(thing);
        let _ = self.generate_id();
        proof {
            assert(thing_views(self.things@) =~= thing_views(before).push(thing@));
        }
        Ok(thing_id)
    }
}

impl Ident for World {
    open spec fn identity_view(&self) -> IdentityView {
        self@.identity
    }

    fn identity(&self) -> (identity: &Identity) {
        &self.identity
    }
}

impl IdentMut for World {
    fn identity_mut(&mut self) -> (identity: &mut Identity)
        ensures
            final(self)@ == (WorldView { identity: final(identity)@, ..old(self)@ }),
    {
        &mut self.identity
    }
}

impl Descriptive for World {
    open spec fn descriptor_view(&self) -> DescriptorView {
        self@.descriptor
    }

    fn descriptor(&self) -> (descriptor: &Descriptor) {
        &self.descriptor
    }
}

impl DescriptiveMut for World {
    fn descriptor_mut(&mut self) -> (descriptor: &mut Descriptor)
        ensures
            final(self)@ == (WorldView { descriptor: final(descriptor)@, ..old(self)@ }),
    {
        &mut self.descriptor
    }
}

} // verus!
