//! Zones: registries of entities and of the relations between them.
//!
//! A zone owns every entity, relation and relation map. They name each other by
//! handle, a place in the zone, and every such name is looked up in the zone.
//! An entity names the relation that holds it, a relation the map that it
//! belongs to, and a map the entity that it is bound to.

pub mod entity;
pub mod humanoid;
pub mod relation;

use crate::search::lemma_first_position;
use crate::zone::entity::{Entity, EntityView};
use crate::zone::relation::{
    keyed_position, under_key, Relation, RelationMap, RelationMapTrait, RelationMapView, RelationTemplate,
    RelationTrait, RelationView,
};
use vstd::prelude::*;

verus! {

/// The handle of an entity: its place in the zone.
pub type EntityRef = usize;

/// The handle of a relation: its place in the zone.
pub type RelationRef = usize;

/// The handle of a relation map: its place in the zone.
pub type RelationMapRef = usize;

/// A zone as a mathematical value.
pub struct ZoneView {
    pub next_id: u64,
    pub entities: Seq<EntityView>,
    pub relations: Seq<RelationView>,
    pub maps: Seq<RelationMapView>,
}

impl ZoneView {
    /// Whether every handle that an entity names is a place in the zone.
    pub open spec fn admits_entity(self, entity: EntityView) -> bool {
        &&& entity.components matches Some(map) ==> map < self.maps.len()
        &&& entity.attachments matches Some(map) ==> map < self.maps.len()
        &&& entity.contents matches Some(contents) ==> forall|i: int|
            0 <= i < contents.len() ==> (#[trigger] contents[i]) < self.entities.len()
        &&& entity.parent matches Some(relation) ==> relation < self.relations.len()
    }

    /// Whether every handle that a relation names is a place in the zone.
    pub open spec fn admits_relation(self, relation: RelationView) -> bool {
        &&& relation.parent matches Some(map) ==> map < self.maps.len()
        &&& relation.entity matches Some(entity) ==> entity < self.entities.len()
    }

    /// Whether every handle that a map names is a place in the zone.
    pub open spec fn admits_map(self, map: RelationMapView) -> bool {
        &&& map.entity() matches Some(entity) ==> entity < self.entities.len()
        &&& forall|i: int|
            0 <= i < map.relations().len() ==> (#[trigger] map.relations()[i])
                < self.relations.len()
    }

    /// Whether the names that point upwards are true: the relation that an
    /// entity names as its holder holds it, the map that a relation names as
    /// its own lists it, and the entity that a map is bound to has it as the
    /// map of its components or of its attachments.
    pub open spec fn links_hold(self) -> bool {
        &&& forall|e: int|
            0 <= e < self.entities.len() ==> ((#[trigger] self.entities[e]).parent matches Some(
                relation,
            ) ==> self.relations[relation as int].entity matches Some(held) && held == e)
        &&& forall|r: int|
            0 <= r < self.relations.len() ==> ((#[trigger] self.relations[r]).parent matches Some(
                map,
            ) ==> self.maps[map as int].lists(r))
        &&& forall|m: int|
            0 <= m < self.maps.len() ==> ((#[trigger] self.maps[m]).entity() matches Some(
                entity,
            ) ==> self.entities[entity as int].has_map(m))
    }

    /// The zone's invariant: every handle is a place in the zone, and the
    /// names that point upwards are true.
    pub open spec fn wf(self) -> bool {
        &&& forall|e: int|
            0 <= e < self.entities.len() ==> self.admits_entity(#[trigger] self.entities[e])
        &&& forall|r: int|
            0 <= r < self.relations.len() ==> self.admits_relation(#[trigger] self.relations[r])
        &&& forall|m: int| 0 <= m < self.maps.len() ==> self.admits_map(#[trigger] self.maps[m])
        &&& self.links_hold()
        &&& self.entities.len() <= usize::MAX
        &&& self.relations.len() <= usize::MAX
        &&& self.maps.len() <= usize::MAX
    }

    /// The zone after it gave out an id.
    pub open spec fn after_id(self) -> ZoneView {
        ZoneView { next_id: (self.next_id + 1) as u64, ..self }
    }

    /// The zone with a map bound to an entity: the map names the entity, and
    /// each relation of the map names the map.
    pub open spec fn bound(self, map: RelationMapRef, entity: EntityRef) -> ZoneView {
        ZoneView {
            maps: self.maps.update(map as int, self.maps[map as int].bound_to(entity)),
            relations: Seq::new(
                self.relations.len(),
                |r: int|
                    if self.maps[map as int].lists(r) {
                        RelationView { parent: Some(map), ..self.relations[r] }
                    } else {
                        self.relations[r]
                    },
            ),
            ..self
        }
    }

    /// The zone with a map, if there is one, bound to an entity.
    pub open spec fn bound_if(self, map: Option<RelationMapRef>, entity: EntityRef) -> ZoneView {
        match map {
            Some(map) => self.bound(map, entity),
            None => self,
        }
    }

    /// The zone with a new entity in the last place, the maps of its
    /// components and of its attachments bound to it.
    pub open spec fn with_entity(self, entity: EntityView) -> ZoneView {
        let made = self.entities.len() as usize;
        (ZoneView { entities: self.entities.push(entity), ..self }).bound_if(
            entity.components,
            made,
        ).bound_if(entity.attachments, made)
    }

    /// The zone with a new relation in the last place. The entity that the
    /// relation holds names the relation as its holder.
    pub open spec fn with_relation(self, relation: RelationView) -> ZoneView {
        ZoneView {
            relations: self.relations.push(relation),
            entities: match relation.entity {
                Some(entity) => self.entities.update(
                    entity as int,
                    EntityView {
                        parent: Some(self.relations.len() as usize),
                        ..self.entities[entity as int]
                    },
                ),
                None => self.entities,
            },
            ..self
        }
    }

    /// The zone with a new map in the last place.
    pub open spec fn with_map(self, map: RelationMapView) -> ZoneView {
        ZoneView { maps: self.maps.push(map), ..self }
    }

    /// A relation that a map of the zone holds under a key is a place in the
    /// zone.
    pub proof fn lemma_relation_in_zone(self, map: Option<RelationMapRef>, key: isize)
        requires
            self.wf(),
            map matches Some(map) ==> map < self.maps.len(),
        ensures
            map matches Some(map) ==> (self.maps[map as int].relation(key) matches Some(relation)
                ==> relation < self.relations.len() && self.maps[map as int].lists(
                relation as int,
            )),
    {
        if let Some(map) = map {
            let held = self.maps[map as int];
            assert(self.admits_map(held));
            match held {
                RelationMapView::Hash { entity, map: entries } => {
                    lemma_first_position(entries, under_key(key));
                    if let Some(position) = keyed_position(entries, key) {
                        assert(held.relations()[position] == entries[position].1);
                    }
                },
                RelationMapView::Humanoid { entity, head, back } => {
                    assert(held.relations()[0] == head);
                    assert(held.relations()[1] == back);
                },
            }
        }
    }

    /// A new entity that the zone admits keeps the invariant, before its maps
    /// are bound.
    pub proof fn lemma_with_entity_wf(self, entity: EntityView)
        requires
            self.wf(),
            self.admits_entity(entity),
            entity.parent.is_none(),
            self.entities.len() < usize::MAX,
        ensures
            (ZoneView { entities: self.entities.push(entity), ..self }).wf(),
    {
        let after = ZoneView { entities: self.entities.push(entity), ..self };
        assert forall|e: int| 0 <= e < after.entities.len() implies after.admits_entity(
            #[trigger] after.entities[e],
        ) by {
            if e < self.entities.len() {
                assert(self.admits_entity(self.entities[e]));
            }
        }
        assert forall|r: int| 0 <= r < after.relations.len() implies after.admits_relation(
            #[trigger] after.relations[r],
        ) by {
            assert(self.admits_relation(self.relations[r]));
        }
        assert forall|m: int| 0 <= m < after.maps.len() implies after.admits_map(
            #[trigger] after.maps[m],
        ) by {
            assert(self.admits_map(self.maps[m]));
        }
        assert forall|m: int| 0 <= m < after.maps.len() implies ((
        #[trigger] after.maps[m]).entity() matches Some(bound)
            ==> after.entities[bound as int].has_map(m)) by {
            assert(self.admits_map(self.maps[m]));
        }
    }

    /// Binding a map to an entity that has it keeps the invariant.
    pub proof fn lemma_bound_wf(self, map: RelationMapRef, entity: EntityRef)
        requires
            self.wf(),
            map < self.maps.len(),
            entity < self.entities.len(),
            self.entities[entity as int].has_map(map as int),
        ensures
            self.bound(map, entity).wf(),
    {
        let after = self.bound(map, entity);
        assert(self.admits_map(self.maps[map as int]));
        assert forall|m: int| 0 <= m < after.maps.len() implies after.admits_map(
            #[trigger] after.maps[m],
        ) && (after.maps[m].entity() matches Some(bound)
            ==> after.entities[bound as int].has_map(m)) by {
            assert(self.admits_map(self.maps[m]));
            assert(self.maps[map as int].bound_to(entity).relations()
                == self.maps[map as int].relations());
        }
        assert forall|r: int| 0 <= r < after.relations.len() implies after.admits_relation(
            #[trigger] after.relations[r],
        ) && (after.relations[r].parent matches Some(named) ==> after.maps[named as int].lists(
            r,
        )) by {
            assert(self.admits_relation(self.relations[r]));
            assert(self.maps[map as int].bound_to(entity).relations()
                == self.maps[map as int].relations());
        }
        assert forall|e: int| 0 <= e < after.entities.len() implies after.admits_entity(
            #[trigger] after.entities[e],
        ) && (after.entities[e].parent matches Some(relation)
            ==> after.relations[relation as int].entity matches Some(held) && held == e) by {
            assert(self.admits_entity(self.entities[e]));
        }
    }

    /// A new relation that the zone admits keeps the invariant.
    pub proof fn lemma_with_relation_wf(self, relation: RelationView)
        requires
            self.wf(),
            self.admits_relation(relation),
            relation.parent.is_none(),
            self.relations.len() < usize::MAX,
        ensures
            self.with_relation(relation).wf(),
    {
        let after = self.with_relation(relation);
        assert forall|e: int| 0 <= e < after.entities.len() implies after.admits_entity(
            #[trigger] after.entities[e],
        ) && (after.entities[e].parent matches Some(holder)
            ==> after.relations[holder as int].entity matches Some(held) && held == e) by {
            assert(self.admits_entity(self.entities[e]));
            if relation.entity matches Some(held) && held == e {
                assert(after.relations[self.relations.len() as int] == relation);
            } else {
                assert(after.entities[e] == self.entities[e]);
                if let Some(holder) = self.entities[e].parent {
                    assert(after.relations[holder as int] == self.relations[holder as int]);
                }
            }
        }
        assert forall|r: int| 0 <= r < after.relations.len() implies after.admits_relation(
            #[trigger] after.relations[r],
        ) && (after.relations[r].parent matches Some(named) ==> after.maps[named as int].lists(
            r,
        )) by {
            if r < self.relations.len() {
                assert(self.admits_relation(self.relations[r]));
            }
        }
        assert forall|m: int| 0 <= m < after.maps.len() implies after.admits_map(
            #[trigger] after.maps[m],
        ) && (after.maps[m].entity() matches Some(bound)
            ==> after.entities[bound as int].has_map(m)) by {
            assert(self.admits_map(self.maps[m]));
        }
    }

    /// A new unbound map that the zone admits keeps the invariant.
    pub proof fn lemma_with_map_wf(self, map: RelationMapView)
        requires
            self.wf(),
            self.admits_map(map),
            map.entity().is_none(),
            self.maps.len() < usize::MAX,
        ensures
            self.with_map(map).wf(),
    {
        let after = self.with_map(map);
        assert forall|e: int| 0 <= e < after.entities.len() implies after.admits_entity(
            #[trigger] after.entities[e],
        ) by {
            assert(self.admits_entity(self.entities[e]));
        }
        assert forall|r: int| 0 <= r < after.relations.len() implies after.admits_relation(
            #[trigger] after.relations[r],
        ) by {
            assert(self.admits_relation(self.relations[r]));
        }
        assert forall|m: int| 0 <= m < after.maps.len() implies after.admits_map(
            #[trigger] after.maps[m],
        ) by {
            if m < self.maps.len() {
                assert(self.admits_map(self.maps[m]));
            }
        }
    }
}

/// Whether a handle is among a run of handles.
pub open spec fn listed(handles: Seq<usize>, handle: int) -> bool {
    exists|k: int| 0 <= k < handles.len() && #[trigger] handles[k] == handle
}

/// The views of a run of entities.
pub open spec fn entity_views(entities: Seq<Entity>) -> Seq<EntityView> {
    entities.map_values(|entity: Entity| entity@)
}

/// The views of a run of relations.
pub open spec fn relation_views(relations: Seq<Relation>) -> Seq<RelationView> {
    relations.map_values(|relation: Relation| relation@)
}

/// The views of a run of relation maps.
pub open spec fn map_views(maps: Seq<RelationMap>) -> Seq<RelationMapView> {
    maps.map_values(|map: RelationMap| map@)
}

/// A registry of entities, relations and relation maps.
#[derive(Debug)]
pub struct Zone {
    next_id: u64,
    entities: Vec<Entity>,
    relations: Vec<Relation>,
    maps: Vec<RelationMap>,
}

impl View for Zone {
    type V = ZoneView;

    closed spec fn view(&self) -> ZoneView {
        ZoneView {
            next_id: self.next_id,
            entities: entity_views(self.entities@),
            relations: relation_views(self.relations@),
            maps: map_views(self.maps@),
        }
    }
}

impl Zone {
    /// The zone's invariant: see [`ZoneView::wf`].
    pub open spec fn wf(&self) -> bool {
        self@.wf()
    }

    /// An empty zone. The first id that it gives out is 1.
    pub fn new() -> (zone: Self)
        ensures
            zone@ == (ZoneView {
                next_id: 1,
                entities: Seq::empty(),
                relations: Seq::empty(),
                maps: Seq::empty(),
            }),
            zone.wf(),
    {
        let zone = Self {
            next_id: 1,
            entities: Vec::new(),
            relations: Vec::new(),
            maps: Vec::new(),
        };
        proof {
            assert(zone@.entities =~= Seq::empty());
            assert(zone@.relations =~= Seq::empty());
            assert(zone@.maps =~= Seq::empty());
        }
        zone
    }

    /// The id that the zone gives out next.
    pub fn next_id(&self) -> (id: u64)
        ensures
            id == self@.next_id,
    {
        self.next_id
    }

    /// Takes the next id. Ids only rise, so none is given out twice.
    pub fn generate_id(&mut self) -> (id: u64)
        requires
            old(self)@.next_id < u64::MAX,
        ensures
            id == old(self)@.next_id,
            final(self)@ == old(self)@.after_id(),
    {
        let id = self.next_id;
        self.next_id = self.next_id + 1;
        id
    }

    /// How many entities the zone holds.
    pub fn entity_count(&self) -> (count: usize)
        ensures
            count == self@.entities.len(),
    {
        self.entities.len()
    }

    /// How many relations the zone holds.
    pub fn relation_count(&self) -> (count: usize)
        ensures
            count == self@.relations.len(),
    {
        self.relations.len()
    }

    /// How many relation maps the zone holds.
    pub fn map_count(&self) -> (count: usize)
        ensures
            count == self@.maps.len(),
    {
        self.maps.len()
    }

    /// The entity at a handle.
    pub fn entity(&self, entity: EntityRef) -> (found: &Entity)
        requires
            entity < self@.entities.len(),
        ensures
            found@ == self@.entities[entity as int],
    {
        &self.entities[entity]
    }

    /// The entity at a handle, for writing. What is written to it is written
    /// to the zone; the contents that a caller writes must be places in the
    /// zone for the zone to keep its invariant.
    pub fn entity_mut(&mut self, entity: EntityRef) -> (found: &mut Entity)
        requires
            entity < old(self)@.entities.len(),
        ensures
            found@ == old(self)@.entities[entity as int],
            final(self)@ == (ZoneView {
                entities: old(self)@.entities.update(entity as int, final(found)@),
                ..old(self)@
            }),
    {
        let ghost before = self.entities@;
        let found = &mut self.entities[entity];
        proof {
            assert(entity_views(before.update(entity as int, *final(found))) =~= entity_views(
                before,
            ).update(entity as int, final(found)@));
        }
        found
    }

    /// The relation at a handle.
    pub fn relation(&self, relation: RelationRef) -> (found: &Relation)
        requires
            relation < self@.relations.len(),
        ensures
            found@ == self@.relations[relation as int],
    {
        &self.relations[relation]
    }

    /// The relation map at a handle.
    pub fn relation_map(&self, map: RelationMapRef) -> (found: &RelationMap)
        requires
            map < self@.maps.len(),
        ensures
            found@ == self@.maps[map as int],
    {
        &self.maps[map]
    }

    /// Puts an unbound relation map into the zone and returns its handle.
    pub fn add_map(&mut self, map: RelationMap) -> (handle: RelationMapRef)
        requires
            old(self).wf(),
            old(self)@.admits_map(map@),
            map@.entity().is_none(),
        ensures
            handle == old(self)@.maps.len(),
            final(self)@ == old(self)@.with_map(map@),
            final(self).wf(),
    {
        let ghost before = self@;
        let handle = self.maps.len();
        self.maps.push(map);
        let _ = self.maps.len();
        proof {
            assert(self@.maps =~= before.with_map(map@).maps);
            before.lemma_with_map_wf(map@);
        }
        handle
    }

    /// Puts an entity into the zone, without binding its maps.
    pub(crate) fn add_entity(&mut self, entity: Entity) -> (handle: EntityRef)
        ensures
            handle == old(self)@.entities.len(),
            old(self)@.entities.len() < usize::MAX,
            final(self)@ == (ZoneView {
                entities: old(self)@.entities.push(entity@),
                ..old(self)@
            }),
    {
        let ghost before = self@;
        let handle = self.entities.len();
        self.entities.push(entity);
        let _ = self.entities.len();
        proof {
            assert(self@.entities =~= before.entities.push(entity@));
        }
        handle
    }

    /// Puts an unbound relation into the zone and returns its handle. The
    /// entity that it holds names it as its holder.
    pub(crate) fn add_relation(&mut self, relation: Relation) -> (handle: RelationRef)
        requires
            old(self).wf(),
            old(self)@.admits_relation(relation@),
            relation@.parent.is_none(),
        ensures
            handle == old(self)@.relations.len(),
            final(self)@ == old(self)@.with_relation(relation@),
            final(self).wf(),
    {
        let ghost before = self@;
        let ghost held = self.entities@;
        let handle = self.relations.len();
        let entity = relation.entity();
        self.relations.push(relation);
        let _ = self.relations.len();
        if let Some(entity) = entity {
            self.entities[entity].set_parent(handle);
            proof {
                assert(self@.entities =~= before.with_relation(relation@).entities);
            }
        }
        proof {
            assert(self@.relations =~= before.relations.push(relation@));
            before.lemma_with_relation_wf(relation@);
        }
        handle
    }

    /// Binds a map to an entity that has it, and each relation of the map to
    /// the map.
    pub(crate) fn bind_map(&mut self, map: RelationMapRef, entity: EntityRef)
        requires
            old(self).wf(),
            map < old(self)@.maps.len(),
            entity < old(self)@.entities.len(),
            old(self)@.entities[entity as int].has_map(map as int),
        ensures
            final(self)@ == old(self)@.bound(map, entity),
            final(self).wf(),
    {
        let ghost before = self@;
        let relations = self.maps[map].iter();
        self.maps[map].bind(entity);
        proof {
            assert(before.admits_map(before.maps[map as int]));
            assert(self@.maps =~= before.bound(map, entity).maps);
            assert(relations@.take(0) =~= Seq::empty());
        }
        let mut i: usize = 0;
        while i < relations.len()
            invariant
                i <= relations.len(),
                relations@ == before.maps[map as int].relations(),
                forall|k: int|
                    0 <= k < relations@.len() ==> (#[trigger] relations@[k])
                        < before.relations.len(),
                self@.next_id == before.next_id,
                self@.entities == before.entities,
                self@.maps == before.bound(map, entity).maps,
                self.relations@.len() == before.relations.len(),
                self@.relations =~= Seq::new(
                    before.relations.len(),
                    |r: int|
                        if listed(relations@.take(i as int), r) {
                            RelationView { parent: Some(map), ..before.relations[r] }
                        } else {
                            before.relations[r]
                        },
                ),
            decreases relations.len() - i,
        {
            let bound = relations[i];
            let ghost held = self.relations@;
            self.relations[bound].bind(map);
            proof {
                assert(relations@.take(i + 1) =~= relations@.take(i as int).push(bound));
                assert(self.relations@.len() == held.len());
                assert(self.relations@[bound as int]@ == (RelationView {
                    parent: Some(map),
                    ..held[bound as int]@
                }));
                assert(forall|r: int|
                    0 <= r < held.len() && r != bound ==> self.relations@[r] == held[r]);
                assert(relation_views(self.relations@) =~= relation_views(held).update(
                    bound as int,
                    self.relations@[bound as int]@,
                ));
                assert forall|r: int| 0 <= r < before.relations.len() implies (#[trigger] listed(
                    relations@.take(i + 1),
                    r,
                )) == (listed(relations@.take(i as int), r) || r == bound) by {
                    if listed(relations@.take(i as int), r) {
                        let shorter = relations@.take(i as int);
                        let k = choose|k: int|
                            0 <= k < shorter.len() && #[trigger] shorter[k] == r;
                        assert(relations@.take(i + 1)[k] == r);
                    }
                    if r == bound {
                        assert(relations@.take(i + 1)[i as int] == bound);
                    }
                    if listed(relations@.take(i + 1), r) && r != bound {
                        let longer = relations@.take(i + 1);
                        let k = choose|k: int| 0 <= k < longer.len() && #[trigger] longer[k] == r;
                        assert(relations@.take(i as int)[k] == r);
                    }
                }
                let ghost reached = Seq::new(
                    before.relations.len(),
                    |r: int|
                        if listed(relations@.take(i as int), r) {
                            RelationView { parent: Some(map), ..before.relations[r] }
                        } else {
                            before.relations[r]
                        },
                );
                let ghost wanted = Seq::new(
                    before.relations.len(),
                    |r: int|
                        if listed(relations@.take(i + 1), r) {
                            RelationView { parent: Some(map), ..before.relations[r] }
                        } else {
                            before.relations[r]
                        },
                );
                assert(relation_views(held) == reached);
                assert forall|r: int| 0 <= r < before.relations.len() implies relation_views(
                    self.relations@,
                )[r] == wanted[r] by {
                    assert(listed(relations@.take(i + 1), r) == (listed(
                        relations@.take(i as int),
                        r,
                    ) || r == bound));
                    if r == bound {
                        assert(relation_views(held)[r] == reached[r]);
                    } else {
                        assert(relation_views(self.relations@)[r] == relation_views(held)[r]);
                        assert(relation_views(held)[r] == reached[r]);
                    }
                }
                assert(relation_views(self.relations@) =~= wanted);
            }
            i = i + 1;
        }
        proof {
            assert(relations@.take(i as int) =~= relations@);
            assert(self@.relations =~= before.bound(map, entity).relations);
            before.lemma_bound_wf(map, entity);
        }
    }
}

impl Relation {
    /// Puts a relation under a key into a zone and returns its handle. The
    /// entity that it holds, if any, names it as its holder.
    pub fn new(zone: &mut Zone, key: isize, entity: Option<EntityRef>) -> (relation: RelationRef)
        requires
            old(zone).wf(),
            entity matches Some(entity) ==> entity < old(zone)@.entities.len(),
        ensures
            relation == old(zone)@.relations.len(),
            final(zone)@ == old(zone)@.with_relation(
                RelationView { key, parent: None, entity, template: None },
            ),
            final(zone).wf(),
    {
        zone.add_relation(Relation::unbound(key, entity, None))
    }

    /// Puts a relation made from a template into a zone and returns its
    /// handle. The relation stands under the template's key.
    pub fn new_from(zone: &mut Zone, template: &RelationTemplate, entity: Option<EntityRef>) -> (relation:
        RelationRef)
        requires
            old(zone).wf(),
            entity matches Some(entity) ==> entity < old(zone)@.entities.len(),
        ensures
            relation == old(zone)@.relations.len(),
            final(zone)@ == old(zone)@.with_relation(
                RelationView { key: template.key, parent: None, entity, template: Some(template@) },
            ),
            final(zone).wf(),
    {
        zone.add_relation(Relation::unbound(template.key(), entity, Some(*template)))
    }
}

} // verus!
