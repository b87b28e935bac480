//! Entities of a zone: what they can take, what they are called, what they are
//! made of, what is attached to them and what they hold.

use crate::zone::relation::{RelationMapTrait, RelationTrait};
use crate::zone::{EntityRef, RelationMapRef, RelationRef, Zone};
use vstd::prelude::*;
use vstd::string::StringExecFns;

verus! {

/// How much an entity can take, and how much it has left.
#[derive(Debug, Clone, Copy, PartialEq, Eq, Structural)]
pub struct Permeability {
    pub max_health: u16,
    pub health: u16,
    pub max_resist: u16,
    pub resist: u16,
    pub ability: u16,
    pub max_ability: u16,
}

/// Access to the measures of a permeability.
pub trait PermeabilityTrait {
    /// The measures as a value.
    spec fn measures(&self) -> Permeability;

    fn max_health(&self) -> (value: u16)
        ensures
            value == self.measures().max_health,
    ;

    fn max_resist(&self) -> (value: u16)
        ensures
            value == self.measures().max_resist,
    ;

    fn max_ability(&self) -> (value: u16)
        ensures
            value == self.measures().max_ability,
    ;

    fn health(&self) -> (value: u16)
        ensures
            value == self.measures().health,
    ;

    fn resist(&self) -> (value: u16)
        ensures
            value == self.measures().resist,
    ;

    fn ability(&self) -> (value: u16)
        ensures
            value == self.measures().ability,
    ;

    fn set_health(&mut self, health: u16)
        ensures
            final(self).measures() == (Permeability { health, ..old(self).measures() }),
    ;
}

impl PermeabilityTrait for Permeability {
    open spec fn measures(&self) -> Permeability {
        *self
    }

    fn max_health(&self) -> (value: u16) {
        self.max_health
    }

    fn max_resist(&self) -> (value: u16) {
        self.max_resist
    }

    fn max_ability(&self) -> (value: u16) {
        self.max_ability
    }

    fn health(&self) -> (value: u16) {
        self.health
    }

    fn resist(&self) -> (value: u16) {
        self.resist
    }

    fn ability(&self) -> (value: u16) {
        self.ability
    }

    fn set_health(&mut self, health: u16) {
        self.health = health;
    }
}

/// Access to a name.
pub trait DescriptionTrait {
    /// The name as a mathematical value.
    spec fn named(&self) -> Seq<char>;

    fn name(&self) -> (name: &str)
        ensures
            name@ == self.named(),
    ;

    fn rename(&mut self, name: String)
        ensures
            final(self).named() == name@,
    ;
}

/// What an entity is called.
#[derive(Debug)]
pub struct EntityDescription {
    name: String,
}

impl View for EntityDescription {
    type V = Seq<char>;

    closed spec fn view(&self) -> Seq<char> {
        self.name@
    }
}

impl EntityDescription {
    /// A description with a name.
    pub fn new(name: String) -> (description: Self)
        ensures
            description@ == name@,
    {
        Self { name }
    }
}

impl DescriptionTrait for EntityDescription {
    open spec fn named(&self) -> Seq<char> {
        self@
    }

    fn name(&self) -> (name: &str) {
        self.name.as_str()
    }

    fn rename(&mut self, name: String) {
        self.name = name;
    }
}

/// An entity as a mathematical value.
pub struct EntityView {
    pub id: u64,
    pub permeability: Option<Permeability>,
    pub description: Option<Seq<char>>,
    pub components: Option<RelationMapRef>,
    pub attachments: Option<RelationMapRef>,
    pub contents: Option<Seq<EntityRef>>,
    pub parent: Option<RelationRef>,
}

/// An entity of a zone. It names by handle the maps of its components and of
/// its attachments, the entities that it holds, and the relation that holds it.
#[derive(Debug)]
pub struct Entity {
    id: u64,
    permeability: Option<Permeability>,
    description: Option<EntityDescription>,
    components: Option<RelationMapRef>,
    attachments: Option<RelationMapRef>,
    contents: Option<Vec<EntityRef>>,
    parent: Option<RelationRef>,
}

impl View for Entity {
    type V = EntityView;

    closed spec fn view(&self) -> EntityView {
        EntityView {
            id: self.id,
            permeability: self.permeability,
            description: match self.description {
                Some(description) => Some(description@),
                None => None,
            },
            components: self.components,
            attachments: self.attachments,
            contents: match self.contents {
                Some(contents) => Some(contents@),
                None => None,
            },
            parent: self.parent,
        }
    }
}

impl EntityView {
    /// Whether a map is the map of the entity's components or of its
    /// attachments.
    pub open spec fn has_map(self, map: int) -> bool {
        ||| self.components matches Some(components) && components == map
        ||| self.attachments matches Some(attachments) && attachments == map
    }
}

/// The relation that a map of a zone holds under a key; none where there is no
/// map or no such key.
pub open spec fn relation_under(zone: Zone, map: Option<RelationMapRef>, key: isize) -> Option<
    RelationRef,
> {
    match map {
        Some(map) => zone@.maps[map as int].relation(key),
        None => None,
    }
}

/// The entity that a map of a zone holds under a key; none where there is no
/// map, no such key, or no entity in the relation.
pub open spec fn entity_under(zone: Zone, map: Option<RelationMapRef>, key: isize) -> Option<
    EntityRef,
> {
    match relation_under(zone, map, key) {
        Some(relation) => zone@.relations[relation as int].entity,
        None => None,
    }
}

/// What an entity can tell of itself. What it names by handle is looked up in
/// the zone that it lives in.
pub trait EntityTrait {
    /// The entity as a mathematical value.
    spec fn entity_view(&self) -> EntityView;

    fn id(&self) -> (id: u64)
        ensures
            id == self.entity_view().id,
    ;

    fn permeability(&self) -> (permeability: Option<&Permeability>)
        ensures
            match permeability {
                Some(permeability) => self.entity_view().permeability == Some(*permeability),
                None => self.entity_view().permeability.is_none(),
            },
    ;

    fn permeability_mut(&mut self) -> (permeability: Option<&mut Permeability>)
        ensures
            match permeability {
                Some(permeability) => old(self).entity_view().permeability == Some(*permeability)
                    && final(self).entity_view() == (EntityView {
                    permeability: Some(*final(permeability)),
                    ..old(self).entity_view()
                }),
                None => old(self).entity_view().permeability.is_none() && final(self).entity_view() == old(self).entity_view(),
            },
    ;

    fn description(&self) -> (description: Option<&EntityDescription>)
        ensures
            match description {
                Some(description) => self.entity_view().description == Some(description@),
                None => self.entity_view().description.is_none(),
            },
    ;

    fn description_mut(&mut self) -> (description: Option<&mut EntityDescription>)
        ensures
            match description {
                Some(description) => old(self).entity_view().description == Some(description@)
                    && final(self).entity_view() == (EntityView {
                    description: Some(final(description)@),
                    ..old(self).entity_view()
                }),
                None => old(self).entity_view().description.is_none() && final(self).entity_view() == old(self).entity_view(),
            },
    ;

    /// The map of the entity's components.
    fn components(&self) -> (components: Option<&RelationMapRef>)
        ensures
            match components {
                Some(components) => self.entity_view().components == Some(*components),
                None => self.entity_view().components.is_none(),
            },
    ;

    /// The relation that holds the component under a key.
    fn component(&self, zone: &Zone, key: isize) -> (relation: Result<RelationRef, ()>)
        requires
            zone@.admits_entity(self.entity_view()),
        ensures
            match relation {
                Ok(relation) => relation_under(*zone, self.entity_view().components, key)
                    == Some(relation),
                Err(_) => relation_under(*zone, self.entity_view().components, key).is_none(),
            },
    ;

    /// The entity that is the component under a key.
    fn component_entity(&self, zone: &Zone, key: isize) -> (entity: Result<EntityRef, ()>)
        requires
            zone.wf(),
            zone@.admits_entity(self.entity_view()),
        ensures
            match entity {
                Ok(entity) => entity_under(*zone, self.entity_view().components, key) == Some(
                    entity,
                ),
                Err(_) => entity_under(*zone, self.entity_view().components, key).is_none(),
            },
    ;

    /// The map of what is attached to the entity.
    fn attachments(&self) -> (attachments: Option<&RelationMapRef>)
        ensures
            match attachments {
                Some(attachments) => self.entity_view().attachments == Some(*attachments),
                None => self.entity_view().attachments.is_none(),
            },
    ;

    /// The relation that holds the attachment under a key.
    fn attachment(&self, zone: &Zone, key: isize) -> (relation: Result<RelationRef, ()>)
        requires
            zone@.admits_entity(self.entity_view()),
        ensures
            match relation {
                Ok(relation) => relation_under(*zone, self.entity_view().attachments, key)
                    == Some(relation),
                Err(_) => relation_under(*zone, self.entity_view().attachments, key).is_none(),
            },
    ;

    /// The entity that is attached under a key.
    fn attachment_entity(&self, zone: &Zone, key: isize) -> (entity: Result<EntityRef, ()>)
        requires
            zone.wf(),
            zone@.admits_entity(self.entity_view()),
        ensures
            match entity {
                Ok(entity) => entity_under(*zone, self.entity_view().attachments, key) == Some(
                    entity,
                ),
                Err(_) => entity_under(*zone, self.entity_view().attachments, key).is_none(),
            },
    ;

    /// The entities that the entity holds.
    fn contents(&self) -> (contents: Option<&Vec<EntityRef>>)
        ensures
            match contents {
                Some(contents) => self.entity_view().contents == Some(contents@),
                None => self.entity_view().contents.is_none(),
            },
    ;

    /// The entities that the entity holds, for writing.
    fn contents_mut(&mut self) -> (contents: Option<&mut Vec<EntityRef>>)
        ensures
            match contents {
                Some(contents) => old(self).entity_view().contents == Some(contents@) && final(self).entity_view() == (EntityView {
                    contents: Some(final(contents)@),
                    ..old(self).entity_view()
                }),
                None => old(self).entity_view().contents.is_none() && final(self).entity_view()
                    == old(self).entity_view(),
            },
    ;

    /// The relation that holds the entity.
    fn parent(&self) -> (parent: Option<RelationRef>)
        ensures
            parent == self.entity_view().parent,
    ;
}

impl Entity {
    /// Sets the relation that holds the entity.
    pub(crate) fn set_parent(&mut self, parent: RelationRef)
        ensures
            final(self)@ == (EntityView { parent: Some(parent), ..old(self)@ }),
    {
        self.parent = Some(parent);
    }

    fn under(zone: &Zone, map: Option<RelationMapRef>, key: isize) -> (relation: Result<
        RelationRef,
        (),
    >)
        requires
            map matches Some(map) ==> map < zone@.maps.len(),
        ensures
            match relation {
                Ok(relation) => relation_under(*zone, map, key) == Some(relation),
                Err(_) => relation_under(*zone, map, key).is_none(),
            },
    {
        match map {
            Some(map) => zone.relation_map(map).relation_ref(key),
            None => Err(()),
        }
    }

    fn held(zone: &Zone, relation: Result<RelationRef, ()>) -> (entity: Result<EntityRef, ()>)
        requires
            relation matches Ok(relation) ==> relation < zone@.relations.len(),
        ensures
            match relation {
                Ok(relation) => match entity {
                    Ok(entity) => zone@.relations[relation as int].entity == Some(entity),
                    Err(_) => zone@.relations[relation as int].entity.is_none(),
                },
                Err(_) => entity is Err,
            },
    {
        match relation {
            Ok(relation) => match zone.relation(relation).entity() {
                Some(entity) => Ok(entity),
                None => Err(()),
            },
            Err(_) => Err(()),
        }
    }
}

impl EntityTrait for Entity {
    open spec fn entity_view(&self) -> EntityView {
        self@
    }

    fn id(&self) -> (id: u64) {
        self.id
    }

    fn permeability(&self) -> (permeability: Option<&Permeability>) {
        self.permeability.as_ref()
    }

    fn permeability_mut(&mut self) -> (permeability: Option<&mut Permeability>) {
        self.permeability.as_mut()
    }

    fn description(&self) -> (description: Option<&EntityDescription>) {
        self.description.as_ref()
    }

    fn description_mut(&mut self) -> (description: Option<&mut EntityDescription>) {
        self.description.as_mut()
    }

    fn components(&self) -> (components: Option<&RelationMapRef>) {
        self.components.as_ref()
    }

    fn component(&self, zone: &Zone, key: isize) -> (relation: Result<RelationRef, ()>) {
        Self::under(zone, self.components, key)
    }

    fn attachments(&self) -> (attachments: Option<&RelationMapRef>) {
        self.attachments.as_ref()
    }

    fn attachment(&self, zone: &Zone, key: isize) -> (relation: Result<RelationRef, ()>) {
        Self::under(zone, self.attachments, key)
    }

    fn contents(&self) -> (contents: Option<&Vec<EntityRef>>) {
        self.contents.as_ref()
    }

    fn contents_mut(&mut self) -> (contents: Option<&mut Vec<EntityRef>>) {
        self.contents.as_mut()
    }

    fn component_entity(&self, zone: &Zone, key: isize) -> (entity: Result<EntityRef, ()>) {
        let relation = self.component(zone, key);
        proof {
            zone@.lemma_relation_in_zone(self@.components, key);
        }
        Self::held(zone, relation)
    }

    fn attachment_entity(&self, zone: &Zone, key: isize) -> (entity: Result<EntityRef, ()>) {
        let relation = self.attachment(zone, key);
        proof {
            zone@.lemma_relation_in_zone(self@.attachments, key);
        }
        Self::held(zone, relation)
    }

    fn parent(&self) -> (parent: Option<RelationRef>) {
        self.parent
    }
}

/// Collects the parts of an entity. What the builder holds is the entity that
/// it will make, not yet held by any relation.
#[derive(Debug)]
pub struct EntityBuilder {
    id: u64,
    permeability: Option<Permeability>,
    description: Option<EntityDescription>,
    components: Option<RelationMapRef>,
    attachments: Option<RelationMapRef>,
    contents: Option<Vec<EntityRef>>,
}

impl View for EntityBuilder {
    type V = EntityView;

    closed spec fn view(&self) -> EntityView {
        EntityView {
            id: self.id,
            permeability: self.permeability,
            description: match self.description {
                Some(description) => Some(description@),
                None => None,
            },
            components: self.components,
            attachments: self.attachments,
            contents: match self.contents {
                Some(contents) => Some(contents@),
                None => None,
            },
            parent: None,
        }
    }
}

/// The entity with id 0 and nothing else.
pub open spec fn blank() -> EntityView {
    EntityView {
        id: 0,
        permeability: None,
        description: None,
        components: None,
        attachments: None,
        contents: None,
        parent: None,
    }
}

/// A permeability at its fullest: each measure at its maximum.
pub open spec fn full(max_health: u16, max_resist: u16, max_ability: u16) -> Permeability {
    Permeability {
        max_health,
        max_resist,
        max_ability,
        health: max_health,
        resist: max_resist,
        ability: max_ability,
    }
}

impl EntityBuilder {
    /// A builder for an entity with id 0 and nothing else.
    pub fn new() -> (builder: Self)
        ensures
            builder@ == blank(),
    {
        EntityBuilder {
            id: 0,
            permeability: None,
            description: None,
            components: None,
            attachments: None,
            contents: None,
        }
    }

    /// Puts the entity into a zone and returns its handle. The maps of its
    /// components and of its attachments are bound to it, and each relation of
    /// those maps to its map.
    pub fn create(self, zone: &mut Zone) -> (entity: EntityRef)
        requires
            old(zone).wf(),
            old(zone)@.admits_entity(self@),
        ensures
            entity == old(zone)@.entities.len(),
            final(zone)@ == old(zone)@.with_entity(self@),
            final(zone).wf(),
    {
        let ghost before = zone@;
        let components = self.components;
        let attachments = self.attachments;
        let entity = zone.add_entity(
            Entity {
                id: self.id,
                permeability: self.permeability,
                description: self.description,
                components: self.components,
                attachments: self.attachments,
                contents: self.contents,
                parent: None,
            },
        );
        proof {
            before.lemma_with_entity_wf(self@);
        }
        if let Some(components) = components {
            zone.bind_map(components, entity);
        }
        if let Some(attachments) = attachments {
            zone.bind_map(attachments, entity);
        }
        entity
    }

    pub fn id(self, id: u64) -> (builder: Self)
        ensures
            builder@ == (EntityView { id, ..self@ }),
    {
        let mut builder = self;
        builder.id = id;
        builder
    }

    pub fn permeability(self, permeability: Permeability) -> (builder: Self)
        ensures
            builder@ == (EntityView { permeability: Some(permeability), ..self@ }),
    {
        let mut builder = self;
        builder.permeability = Some(permeability);
        builder
    }

    pub fn description(self, description: EntityDescription) -> (builder: Self)
        ensures
            builder@ == (EntityView { description: Some(description@), ..self@ }),
    {
        let mut builder = self;
        builder.description = Some(description);
        builder
    }

    pub fn components(self, components: RelationMapRef) -> (builder: Self)
        ensures
            builder@ == (EntityView { components: Some(components), ..self@ }),
    {
        let mut builder = self;
        builder.components = Some(components);
        builder
    }

    pub fn attachments(self, attachments: RelationMapRef) -> (builder: Self)
        ensures
            builder@ == (EntityView { attachments: Some(attachments), ..self@ }),
    {
        let mut builder = self;
        builder.attachments = Some(attachments);
        builder
    }

    pub fn contents(self, contents: Vec<EntityRef>) -> (builder: Self)
        ensures
            builder@ == (EntityView { contents: Some(contents@), ..self@ }),
    {
        let mut builder = self;
        builder.contents = Some(contents);
        builder
    }

    /// Takes the next id of a zone for the entity.
    pub fn id_zone(self, zone: &mut Zone) -> (builder: Self)
        requires
            old(zone)@.next_id < u64::MAX,
        ensures
            builder@ == (EntityView { id: old(zone)@.next_id, ..self@ }),
            final(zone)@ == old(zone)@.after_id(),
    {
        let mut builder = self;
        builder.id = zone.generate_id();
        builder
    }

    /// Gives the entity a description with a name.
    pub fn description_name(self, name: &str) -> (builder: Self)
        ensures
            builder@ == (EntityView { description: Some(name@), ..self@ }),
    {
        let mut builder = self;
        builder.description = Some(EntityDescription { name: String::from_str(name) });
        builder
    }

    /// Gives the entity a permeability at its fullest.
    pub fn permeability_max(self, max_health: u16, max_resist: u16, max_ability: u16) -> (builder:
        Self)
        ensures
            builder@ == (EntityView {
                permeability: Some(full(max_health, max_resist, max_ability)),
                ..self@
            }),
    {
        let mut builder = self;
        builder.permeability = Some(
            Permeability {
                max_health,
                max_resist,
                max_ability,
                health: max_health,
                resist: max_resist,
                ability: max_ability,
            },
        );
        builder
    }
}

} // verus!
