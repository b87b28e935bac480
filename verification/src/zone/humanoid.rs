//! Humanoids: entities made of a head and a back, and the player built as one.

pub mod head;
pub mod legs;
pub mod torso;

use crate::zone::entity::{blank, full, EntityBuilder, EntityView};
use crate::zone::relation::{
    CompositionTemplateTrait, Relation, RelationHashMap, RelationMap, RelationMapTrait,
    RelationMapView, RelationTemplate, RelationTemplateView, RelationView,
};
use crate::zone::{EntityRef, RelationRef, Zone, ZoneView};
use vstd::prelude::*;

verus! {

/// The namespace of the humanoid's templates.
pub struct Humanoid {}

/// The parts of a humanoid that a relation can stand for.
#[derive(Debug, Clone, Copy, PartialEq, Eq, Structural)]
pub enum HumanoidPart {
    Head,
    Back,
}

impl HumanoidPart {
    /// The key under which the part is held.
    pub fn key(self) -> (key: isize)
        ensures
            key == match self {
                HumanoidPart::Head => 1isize,
                HumanoidPart::Back => 2isize,
            },
    {
        match self {
            HumanoidPart::Head => 1,
            HumanoidPart::Back => 2,
        }
    }
}

/// The parts that a humanoid is made of.
#[derive(Debug, Clone, Copy, PartialEq, Eq, Structural)]
pub enum Component {
    Head,
    Torso,
    Arms,
    Legs,
}

impl Component {
    /// The key under which the part is held.
    pub fn key(self) -> (key: isize)
        ensures
            key == match self {
                Component::Head => 1isize,
                Component::Torso => 2isize,
                Component::Arms => 3isize,
                Component::Legs => 4isize,
            },
    {
        match self {
            Component::Head => 1,
            Component::Torso => 2,
            Component::Arms => 3,
            Component::Legs => 4,
        }
    }
}

/// The templates of the relations that a humanoid is made of.
#[derive(Debug, Clone, Copy)]
pub struct Composition {
    pub head: RelationTemplate,
    pub torso: RelationTemplate,
}

/// The template of the head.
pub open spec fn head_template() -> RelationTemplateView {
    RelationTemplateView { key: 1, namepath: "humanoid//Component::Head"@, name: "head"@ }
}

/// The template of the torso.
pub open spec fn torso_template() -> RelationTemplateView {
    RelationTemplateView { key: 2, namepath: "humanoid//Component::Torso"@, name: "torso"@ }
}

impl Composition {
    /// The humanoid's templates: the head under key 1, the torso under key 2.
    pub fn standard() -> (composition: Self)
        ensures
            composition.head@ == head_template(),
            composition.torso@ == torso_template(),
    {
        Composition {
            head: RelationTemplate {
                key: Component::Head.key(),
                namepath: "humanoid//Component::Head",
                name: "head",
            },
            torso: RelationTemplate {
                key: Component::Torso.key(),
                namepath: "humanoid//Component::Torso",
                name: "torso",
            },
        }
    }
}

impl CompositionTemplateTrait for Composition {
    type Relationship = Component;

    fn namespace() -> (path: &'static str)
        ensures
            path@ == "humanoid//Component"@,
    {
        "humanoid//Component"
    }
}

/// An entity with an id and a name and nothing else.
pub open spec fn named(id: u64, name: Seq<char>) -> EntityView {
    EntityView { id, description: Some(name), ..blank() }
}

/// A relation under a key that holds an entity and was made without a
/// template.
pub open spec fn holding(key: isize, entity: int) -> RelationView {
    RelationView { key, parent: None, entity: Some(entity as usize), template: None }
}

/// A relation made from a template that holds an entity.
pub open spec fn holding_from(template: RelationTemplateView, entity: int) -> RelationView {
    RelationView {
        key: template.key,
        parent: None,
        entity: Some(entity as usize),
        template: Some(template),
    }
}

impl ZoneView {
    /// A new entity makes the zone one entity longer and leaves the number of
    /// relations and maps and the next id as they are.
    pub proof fn lemma_with_entity_sizes(self, entity: EntityView)
        requires
            self.admits_entity(entity),
        ensures
            self.with_entity(entity).entities.len() == self.entities.len() + 1,
            self.with_entity(entity).relations.len() == self.relations.len(),
            self.with_entity(entity).maps.len() == self.maps.len(),
            self.with_entity(entity).next_id == self.next_id,
    {
    }

    /// The zone with one more entity that has the next id and a name.
    pub open spec fn with_named(self, name: Seq<char>) -> ZoneView {
        self.after_id().with_entity(named(self.next_id, name))
    }

    /// The zone with a backpack that holds an apple. The backpack takes its id
    /// before the apple does; the apple is put into the zone first.
    pub open spec fn with_backpack(self) -> ZoneView {
        let packed = self.after_id().with_named("Apple"@);
        packed.with_entity(
            EntityView {
                contents: Some(seq![self.entities.len() as usize]),
                ..named(self.next_id, "Backpack"@)
            },
        )
    }

    /// The zone with the parts of a humanoid: a head; and a back with a
    /// backpack strapped to it, which holds an apple. The head and the back are
    /// each held by a relation made from the humanoid's templates, the backpack
    /// by a relation under key 2 in the map of the back's attachments.
    pub open spec fn with_humanoid_parts(self) -> ZoneView {
        let headed = self.with_named("Head"@).with_relation(
            holding_from(head_template(), self.entities.len() as int),
        );
        let packed = headed.after_id().with_backpack();
        let strapped = packed.with_relation(holding(2, (self.entities.len() + 2) as int)).with_map(
            RelationMapView::Hash {
                entity: None,
                map: seq![(2isize, (self.relations.len() + 1) as usize)],
            },
        );
        strapped.with_entity(
            EntityView {
                attachments: Some(self.maps.len() as usize),
                ..named(headed.next_id, "Back"@)
            },
        ).with_relation(holding_from(torso_template(), (self.entities.len() + 3) as int))
    }

    /// The zone with a player: an entity with the next id, at its fullest, made
    /// of the parts of a humanoid.
    pub open spec fn with_player(self) -> ZoneView {
        let parted = self.after_id().with_humanoid_parts();
        parted.with_map(
            RelationMapView::Humanoid {
                entity: None,
                head: self.relations.len() as usize,
                back: (self.relations.len() + 2) as usize,
            },
        ).with_entity(
            EntityView {
                permeability: Some(full(100, 100, 100)),
                components: Some((self.maps.len() + 1) as usize),
                ..named(self.next_id, "Player"@)
            },
        )
    }
}

/// The relation map of a humanoid: a head and a back.
#[derive(Debug)]
pub struct HumanoidComposition {
    entity: Option<EntityRef>,
    head: RelationRef,
    back: RelationRef,
}

impl View for HumanoidComposition {
    type V = RelationMapView;

    closed spec fn view(&self) -> RelationMapView {
        RelationMapView::Humanoid { entity: self.entity, head: self.head, back: self.back }
    }
}

impl RelationMapTrait for HumanoidComposition {
    open spec fn map_view(&self) -> RelationMapView {
        self@
    }

    fn iter(&self) -> (relations: Vec<RelationRef>) {
        let relations = vec![self.head, self.back];
        proof {
            assert(relations@ =~= self@.relations());
        }
        relations
    }

    fn bind(&mut self, entity: EntityRef) {
        self.entity = Some(entity);
    }

    fn entity(&self) -> (entity: EntityRef) {
        self.entity.unwrap()
    }

    fn relation(&self, key: isize) -> (relation: Result<&RelationRef, ()>) {
        match key {
            1 => Ok(&self.head),
            2 => Ok(&self.back),
            _ => Err(()),
        }
    }

    fn relation_ref(&self, key: isize) -> (relation: Result<RelationRef, ()>) {
        match key {
            1 => Ok(self.head),
            2 => Ok(self.back),
            _ => Err(()),
        }
    }
}

impl HumanoidComposition {
    /// Puts the parts of a humanoid into a zone and returns the map of the
    /// relations that hold the head and the back. The map is not yet bound to
    /// an entity, nor put into the zone.
    pub fn new(zone: &mut Zone) -> (composition: HumanoidComposition)
        requires
            old(zone).wf(),
            old(zone)@.next_id + 4 <= u64::MAX,
        ensures
            final(zone)@ == old(zone)@.with_humanoid_parts(),
            final(zone).wf(),
            composition@ == (RelationMapView::Humanoid {
                entity: None,
                head: old(zone)@.relations.len() as usize,
                back: (old(zone)@.relations.len() + 2) as usize,
            }),
            final(zone)@.admits_map(composition@),
            final(zone)@.entities.len() == old(zone)@.entities.len() + 4,
            final(zone)@.relations.len() == old(zone)@.relations.len() + 3,
            final(zone)@.maps.len() == old(zone)@.maps.len() + 1,
            final(zone)@.next_id == old(zone)@.next_id + 4,
    {
        let ghost start = zone@;
        let templates = Composition::standard();
        let head_entity = EntityBuilder::new().id_zone(zone).description_name("Head").create(zone);
        proof {
            start.after_id().lemma_with_entity_sizes(named(start.next_id, "Head"@));
            assert(zone@ == start.with_named("Head"@));
        }
        let head = Relation::new_from(zone, &templates.head, Some(head_entity));
        let ghost headed = zone@;
        proof {
            assert(headed == start.with_named("Head"@).with_relation(
                holding_from(head_template(), start.entities.len() as int),
            ));
        }
        let back_builder = EntityBuilder::new().id_zone(zone).description_name("Back");
        let backpack = Humanoid::new_backpack(zone);
        let ghost packed = zone@;
        proof {
            assert(packed == headed.after_id().with_backpack());
        }
        let strap = Relation::new(zone, HumanoidPart::Back.key(), Some(backpack));
        let pairs = vec![(HumanoidPart::Back.key(), strap)];
        proof {
            assert(pairs@ =~= seq![(2isize, strap)]);
        }
        let straps = RelationHashMap::new(pairs);
        proof {
            assert(straps@.relations() =~= seq![strap]);
        }
        let attachments = zone.add_map(RelationMap::Hash(straps));
        let ghost strapped = zone@;
        proof {
            assert(strapped == packed.with_relation(
                holding(2, (start.entities.len() + 2) as int),
            ).with_map(
                RelationMapView::Hash {
                    entity: None,
                    map: seq![(2isize, (start.relations.len() + 1) as usize)],
                },
            ));
        }
        let back_entity = back_builder.attachments(attachments).create(zone);
        proof {
            strapped.lemma_with_entity_sizes(
                EntityView {
                    attachments: Some(start.maps.len() as usize),
                    ..named(headed.next_id, "Back"@)
                },
            );
        }
        let back = Relation::new_from(zone, &templates.torso, Some(back_entity));
        let composition = HumanoidComposition { entity: None, head, back };
        proof {
            assert(composition@.relations() =~= seq![head, back]);
        }
        composition
    }

    /// The humanoid's map behind a relation map.
    pub fn from(map: &RelationMap) -> (composition: &Self)
        requires
            map is Humanoid,
        ensures
            composition@ == map@,
    {
        match map {
            RelationMap::Humanoid(composition) => composition,
            RelationMap::Hash(_) => vstd::pervasive::unreached(),
        }
    }

    /// The relation that holds the head.
    pub fn head(&self) -> (head: &RelationRef)
        ensures
            self@ matches RelationMapView::Humanoid { head: held, .. } && held == *head,
    {
        &self.head
    }

    /// The relation that holds the back.
    pub fn back(&self) -> (back: &RelationRef)
        ensures
            self@ matches RelationMapView::Humanoid { back: held, .. } && held == *back,
    {
        &self.back
    }
}

/// A player: the entity that a person plays.
#[derive(Debug)]
pub struct Player {
    entity: EntityRef,
}

impl Player {
    /// A player of an entity.
    pub fn new(entity: EntityRef) -> (player: Self)
        ensures
            player.handle() == entity,
    {
        Self { entity }
    }

    /// The player's entity.
    pub closed spec fn handle(&self) -> EntityRef {
        self.entity
    }

    /// The player's entity.
    pub fn entity(&self) -> (entity: EntityRef)
        ensures
            entity == self.handle(),
    {
        self.entity
    }
}

impl Humanoid {
    /// Puts a backpack that holds an apple into a zone.
    pub fn new_backpack(zone: &mut Zone) -> (backpack: EntityRef)
        requires
            old(zone).wf(),
            old(zone)@.next_id + 2 <= u64::MAX,
        ensures
            backpack == old(zone)@.entities.len() + 1,
            final(zone)@ == old(zone)@.with_backpack(),
            final(zone).wf(),
            final(zone)@.entities.len() == old(zone)@.entities.len() + 2,
            final(zone)@.relations == old(zone)@.relations,
            final(zone)@.maps == old(zone)@.maps,
            final(zone)@.next_id == old(zone)@.next_id + 2,
    {
        let builder = EntityBuilder::new().id_zone(zone).description_name("Backpack");
        let apple = Self::new_apple(zone);
        let contents = vec![apple];
        proof {
            assert(contents@ =~= seq![apple]);
        }
        builder.contents(contents).create(zone)
    }

    /// Puts an apple into a zone.
    pub fn new_apple(zone: &mut Zone) -> (apple: EntityRef)
        requires
            old(zone).wf(),
            old(zone)@.next_id < u64::MAX,
        ensures
            apple == old(zone)@.entities.len(),
            final(zone)@ == old(zone)@.with_named("Apple"@),
            final(zone).wf(),
            final(zone)@.entities.len() == old(zone)@.entities.len() + 1,
            final(zone)@.relations == old(zone)@.relations,
            final(zone)@.maps == old(zone)@.maps,
            final(zone)@.next_id == old(zone)@.next_id + 1,
    {
        EntityBuilder::new().id_zone(zone).description_name("Apple").create(zone)
    }

    /// Puts a flute into a zone.
    pub fn new_flute(zone: &mut Zone) -> (flute: EntityRef)
        requires
            old(zone).wf(),
            old(zone)@.next_id < u64::MAX,
        ensures
            flute == old(zone)@.entities.len(),
            final(zone)@ == old(zone)@.with_named("Flute"@),
            final(zone).wf(),
    {
        EntityBuilder::new().id_zone(zone).description_name("Flute").create(zone)
    }

    /// Puts a player into a zone: an entity at its fullest, made of the parts
    /// of a humanoid.
    pub fn new_player(zone: &mut Zone) -> (player: Player)
        requires
            old(zone).wf(),
            old(zone)@.next_id + 5 <= u64::MAX,
        ensures
            player.handle() == old(zone)@.entities.len() + 4,
            final(zone)@ == old(zone)@.with_player(),
            final(zone).wf(),
    {
        let builder = EntityBuilder::new().id_zone(zone).description_name("Player").permeability_max(
            100,
            100,
            100,
        );
        let composition = HumanoidComposition::new(zone);
        let components = zone.add_map(RelationMap::Humanoid(composition));
        Player::new(builder.components(components).create(zone))
    }
}

} // verus!
