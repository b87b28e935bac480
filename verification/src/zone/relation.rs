//! Relations: the named places at which one entity holds another.
//!
//! A relation map holds relations under keys. A relation holds at most one
//! entity, and knows the map that it belongs to once the map is bound to an
//! entity. All of them live in a zone and name each other by handle.

use crate::search::{first_position, lemma_first_position_is, lemma_first_position_none};
use crate::zone::humanoid::HumanoidComposition;
use crate::zone::{EntityRef, RelationMapRef, RelationRef};
use vstd::prelude::*;

verus! {

/// A relation's name and key, fixed in code.
#[derive(Debug, Clone, Copy)]
pub struct RelationTemplate {
    pub key: isize,
    pub namepath: &'static str,
    pub name: &'static str,
}

/// A template as a mathematical value.
pub struct RelationTemplateView {
    pub key: isize,
    pub namepath: Seq<char>,
    pub name: Seq<char>,
}

impl View for RelationTemplate {
    type V = RelationTemplateView;

    open spec fn view(&self) -> RelationTemplateView {
        RelationTemplateView { key: self.key, namepath: self.namepath@, name: self.name@ }
    }
}

impl RelationTemplate {
    /// The key under which a relation made from this template is held.
    pub fn key(&self) -> (key: isize)
        ensures
            key == self.key,
    {
        self.key
    }

    /// The full path of the relation's name.
    pub fn namepath(&self) -> (namepath: &'static str)
        ensures
            namepath == self.namepath,
    {
        self.namepath
    }

    /// The relation's short name.
    pub fn name(&self) -> (name: &'static str)
        ensures
            name == self.name,
    {
        self.name
    }
}

/// Ties a set of templates to the kind of relation that they describe.
pub trait CompositionTemplateTrait {
    /// The kind of relation.
    type Relationship;

    /// The path under which the templates' names stand.
    fn namespace() -> &'static str;
}

/// A relation as a mathematical value.
pub struct RelationView {
    pub key: isize,
    pub parent: Option<RelationMapRef>,
    pub entity: Option<EntityRef>,
    pub template: Option<RelationTemplateView>,
}

/// A place at which an entity is held.
#[derive(Debug)]
pub struct Relation {
    key: isize,
    parent: Option<RelationMapRef>,
    entity: Option<EntityRef>,
    template: Option<RelationTemplate>,
}

impl View for Relation {
    type V = RelationView;

    closed spec fn view(&self) -> RelationView {
        RelationView {
            key: self.key,
            parent: self.parent,
            entity: self.entity,
            template: match self.template {
                Some(template) => Some(template@),
                None => None,
            },
        }
    }
}

/// What a relation can tell of itself.
pub trait RelationTrait {
    /// The relation as a mathematical value.
    spec fn relation_view(&self) -> RelationView;

    /// The map that the relation belongs to. Only a bound relation has one.
    fn parent(&self) -> (parent: RelationMapRef)
        requires
            self.relation_view().parent.is_some(),
        ensures
            Some(parent) == self.relation_view().parent,
    ;

    /// The entity that the relation holds.
    fn entity(&self) -> (entity: Option<EntityRef>)
        ensures
            entity == self.relation_view().entity,
    ;

    /// Binds the relation to the map that it belongs to.
    fn bind(&mut self, parent: RelationMapRef)
        ensures
            final(self).relation_view() == (RelationView {
                parent: Some(parent),
                ..old(self).relation_view()
            }),
    ;
}

impl RelationTrait for Relation {
    open spec fn relation_view(&self) -> RelationView {
        self@
    }

    fn parent(&self) -> (parent: RelationMapRef) {
        self.parent.unwrap()
    }

    fn entity(&self) -> (entity: Option<EntityRef>) {
        self.entity
    }

    fn bind(&mut self, parent: RelationMapRef) {
        self.parent = Some(parent);
    }
}

impl Relation {
    /// A relation under a key that holds an entity or nothing, not yet bound to
    /// a map.
    pub fn unbound(key: isize, entity: Option<EntityRef>, template: Option<RelationTemplate>) -> (relation:
        Self)
        ensures
            relation@ == (RelationView {
                key,
                parent: None,
                entity,
                template: match template {
                    Some(template) => Some(template@),
                    None => None,
                },
            }),
    {
        Self { key, parent: None, entity, template }
    }

    /// The key under which the relation is held.
    pub fn key(&self) -> (key: isize)
        ensures
            key == self@.key,
    {
        self.key
    }

    /// The entity that the relation holds.
    pub fn entity(&self) -> (entity: Option<EntityRef>)
        ensures
            entity == self@.entity,
    {
        self.entity
    }

    /// The template that the relation was made from.
    pub fn template(&self) -> (template: Option<RelationTemplate>)
        ensures
            match template {
                Some(template) => self@.template == Some(template@),
                None => self@.template.is_none(),
            },
    {
        self.template
    }
}

/// The condition that a keyed relation stands under a given key.
pub open spec fn under_key(key: isize) -> spec_fn((isize, RelationRef)) -> bool {
    |entry: (isize, RelationRef)| entry.0 == key
}

/// Where the first relation under a key stands in a run of keyed relations.
pub open spec fn keyed_position(map: Seq<(isize, RelationRef)>, key: isize) -> Option<int> {
    first_position(map, under_key(key))
}

/// A relation map as a mathematical value.
pub enum RelationMapView {
    /// Relations under any keys, in the order in which they were given.
    Hash { entity: Option<EntityRef>, map: Seq<(isize, RelationRef)> },
    /// The two relations of a humanoid: the head under key 1, the back under
    /// key 2.
    Humanoid { entity: Option<EntityRef>, head: RelationRef, back: RelationRef },
}

impl RelationMapView {
    /// The entity that the map is bound to.
    pub open spec fn entity(self) -> Option<EntityRef> {
        match self {
            RelationMapView::Hash { entity, .. } => entity,
            RelationMapView::Humanoid { entity, .. } => entity,
        }
    }

    /// The map bound to an entity.
    pub open spec fn bound_to(self, bound: EntityRef) -> RelationMapView {
        match self {
            RelationMapView::Hash { entity, map } => RelationMapView::Hash {
                entity: Some(bound),
                map,
            },
            RelationMapView::Humanoid { entity, head, back } => RelationMapView::Humanoid {
                entity: Some(bound),
                head,
                back,
            },
        }
    }

    /// The relation under a key: the first one that was given under it.
    pub open spec fn relation(self, key: isize) -> Option<RelationRef> {
        match self {
            RelationMapView::Hash { map, .. } => match keyed_position(map, key) {
                Some(position) => Some(map[position].1),
                None => None,
            },
            RelationMapView::Humanoid { head, back, .. } => if key == 1 {
                Some(head)
            } else if key == 2 {
                Some(back)
            } else {
                None
            },
        }
    }

    /// Whether the map lists a relation.
    pub open spec fn lists(self, relation: int) -> bool {
        crate::zone::listed(self.relations(), relation)
    }

    /// All relations of the map, in their order.
    pub open spec fn relations(self) -> Seq<RelationRef> {
        match self {
            RelationMapView::Hash { map, .. } => map.map_values(
                |entry: (isize, RelationRef)| entry.1,
            ),
            RelationMapView::Humanoid { head, back, .. } => seq![head, back],
        }
    }
}

/// What a relation map can do.
pub trait RelationMapTrait {
    /// The map as a mathematical value.
    spec fn map_view(&self) -> RelationMapView;

    /// Binds the map to the entity that it belongs to.
    fn bind(&mut self, entity: EntityRef)
        ensures
            final(self).map_view() == old(self).map_view().bound_to(entity),
    ;

    /// The entity that the map belongs to. Only a bound map has one.
    fn entity(&self) -> (entity: EntityRef)
        requires
            self.map_view().entity().is_some(),
        ensures
            Some(entity) == self.map_view().entity(),
    ;

    /// The relation under a key.
    fn relation(&self, key: isize) -> (relation: Result<&RelationRef, ()>)
        ensures
            match relation {
                Ok(relation) => self.map_view().relation(key) == Some(*relation),
                Err(_) => self.map_view().relation(key).is_none(),
            },
    ;

    /// The handle of the relation under a key.
    fn relation_ref(&self, key: isize) -> (relation: Result<RelationRef, ()>)
        ensures
            match relation {
                Ok(relation) => self.map_view().relation(key) == Some(relation),
                Err(_) => self.map_view().relation(key).is_none(),
            },
    ;

    /// All relations of the map.
    fn iter(&self) -> (relations: Vec<RelationRef>)
        ensures
            relations@ == self.map_view().relations(),
    ;
}

/// Relations under any keys.
#[derive(Debug)]
pub struct RelationHashMap {
    entity: Option<EntityRef>,
    map: Vec<(isize, RelationRef)>,
}

impl View for RelationHashMap {
    type V = RelationMapView;

    closed spec fn view(&self) -> RelationMapView {
        RelationMapView::Hash { entity: self.entity, map: self.map@ }
    }
}

impl RelationHashMap {
    /// A map of the given relations, each under its key, not yet bound to an
    /// entity. Of two relations under one key the first is the one found.
    pub fn new(map: Vec<(isize, RelationRef)>) -> (relations: Self)
        ensures
            relations@ == (RelationMapView::Hash { entity: None, map: map@ }),
    {
        Self { entity: None, map }
    }

    fn position(&self, key: isize) -> (position: Option<usize>)
        ensures
            match position {
                Some(found) => keyed_position(self.map@, key) == Some(found as int) && found
                    < self.map@.len(),
                None => keyed_position(self.map@, key).is_none(),
            },
    {
        let mut i: usize = 0;
        while i < self.map.len()
            invariant
                i <= self.map.len(),
                forall|j: int| 0 <= j < i ==> (#[trigger] self.map@[j]).0 != key,
            decreases self.map.len() - i,
        {
            if self.map[i].0 == key {
                proof {
                    lemma_first_position_is(self.map@, under_key(key), i as int);
                }
                return Some(i);
            }
            i = i + 1;
        }
        proof {
            lemma_first_position_none(self.map@, under_key(key));
        }
        None
    }
}

impl RelationMapTrait for RelationHashMap {
    open spec fn map_view(&self) -> RelationMapView {
        self@
    }

    fn bind(&mut self, entity: EntityRef) {
        self.entity = Some(entity);
    }

    fn entity(&self) -> (entity: EntityRef) {
        self.entity.unwrap()
    }

    fn relation(&self, key: isize) -> (relation: Result<&RelationRef, ()>) {
        match self.position(key) {
            Some(position) => Ok(&self.map[position].1),
            None => Err(()),
        }
    }

    fn relation_ref(&self, key: isize) -> (relation: Result<RelationRef, ()>) {
        match self.position(key) {
            Some(position) => Ok(self.map[position].1),
            None => Err(()),
        }
    }

    fn iter(&self) -> (relations: Vec<RelationRef>) {
        let mut relations: Vec<RelationRef> = Vec::new();
        let mut i: usize = 0;
        while i < self.map.len()
            invariant
                i <= self.map.len(),
                relations@ == self@.relations().take(i as int),
            decreases self.map.len() - i,
        {
            relations.push(self.map[i].1);
            proof {
                assert(self@.relations().take(i + 1) =~= self@.relations().take(i as int).push(
                    self.map@[i as int].1,
                ));
            }
            i = i + 1;
        }
        proof {
            assert(self@.relations().take(i as int) =~= self@.relations());
        }
        relations
    }
}

/// A relation map of either kind.
#[derive(Debug)]
pub enum RelationMap {
    Hash(RelationHashMap),
    Humanoid(HumanoidComposition),
}

impl View for RelationMap {
    type V = RelationMapView;

    open spec fn view(&self) -> RelationMapView {
        match self {
            RelationMap::Hash(map) => map@,
            RelationMap::Humanoid(map) => map@,
        }
    }
}

impl RelationMapTrait for RelationMap {
    open spec fn map_view(&self) -> RelationMapView {
        self@
    }

    fn bind(&mut self, entity: EntityRef) {
        match self {
            RelationMap::Hash(map) => map.bind(entity),
            RelationMap::Humanoid(map) => map.bind(entity),
        }
    }

    fn entity(&self) -> (entity: EntityRef) {
        match self {
            RelationMap::Hash(map) => map.entity(),
            RelationMap::Humanoid(map) => map.entity(),
        }
    }

    fn relation(&self, key: isize) -> (relation: Result<&RelationRef, ()>) {
        match self {
            RelationMap::Hash(map) => map.relation(key),
            RelationMap::Humanoid(map) => map.relation(key),
        }
    }

    fn relation_ref(&self, key: isize) -> (relation: Result<RelationRef, ()>) {
        match self {
            RelationMap::Hash(map) => map.relation_ref(key),
            RelationMap::Humanoid(map) => map.relation_ref(key),
        }
    }

    fn iter(&self) -> (relations: Vec<RelationRef>) {
        match self {
            RelationMap::Hash(map) => map.iter(),
            RelationMap::Humanoid(map) => map.iter(),
        }
    }
}

} // verus!
