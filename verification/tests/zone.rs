use acct201::zone::entity::{
    DescriptionTrait, EntityBuilder, EntityDescription, EntityTrait, Permeability,
    PermeabilityTrait,
};
use acct201::zone::humanoid::{
    head, legs, torso, Component, Composition, Humanoid, HumanoidComposition, HumanoidPart,
};
use acct201::zone::relation::{
    CompositionTemplateTrait, Relation, RelationHashMap, RelationMap, RelationMapTrait,
    RelationTrait,
};
use acct201::zone::Zone;

fn name_of(zone: &Zone, entity: usize) -> String {
    zone.entity(entity).description().unwrap().name().to_string()
}

#[test]
fn a_player_is_made_of_a_head_and_a_back() {
    let mut zone = Zone::new();
    let player = Humanoid::new_player(&mut zone);
    assert_eq!(5, zone.entity_count());
    assert_eq!(3, zone.relation_count());
    assert_eq!(2, zone.map_count());
    assert_eq!(6, zone.next_id());

    let entity = zone.entity(player.entity());
    assert_eq!(4, player.entity());
    assert_eq!(1, entity.id());
    assert_eq!("Player", name_of(&zone, player.entity()));
    let permeability = entity.permeability().unwrap();
    assert_eq!(
        (100, 100, 100, 100, 100, 100),
        (
            permeability.max_health(),
            permeability.health(),
            permeability.max_resist(),
            permeability.resist(),
            permeability.max_ability(),
            permeability.ability()
        )
    );
    assert!(entity.parent().is_none());
    assert!(entity.attachments().is_none());
    assert!(entity.contents().is_none());

    let head = entity.component_entity(&zone, HumanoidPart::Head.key()).unwrap();
    let back = entity.component_entity(&zone, HumanoidPart::Back.key()).unwrap();
    assert_eq!(Err(()), entity.component_entity(&zone, 3));
    assert_eq!(Err(()), entity.component(&zone, 0));
    assert_eq!(Err(()), entity.attachment(&zone, 1));
    assert_eq!(Err(()), entity.attachment_entity(&zone, 1));
    assert_eq!(("Head", 2), (name_of(&zone, head).as_str(), zone.entity(head).id()));
    assert_eq!(("Back", 3), (name_of(&zone, back).as_str(), zone.entity(back).id()));

    // every name that points upwards is true
    let components = *entity.components().unwrap();
    let map = zone.relation_map(components);
    assert_eq!(player.entity(), map.entity());
    assert!(matches!(map, RelationMap::Humanoid(_)));
    let composition = HumanoidComposition::from(map);
    assert_eq!(entity.component(&zone, 1), Ok(*composition.head()));
    assert_eq!(entity.component(&zone, 2), Ok(*composition.back()));
    assert_eq!(vec![*composition.head(), *composition.back()], map.iter());
    assert_eq!(Ok(composition.head()), map.relation(1));
    for key in [1, 2] {
        let relation = zone.relation(entity.component(&zone, key).unwrap());
        assert_eq!(key, relation.key());
        assert_eq!(components, relation.parent());
        let held = RelationTrait::entity(relation).unwrap();
        assert_eq!(entity.component(&zone, key).ok(), zone.entity(held).parent());
    }
    let head_relation = zone.relation(*composition.head());
    assert_eq!("head", head_relation.template().unwrap().name());
    assert_eq!("humanoid//Component::Head", head_relation.template().unwrap().namepath());
    assert_eq!(1, head_relation.template().unwrap().key());

    // the backpack is strapped to the back and holds an apple
    let strapped = zone.entity(back).attachment(&zone, torso::Attachment::StrapToBack.key());
    let backpack = zone.entity(back).attachment_entity(&zone, 2).unwrap();
    assert_eq!(("Backpack", 4), (name_of(&zone, backpack).as_str(), zone.entity(backpack).id()));
    assert_eq!(strapped.ok(), zone.entity(backpack).parent());
    assert!(zone.relation(strapped.unwrap()).template().is_none());
    assert_eq!(*zone.entity(back).attachments().unwrap(), zone.relation(strapped.unwrap()).parent());
    assert_eq!(back, zone.relation_map(*zone.entity(back).attachments().unwrap()).entity());
    let contents = zone.entity(backpack).contents().unwrap();
    assert_eq!(1, contents.len());
    assert_eq!(("Apple", 5), (name_of(&zone, contents[0]).as_str(), zone.entity(contents[0]).id()));
    assert!(zone.entity(contents[0]).parent().is_none());
}

#[test]
fn entities_are_built_part_by_part() {
    let mut zone = Zone::new();
    assert_eq!(1, zone.generate_id());
    let flute = Humanoid::new_flute(&mut zone);
    assert_eq!((0, 2), (flute, zone.entity(flute).id()));
    assert_eq!("Flute", name_of(&zone, flute));
    let apple = Humanoid::new_apple(&mut zone);
    assert_eq!((1, 3), (apple, zone.entity(apple).id()));

    let first = Relation::new(&mut zone, 7, Some(flute));
    let second = Relation::new(&mut zone, 7, Some(apple));
    let empty = Relation::new(&mut zone, 9, None);
    assert_eq!(Some(first), zone.entity(flute).parent());
    let map = zone.add_map(RelationMap::Hash(RelationHashMap::new(vec![
        (7, first),
        (7, second),
        (9, empty),
    ])));
    let case = EntityBuilder::new()
        .id(40)
        .description(EntityDescription::new(String::from("Case")))
        .permeability(Permeability {
            max_health: 9,
            health: 4,
            max_resist: 8,
            resist: 3,
            ability: 2,
            max_ability: 7,
        })
        .attachments(map)
        .contents(vec![flute, apple])
        .create(&mut zone);
    let entity = zone.entity(case);
    assert_eq!(40, entity.id());
    assert_eq!(Some(&vec![flute, apple]), entity.contents());
    // of two relations under one key the first is found
    assert_eq!(Ok(first), entity.attachment(&zone, 7));
    assert_eq!(Ok(flute), entity.attachment_entity(&zone, 7));
    assert_eq!(Ok(empty), entity.attachment(&zone, 9));
    assert_eq!(Err(()), entity.attachment_entity(&zone, 9));
    assert_eq!(Err(()), entity.attachment(&zone, 8));
    assert_eq!(vec![first, second, empty], zone.relation_map(map).iter());
    for relation in [first, second, empty] {
        assert_eq!(map, zone.relation(relation).parent());
    }
    assert_eq!(case, zone.relation_map(map).entity());

    let entity = zone.entity_mut(case);
    entity.permeability_mut().unwrap().set_health(1);
    entity.description_mut().unwrap().rename(String::from("Crate"));
    entity.contents_mut().unwrap().pop();
    let entity = zone.entity(case);
    assert_eq!(1, entity.permeability().unwrap().health());
    assert_eq!(9, entity.permeability().unwrap().max_health());
    assert_eq!("Crate", name_of(&zone, case));
    assert_eq!(Some(&vec![flute]), entity.contents());

    let bare = EntityBuilder::new().create(&mut zone);
    assert_eq!(0, zone.entity(bare).id());
    assert!(zone.entity(bare).description().is_none());
    assert!(zone.entity(bare).permeability().is_none());
    assert!(zone.entity(bare).contents().is_none());
    let full = EntityBuilder::new().permeability_max(5, 6, 7).create(&mut zone);
    let permeability = zone.entity(full).permeability().unwrap();
    assert_eq!((5, 6, 7), (permeability.health(), permeability.resist(), permeability.ability()));
}

#[test]
fn humanoid_parts_take_four_ids() {
    let mut zone = Zone::new();
    let composition = HumanoidComposition::new(&mut zone);
    assert_eq!((4, 3, 1, 5), (zone.entity_count(), zone.relation_count(), zone.map_count(), zone.next_id()));
    assert_eq!((0, 2), (*composition.head(), *composition.back()));
    assert_eq!(Ok(0), composition.relation_ref(1));
    assert_eq!(Ok(2), composition.relation_ref(2));
    assert_eq!(Err(()), composition.relation_ref(3));
    let names: Vec<String> = (0..4).map(|entity| name_of(&zone, entity)).collect();
    assert_eq!(vec!["Head", "Apple", "Backpack", "Back"], names);
    let ids: Vec<u64> = (0..4).map(|entity| zone.entity(entity).id()).collect();
    assert_eq!(vec![1, 4, 3, 2], ids);
    let backpack = Humanoid::new_backpack(&mut zone);
    assert_eq!((5, 5), (backpack, zone.entity(backpack).id()));
    assert_eq!(6, zone.entity(4).id());
}

#[test]
fn keys_are_fixed() {
    assert_eq!((1, 2), (HumanoidPart::Head.key(), HumanoidPart::Back.key()));
    assert_eq!(
        (1, 2, 3, 4),
        (Component::Head.key(), Component::Torso.key(), Component::Arms.key(), Component::Legs.key())
    );
    assert_eq!(1, head::Attachment::WearOn.key());
    assert_eq!((1, 2), (torso::Component::Upper.key(), torso::Component::Waist.key()));
    assert_eq!(2, torso::Attachment::StrapToBack.key());
    assert_eq!(1, torso::upper::Attachment::WearOn.key());
    assert_eq!((1, 2), (legs::Component::Left.key(), legs::Component::Right.key()));
    assert_eq!(1, legs::Attachment::WearOn.key());
    assert_eq!((1, 2), (legs::leg::Component::Shin.key(), legs::leg::Component::Foot.key()));
    let templates = Composition::standard();
    assert_eq!((1, "head"), (templates.head.key, templates.head.name));
    assert_eq!((2, "torso", "humanoid//Component::Torso"), (templates.torso.key, templates.torso.name, templates.torso.namepath));
    assert_eq!("humanoid//Component", Composition::namespace());
}
