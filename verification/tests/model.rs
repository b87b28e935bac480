use acct201::model::{
    Area, AreaBuilder, Builder, BuilderMode, Character, Descriptive, DescriptiveMut, Descriptor,
    DescriptorBuilder, DescriptorField, Direction, Endpoint, Entity, EntityBuilder, Error,
    FieldValueType, Ident, IdentMut, Identity, IdentityBuilder, IdentityField, Item, Junction,
    JunctionField, Something, Thing, ThingBuilder, Thingy, World, WorldBuilder, WorldField,
};

fn described(key: &str, name: &str, description: &str) -> DescriptorBuilder {
    let mut descriptor = Descriptor::creator();
    descriptor.key(String::from(key)).unwrap();
    descriptor.name(String::from(name)).unwrap();
    descriptor.description(String::from(description)).unwrap();
    descriptor
}

fn create_world() -> World {
    let mut world_creator = World::creator();

    world_creator.identity_builder().guid(0, 0, 1, 1).unwrap();

    world_creator
        .descriptor({
            let mut descriptor = Descriptor::creator();
            descriptor.key(String::from("world_01")).unwrap();
            descriptor.name(String::from("The World")).unwrap();
            descriptor.description(String::from("A miniature world")).unwrap();
            descriptor
        })
        .unwrap();

    world_creator
        .add_area({
            let mut area_creator = Area::creator();
            area_creator
                .descriptor({
                    let mut descriptor = Descriptor::creator();
                    descriptor.key(String::from("litter_box")).unwrap();
                    descriptor.name(String::from("Litter Box")).unwrap();
                    descriptor.description(String::from("A smelly litterbox")).unwrap();
                    descriptor
                })
                .unwrap();
            area_creator
        })
        .unwrap();

    world_creator.create().unwrap()
}

#[test]
fn test_manual_building() {
    let mut world = create_world();
    println!("{:?}", &world);

    let litterbox_id = world.find_area("litter_box").unwrap().id();

    let mut cat = Character::creator();
    cat.entity({
        let mut entity = Entity::creator();
        entity
            .descriptor({
                let mut descriptor = Descriptor::creator();
                descriptor.key(String::from("gray_cat")).unwrap();
                descriptor.name(String::from("Cat")).unwrap();
                descriptor.description(String::from("A gray cat")).unwrap();
                descriptor
            })
            .unwrap();
        entity
    })
    .unwrap();

    let cat_id = world.spawn_thing(cat, litterbox_id).unwrap();
    let cat = world.thing(cat_id).unwrap();

    assert_eq!("Cat", cat.name());

    let result = world.find_things("Cat");
    let cat = result.first().unwrap();

    assert_eq!("A gray cat", cat.description().unwrap());

    // test simple mutation

    let cat = world.find_thing_mut("gray_cat").unwrap();

    let mut cat_descriptor_editor = Descriptor::editor();
    cat_descriptor_editor.description(String::from("A slightly gray cat")).unwrap();
    cat_descriptor_editor.modify(cat.descriptor_mut()).unwrap();

    let cat_editor = Entity::editor();
    cat_editor.modify(cat.entity_mut()).unwrap();

    let cat = world.find_thing("gray_cat").unwrap();
    assert_eq!("A slightly gray cat", cat.description().unwrap());
}

#[test]
fn world_gives_out_ids_in_order() {
    let mut creator = World::creator();
    assert_eq!(BuilderMode::Creator, creator.builder_mode());
    creator.identity_builder().guid(7, 3, 2, 1).unwrap();
    creator.descriptor(described("w", "World", "A world")).unwrap();
    let mut first = Area::creator();
    first.descriptor(described("a", "Hall", "The first hall")).unwrap();
    let mut second = AreaBuilder::new();
    second.descriptor(described("b", "Hall", "The second hall")).unwrap();
    assert_eq!(1, creator.add_area(first).unwrap());
    assert_eq!(2, creator.add_area(second).unwrap());
    let mut world = creator.create().unwrap();

    assert_eq!(7, Ident::id(&world));
    assert_eq!(3, world.region_id());
    assert_eq!(2, world.world_id());
    assert_eq!(1, world.universe_id());
    assert_eq!("World", world.name());

    let hall = world.area(2).unwrap();
    assert_eq!(Some(&String::from("b")), Descriptive::key(hall));
    assert_eq!((2, 3, 2, 1), (hall.id(), hall.region_id(), hall.world_id(), hall.universe_id()));
    assert!(world.area(3).is_none());
    assert!(hall.thing_ids().is_empty() && hall.routes().is_empty());
    let halls = world.find_areas("Hall");
    assert_eq!(vec![1, 2], halls.iter().map(|area| area.id()).collect::<Vec<_>>());
    assert!(world.find_areas("Cellar").is_empty());
    assert!(world.find_area("c").is_none());
    assert_eq!(1, world.find_area("a").unwrap().id());

    // the world starts one id past its builder's next
    let mut cat = Character::creator();
    cat.entity_builder().descriptor(described("cat", "Cat", "A cat")).unwrap();
    assert_eq!(4, world.spawn_thing(cat, 1).unwrap());
    let mut dog = Character::builder();
    dog.entity_builder().descriptor_builder().name(String::from("Dog")).unwrap();
    assert_eq!(5, world.spawn_thing(dog, 2).unwrap());

    let dog = world.thing(5).unwrap();
    assert_eq!("Dog", dog.name());
    assert!(dog.key().is_none());
    assert!(dog.description().is_none());
    assert_eq!((5, 3, 2, 1), (dog.id(), dog.region_id(), dog.world_id(), dog.universe_id()));
    assert!(matches!(dog, Thing::Character(_)));
    assert!(world.thing(6).is_none());
    assert!(world.thing_mut(6).is_none());
    assert!(world.find_thing("dog").is_none());
    assert!(world.find_thing_mut("dog").is_none());
    assert_eq!(4, world.find_thing("cat").unwrap().id());
    assert_eq!(1, world.find_things("Cat").len());
    assert!(world.find_things("Bird").is_empty());

    let mut rename = Descriptor::editor();
    rename.name(String::from("Hound")).unwrap();
    let changed = rename.modify(world.thing_mut(5).unwrap().descriptor_mut()).unwrap();
    assert_eq!(1, changed.fields_changed().len());
    assert_eq!("name", changed.fields_changed()[0].name);
    assert_eq!("Hound", world.thing(5).unwrap().name());
}

#[test]
fn a_thing_that_cannot_be_made_spends_no_id() {
    let mut world = create_world();
    let nameless = Character::creator();
    match world.spawn_thing(nameless, 1) {
        Err(Error::FieldNotSet { class, field }) => assert_eq!(("Entity", "descriptor"), (class, field)),
        other => panic!("unexpected: {:?}", other),
    }
    let mut cat = Character::creator();
    cat.entity_builder().descriptor(described("cat", "Cat", "A cat")).unwrap();
    assert_eq!(3, world.spawn_thing(cat, 1).unwrap());
}

#[test]
fn areas_need_the_world_to_know_itself() {
    let mut creator = WorldBuilder::creator();
    let area = Area::creator();
    match creator.add_area(area) {
        Err(Error::FieldNotSetFirst { class, field, required_field }) => {
            assert_eq!(("World", "areas", "identity"), (class, field, required_field))
        }
        other => panic!("unexpected: {:?}", other),
    }
    creator.identity_builder().id(9).unwrap();
    assert!(creator.add_area(Area::creator()).is_err());
    assert!(creator.get_identity().is_some());
    creator.identity_builder().guid(9, 1, 1, 1).unwrap();
    // no id was spent on the areas that were refused
    assert_eq!(1, creator.add_area(Area::creator()).unwrap());
}

#[test]
fn builders_report_the_first_missing_field() {
    match World::creator().create() {
        Err(Error::FieldNotSet { class, field }) => assert_eq!(("World", "identity"), (class, field)),
        other => panic!("unexpected: {:?}", other),
    }
    let mut creator = World::creator();
    creator.identity_builder().guid(1, 1, 1, 1).unwrap();
    match creator.create() {
        Err(Error::FieldNotSet { class, field }) => assert_eq!(("World", "descriptor"), (class, field)),
        other => panic!("unexpected: {:?}", other),
    }
    let mut creator = World::creator();
    creator.identity_builder().guid(1, 1, 1, 1).unwrap();
    creator.descriptor(described("w", "World", "A world")).unwrap();
    creator.add_area(Area::creator()).unwrap();
    match creator.create() {
        Err(Error::FieldNotSet { class, field }) => assert_eq!(("Area", "descriptor"), (class, field)),
        other => panic!("unexpected: {:?}", other),
    }

    let mut identity = Identity::creator();
    match Identity::builder().create() {
        Err(Error::FieldNotSet { class, field }) => assert_eq!(("Identity", "id"), (class, field)),
        other => panic!("unexpected: {:?}", other),
    }
    identity.id(4).unwrap();
    assert_eq!(Some(4), identity.get_id());
    match identity.create() {
        Err(Error::FieldNotSet { class, field }) => assert_eq!(("Identity", "region_id"), (class, field)),
        other => panic!("unexpected: {:?}", other),
    }
    match Descriptor::builder().create() {
        Err(Error::FieldNotSet { class, field }) => assert_eq!(("Descriptor", "name"), (class, field)),
        other => panic!("unexpected: {:?}", other),
    }
    match Entity::builder().create() {
        Err(Error::FieldNotSet { class, field }) => assert_eq!(("Entity", "identity"), (class, field)),
        other => panic!("unexpected: {:?}", other),
    }
    match Entity::builder().id(3).create() {
        Err(Error::FieldNotSet { class, field }) => assert_eq!(("Identity", "region_id"), (class, field)),
        other => panic!("unexpected: {:?}", other),
    }
    match Character::builder().create() {
        Err(Error::FieldNotSet { class, field }) => assert_eq!(("Entity", "entity"), (class, field)),
        other => panic!("unexpected: {:?}", other),
    }
    match Character::editor().build_thing() {
        Err(Error::FieldNotSet { class, field }) => assert_eq!(("Entity", "entity"), (class, field)),
        other => panic!("unexpected: {:?}", other),
    }
    match Area::builder().id(3).create() {
        Err(Error::FieldNotSet { class, field }) => assert_eq!(("Identity", "region_id"), (class, field)),
        other => panic!("unexpected: {:?}", other),
    }
    match AreaBuilder::editor().create() {
        Err(Error::FieldNotSet { class, field }) => assert_eq!(("Area", "identity"), (class, field)),
        other => panic!("unexpected: {:?}", other),
    }
}

fn identity(id: u64) -> Identity {
    let mut builder = IdentityBuilder::creator();
    builder.guid(id, 2, 3, 4).unwrap();
    builder.create().unwrap()
}

#[test]
fn identities_are_made_and_changed() {
    let mut made = identity(1);
    assert_eq!((1, 2, 3, 4), (made.id(), made.region_id(), made.world_id(), made.universe_id()));
    let mut editor = Identity::editor();
    assert_eq!(BuilderMode::Editor, editor.builder_mode());
    editor.guid(5, 6, 7, 8).unwrap();
    assert_eq!(
        (Some(6), Some(7), Some(8)),
        (editor.get_region_id(), editor.get_world_id(), editor.get_universe_id())
    );
    let changed = editor.modify(&mut made).unwrap();
    let names: Vec<&str> = changed.fields_changed().iter().map(|field| field.name).collect();
    assert_eq!(vec!["id", "region_id", "world_id", "universe_id"], names);
    assert_eq!((5, 6, 7, 8), (made.id(), made.region_id(), made.world_id(), made.universe_id()));
    let mut editor = Identity::editor();
    editor.id(9).unwrap();
    let changed = editor.modify(made.identity_mut()).unwrap();
    assert_eq!(1, changed.fields_changed().len());
    assert_eq!((9, 6, 7, 8), (made.id(), made.region_id(), made.world_id(), made.universe_id()));
    assert_eq!(made.identity(), &made);
}

#[test]
fn descriptors_are_made_and_changed() {
    let mut builder = Descriptor::builder();
    builder.set("name", String::from("Lamp")).unwrap();
    assert_eq!(Err(()), builder.set("key", String::from("lamp")));
    assert_eq!(Err(()), builder.set("", String::from("lamp")));
    let mut lamp = builder.create().unwrap();
    assert_eq!("Lamp", lamp.name());
    assert!(lamp.keywords().is_empty());
    assert_eq!(None, lamp.key());
    assert_eq!(None, lamp.short_description());
    assert_eq!(None, lamp.description());

    let mut editor = Descriptor::editor();
    editor.set("description", String::from("A brass lamp")).unwrap();
    editor.key(String::from("ignored")).unwrap();
    let changed = editor.modify(lamp.descriptor_mut()).unwrap();
    let names: Vec<&str> = changed.fields_changed().iter().map(|field| field.name).collect();
    assert_eq!(vec!["description"], names);
    assert_eq!("Lamp", lamp.name());
    assert_eq!("A brass lamp", lamp.description().unwrap());
    // only the name and the description are written
    assert_eq!(None, lamp.key());

    let changed = Descriptor::editor().modify(&mut lamp).unwrap();
    assert!(changed.fields_changed().is_empty());
    assert_eq!("A brass lamp", lamp.descriptor().description().unwrap());
}

#[test]
fn fields_are_described() {
    let expected = [
        (DescriptorField::name.field(), "name", FieldValueType::String),
        (DescriptorField::keywords.field(), "keywords", FieldValueType::StringArray),
        (DescriptorField::key.field(), "key", FieldValueType::String),
        (DescriptorField::short_description.field(), "short_description", FieldValueType::String),
        (DescriptorField::description.field(), "description", FieldValueType::String),
        (IdentityField::ID.field(), "id", FieldValueType::String),
        (IdentityField::RegionID.field(), "region_id", FieldValueType::StringArray),
        (IdentityField::WorldID.field(), "world_id", FieldValueType::String),
        (IdentityField::UniverseID.field(), "universe_id", FieldValueType::String),
        (WorldField::Identity.field(), "identity", FieldValueType::Object),
        (WorldField::Descriptor.field(), "descriptor", FieldValueType::Object),
        (WorldField::Areas.field(), "areas", FieldValueType::ObjectArray),
        (WorldField::Things.field(), "things", FieldValueType::ObjectArray),
        (JunctionField::Entrances.field(), "entrances", FieldValueType::Object),
        (JunctionField::Exit.field(), "exit", FieldValueType::Object),
    ];
    for (field, name, value_type) in expected {
        assert_eq!(name, field.name);
        assert_eq!(value_type, field.value_type);
    }
}

#[test]
fn things_give_access_to_their_entity() {
    let mut builder = EntityBuilder::creator();
    builder.identity_builder().guid(11, 1, 1, 1).unwrap();
    builder.descriptor(described("rock", "Rock", "A rock")).unwrap();
    assert!(builder.get_identity().is_some());
    let entity = builder.create().unwrap();
    assert_eq!(11, entity.id());
    let mut rock = Thing::Item(Item::new(entity));
    assert_eq!(11, rock.id());
    assert_eq!("Rock", rock.name());
    assert_eq!("Rock", rock.entity().name());
    assert_eq!(11, rock.identity().id());
    let mut editor = Identity::editor();
    editor.id(12).unwrap();
    editor.modify(rock.identity_mut()).unwrap();
    assert_eq!(12, rock.id());
    let mut editor = Thing::editor();
    editor.descriptor_builder().name(String::from("Stone")).unwrap();
    // an entity builder writes nothing of its own
    assert!(editor.modify(rock.entity_mut()).unwrap().fields_changed().is_empty());
    assert_eq!("Rock", rock.name());
    let mut rename = Descriptor::editor();
    rename.name(String::from("Stone")).unwrap();
    rename.modify(Thing::descriptor_mut(&mut rock)).unwrap();
    assert_eq!("Stone", rock.name());
}

#[test]
fn junctions_hold_their_endpoints() {
    let end = |id: u64, name: &str, direction: Direction| {
        let mut descriptor = Descriptor::creator();
        descriptor.name(String::from(name)).unwrap();
        Endpoint::new(identity(id), descriptor.create().unwrap(), direction)
    };
    let junction = Junction::new(
        vec![end(1, "north door", Direction::North), end(2, "trapdoor", Direction::Down)],
        end(3, "gate", Direction::East),
    );
    assert_eq!(2, junction.entrances().len());
    assert_eq!("trapdoor", junction.entrances()[1].name());
    assert_eq!(Direction::Down, junction.entrances()[1].direction());
    assert_eq!("gate", junction.exit().name());
    assert_eq!(3, junction.exit().id());
}

#[test]
fn an_area_is_built_from_a_full_builder() {
    let mut builder = AreaBuilder::new();
    builder.identity_builder().guid(21, 1, 1, 1).unwrap();
    builder.descriptor(described("yard", "Yard", "A yard")).unwrap();
    let area = builder.build();
    assert_eq!(21, area.id());
    assert_eq!("Yard", area.name());
    assert_eq!("A yard", area.description().unwrap());
}

#[test]
fn a_character_builder_sets_the_id_of_its_entity() {
    let mut builder = Character::builder().id(5);
    assert_eq!(Some(5), builder.entity_builder().get_identity().unwrap().get_id());
    builder.entity_builder().identity_builder().guid(6, 1, 2, 3).unwrap();
    let mut builder = builder.id(7);
    builder.entity_builder().descriptor(described("owl", "Owl", "An owl")).unwrap();
    let owl = builder.create().unwrap();
    assert_eq!((7, 1, 2, 3), (owl.id(), owl.region_id(), owl.world_id(), owl.universe_id()));
    assert_eq!("Owl", owl.name());
    assert_eq!(BuilderMode::Creator, Character::editor().entity_builder().builder_mode());
}
