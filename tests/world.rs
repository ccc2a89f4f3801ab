use lunar_engine::camera::Camera;
use lunar_engine::engine::EngineComponent;
use lunar_engine::entity::{ComponentError, Entity};
use lunar_engine::transform::{Transform, Vec3};
use lunar_engine::world::{ComponentRefernce, World};

#[test]
fn query_returns_components_in_entity_order() {
    let mut world: World<EngineComponent> = World::new();
    let mut a = Entity::with_id(1);
    a.add_component::<Transform>().unwrap();
    let b: Entity<EngineComponent> = Entity::with_id(2);
    let mut c = Entity::with_id(3);
    c.add_component::<Transform>().unwrap();
    c.add_component::<Camera>().unwrap();
    assert!(world.add_entity(a).is_ok());
    assert!(world.add_entity(b).is_ok());
    assert!(world.add_entity(c).is_ok());

    assert_eq!(world.get_all_components::<Transform>().unwrap().len(), 2);
    let cams = world.get_all_components::<Camera>().unwrap();
    assert_eq!(cams.len(), 1);
    assert_eq!(
        cams[0].transform_reference.as_ref().unwrap().entity_id(),
        3
    );
    assert!(world
        .get_all_components::<lunar_engine::camera::MainCamera>()
        .is_none());
}

#[test]
fn duplicate_entity_id_is_handed_back() {
    let mut world: World<EngineComponent> = World::new();
    assert!(world.add_entity(Entity::with_id(5)).is_ok());
    let back = world.add_entity(Entity::with_id(5));
    assert_eq!(back.err().map(|e| e.get_id()), Some(5));
    assert_eq!(world.entity_count(), 1);
}

#[test]
fn handle_fails_after_entity_is_removed() {
    let mut world: World<EngineComponent> = World::new();
    let mut parent = Entity::with_id(10);
    parent.add_component::<Transform>().unwrap();
    world.add_entity(parent).ok().unwrap();

    let child = Transform::with_parent(
        Vec3::new(0, 0, 0),
        Vec3::new(0, 0, 0),
        Vec3::new(0, 0, 0),
        ComponentRefernce::new(10),
    );
    let handle = child.parent().unwrap();
    assert!(handle.borrow(&world).is_ok());

    let removed = world.remove_entity(10).unwrap();
    removed.decatify();
    assert_eq!(
        handle.borrow(&world).err(),
        Some(ComponentError::ComponentDoesNotExist)
    );
    assert!(world.get_entity(10).is_none());
}

#[test]
fn camera_finds_its_transform() {
    let mut world: World<EngineComponent> = World::new();
    let mut e = Entity::with_id(4);
    e.add_component::<Transform>().unwrap();
    e.add_component::<Camera>().unwrap();
    world.add_entity(e).ok().unwrap();
    let cams = world.get_all_components::<Camera>().unwrap();
    let t = cams[0].camera_transform(&world).unwrap();
    assert_eq!(t.scale.x, 1.0f32.to_bits());

    let lone = Camera::default();
    assert!(lone.camera_transform(&world).is_err());
}

#[test]
fn set_parent_keeps_values() {
    let p = Vec3::new(1, 2, 3);
    let mut t = Transform::new(p, p, p);
    assert!(t.parent().is_none());
    t.set_parent(ComponentRefernce::new(99));
    assert_eq!(t.parent().unwrap().entity_id(), 99);
    assert_eq!(t.position, p);
}
