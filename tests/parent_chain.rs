use lunar_engine::engine::EngineComponent;
use lunar_engine::entity::Entity;
use lunar_engine::transform::{Transform, Vec3};
use lunar_engine::world::{ComponentRefernce, World};

fn at(x: f32) -> Vec3 {
    Vec3::new(x.to_bits(), 0, 0)
}

fn unit() -> Vec3 {
    Vec3::new(1.0f32.to_bits(), 1.0f32.to_bits(), 1.0f32.to_bits())
}

fn entity_with(id: u64, t: Transform) -> Entity<EngineComponent> {
    let mut e = Entity::with_id(id);
    e.add_component::<Transform>().unwrap();
    e.set_component(t).unwrap();
    e
}

#[test]
fn root_transform_is_its_own_chain() {
    let world: World<EngineComponent> = World::new();
    let t = Transform::new(at(1.0), at(0.0), unit());
    let chain = t.parent_chain(&world).unwrap();
    assert_eq!(chain.len(), 1);
    assert_eq!(chain[0].position, at(1.0));
}

#[test]
fn chain_follows_parents_to_the_root() {
    let mut world: World<EngineComponent> = World::new();
    world
        .add_entity(entity_with(1, Transform::new(at(1.0), at(0.0), unit())))
        .ok()
        .unwrap();
    world
        .add_entity(entity_with(
            2,
            Transform::with_parent(at(2.0), at(0.0), unit(), ComponentRefernce::new(1)),
        ))
        .ok()
        .unwrap();
    let child = Transform::with_parent(at(3.0), at(0.0), unit(), ComponentRefernce::new(2));
    let chain = child.parent_chain(&world).unwrap();
    let xs: Vec<u32> = chain.iter().map(|t| t.position.x).collect();
    assert_eq!(
        xs,
        vec![3.0f32.to_bits(), 2.0f32.to_bits(), 1.0f32.to_bits()]
    );
}

#[test]
fn dangling_parent_has_no_chain() {
    let world: World<EngineComponent> = World::new();
    let t = Transform::with_parent(at(1.0), at(0.0), unit(), ComponentRefernce::new(8));
    assert!(t.parent_chain(&world).is_none());
}

#[test]
fn looping_parents_have_no_chain() {
    let mut world: World<EngineComponent> = World::new();
    world
        .add_entity(entity_with(
            1,
            Transform::with_parent(at(1.0), at(0.0), unit(), ComponentRefernce::new(2)),
        ))
        .ok()
        .unwrap();
    world
        .add_entity(entity_with(
            2,
            Transform::with_parent(at(2.0), at(0.0), unit(), ComponentRefernce::new(1)),
        ))
        .ok()
        .unwrap();
    let t = Transform::with_parent(at(0.0), at(0.0), unit(), ComponentRefernce::new(1));
    assert!(t.parent_chain(&world).is_none());
}

#[test]
fn world_set_component_changes_one_entity() {
    let mut world: World<EngineComponent> = World::new();
    world
        .add_entity(entity_with(1, Transform::new(at(1.0), at(0.0), unit())))
        .ok()
        .unwrap();
    assert!(world
        .set_component(1, Transform::new(at(5.0), at(0.0), unit()))
        .is_ok());
    assert!(world
        .set_component(9, Transform::new(at(5.0), at(0.0), unit()))
        .is_err());
    let all = world.get_all_components::<Transform>().unwrap();
    assert_eq!(all[0].position, at(5.0));
}
