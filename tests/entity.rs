use lunar_engine::camera::{Camera, MainCamera};
use lunar_engine::entity::{ComponentError, Entity};
use lunar_engine::transform::Transform;

#[test]
fn component_add_test() {
    let mut entity = Entity::new();

    assert!(!entity.has_component::<Transform>());

    let res = entity.add_component::<Transform>();

    assert_eq!(res, Ok(()));
    assert!(entity.has_component::<Transform>());
}

#[test]
fn component_remove_test() {
    let mut entity = Entity::new();

    entity.add_component::<Transform>().unwrap();
    let e = entity.remove_component::<Transform>();

    assert_eq!(e, Ok(()));
    assert!(!entity.has_component::<Transform>());
}

#[test]
fn get_component_test() {
    let mut entity = Entity::new();
    entity.add_component::<Transform>().unwrap();
    let c = entity.get_component::<Transform>();
    assert!(c.is_ok());
    entity.remove_component::<Transform>().unwrap();

    let c = entity.get_component::<Transform>();
    assert!(c.is_err());
}

#[test]
fn add_twice_fails_and_keeps_one() {
    let mut entity = Entity::new();
    assert_eq!(entity.add_component::<Transform>(), Ok(()));
    assert_eq!(
        entity.add_component::<Transform>(),
        Err(ComponentError::ComponentAlreadyExists)
    );
    assert!(entity.has_component::<Transform>());
    entity.remove_component::<Transform>().unwrap();
    assert!(!entity.has_component::<Transform>());
}

#[test]
fn remove_missing_fails_and_keeps_others() {
    let mut entity = Entity::new();
    entity.add_component::<Transform>().unwrap();
    assert_eq!(
        entity.remove_component::<Camera>(),
        Err(ComponentError::ComponentDoesNotExist)
    );
    assert!(entity.has_component::<Transform>());
    assert!(!entity.has_component::<Camera>());
}

#[test]
fn fresh_entity_has_nothing() {
    let entity = Entity::new();
    assert!(!entity.has_component::<Transform>());
    assert!(!entity.has_component::<Camera>());
    assert!(!entity.has_component::<MainCamera>());
    assert!(entity.get_component::<Camera>().is_err());
}

#[test]
fn entity_with_id_keeps_id() {
    let entity: Entity<lunar_engine::engine::EngineComponent> = Entity::with_id(42);
    assert_eq!(entity.get_id(), 42);
}

#[test]
fn added_transform_is_default() {
    let mut entity = Entity::new();
    entity.add_component::<Transform>().unwrap();
    let guard = entity.get_component::<Transform>().unwrap();
    let t = guard.get();
    assert_eq!(t.scale.x, 1.0f32.to_bits());
    assert_eq!(t.scale.y, 1.0f32.to_bits());
    assert_eq!(t.scale.z, 1.0f32.to_bits());
    assert_eq!(t.position.x, 0.0f32.to_bits());
    assert!(t.parent.is_none());
}

#[test]
fn camera_dependency_scenario() {
    let mut e = Entity::new();
    e.add_component::<Transform>().unwrap();
    e.add_component::<Camera>().unwrap();
    assert_eq!(e.check_dependencies::<Camera>(), Ok(()));

    let mut fresh = Entity::new();
    assert_eq!(fresh.check_dependencies::<Camera>(), Err("Transform"));
    fresh.add_component::<Camera>().unwrap();
    assert_eq!(fresh.check_dependencies::<Camera>(), Err("Transform"));
    assert_eq!(fresh.check_dependencies::<MainCamera>(), Err("Transform"));
    assert_eq!(fresh.check_dependencies::<Transform>(), Ok(()));
}

#[test]
fn camera_attach_hooks_run() {
    let mut e = Entity::with_id(7);
    e.add_component::<Camera>().unwrap();
    let guard = e.get_component::<Camera>().unwrap();
    let cam = guard.get();
    assert!(cam.gpu_initialized);
    assert_eq!(cam.transform_reference.as_ref().unwrap().entity_id(), 7);
    assert_eq!(cam.near, 0.1f32.to_bits());
    assert_eq!(cam.far, 100.0f32.to_bits());
    assert_eq!(
        cam.projection_type.fov(),
        Some(std::f32::consts::FRAC_PI_3.to_bits())
    );
    assert_eq!(cam.projection_type.size(), None);
}

#[test]
fn update_and_decatify_on_engine_components() {
    let mut e = Entity::new();
    e.add_component::<Transform>().unwrap();
    e.add_component::<MainCamera>().unwrap();
    e.update();
    assert!(e.has_component::<Transform>());
    assert!(e.has_component::<MainCamera>());
    e.decatify();
}
