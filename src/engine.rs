use vstd::prelude::*;

use crate::camera::{Camera, MainCamera};
use crate::component::{Component, ComponentStore, TypeTag};
use crate::transform::Transform;

verus! {

pub const TRANSFORM_TAG: TypeTag = 1;

pub const CAMERA_TAG: TypeTag = 2;

pub const MAIN_CAMERA_TAG: TypeTag = 3;

/// The components the engine itself provides.
#[derive(Debug)]
pub enum EngineComponent {
    Transform(Transform),
    Camera(Camera),
    MainCamera(MainCamera),
}

impl ComponentStore for EngineComponent {
    open spec fn tag(&self) -> TypeTag {
        match self {
            EngineComponent::Transform(_) => TRANSFORM_TAG,
            EngineComponent::Camera(_) => CAMERA_TAG,
            EngineComponent::MainCamera(_) => MAIN_CAMERA_TAG,
        }
    }

    open spec fn after_update(self) -> Self {
        self
    }

    open spec fn after_attach(self) -> Self {
        match self {
            EngineComponent::Camera(c) => EngineComponent::Camera(c.attached()),
            EngineComponent::MainCamera(m) => EngineComponent::MainCamera(
                MainCamera { inner: m.inner.attached() },
            ),
            other => other,
        }
    }

    open spec fn after_owner(self, owner: u64) -> Self {
        match self {
            EngineComponent::Camera(c) => EngineComponent::Camera(c.owned_by(owner)),
            EngineComponent::MainCamera(m) => EngineComponent::MainCamera(
                MainCamera { inner: m.inner.owned_by(owner) },
            ),
            other => other,
        }
    }

    fn type_tag(&self) -> (r: TypeTag) {
        match self {
            EngineComponent::Transform(_) => TRANSFORM_TAG,
            EngineComponent::Camera(_) => CAMERA_TAG,
            EngineComponent::MainCamera(_) => MAIN_CAMERA_TAG,
        }
    }

    fn update(&mut self) {
    }

    fn awawa(&mut self) {
        match self {
            EngineComponent::Camera(c) => c.initialize_gpu(),
            EngineComponent::MainCamera(m) => m.inner.initialize_gpu(),
            EngineComponent::Transform(_) => {},
        }
    }

    fn decatification(&mut self) {
    }

    fn set_self_reference(&mut self, owner: u64) {
        match self {
            EngineComponent::Camera(c) => c.set_owner(owner),
            EngineComponent::MainCamera(m) => m.inner.set_owner(owner),
            EngineComponent::Transform(_) => {},
        }
    }
}

impl Component<EngineComponent> for Transform {
    open spec fn wrap_spec(c: Self) -> EngineComponent {
        EngineComponent::Transform(c)
    }

    fn wrap(c: Self) -> (r: EngineComponent) {
        EngineComponent::Transform(c)
    }

    open spec fn tag_spec() -> TypeTag {
        TRANSFORM_TAG
    }

    open spec fn cast(value: EngineComponent) -> Self {
        match value {
            EngineComponent::Transform(t) => t,
            _ => Transform::initial(),
        }
    }

    open spec fn mew_spec() -> EngineComponent {
        EngineComponent::Transform(Transform::initial())
    }

    open spec fn dependency_count() -> u64 {
        0
    }

    open spec fn dependency_at(i: u64) -> (TypeTag, &'static str) {
        (0, "")
    }

    fn tag() -> (r: TypeTag) {
        TRANSFORM_TAG
    }

    fn mew() -> (r: EngineComponent) {
        EngineComponent::Transform(Transform::default())
    }

    fn downcast(value: &EngineComponent) -> (r: Option<&Self>) {
        match value {
            EngineComponent::Transform(t) => Some(t),
            _ => None,
        }
    }

    fn dependencies() -> (r: Vec<(TypeTag, &'static str)>) {
        let v: Vec<(TypeTag, &'static str)> = Vec::new();
        v
    }
}

/// The camera reads its transform from its own entity.
pub open spec fn camera_dependencies() -> Seq<(TypeTag, &'static str)> {
    seq![(TRANSFORM_TAG, "Transform")]
}

fn camera_dependency_list() -> (r: Vec<(TypeTag, &'static str)>)
    ensures
        r@ == camera_dependencies(),
{
    let mut v: Vec<(TypeTag, &'static str)> = Vec::new();
    v.push((TRANSFORM_TAG, "Transform"));
    proof {
        assert(v@ =~= camera_dependencies());
    }
    v
}

impl Component<EngineComponent> for Camera {
    open spec fn wrap_spec(c: Self) -> EngineComponent {
        EngineComponent::Camera(c)
    }

    fn wrap(c: Self) -> (r: EngineComponent) {
        EngineComponent::Camera(c)
    }

    open spec fn tag_spec() -> TypeTag {
        CAMERA_TAG
    }

    open spec fn cast(value: EngineComponent) -> Self {
        match value {
            EngineComponent::Camera(c) => c,
            _ => Camera::initial(),
        }
    }

    open spec fn mew_spec() -> EngineComponent {
        EngineComponent::Camera(Camera::initial())
    }

    open spec fn dependency_count() -> u64 {
        1
    }

    open spec fn dependency_at(i: u64) -> (TypeTag, &'static str) {
        (TRANSFORM_TAG, "Transform")
    }

    fn tag() -> (r: TypeTag) {
        CAMERA_TAG
    }

    fn mew() -> (r: EngineComponent) {
        EngineComponent::Camera(Camera::default())
    }

    fn downcast(value: &EngineComponent) -> (r: Option<&Self>) {
        match value {
            EngineComponent::Camera(c) => Some(c),
            _ => None,
        }
    }

    fn dependencies() -> (r: Vec<(TypeTag, &'static str)>) {
        let v = camera_dependency_list();
        v
    }
}

impl Component<EngineComponent> for MainCamera {
    open spec fn wrap_spec(c: Self) -> EngineComponent {
        EngineComponent::MainCamera(c)
    }

    fn wrap(c: Self) -> (r: EngineComponent) {
        EngineComponent::MainCamera(c)
    }

    open spec fn tag_spec() -> TypeTag {
        MAIN_CAMERA_TAG
    }

    open spec fn cast(value: EngineComponent) -> Self {
        match value {
            EngineComponent::MainCamera(m) => m,
            _ => MainCamera { inner: Camera::initial() },
        }
    }

    open spec fn mew_spec() -> EngineComponent {
        EngineComponent::MainCamera(MainCamera { inner: Camera::initial() })
    }

    open spec fn dependency_count() -> u64 {
        1
    }

    open spec fn dependency_at(i: u64) -> (TypeTag, &'static str) {
        (TRANSFORM_TAG, "Transform")
    }

    fn tag() -> (r: TypeTag) {
        MAIN_CAMERA_TAG
    }

    fn mew() -> (r: EngineComponent) {
        EngineComponent::MainCamera(MainCamera { inner: Camera::default() })
    }

    fn downcast(value: &EngineComponent) -> (r: Option<&Self>) {
        match value {
            EngineComponent::MainCamera(m) => Some(m),
            _ => None,
        }
    }

    fn dependencies() -> (r: Vec<(TypeTag, &'static str)>) {
        let v = camera_dependency_list();
        v
    }
}

} // verus!
