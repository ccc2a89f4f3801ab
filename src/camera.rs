use vstd::prelude::*;

use crate::component::{Component, ComponentStore};
use crate::entity::ComponentError;
use crate::transform::{RealBits, Transform};
use crate::world::{ComponentRefernce, World};

verus! {

/// Bit pattern of a 60 degree field of view, in radians.
pub const DEFAULT_FOV: RealBits = 0x3F86_0A92;

/// Bit pattern of `0.1`.
pub const DEFAULT_NEAR: RealBits = 0x3DCC_CCCD;

/// Bit pattern of `100.0`.
pub const DEFAULT_FAR: RealBits = 0x42C8_0000;

/// How a camera projects the scene.
#[derive(Clone, Copy, Debug, PartialEq, Eq, Structural)]
pub enum ProjectionType {
    /// Perspective projection with this field of view.
    Perspective { fov: RealBits },
    /// Orthographic projection; `size` is half the size of the viewing volume.
    Orthographic { size: RealBits },
}

impl ProjectionType {
    /// The field of view of a perspective projection.
    pub fn fov(&self) -> (r: Option<RealBits>)
        ensures
            r == (match *self {
                ProjectionType::Perspective { fov } => Some(fov),
                ProjectionType::Orthographic { .. } => None,
            }),
    {
        match *self {
            ProjectionType::Perspective { fov } => Some(fov),
            ProjectionType::Orthographic { .. } => None,
        }
    }

    /// The half size of an orthographic viewing volume.
    pub fn size(&self) -> (r: Option<RealBits>)
        ensures
            r == (match *self {
                ProjectionType::Perspective { .. } => None,
                ProjectionType::Orthographic { size } => Some(size),
            }),
    {
        match *self {
            ProjectionType::Perspective { .. } => None,
            ProjectionType::Orthographic { size } => Some(size),
        }
    }
}

/// The camera the scene is rendered through. It reads its position and
/// orientation from the transform on its own entity.
#[derive(Debug)]
pub struct Camera {
    pub projection_type: ProjectionType,
    /// Near plane.
    pub near: RealBits,
    /// Far plane.
    pub far: RealBits,
    /// Handle to the transform on the camera's entity, set when the camera is
    /// attached.
    pub transform_reference: Option<ComponentRefernce<Transform>>,
    /// Whether the GPU-side resources (uniform buffer, bind group) have been
    /// requested; this happens once, on the first attach hook.
    pub gpu_initialized: bool,
}

impl Camera {
    /// A 60 degree perspective camera with near plane 0.1 and far plane 100.
    pub open spec fn initial() -> Camera {
        Camera {
            projection_type: ProjectionType::Perspective { fov: DEFAULT_FOV },
            near: DEFAULT_NEAR,
            far: DEFAULT_FAR,
            transform_reference: None,
            gpu_initialized: false,
        }
    }

    /// The camera after its attach hook.
    pub open spec fn attached(self) -> Camera {
        Camera { gpu_initialized: true, ..self }
    }

    /// The camera after learning the id of its entity.
    pub open spec fn owned_by(self, owner: u64) -> Camera {
        Camera { transform_reference: Some(ComponentRefernce::<Transform>::to(owner)), ..self }
    }

    /// Creates a camera that is not attached to any entity yet.
    pub fn new(projection_type: ProjectionType, near: RealBits, far: RealBits) -> (r: Self)
        ensures
            r == (Camera { projection_type, near, far, ..Camera::initial() }),
    {
        Camera { projection_type, near, far, transform_reference: None, gpu_initialized: false }
    }

    /// The transform the camera looks through; fails when the camera has no
    /// transform handle, or its entity is gone or has no transform.
    pub fn camera_transform<'w, S: ComponentStore>(&self, world: &'w World<S>) -> (r: Result<
        &'w Transform,
        ComponentError,
    >) where Transform: Component<S>
        requires
            world.wf(),
        ensures
            self.transform_reference is None ==> r == Err::<&Transform, ComponentError>(
                ComponentError::ComponentDoesNotExist,
            ),
            self.transform_reference is Some ==> {
                let id = self.transform_reference->Some_0.entity();
                &&& (r is Ok) == (world.contains(id) && world.entity(id).has(
                    <Transform as Component<S>>::tag_spec(),
                ))
                &&& r is Err ==> r == Err::<&Transform, ComponentError>(
                    ComponentError::ComponentDoesNotExist,
                )
                &&& r is Ok ==> *r->Ok_0 == <Transform as Component<S>>::cast(
                    world.entity(id)@[world.entity(id).position(
                        <Transform as Component<S>>::tag_spec(),
                    )],
                )
            },
    {
        match &self.transform_reference {
            None => Err(ComponentError::ComponentDoesNotExist),
            Some(handle) => handle.borrow(world),
        }
    }

    /// Marks the GPU-side resources as requested; only the first call changes
    /// anything.
    pub fn initialize_gpu(&mut self)
        ensures
            *final(self) == old(self).attached(),
    {
        self.gpu_initialized = true;
    }

    /// Hands the camera the id of its entity, where its transform lives.
    pub fn set_owner(&mut self, owner: u64)
        ensures
            *final(self) == old(self).owned_by(owner),
    {
        self.transform_reference = Some(ComponentRefernce::new(owner));
    }
}

impl Default for Camera {
    /// A 60 degree perspective camera with near plane 0.1 and far plane 100.
    fn default() -> (r: Self)
        ensures
            r == Camera::initial(),
    {
        Camera {
            projection_type: ProjectionType::Perspective { fov: DEFAULT_FOV },
            near: DEFAULT_NEAR,
            far: DEFAULT_FAR,
            transform_reference: None,
            gpu_initialized: false,
        }
    }
}

/// The camera the renderer draws through: a camera that every hook forwards to.
#[derive(Debug)]
pub struct MainCamera {
    pub inner: Camera,
}

} // verus!
