use vstd::prelude::*;

use crate::component::{Component, ComponentStore};
use crate::world::{ComponentRefernce, World};

verus! {

/// A single-precision number held as its IEEE-754 bit pattern. The library
/// stores and moves such numbers; arithmetic on them is done by the caller.
pub type RealBits = u32;

/// Bit pattern of `1.0`.
pub const REAL_ONE: RealBits = 0x3F80_0000;

/// Bit pattern of `0.0`.
pub const REAL_ZERO: RealBits = 0;

/// Three numbers, as bit patterns.
#[derive(Clone, Copy, Debug, PartialEq, Eq, Structural)]
pub struct Vec3 {
    pub x: RealBits,
    pub y: RealBits,
    pub z: RealBits,
}

impl Vec3 {
    pub fn new(x: RealBits, y: RealBits, z: RealBits) -> (r: Self)
        ensures
            r == (Vec3 { x, y, z }),
    {
        Vec3 { x, y, z }
    }
}

/// Position, rotation (Euler angles in degrees) and scale of an entity, with an
/// optional link to a parent transform on another entity.
#[derive(Debug)]
pub struct Transform {
    pub position: Vec3,
    pub rotation: Vec3,
    pub scale: Vec3,
    /// Handle to the parent transform, if any.
    pub parent: Option<ComponentRefernce<Transform>>,
}

impl Transform {
    /// Id of the entity whose transform is the parent, if there is one.
    pub open spec fn parent_entity(&self) -> Option<u64> {
        match self.parent {
            Some(p) => Some(p.entity()),
            None => None,
        }
    }

    /// At the origin, unrotated, with unit scale, without a parent.
    pub open spec fn initial() -> Transform {
        Transform {
            position: Vec3 { x: REAL_ZERO, y: REAL_ZERO, z: REAL_ZERO },
            rotation: Vec3 { x: REAL_ZERO, y: REAL_ZERO, z: REAL_ZERO },
            scale: Vec3 { x: REAL_ONE, y: REAL_ONE, z: REAL_ONE },
            parent: None,
        }
    }

    /// Creates a transform without a parent.
    pub fn new(position: Vec3, rotation: Vec3, scale: Vec3) -> (r: Self)
        ensures
            r.position == position,
            r.rotation == rotation,
            r.scale == scale,
            r.parent_entity() is None,
    {
        Transform { position, rotation, scale, parent: None }
    }

    /// Creates a transform whose matrix is taken relative to `parent`.
    pub fn with_parent(
        position: Vec3,
        rotation: Vec3,
        scale: Vec3,
        parent: ComponentRefernce<Transform>,
    ) -> (r: Self)
        ensures
            r.position == position,
            r.rotation == rotation,
            r.scale == scale,
            r.parent_entity() == Some(parent.entity()),
    {
        Transform { position, rotation, scale, parent: Some(parent) }
    }

    /// Sets the parent, keeping position, rotation and scale.
    pub fn set_parent(&mut self, p: ComponentRefernce<Transform>)
        ensures
            final(self).position == old(self).position,
            final(self).rotation == old(self).rotation,
            final(self).scale == old(self).scale,
            final(self).parent_entity() == Some(p.entity()),
    {
        self.parent = Some(p);
    }

    /// A handle to the parent transform, if there is one.
    pub fn parent(&self) -> (r: Option<ComponentRefernce<Transform>>)
        ensures
            r is None <==> self.parent_entity() is None,
            r is Some ==> self.parent_entity() == Some(r->Some_0.entity()),
    {
        match &self.parent {
            Some(p) => Some(p.duplicate()),
            None => None,
        }
    }
}

/// Where a transform's parent link leads in a world.
pub enum ParentLink {
    /// No parent: the transform is a root.
    Root,
    /// The parent transform.
    Parent(Transform),
    /// The link names an entity that is gone or has no transform.
    Dangling,
}

/// Resolves the parent link of `t` in `world`.
pub open spec fn parent_link<S: ComponentStore>(world: World<S>, t: Transform) -> ParentLink
    where Transform: Component<S>
{
    match t.parent_entity() {
        None => ParentLink::Root,
        Some(id) => {
            let tag = <Transform as Component<S>>::tag_spec();
            if world.contains(id) && world.entity(id).has(tag) {
                ParentLink::Parent(
                    <Transform as Component<S>>::cast(world.entity(id)@[world.entity(id).position(tag)]),
                )
            } else {
                ParentLink::Dangling
            }
        },
    }
}

/// The transforms from `t` up to its root, following at most `fuel` links;
/// `None` when a link dangles or the root is not reached in time.
pub open spec fn chain_within<S: ComponentStore>(world: World<S>, t: Transform, fuel: nat) -> Option<
    Seq<Transform>,
>
    where Transform: Component<S>
    decreases fuel,
{
    if fuel == 0 {
        None
    } else {
        match parent_link(world, t) {
            ParentLink::Root => Some(seq![t]),
            ParentLink::Dangling => None,
            ParentLink::Parent(p) => match chain_within(world, p, (fuel - 1) as nat) {
                None => None,
                Some(rest) => Some(seq![t] + rest),
            },
        }
    }
}

/// The chain of `t` in `world`: `t`, its parent, the parent's parent, and so
/// on up to a root. A chain longer than the world has entities, plus one for
/// `t` itself, must loop, so it has none.
pub open spec fn parent_chain_spec<S: ComponentStore>(world: World<S>, t: Transform) -> Option<
    Seq<Transform>,
>
    where Transform: Component<S>
{
    chain_within(world, t, (world@.len() + 1) as nat)
}

impl Transform {
    /// The transform and its ancestors, starting with `self` and ending at a
    /// root; the world matrix is the product of their local matrices, root
    /// first. `None` when a parent link dangles or the links form a loop.
    pub fn parent_chain<'w, S: ComponentStore>(&'w self, world: &'w World<S>) -> (r: Option<
        Vec<&'w Transform>,
    >) where Transform: Component<S>
        requires
            world.wf(),
        ensures
            r is None <==> parent_chain_spec(*world, *self) is None,
            r is Some ==> r->Some_0@.map_values(|x: &Transform| *x) == parent_chain_spec(
                *world,
                *self,
            )->Some_0,
    {
        let limit = world.entity_count() as u128;
        let mut chain: Vec<&'w Transform> = Vec::new();
        let mut current: &'w Transform = self;
        let mut steps: u128 = 0;
        let ghost total = (world@.len() + 1) as nat;
        proof {
            assert(chain@.map_values(|x: &Transform| *x) =~= Seq::<Transform>::empty());
        }
        loop
            invariant
                world.wf(),
                limit == world@.len(),
                limit <= usize::MAX,
                steps <= limit + 1,
                total == (world@.len() + 1) as nat,
                chain_within(*world, *self, total) == (match chain_within(
                    *world,
                    *current,
                    (total - steps) as nat,
                ) {
                    None => None,
                    Some(rest) => Some(chain@.map_values(|x: &Transform| *x) + rest),
                }),
            decreases limit + 1 - steps,
        {
            if steps > limit {
                return None;
            }
            let ghost before = chain@.map_values(|x: &Transform| *x);
            chain.push(current);
            proof {
                assert(chain@.map_values(|x: &Transform| *x) =~= before + seq![*current]);
            }
            match &current.parent {
                None => {
                    proof {
                        assert(before + seq![*current] =~= chain@.map_values(|x: &Transform| *x));
                    }
                    return Some(chain);
                },
                Some(handle) => {
                    match handle.borrow(world) {
                        Err(_) => {
                            return None;
                        },
                        Ok(p) => {
                            proof {
                                let fuel = (total - steps) as nat;
                                assert(parent_link(*world, *current) == ParentLink::Parent(*p));
                                let inner = chain_within(*world, *p, (fuel - 1) as nat);
                                match inner {
                                    None => {},
                                    Some(rest) => {
                                        assert(before + (seq![*current] + rest) =~= (before
                                            + seq![*current]) + rest);
                                    },
                                }
                            }
                            current = p;
                            steps = steps + 1;
                        },
                    }
                },
            }
        }
    }
}

impl Default for Transform {
    /// At the origin, unrotated, with unit scale, without a parent.
    fn default() -> (r: Self)
        ensures
            r == Transform::initial(),
    {
        Transform {
            position: Vec3::new(REAL_ZERO, REAL_ZERO, REAL_ZERO),
            rotation: Vec3::new(REAL_ZERO, REAL_ZERO, REAL_ZERO),
            scale: Vec3::new(REAL_ONE, REAL_ONE, REAL_ONE),
            parent: None,
        }
    }
}

} // verus!
