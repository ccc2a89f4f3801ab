use vstd::prelude::*;

use crate::camera::Camera;
use crate::component::{dependencies_of, ComponentStore, TypeTag};
use crate::engine::{EngineComponent, TRANSFORM_TAG};
use crate::entity::{first_missing, Entity};

verus! {

/// A new entity has no component of any type; attaching a component of a type
/// the entity lacked makes that type present; detaching it again makes it
/// absent.
pub proof fn lemma_component_presence<S: ComponentStore>(
    fresh: Entity<S>,
    before: Entity<S>,
    added: Entity<S>,
    removed: Entity<S>,
    tag: TypeTag,
)
    requires
        fresh@ == Seq::<S>::empty(),
        before.wf(),
        !before.has(tag),
        added.tags() == before.tags().push(tag),
        removed.tags() == added.tags().remove(added.position(tag)),
    ensures
        !fresh.has(tag),
        added.has(tag),
        added.wf(),
        !removed.has(tag),
{
    let t = added.tags();
    let n = before.tags().len();
    assert(t[n as int] == tag);
    assert(added.has(tag));
    assert forall|i: int, j: int| 0 <= i < t.len() && 0 <= j < t.len() && i != j implies t[i] != t[j] by {
        if i < n && j < n {
            assert(t[i] == before.tags()[i] && t[j] == before.tags()[j]);
        } else if i < n {
            assert(t[i] == before.tags()[i]);
        } else if j < n {
            assert(t[j] == before.tags()[j]);
        }
    }
    let p = added.position(tag);
    assert(0 <= p < t.len() && t[p] == tag);
    assert(p == n);
    let r = removed.tags();
    assert(r =~= before.tags());
}

/// After a component of a type the entity lacked has been attached, the entity
/// holds exactly one component of that type, so attaching that type again
/// fails.
pub proof fn lemma_single_instance<S: ComponentStore>(
    before: Entity<S>,
    added: Entity<S>,
    tag: TypeTag,
)
    requires
        before.wf(),
        !before.has(tag),
        added.tags() == before.tags().push(tag),
    ensures
        added.has(tag),
        forall|i: int, j: int|
            0 <= i < added.tags().len() && 0 <= j < added.tags().len() && added.tags()[i] == tag
                && added.tags()[j] == tag ==> i == j,
{
    let t = added.tags();
    let n = before.tags().len();
    assert(t[n as int] == tag);
    assert forall|i: int, j: int|
        0 <= i < t.len() && 0 <= j < t.len() && t[i] == tag && t[j] == tag implies i == j by {
        if i < n {
            assert(t[i] == before.tags()[i]);
            assert(before.has(tag));
        }
        if j < n {
            assert(t[j] == before.tags()[j]);
            assert(before.has(tag));
        }
    }
}

/// A camera's dependency check fails, naming "Transform", exactly when its
/// entity has no transform.
pub proof fn lemma_camera_needs_transform(e: Entity<EngineComponent>)
    ensures
        first_missing(e, dependencies_of::<EngineComponent, Camera>(), 0) == (if e.has(
            TRANSFORM_TAG,
        ) {
            None::<&'static str>
        } else {
            Some("Transform")
        }),
{
    let d = dependencies_of::<EngineComponent, Camera>();
    assert(d.len() == 1);
    assert(d[0] == (TRANSFORM_TAG, "Transform"));
    assert(first_missing(e, d, 1) == None::<&'static str>);
}

} // verus!
