use rand::Rng;
use vstd::prelude::*;

use crate::component::{dependencies_of, Component, ComponentStore, TypeTag};

verus! {

/// Errors of the component operations on an entity.
#[derive(Debug, PartialEq, Eq, Structural, Clone, Copy)]
pub enum ComponentError {
    ComponentDoesNotExist,
    ComponentAlreadyExists,
}

/// Relies on rand's `thread_rng().gen::<u64>()`: some 64-bit value; nothing is
/// promised about which.
#[verifier::external_body]
fn random_id() -> (r: u64) {
    rand::thread_rng().gen::<u64>()
}

/// A shared borrow of one component of an entity.
pub struct ComponentGuard<'a, T> {
    guard: &'a T,
}

impl<'a, T> ComponentGuard<'a, T> {
    /// The borrowed component.
    pub closed spec fn view(&self) -> T {
        *self.guard
    }

    /// Returns the borrowed component.
    pub fn get(&self) -> (r: &'a T)
        ensures
            *r == self@,
    {
        self.guard
    }
}

/// An identity owning an insertion-ordered list of components, at most one of
/// each concrete type.
pub struct Entity<S: ComponentStore> {
    id: u64,
    components: Vec<S>,
}

/// Name of the first dependency, from position `i` of `deps` on, that `e` lacks.
pub open spec fn first_missing<S: ComponentStore>(
    e: Entity<S>,
    deps: Seq<(TypeTag, &'static str)>,
    i: int,
) -> Option<&'static str>
    decreases deps.len() - i,
{
    if i < 0 || i >= deps.len() {
        None
    } else if !e.has(deps[i].0) {
        Some(deps[i].1)
    } else {
        first_missing(e, deps, i + 1)
    }
}

impl<S: ComponentStore> Entity<S> {
    /// The components, in the order they were added.
    pub closed spec fn view(&self) -> Seq<S> {
        self.components@
    }

    pub closed spec fn id(&self) -> u64 {
        self.id
    }

    /// The type tags of the components, in the order they were added.
    pub open spec fn tags(&self) -> Seq<TypeTag> {
        self@.map_values(|c: S| c.tag())
    }

    /// Whether a component with this tag is attached.
    pub open spec fn has(&self, tag: TypeTag) -> bool {
        self.tags().contains(tag)
    }

    /// Position of the component with this tag (meaningful when it is attached).
    pub open spec fn position(&self, tag: TypeTag) -> int {
        self.tags().index_of(tag)
    }

    /// At most one component of each concrete type.
    pub open spec fn wf(&self) -> bool {
        self.tags().no_duplicates()
    }

    /// Creates a new entity with no components and a random id.
    pub fn new() -> (r: Self)
        ensures
            r.wf(),
            r@ == Seq::<S>::empty(),
    {
        Entity { id: random_id(), components: Vec::new() }
    }

    /// Creates a new entity with no components and the given id.
    pub fn with_id(id: u64) -> (r: Self)
        ensures
            r.wf(),
            r@ == Seq::<S>::empty(),
            r.id() == id,
    {
        Entity { id, components: Vec::new() }
    }

    /// Returns the entity's id.
    pub fn get_id(&self) -> (r: u64)
        ensures
            r == self.id(),
    {
        self.id
    }

    /// Index of the component carrying `tag`, if any.
    fn find(&self, tag: TypeTag) -> (r: Option<usize>)
        requires
            self.wf(),
        ensures
            r.is_some() == self.has(tag),
            r.is_some() ==> r.unwrap() == self.position(tag) && r.unwrap() < self@.len(),
    {
        let mut i: usize = 0;
        while i < self.components.len()
            invariant
                i <= self.components@.len(),
                self.wf(),
                forall|j: int| 0 <= j < i ==> self.tags()[j] != tag,
            decreases self.components@.len() - i,
        {
            if self.components[i].type_tag() == tag {
                proof {
                    assert(self.tags()[i as int] == tag);
                    assert(self.has(tag));
                    let k = self.tags().index_of(tag);
                    assert(0 <= k < self.tags().len() && self.tags()[k] == tag);
                }
                return Some(i);
            }
            i += 1;
        }
        proof {
            if self.has(tag) {
                let k = choose|k: int| 0 <= k < self.tags().len() && self.tags()[k] == tag;
                assert(self.tags()[k] == tag);
            }
        }
        None
    }

    /// Checks whether the entity has a component of type `T`.
    pub fn has_component<T: Component<S>>(&self) -> (r: bool)
        requires
            self.wf(),
        ensures
            r == self.has(T::tag_spec()),
    {
        let found = self.find(T::tag());
        found.is_some()
    }

    /// Constructs a component of type `T`, hands it the entity's id, attaches
    /// it and runs its one-time attach hook; fails when a `T` is already there.
    pub fn add_component<T: Component<S>>(&mut self) -> (r: Result<(), ComponentError>)
        requires
            old(self).wf(),
        ensures
            final(self).wf(),
            final(self).id() == old(self).id(),
            old(self).has(T::tag_spec()) ==> r == Err::<(), ComponentError>(
                ComponentError::ComponentAlreadyExists,
            ) && final(self)@ == old(self)@,
            !old(self).has(T::tag_spec()) ==> r is Ok && final(self)@ == old(self)@.push(
                T::mew_spec().after_owner(old(self).id()).after_attach(),
            ) && final(self).tags() == old(self).tags().push(T::tag_spec()),
    {
        if self.has_component::<T>() {
            return Err(ComponentError::ComponentAlreadyExists);
        }
        let mut c = T::mew();
        c.set_self_reference(self.id);
        c.awawa();
        self.components.push(c);
        proof {
            let t = self.tags();
            let o = old(self).tags();
            assert(t =~= o.push(T::tag_spec()));
        }
        Ok(())
    }

    /// Detaches and drops the component of type `T`; fails when there is none.
    pub fn remove_component<T: Component<S>>(&mut self) -> (r: Result<(), ComponentError>)
        requires
            old(self).wf(),
        ensures
            final(self).wf(),
            final(self).id() == old(self).id(),
            !old(self).has(T::tag_spec()) ==> r == Err::<(), ComponentError>(
                ComponentError::ComponentDoesNotExist,
            ) && final(self)@ == old(self)@,
            old(self).has(T::tag_spec()) ==> r is Ok && final(self)@ == old(self)@.remove(
                old(self).position(T::tag_spec()),
            ) && final(self).tags() == old(self).tags().remove(old(self).position(T::tag_spec())),
    {
        let found = self.find(T::tag());
        match found {
            None => Err(ComponentError::ComponentDoesNotExist),
            Some(i) => {
                let _removed = self.components.remove(i);
                proof {
                    let o = old(self).tags();
                    assert(self.tags() =~= o.remove(i as int));
                }
                Ok(())
            },
        }
    }

    /// Borrows the component of type `T`; fails when there is none.
    pub fn get_component<T: Component<S>>(&self) -> (r: Result<ComponentGuard<'_, T>, ComponentError>)
        requires
            self.wf(),
        ensures
            (r is Ok) == self.has(T::tag_spec()),
            r is Err ==> r == Err::<ComponentGuard<'_, T>, ComponentError>(
                ComponentError::ComponentDoesNotExist,
            ),
            r is Ok ==> r->Ok_0@ == T::cast(self@[self.position(T::tag_spec())]),
    {
        match self.find(T::tag()) {
            None => Err(ComponentError::ComponentDoesNotExist),
            Some(i) => {
                match T::downcast(&self.components[i]) {
                    Some(c) => Ok(ComponentGuard { guard: c }),
                    None => Err(ComponentError::ComponentDoesNotExist),
                }
            },
        }
    }

    /// Replaces the attached component of type `T` with `value`; fails when
    /// there is none.
    pub fn set_component<T: Component<S>>(&mut self, value: T) -> (r: Result<(), ComponentError>)
        requires
            old(self).wf(),
        ensures
            final(self).wf(),
            final(self).id() == old(self).id(),
            final(self).tags() == old(self).tags(),
            !old(self).has(T::tag_spec()) ==> r == Err::<(), ComponentError>(
                ComponentError::ComponentDoesNotExist,
            ) && final(self)@ == old(self)@,
            old(self).has(T::tag_spec()) ==> r is Ok && final(self)@ == old(self)@.update(
                old(self).position(T::tag_spec()),
                T::wrap_spec(value),
            ),
    {
        match self.find(T::tag()) {
            None => Err(ComponentError::ComponentDoesNotExist),
            Some(i) => {
                let wrapped = T::wrap(value);
                self.components.set(i, wrapped);
                proof {
                    assert(self.tags() =~= old(self).tags());
                }
                Ok(())
            },
        }
    }

    /// Checks that every component type `T` depends on is attached; fails with
    /// the name of the first missing one.
    pub fn check_dependencies<T: Component<S>>(&self) -> (r: Result<(), &'static str>)
        requires
            self.wf(),
        ensures
            r == (match first_missing(*self, dependencies_of::<S, T>(), 0) {
                None => Ok::<(), &'static str>(()),
                Some(name) => Err(name),
            }),
    {
        let deps = T::dependencies();
        proof {
            assert(deps@ =~= dependencies_of::<S, T>());
        }
        let mut i: usize = 0;
        while i < deps.len()
            invariant
                i <= deps@.len(),
                self.wf(),
                deps@ == dependencies_of::<S, T>(),
                first_missing(*self, deps@, 0) == first_missing(*self, deps@, i as int),
            decreases deps@.len() - i,
        {
            let (tag, name) = deps[i];
            if self.find(tag).is_none() {
                return Err(name);
            }
            i += 1;
        }
        Ok(())
    }

    /// Runs the update hook of every component, in insertion order.
    pub fn update(&mut self)
        requires
            old(self).wf(),
        ensures
            final(self).wf(),
            final(self).id() == old(self).id(),
            final(self)@ == old(self)@.map_values(|c: S| c.after_update()),
    {
        let n = self.components.len();
        let mut i: usize = 0;
        while i < n
            invariant
                n == self.components@.len(),
                n == old(self).components@.len(),
                i <= n,
                self.id == old(self).id,
                forall|j: int| 0 <= j < i ==> self.components@[j] == old(self).components@[j].after_update(),
                forall|j: int| i <= j < n ==> self.components@[j] == old(self).components@[j],
                forall|j: int| 0 <= j < n ==> self.components@[j].tag() == old(self).components@[j].tag(),
            decreases n - i,
        {
            let mut c = self.components.remove(i);
            c.update();
            self.components.insert(i, c);
            i += 1;
        }
        proof {
            assert(self.tags() =~= old(self).tags());
            assert(self@ =~= old(self)@.map_values(|c: S| c.after_update()));
        }
    }

    /// Destroys the entity, running the teardown hook of every component in
    /// insertion order before the components are dropped.
    pub fn decatify(self)
        requires
            self.wf(),
    {
        let mut components = self.components;
        let n = components.len();
        let mut i: usize = 0;
        while i < n
            invariant
                n == components@.len(),
                i <= n,
            decreases n - i,
        {
            let mut c = components.remove(i);
            c.decatification();
            components.insert(i, c);
            i += 1;
        }
    }
}

} // verus!
