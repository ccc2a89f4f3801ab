use std::marker::PhantomData;
use vstd::prelude::*;

use crate::component::{Component, ComponentStore, TypeTag};
use crate::entity::{ComponentError, Entity};

verus! {

/// Owner of every entity; answers typed queries across all of them.
pub struct World<S: ComponentStore> {
    entities: Vec<Entity<S>>,
}

/// The components carrying `tag` across the entities `es`, in entity order.
pub open spec fn components_with<S: ComponentStore>(es: Seq<Entity<S>>, tag: TypeTag) -> Seq<S>
    decreases es.len(),
{
    if es.len() == 0 {
        Seq::empty()
    } else {
        let rest = components_with(es.drop_last(), tag);
        let e = es.last();
        if e.has(tag) {
            rest.push(e@[e.position(tag)])
        } else {
            rest
        }
    }
}

impl<S: ComponentStore> World<S> {
    /// The entities, in the order they were added.
    pub closed spec fn view(&self) -> Seq<Entity<S>> {
        self.entities@
    }

    /// The ids of the entities, in order.
    pub open spec fn ids(&self) -> Seq<u64> {
        self@.map_values(|e: Entity<S>| e.id())
    }

    /// Whether an entity with this id is alive in the world.
    pub open spec fn contains(&self, id: u64) -> bool {
        self.ids().contains(id)
    }

    /// The entity with this id (meaningful when it is alive).
    pub open spec fn entity(&self, id: u64) -> Entity<S> {
        self@[self.ids().index_of(id)]
    }

    /// Every entity is well formed and no two share an id.
    pub open spec fn wf(&self) -> bool {
        &&& forall|i: int| 0 <= i < self@.len() ==> (#[trigger] self@[i]).wf()
        &&& self.ids().no_duplicates()
    }

    /// An empty world.
    pub fn new() -> (r: Self)
        ensures
            r.wf(),
            r@ == Seq::<Entity<S>>::empty(),
    {
        World { entities: Vec::new() }
    }

    /// Number of entities.
    pub fn entity_count(&self) -> (r: usize)
        ensures
            r == self@.len(),
    {
        self.entities.len()
    }

    /// Position of the entity with this id, if it is alive.
    fn find(&self, id: u64) -> (r: Option<usize>)
        requires
            self.wf(),
        ensures
            r.is_some() == self.contains(id),
            r.is_some() ==> r.unwrap() == self.ids().index_of(id) && r.unwrap() < self@.len(),
    {
        let mut i: usize = 0;
        while i < self.entities.len()
            invariant
                i <= self.entities@.len(),
                self.wf(),
                forall|j: int| 0 <= j < i ==> self.ids()[j] != id,
            decreases self.entities@.len() - i,
        {
            if self.entities[i].get_id() == id {
                proof {
                    assert(self.ids()[i as int] == id);
                    let k = self.ids().index_of(id);
                    assert(0 <= k < self.ids().len() && self.ids()[k] == id);
                }
                return Some(i);
            }
            i += 1;
        }
        proof {
            if self.contains(id) {
                let k = choose|k: int| 0 <= k < self.ids().len() && self.ids()[k] == id;
                assert(self.ids()[k] == id);
            }
        }
        None
    }

    /// Adds an entity; when its id is already taken the entity is handed back.
    pub fn add_entity(&mut self, entity: Entity<S>) -> (r: Result<(), Entity<S>>)
        requires
            old(self).wf(),
            entity.wf(),
        ensures
            final(self).wf(),
            old(self).contains(entity.id()) ==> r == Err::<(), Entity<S>>(entity) && final(self)@ == old(
                self,
            )@,
            !old(self).contains(entity.id()) ==> r is Ok && final(self)@ == old(self)@.push(entity),
    {
        if self.find(entity.get_id()).is_some() {
            return Err(entity);
        }
        self.entities.push(entity);
        proof {
            assert(self.ids() =~= old(self).ids().push(entity.id()));
            assert forall|i: int| 0 <= i < self@.len() implies (#[trigger] self@[i]).wf() by {
                if i < old(self)@.len() {
                    assert(self@[i] == old(self)@[i]);
                }
            }
        }
        Ok(())
    }

    /// Takes the entity with this id out of the world, if it is alive.
    pub fn remove_entity(&mut self, id: u64) -> (r: Option<Entity<S>>)
        requires
            old(self).wf(),
        ensures
            final(self).wf(),
            !old(self).contains(id) ==> r is None && final(self)@ == old(self)@,
            old(self).contains(id) ==> r == Some(old(self).entity(id)) && final(self)@ == old(
                self,
            )@.remove(old(self).ids().index_of(id)),
    {
        match self.find(id) {
            None => None,
            Some(i) => {
                let e = self.entities.remove(i);
                proof {
                    assert(self.ids() =~= old(self).ids().remove(i as int));
                    assert forall|j: int| 0 <= j < self@.len() implies (#[trigger] self@[j]).wf() by {
                        if j < i {
                            assert(self@[j] == old(self)@[j]);
                        } else {
                            assert(self@[j] == old(self)@[j + 1]);
                        }
                    }
                }
                Some(e)
            },
        }
    }

    /// Replaces the component of type `T` on the entity with this id; fails
    /// when the entity is gone or has no such component.
    pub fn set_component<T: Component<S>>(&mut self, id: u64, value: T) -> (r: Result<(), ComponentError>)
        requires
            old(self).wf(),
        ensures
            final(self).wf(),
            final(self).ids() == old(self).ids(),
            (r is Ok) == (old(self).contains(id) && old(self).entity(id).has(T::tag_spec())),
            r is Err ==> r == Err::<(), ComponentError>(ComponentError::ComponentDoesNotExist)
                && final(self)@ == old(self)@,
            r is Ok ==> {
                let k = old(self).ids().index_of(id);
                let before = old(self).entity(id);
                &&& final(self)@.len() == old(self)@.len()
                &&& forall|j: int| 0 <= j < old(self)@.len() && j != k ==> final(self)@[j] == old(self)@[j]
                &&& final(self)@[k]@ == before@.update(before.position(T::tag_spec()), T::wrap_spec(value))
            },
    {
        match self.find(id) {
            None => Err(ComponentError::ComponentDoesNotExist),
            Some(i) => {
                if !self.entities[i].has_component::<T>() {
                    return Err(ComponentError::ComponentDoesNotExist);
                }
                let mut e = self.entities.remove(i);
                let _ok = e.set_component(value);
                self.entities.insert(i, e);
                proof {
                    assert(self.ids() =~= old(self).ids());
                    assert forall|j: int| 0 <= j < self@.len() implies (#[trigger] self@[j]).wf() by {
                        if j != i {
                            assert(self@[j] == old(self)@[j]);
                        }
                    }
                }
                Ok(())
            },
        }
    }

    /// Borrows the entity with this id, if it is alive.
    pub fn get_entity(&self, id: u64) -> (r: Option<&Entity<S>>)
        requires
            self.wf(),
        ensures
            r.is_some() == self.contains(id),
            r.is_some() ==> *r.unwrap() == self.entity(id),
    {
        match self.find(id) {
            None => None,
            Some(i) => Some(&self.entities[i]),
        }
    }

    /// Every component of type `T` in the world, in entity order; `None` when
    /// there is none.
    pub fn get_all_components<T: Component<S>>(&self) -> (r: Option<Vec<&T>>)
        requires
            self.wf(),
        ensures
            (r is None) == (components_with(self@, T::tag_spec()).len() == 0),
            r is Some ==> r->Some_0@.len() == components_with(self@, T::tag_spec()).len(),
            r is Some ==> forall|k: int|
                0 <= k < r->Some_0@.len() ==> *(#[trigger] r->Some_0@[k]) == T::cast(
                    components_with(self@, T::tag_spec())[k],
                ),
    {
        let ghost tag = T::tag_spec();
        let mut found: Vec<&T> = Vec::new();
        let mut i: usize = 0;
        while i < self.entities.len()
            invariant
                i <= self.entities@.len(),
                self.wf(),
                tag == T::tag_spec(),
                found@.len() == components_with(self@.subrange(0, i as int), tag).len(),
                forall|k: int|
                    0 <= k < found@.len() ==> *(#[trigger] found@[k]) == T::cast(
                        components_with(self@.subrange(0, i as int), tag)[k],
                    ),
            decreases self.entities@.len() - i,
        {
            let ghost before = found@;
            let e = &self.entities[i];
            let ghost sub_i = self@.subrange(0, i as int);
            let ghost sub_next = self@.subrange(0, i + 1);
            proof {
                assert(sub_next.drop_last() =~= sub_i);
                assert(sub_next.last() == self@[i as int]);
                assert(self@[i as int].wf());
                assert(components_with(sub_next, tag) == (if e.has(tag) {
                    components_with(sub_i, tag).push(e@[e.position(tag)])
                } else {
                    components_with(sub_i, tag)
                }));
            }
            let res = e.get_component::<T>();
            match res {
                Ok(guard) => {
                    found.push(guard.get());
                    proof {
                        assert forall|k: int| 0 <= k < found@.len() implies *(#[trigger] found@[k])
                            == T::cast(components_with(sub_next, tag)[k]) by {
                            if k < before.len() {
                                assert(found@[k] == before[k]);
                            }
                        }
                    }
                },
                Err(_) => {},
            }
            i += 1;
        }
        proof {
            assert(self@.subrange(0, self@.len() as int) =~= self@);
        }
        if found.len() == 0 {
            None
        } else {
            Some(found)
        }
    }
}

/// A non-owning handle to the component of type `T` on the entity with a given
/// id. It stays valid only while that entity is in the world and still has
/// such a component; resolving it checks both.
#[derive(Debug)]
pub struct ComponentRefernce<T> {
    entity: u64,
    component: PhantomData<T>,
}

impl<T> ComponentRefernce<T> {
    /// Id of the entity the handle points into.
    pub closed spec fn entity(&self) -> u64 {
        self.entity
    }

    /// The handle to the `T` on the entity with this id.
    pub closed spec fn to(entity: u64) -> Self {
        ComponentRefernce { entity, component: PhantomData }
    }

    /// A handle to the `T` on the entity with this id.
    pub fn new(entity: u64) -> (r: Self)
        ensures
            r == Self::to(entity),
            r.entity() == entity,
    {
        ComponentRefernce { entity, component: PhantomData }
    }

    /// Id of the entity the handle points into.
    pub fn entity_id(&self) -> (r: u64)
        ensures
            r == self.entity(),
    {
        self.entity
    }

    /// Another handle to the same component.
    pub fn duplicate(&self) -> (r: Self)
        ensures
            r.entity() == self.entity(),
    {
        ComponentRefernce { entity: self.entity, component: PhantomData }
    }

    /// Resolves the handle; fails when the entity is gone or no longer has a `T`.
    pub fn borrow<'w, S: ComponentStore>(&self, world: &'w World<S>) -> (r: Result<&'w T, ComponentError>)
        where
            T: Component<S>,
        requires
            world.wf(),
        ensures
            (r is Ok) == (world.contains(self.entity()) && world.entity(self.entity()).has(T::tag_spec())),
            r is Err ==> r == Err::<&T, ComponentError>(ComponentError::ComponentDoesNotExist),
            r is Ok ==> *r->Ok_0 == T::cast(
                world.entity(self.entity())@[world.entity(self.entity()).position(T::tag_spec())],
            ),
    {
        match world.get_entity(self.entity) {
            None => Err(ComponentError::ComponentDoesNotExist),
            Some(e) => {
                proof {
                    assert(world@[world.ids().index_of(self.entity)].wf());
                }
                match e.get_component::<T>() {
                    Ok(guard) => Ok(guard.get()),
                    Err(err) => Err(err),
                }
            },
        }
    }
}

} // verus!
