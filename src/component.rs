use vstd::prelude::*;

verus! {

/// Identifies a concrete component type inside a component store.
pub type TypeTag = u64;

/// A value that can hold any component of an application: usually an enum
/// with one variant per concrete component type.
///
/// Every hook keeps the concrete type of the value: a component never turns
/// into another kind of component.
pub trait ComponentStore: Sized {
    /// Tag of the concrete component type held by this value.
    spec fn tag(&self) -> TypeTag;

    /// What the per-frame update hook makes of this value.
    spec fn after_update(self) -> Self;

    /// What the one-time attach hook makes of this value.
    spec fn after_attach(self) -> Self;

    /// What receiving a back-reference to the owning entity makes of this value.
    spec fn after_owner(self, owner: u64) -> Self;

    fn type_tag(&self) -> (r: TypeTag)
        ensures
            r == self.tag(),
    ;

    /// Per-frame update hook.
    fn update(&mut self)
        ensures
            *final(self) == old(self).after_update(),
            final(self).tag() == old(self).tag(),
    ;

    /// One-time hook, run right after the component has been attached.
    fn awawa(&mut self)
        ensures
            *final(self) == old(self).after_attach(),
            final(self).tag() == old(self).tag(),
    ;

    /// Teardown hook, run when the owning entity is destroyed.
    fn decatification(&mut self)
        ensures
            final(self).tag() == old(self).tag(),
    ;

    /// Hands the component the id of the entity that owns it.
    fn set_self_reference(&mut self, owner: u64)
        ensures
            *final(self) == old(self).after_owner(owner),
            final(self).tag() == old(self).tag(),
    ;
}

/// The component types `T` depends on, in declaration order.
pub open spec fn dependencies_of<S: ComponentStore, T: Component<S>>() -> Seq<(TypeTag, &'static str)> {
    Seq::new(T::dependency_count() as nat, |i: int| T::dependency_at(i as u64))
}

/// A concrete component type that can live in the store `S`.
pub trait Component<S: ComponentStore>: Sized {
    /// The tag that store values of this type carry.
    spec fn tag_spec() -> TypeTag;

    /// The component of this type that a store value holds (meaningful when
    /// the value carries this type's tag).
    spec fn cast(value: S) -> Self;

    /// The freshly constructed component, wrapped in the store.
    spec fn mew_spec() -> S;

    /// A component of this type, wrapped in the store.
    spec fn wrap_spec(c: Self) -> S;

    /// How many component types must already be on an entity for this one to
    /// work.
    spec fn dependency_count() -> u64;

    /// The `i`-th of those types, as a (tag, type name) pair.
    spec fn dependency_at(i: u64) -> (TypeTag, &'static str);

    fn tag() -> (r: TypeTag)
        ensures
            r == Self::tag_spec(),
    ;

    /// Constructs a new component of this type, wrapped in the store.
    fn mew() -> (r: S)
        ensures
            r == Self::mew_spec(),
            r.tag() == Self::tag_spec(),
    ;

    /// Wraps a component of this type in the store.
    fn wrap(c: Self) -> (r: S)
        ensures
            r == Self::wrap_spec(c),
            r.tag() == Self::tag_spec(),
    ;

    /// Returns the component when the store value holds this type.
    fn downcast(value: &S) -> (r: Option<&Self>)
        ensures
            r.is_some() == (value.tag() == Self::tag_spec()),
            r.is_some() ==> *r.unwrap() == Self::cast(*value),
    ;

    /// Lists the component types this one depends on.
    fn dependencies() -> (r: Vec<(TypeTag, &'static str)>)
        ensures
            r@.len() == Self::dependency_count(),
            forall|i: int| 0 <= i < r@.len() ==> r@[i] == Self::dependency_at(i as u64),
    ;
}

} // verus!
