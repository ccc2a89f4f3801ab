use vec_key_value_pair::set::VecSet;
use vstd::prelude::*;

verus! {

#[verifier::external_type_specification]
#[verifier::external_body]
#[verifier::reject_recursive_types(T)]
pub struct ExVecSet<T>(VecSet<T>);

/// The ids held by a set, in the order they were first inserted.
pub uninterp spec fn vec_set_items(s: VecSet<u128>) -> Seq<u128>;

/// Relies on `VecSet::new`: a set with no items.
#[verifier::external_body]
pub(crate) fn empty_id_set() -> (r: VecSet<u128>)
    ensures
        vec_set_items(r) == Seq::<u128>::empty(),
{
    VecSet::new()
}

/// Relies on `VecSet::insert`: the value is appended unless it is already
/// present, and the result says whether it was appended.
#[verifier::external_body]
pub(crate) fn insert_id(s: &mut VecSet<u128>, v: u128) -> (r: bool)
    ensures
        r == !vec_set_items(*old(s)).contains(v),
        vec_set_items(*final(s)) == (if r {
            vec_set_items(*old(s)).push(v)
        } else {
            vec_set_items(*old(s))
        }),
{
    s.insert(v)
}

/// Relies on `VecSet::iter`: it yields the items in insertion order.
#[verifier::external_body]
pub(crate) fn id_list(s: &VecSet<u128>) -> (r: Vec<u128>)
    ensures
        r@ == vec_set_items(*s),
{
    s.iter().copied().collect()
}

} // verus!
