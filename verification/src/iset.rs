//! Trusted view of `indexmap::IndexSet` for membership testing over
//! numeric ids: the engine loads the local id listing into such a set and
//! asks it which remote ids are already present.
use vstd::prelude::*;
use std::collections::hash_map::RandomState;
use indexmap::IndexSet;

verus! {

/// An insertion-ordered hash set from the indexmap crate; the library uses
/// it only through the wrappers below and views it as the set of values it
/// holds.
#[verifier::external_type_specification]
#[verifier::external_body]
#[verifier::reject_recursive_types(T)]
#[verifier::reject_recursive_types(S)]
pub struct ExIndexSet<T, S>(IndexSet<T, S>);

/// The set of values an id set holds.
pub uninterp spec fn id_set_elems(s: IndexSet<u32, RandomState>) -> Set<u32>;

/// Relies on indexmap::IndexSet::new: a fresh set holds nothing.
#[verifier::external_body]
pub(crate) fn id_set_new() -> (s: IndexSet<u32, RandomState>)
    ensures
        id_set_elems(s) == Set::<u32>::empty(),
{
    IndexSet::new()
}

/// Relies on indexmap::IndexSet::insert: afterwards the set holds the
/// value and everything it held before.
#[verifier::external_body]
pub(crate) fn id_set_insert(s: &mut IndexSet<u32, RandomState>, v: u32)
    ensures
        id_set_elems(*final(s)) == id_set_elems(*old(s)).insert(v),
{
    s.insert(v);
}

/// Relies on indexmap::IndexSet::contains: whether the set holds the
/// value.
#[verifier::external_body]
pub(crate) fn id_set_contains(s: &IndexSet<u32, RandomState>, v: u32) -> (r: bool)
    ensures
        r == id_set_elems(*s).contains(v),
{
    s.contains(&v)
}

} // verus!
