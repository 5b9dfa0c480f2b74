//! An insertion-ordered set of pairs of indices, kept in an
//! `indexmap::IndexSet`.

use vstd::prelude::*;
use std::collections::hash_map::RandomState;
use indexmap::IndexSet;

verus! {

/// `indexmap::IndexSet`, a hash set that keeps its items in the order in
/// which they were inserted.
#[verifier::external_type_specification]
#[verifier::external_body]
#[verifier::reject_recursive_types(T)]
#[verifier::reject_recursive_types(S)]
pub struct ExIndexSet<T, S>(IndexSet<T, S>);

/// The items of a set, in the order in which they were inserted.
pub uninterp spec fn set_items(set: IndexSet<(usize, usize), RandomState>) -> Seq<(usize, usize)>;

/// Calls `IndexSet::new`, which creates a set without items.
#[verifier::external_body]
pub(crate) fn set_new() -> (set: IndexSet<(usize, usize), RandomState>)
    ensures
        set_items(set) == Seq::<(usize, usize)>::empty(),
{
    IndexSet::new()
}

/// Calls `IndexSet::insert`. Where an equal item is in the set already,
/// the set and its order stay as they are and the result is `false`;
/// otherwise the item is put behind all others and the result is `true`.
#[verifier::external_body]
pub(crate) fn set_insert(set: &mut IndexSet<(usize, usize), RandomState>, item: (usize, usize)) -> (inserted: bool)
    ensures
        inserted == !set_items(*old(set)).contains(item),
        set_items(*final(set)) == if inserted {
            set_items(*old(set)).push(item)
        } else {
            set_items(*old(set))
        },
{
    set.insert(item)
}

/// Calls `IndexSet::len`, the number of items in the set.
#[verifier::external_body]
pub(crate) fn set_len(set: &IndexSet<(usize, usize), RandomState>) -> (len: usize)
    ensures
        len == set_items(*set).len(),
{
    set.len()
}

/// Calls `IndexSet::get_index`, which gives the item at a position in
/// insertion order, or nothing at or beyond the length of the set.
#[verifier::external_body]
pub(crate) fn set_get(set: &IndexSet<(usize, usize), RandomState>, position: usize) -> (item: Option<(usize, usize)>)
    ensures
        item == if position < set_items(*set).len() {
            Some(set_items(*set)[position as int])
        } else {
            None
        },
{
    set.get_index(position).copied()
}

} // verus!
