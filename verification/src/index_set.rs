//! The insertion-ordered set the selection keeps its entities in
//! (`indexmap::IndexSet`), declared to Verus with one name for its
//! contents and one trusted wrapper per method the selection calls.

use indexmap::IndexSet;
use vstd::prelude::*;

verus! {

/// Declaration of `indexmap::IndexSet` (default hasher) so it can stand in
/// the selection's fields.
#[verifier::external_type_specification]
#[verifier::external_body]
#[verifier::reject_recursive_types(T)]
#[verifier::reject_recursive_types(S)]
pub struct ExIndexSet<T, S>(IndexSet<T, S>);

/// The items of an entity-key set, in insertion order.
pub uninterp spec fn index_set_items(set: IndexSet<(u64, u32)>) -> Seq<(u64, u32)>;

/// `IndexSet::new`: a new set holds nothing.
#[verifier::external_body]
pub(crate) fn key_set_new() -> (set: IndexSet<(u64, u32)>)
    ensures
        index_set_items(set) == Seq::<(u64, u32)>::empty(),
{
    IndexSet::new()
}

/// `IndexSet::clone`: a copy holding the same items in the same order.
#[verifier::external_body]
pub(crate) fn key_set_clone(set: &IndexSet<(u64, u32)>) -> (copy: IndexSet<(u64, u32)>)
    ensures
        index_set_items(copy) == index_set_items(*set),
{
    set.clone()
}

/// `IndexSet::clear`: afterwards the set holds nothing.
#[verifier::external_body]
pub(crate) fn key_set_clear(set: &mut IndexSet<(u64, u32)>)
    ensures
        index_set_items(*final(set)) == Seq::<(u64, u32)>::empty(),
{
    set.clear()
}

/// `IndexSet::insert`: a value already present leaves the set as it was
/// (and its position unchanged) and returns `false`; a new value is
/// appended at the end and `true` is returned.
#[verifier::external_body]
pub(crate) fn key_set_insert(set: &mut IndexSet<(u64, u32)>, value: (u64, u32)) -> (inserted: bool)
    ensures
        inserted == !index_set_items(*old(set)).contains(value),
        index_set_items(*final(set)) == (if index_set_items(*old(set)).contains(value) {
            index_set_items(*old(set))
        } else {
            index_set_items(*old(set)).push(value)
        }),
{
    set.insert(value)
}

/// `IndexSet::contains`: whether the value is among the items.
#[verifier::external_body]
pub(crate) fn key_set_contains(set: &IndexSet<(u64, u32)>, value: (u64, u32)) -> (present: bool)
    ensures
        present == index_set_items(*set).contains(value),
{
    set.contains(&value)
}

/// `IndexSet::shift_remove`: the value's first (only) occurrence is taken
/// out and every later item shifts down one place, keeping their order;
/// returns whether the value was present.
#[verifier::external_body]
pub(crate) fn key_set_shift_remove(set: &mut IndexSet<(u64, u32)>, value: (u64, u32)) -> (removed: bool)
    ensures
        removed == index_set_items(*old(set)).contains(value),
        index_set_items(*final(set)) == index_set_items(*old(set)).remove_value(value),
{
    set.shift_remove(&value)
}

/// `IndexSet::first`: the earliest item, if any.
#[verifier::external_body]
pub(crate) fn key_set_first(set: &IndexSet<(u64, u32)>) -> (first: Option<(u64, u32)>)
    ensures
        first == (if index_set_items(*set).len() > 0 {
            Some(index_set_items(*set)[0])
        } else {
            None::<(u64, u32)>
        }),
{
    set.first().copied()
}

/// `IndexSet::len`: the number of items.
#[verifier::external_body]
pub(crate) fn key_set_len(set: &IndexSet<(u64, u32)>) -> (len: usize)
    ensures
        len == index_set_items(*set).len(),
{
    set.len()
}

/// `IndexSet::get_index`: the item at `index` in insertion order.
#[verifier::external_body]
pub(crate) fn key_set_get_index(set: &IndexSet<(u64, u32)>, index: usize) -> (item: Option<(u64, u32)>)
    ensures
        item == (if index < index_set_items(*set).len() {
            Some(index_set_items(*set)[index as int])
        } else {
            None::<(u64, u32)>
        }),
{
    set.get_index(index).copied()
}

} // verus!
