//! Pure helpers behind the inspector's standalone field widgets.

use vstd::prelude::*;

verus! {

/// The index a cycle selector lands on: one step forward or backward
/// through `count` values, wrapping at both ends; `0` when there are no
/// values to step through.
pub open spec fn cycle_step_spec(index: int, count: int, forward: bool) -> int {
    if count == 0 {
        0
    } else if forward {
        (index + 1) % count
    } else {
        (index + count - 1) % count
    }
}

/// Step an index forward or backward through `count` values, wrapping at
/// the ends.
pub fn cycle_step(index: usize, count: usize, forward: bool) -> (next: usize)
    requires
        count == 0 || (if forward {
            index < usize::MAX
        } else {
            index + count <= usize::MAX
        }),
    ensures
        next == cycle_step_spec(index as int, count as int, forward),
        count > 0 ==> next < count,
        count == 0 ==> next == 0,
{
    if count == 0 {
        return 0;
    }
    if forward {
        (index + 1) % count
    } else {
        (index + count - 1) % count
    }
}

/// One cycle row's content: the field's label and the named value it sits
/// on, with that value's position in the variant list.
#[derive(Debug, Clone, Copy)]
pub struct CycleRow<'a> {
    pub label: &'a str,
    pub value_name: &'a str,
    pub index: usize,
    pub count: usize,
}

} // verus!
