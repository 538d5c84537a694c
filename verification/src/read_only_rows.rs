//! The read-only form of inspector values, as a play session shows them.

use vstd::prelude::*;

verus! {

/// A boolean as the scene file spells it, not as the checkbox draws it.
pub fn bool_text(value: bool) -> (text: &'static str)
    ensures
        text@ == (if value { "true"@ } else { "false"@ }),
{
    if value {
        "true"
    } else {
        "false"
    }
}

} // verus!
