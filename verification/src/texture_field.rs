//! The inspector's texture slot: what it shows, and the drop that assigns
//! a texture to it. (The slot's bounds are the host's floating-point
//! layout; the host says whether the drop landed inside them.)

use vstd::prelude::*;

use crate::drag_drop::{DragDropState, DragPayload, DragState};
use crate::field_style::EditResult;
use crate::text::{decimal, push_decimal, string_of};

verus! {

/// The slot's text: the texture's display path when the host resolved
/// one; else "#white" for the default handle 0, or "handle n".
pub open spec fn texture_text(handle: u32, display: Option<Seq<char>>) -> Seq<char> {
    match display {
        Some(d) => d,
        None => if handle == 0 {
            "#white"@
        } else {
            "handle "@ + decimal(handle as nat)
        },
    }
}

/// The text a texture slot shows.
pub fn texture_label(handle: u32, display: Option<&str>) -> (text: String)
    ensures
        text@ == texture_text(handle, crate::text::opt_chars(display)),
{
    match display {
        Some(d) => string_of(d),
        None => {
            if handle == 0 {
                string_of("#white")
            } else {
                let mut s = string_of("handle ");
                push_decimal(&mut s, handle as u64);
                s
            }
        },
    }
}

/// A texture drop onto the slot: when this frame's drop landed inside the
/// slot (`inside`), the slot takes it — and a texture with a handle other
/// than `handle` is the edit; the same handle is no edit, so a no-op drop
/// never dirties the scene.
pub fn take_texture_drop<P: Copy>(drag_drop: &mut DragDropState<P>, inside: bool, handle: u32) -> (edit: EditResult<u32>)
    ensures
        final(drag_drop).released_spec() == old(drag_drop).released_spec(),
        match old(drag_drop).state_spec() {
            DragState::Dropped { payload, .. } => if inside {
                &&& final(drag_drop).state_spec() is Idle
                &&& edit == (match payload {
                    DragPayload::Texture { handle: h, .. } => if h != handle {
                        EditResult::Changed(h)
                    } else {
                        EditResult::Unchanged
                    },
                    _ => EditResult::Unchanged,
                })
            } else {
                edit == EditResult::<u32>::Unchanged && final(drag_drop).state_spec() == old(
                    drag_drop,
                ).state_spec()
            },
            _ => edit == EditResult::<u32>::Unchanged && final(drag_drop).state_spec() == old(
                drag_drop,
            ).state_spec(),
        },
{
    match drag_drop.take_drop_if(inside) {
        Some((DragPayload::Texture { handle: new_handle, .. }, _)) => {
            if new_handle != handle {
                EditResult::Changed(new_handle)
            } else {
                EditResult::Unchanged
            }
        },
        _ => EditResult::Unchanged,
    }
}

} // verus!
