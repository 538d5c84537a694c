//! Inspector field identity and edit results.
//!
//! `FieldId` maps an inspector field to a stable widget id; `EditResult<T>`
//! reports whether a single field changed this frame.

use vstd::prelude::*;

verus! {

/// Widget-id stride between components (a component may use up to this
/// many field ids).
pub const COMPONENT_ID_STRIDE: u64 = 10_000;

/// Widget-id stride between fields (a field may use up to this many
/// subfield ids).
pub const FIELD_ID_STRIDE: u64 = 100;

/// Special widget slots for components in the inspector.
#[derive(Debug, Clone, Copy, PartialEq, Eq, Hash, Structural)]
pub enum WidgetSlot {
    /// A regular inspector field with index `n`.
    Field(usize),
    /// The remove [X] button for the component.
    Remove,
    /// The "+ Add Component" button below the component list.
    AddButton,
    /// A row in the Add Component popup with row index `n`.
    PopupRow(usize),
}

/// Unique identifier for inspector fields.
#[derive(Debug, Clone, Copy, PartialEq, Eq, Hash, Structural)]
pub struct FieldId {
    pub component_index: usize,
    pub field_index: usize,
    pub subfield_index: usize,
}

/// The field id a slot of a component takes.
pub open spec fn slot_field_id(component_index: usize, slot: WidgetSlot) -> FieldId {
    match slot {
        WidgetSlot::Field(f) => FieldId { component_index, field_index: f, subfield_index: 0 },
        WidgetSlot::Remove => FieldId { component_index, field_index: 97, subfield_index: 0 },
        WidgetSlot::AddButton => FieldId { component_index, field_index: 98, subfield_index: 0 },
        WidgetSlot::PopupRow(r) => FieldId { component_index, field_index: 99, subfield_index: r },
    }
}

/// The widget id of a field.
pub open spec fn widget_id_spec(id: FieldId) -> int {
    id.component_index * COMPONENT_ID_STRIDE + id.field_index * FIELD_ID_STRIDE + id.subfield_index
}

/// A slot whose id stays inside its component's id space: a regular field
/// below the reserved field indices, a popup row below the field stride.
pub open spec fn slot_in_range(slot: WidgetSlot) -> bool {
    match slot {
        WidgetSlot::Field(f) => f < 97,
        WidgetSlot::PopupRow(r) => r < FIELD_ID_STRIDE,
        _ => true,
    }
}

impl FieldId {
    /// Create a new field id.
    pub fn new(component_index: usize, field_index: usize, subfield_index: usize) -> (id: Self)
        ensures
            id == (FieldId { component_index, field_index, subfield_index }),
    {
        FieldId { component_index, field_index, subfield_index }
    }

    /// The field id for a slot within a component's id space. A popup row
    /// rides in the subfield slot, so it must stay below the field stride.
    pub fn slot(component_index: usize, slot: WidgetSlot) -> (id: Self)
        requires
            slot matches WidgetSlot::PopupRow(r) ==> r < FIELD_ID_STRIDE,
        ensures
            id == slot_field_id(component_index, slot),
    {
        match slot {
            WidgetSlot::Field(field_index) => Self::new(component_index, field_index, 0),
            WidgetSlot::Remove => Self::new(component_index, 97, 0),
            WidgetSlot::AddButton => Self::new(component_index, 98, 0),
            WidgetSlot::PopupRow(row_index) => Self::new(component_index, 99, row_index),
        }
    }

    /// The widget id of this field:
    /// `component * 10000 + field * 100 + subfield`.
    pub fn widget_id(&self) -> (id: u64)
        requires
            widget_id_spec(*self) <= u64::MAX,
        ensures
            id == widget_id_spec(*self),
    {
        let c = self.component_index as u64;
        let f = self.field_index as u64;
        let s = self.subfield_index as u64;
        assert(c * COMPONENT_ID_STRIDE <= widget_id_spec(*self)) by (nonlinear_arith)
            requires
                widget_id_spec(*self) == c * COMPONENT_ID_STRIDE + f * FIELD_ID_STRIDE + s,
                f >= 0,
                s >= 0,
        ;
        assert(f * FIELD_ID_STRIDE <= widget_id_spec(*self)) by (nonlinear_arith)
            requires
                widget_id_spec(*self) == c * COMPONENT_ID_STRIDE + f * FIELD_ID_STRIDE + s,
                c >= 0,
                s >= 0,
        ;
        c * COMPONENT_ID_STRIDE + f * FIELD_ID_STRIDE + s
    }
}

/// Widget ids never collide: two in-range slots, of the same component or
/// of different ones, have the same widget id only when they are the same
/// slot of the same component.
pub proof fn lemma_slot_ids_distinct(c1: usize, s1: WidgetSlot, c2: usize, s2: WidgetSlot)
    requires
        slot_in_range(s1),
        slot_in_range(s2),
        widget_id_spec(slot_field_id(c1, s1)) == widget_id_spec(slot_field_id(c2, s2)),
    ensures
        c1 == c2,
        s1 == s2,
{
    let a = slot_field_id(c1, s1);
    let b = slot_field_id(c2, s2);
    let fa = a.field_index as int;
    let fb = b.field_index as int;
    let sa = a.subfield_index as int;
    let sb = b.subfield_index as int;
    assert(fa < 100 && sa < 100 && fb < 100 && sb < 100);
    let low_a = fa * 100 + sa;
    let low_b = fb * 100 + sb;
    assert(low_a < 10000 && low_b < 10000) by (nonlinear_arith)
        requires
            0 <= fa < 100,
            0 <= sa < 100,
            0 <= fb < 100,
            0 <= sb < 100,
            low_a == fa * 100 + sa,
            low_b == fb * 100 + sb,
    ;
    assert(c1 == c2 && low_a == low_b) by (nonlinear_arith)
        requires
            c1 * 10000 + low_a == c2 * 10000 + low_b,
            0 <= low_a < 10000,
            0 <= low_b < 10000,
            c1 >= 0,
            c2 >= 0,
    ;
    assert(fa == fb && sa == sb) by (nonlinear_arith)
        requires
            fa * 100 + sa == fb * 100 + sb,
            0 <= sa < 100,
            0 <= sb < 100,
            fa >= 0,
            fb >= 0,
    ;
}

/// Result of editing a field.
#[derive(Debug, Clone, Copy, PartialEq, Eq, Structural)]
pub enum EditResult<T> {
    /// Value was not changed.
    Unchanged,
    /// Value was modified to a new value.
    Changed(T),
}

impl<T> EditResult<T> {
    /// Whether the value was changed.
    pub fn is_changed(&self) -> (changed: bool)
        ensures
            changed == (*self is Changed),
    {
        matches!(self, EditResult::Changed(_))
    }

    /// The new value if changed.
    pub fn new_value(&self) -> (value: Option<&T>)
        ensures
            match *self {
                EditResult::Changed(v) => value == Some(&v),
                EditResult::Unchanged => value is None,
            },
    {
        match self {
            EditResult::Changed(v) => Some(v),
            EditResult::Unchanged => None,
        }
    }

    /// The new value if changed, otherwise `original`.
    pub fn unwrap_or(self, original: T) -> (value: T)
        ensures
            value == (match self {
                EditResult::Changed(v) => v,
                EditResult::Unchanged => original,
            }),
    {
        match self {
            EditResult::Changed(v) => v,
            EditResult::Unchanged => original,
        }
    }

    /// Write a changed value into `slot` and record `name` as the field
    /// hint; an unchanged result leaves both alone.
    pub fn assign(self, slot: &mut T, hint: &mut Option<&'static str>, name: &'static str)
        ensures
            match self {
                EditResult::Changed(v) => *final(slot) == v && *final(hint) == Some(name),
                EditResult::Unchanged => *final(slot) == *old(slot) && *final(hint) == *old(hint),
            },
    {
        if let EditResult::Changed(value) = self {
            *slot = value;
            *hint = Some(name);
        }
    }
}

/// A field renderer's report: the edit result plus any warnings the host
/// should surface (a typed value outside its soft range).
#[derive(Debug, Clone, PartialEq)]
pub struct FieldEdit<T> {
    pub result: EditResult<T>,
    pub warnings: Vec<String>,
}

} // verus!
