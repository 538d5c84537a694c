use editor::field_style::{EditResult, FieldId, WidgetSlot};
use editor::cycle_step;
use std::collections::HashSet;

#[test]
fn test_widget_slots_are_pairwise_distinct_and_isolated_per_component() {
    let component = 3;
    let mut ids = HashSet::new();

    for field_idx in 0..50 {
        let id = FieldId::slot(component, WidgetSlot::Field(field_idx)).widget_id();
        assert!(ids.insert(id), "Field({field_idx}) must be unique");
    }

    let remove_id = FieldId::slot(component, WidgetSlot::Remove).widget_id();
    assert!(ids.insert(remove_id), "Remove must be unique");

    let add_id = FieldId::slot(component, WidgetSlot::AddButton).widget_id();
    assert!(ids.insert(add_id), "AddButton must be unique");

    for popup_row in 0..50 {
        let id = FieldId::slot(component, WidgetSlot::PopupRow(popup_row)).widget_id();
        assert!(ids.insert(id), "PopupRow({popup_row}) must be unique");
    }

    // None equals any id of component + 1
    let next_component = component + 1;
    for field_idx in 0..50 {
        let next_id = FieldId::slot(next_component, WidgetSlot::Field(field_idx)).widget_id();
        assert!(!ids.contains(&next_id));
    }
    let next_remove = FieldId::slot(next_component, WidgetSlot::Remove).widget_id();
    assert!(!ids.contains(&next_remove));
}

#[test]
fn test_assign_writes_slot_and_hint_and_subsequent_unchanged_preserves_hint() {
    let mut slot_a = 10.0f32;
    let mut slot_b = 20.0f32;
    let mut hint: Option<&'static str> = None;

    EditResult::Changed(15.0f32).assign(&mut slot_a, &mut hint, "field_a");
    assert_eq!(slot_a, 15.0);
    assert_eq!(hint, Some("field_a"));

    EditResult::Unchanged.assign(&mut slot_b, &mut hint, "field_b");
    assert_eq!(slot_b, 20.0);
    assert_eq!(hint, Some("field_a"));
}

#[test]
fn test_cycle_step_wraps_both_directions_and_survives_zero_variants() {
    assert_eq!(cycle_step(0, 7, true), 1);
    assert_eq!(cycle_step(6, 7, true), 0, "forward wraps to the first variant");
    assert_eq!(cycle_step(0, 7, false), 6, "backward wraps to the last variant");
    assert_eq!(cycle_step(3, 7, false), 2);
    // An empty variant list must not underflow `count - 1`.
    assert_eq!(cycle_step(5, 0, true), 0);
    assert_eq!(cycle_step(5, 0, false), 0);
}

#[test]
fn edit_result_accessors_read_the_change() {
    let changed = EditResult::Changed(3u32);
    let unchanged: EditResult<u32> = EditResult::Unchanged;
    assert!(changed.is_changed());
    assert!(!unchanged.is_changed());
    assert_eq!(changed.new_value(), Some(&3));
    assert_eq!(unchanged.new_value(), None);
    assert_eq!(changed.unwrap_or(9), 3);
    assert_eq!(unchanged.unwrap_or(9), 9);
}

#[test]
fn field_ids_differ_by_any_index() {
    let a = FieldId::new(1, 2, 0).widget_id();
    let b = FieldId::new(1, 2, 1).widget_id();
    let c = FieldId::new(2, 2, 0).widget_id();
    assert_ne!(a, b);
    assert_ne!(a, c);
    assert_eq!(FieldId::new(1, 2, 0), FieldId::new(1, 2, 0));
}
