use editor::drag_drop::{DragDropState, DragPayload};
use editor::field_style::EditResult;
use editor::hierarchy::take_script_drop;
use editor::texture_field::{take_texture_drop, texture_label};
use editor::inspector_state::{ColorEditorTarget, InspectorState};
use editor::EntityId;

type Rect = (f32, f32, f32, f32);
type Vec4 = [f32; 4];
const ONE: Vec4 = [1.0, 1.0, 1.0, 1.0];
const ZERO: Vec4 = [0.0, 0.0, 0.0, 0.0];

type Vec2 = (f32, f32);
const DRAG_THRESHOLD: f32 = 4.0;
const ANYWHERE: Rect = (0.0, 0.0, 1000.0, 1000.0);

fn contains(r: Rect, p: Vec2) -> bool {
    p.0 >= r.0 && p.0 <= r.0 + r.2 && p.1 >= r.1 && p.1 <= r.1 + r.3
}

/// The host's frame step: the threshold measured from the armed press.
fn begin_frame(dd: &mut DragDropState<Vec2>, mouse: Vec2, down: bool, released: bool) {
    let past = dd
        .armed_press_pos()
        .is_some_and(|p| ((mouse.0 - p.0).powi(2) + (mouse.1 - p.1).powi(2)).sqrt() >= DRAG_THRESHOLD);
    dd.begin_frame(mouse, down, released, past);
}

/// A drop target asking for the drop inside its bounds.
fn take_drop_in(dd: &mut DragDropState<Vec2>, bounds: Rect) -> Option<(DragPayload, Vec2)> {
    let inside = dd.drop_position().is_some_and(|p| contains(bounds, p));
    dd.take_drop_if(inside)
}

fn texture_payload() -> DragPayload {
    DragPayload::Texture { handle: 7, path: "player.png".into() }
}

/// Arm at (100,100), drag past the threshold, release at `drop_pos`.
fn drag_and_drop_at(drop_pos: Vec2) -> DragDropState<Vec2> {
    let mut dd = DragDropState::new();
    dd.arm(texture_payload(), (100.0, 100.0));
    begin_frame(&mut dd, (150.0, 150.0), true, false);
    assert_eq!(dd.dragging_payload(), Some(&texture_payload()), "past the threshold the drag is live");
    assert!(dd.suppresses_click(), "a live drag is not a click");
    begin_frame(&mut dd, drop_pos, false, true);
    dd
}

#[test]
fn test_release_under_threshold_is_a_click_not_a_drag() {
    let mut dd = DragDropState::new();
    dd.arm(texture_payload(), (100.0, 100.0));
    begin_frame(&mut dd, (102.0, 100.0), false, true); // released 2px away

    assert_eq!(dd.dragging_payload(), None);
    assert!(!dd.suppresses_click(), "a plain click must not be suppressed");
    assert_eq!(take_drop_in(&mut dd, ANYWHERE), None);
}

#[test]
fn test_drop_is_consumed_once_by_the_first_target_that_contains_it() {
    let mut dd = drag_and_drop_at((300.0, 200.0));
    assert!(dd.suppresses_click(), "the release frame still suppresses clicks");

    // A target whose bounds miss the drop leaves it for the others...
    assert_eq!(take_drop_in(&mut dd, (0.0, 0.0, 50.0, 50.0)), None);
    // ...the containing target takes it, payload and position...
    assert_eq!(take_drop_in(&mut dd, (250.0, 150.0, 200.0, 200.0)), Some((texture_payload(), (300.0, 200.0))));
    // ...and a second taker gets nothing.
    assert_eq!(take_drop_in(&mut dd, ANYWHERE), None);
}

#[test]
fn test_unconsumed_drop_expires_after_one_frame() {
    let mut dd = drag_and_drop_at((300.0, 200.0));

    begin_frame(&mut dd, (300.0, 200.0), false, false);

    assert!(!dd.suppresses_click());
    assert_eq!(take_drop_in(&mut dd, ANYWHERE), None, "nobody consumed it — it is gone, not stuck");
}

#[test]
fn test_arming_while_a_drag_is_in_flight_is_ignored() {
    let mut dd = DragDropState::new();
    dd.arm(texture_payload(), (100.0, 100.0));
    begin_frame(&mut dd, (150.0, 150.0), true, false);

    let other = DragPayload::Texture { handle: 99, path: "other.png".into() };
    dd.arm(other, (0.0, 0.0));

    assert_eq!(dd.dragging_payload(), Some(&texture_payload()), "the in-flight drag wins");
}

#[test]
fn a_drag_whose_release_was_missed_drops_where_the_mouse_is() {
    let mut dd = DragDropState::new();
    dd.arm(DragPayload::Script { path: "scripts/mover.rhai".into() }, (0.0, 0.0));
    begin_frame(&mut dd, (10.0, 0.0), true, false);
    begin_frame(&mut dd, (40.0, 5.0), false, false);
    assert_eq!(dd.drop_position(), Some((40.0, 5.0)));
}

#[test]
fn test_collapsed_sections_toggle_round_trip_through_the_persisted_names() {
    let mut state: InspectorState<Rect, Vec4> = InspectorState::default();
    assert!(!state.is_collapsed("Sprite"));
    state.toggle_collapsed("Sprite");
    state.toggle_collapsed("Collider");
    assert!(state.is_collapsed("Sprite"));
    assert_eq!(state.collapsed_names(), vec!["Collider".to_string(), "Sprite".to_string()]);

    state.toggle_collapsed("Sprite");
    assert!(!state.is_collapsed("Sprite"), "toggling again expands it");

    let mut restored: InspectorState<Rect, Vec4> = InspectorState::default();
    restored.set_collapsed_names(vec!["Sprite".to_string(), "Gone".to_string()]);
    assert!(restored.is_collapsed("Sprite"));
    assert!(restored.is_collapsed("Gone"), "a name the registry no longer knows is kept, not dropped");
}

#[test]
fn test_the_colour_editor_holds_one_target_and_reports_whether_closing_did_anything() {
    let mut state: InspectorState<Rect, Vec4> = InspectorState::default();
    assert!(!state.close_color_editor(), "nothing to close");
    let entity = EntityId::with_generation(4, 1);
    let target = ColorEditorTarget { entity, component: "Sprite".to_string(), field_index: 3 };
    let anchor = (10.0, 20.0, 20.0, 20.0);
    state.open_color_editor(target.clone(), anchor, ONE);

    assert_eq!(state.color_editor(), Some(&target));
    assert_eq!(state.color_editor_field(entity, "Sprite"), Some(3));
    assert_eq!(
        state.color_editor_field(entity, "GridBackdrop"),
        None,
        "another component's colour row is not the target"
    );
    assert_eq!(state.color_editor_frame(), Some((anchor, ONE)));
    assert!(state.color_editor_row_was_seen(), "the row that opened it had just drawn");

    assert!(state.close_color_editor(), "closing an open editor reports it");
    assert_eq!(state.color_editor(), None);
}

#[test]
fn test_the_popups_edit_is_taken_by_its_own_row_and_by_no_other() {
    let mut state: InspectorState<Rect, Vec4> = InspectorState::default();
    let entity = EntityId::with_generation(7, 1);
    let anchor = (0.0, 0.0, 20.0, 20.0);
    state.open_color_editor(
        ColorEditorTarget { entity, component: "Sprite".to_string(), field_index: 3 },
        anchor,
        ONE,
    );
    state.set_color_edit([0.5, 0.5, 0.5, 1.0]);

    assert_eq!(state.take_color_edit_for(entity, "GridBackdrop"), None);
    assert_eq!(
        state.take_color_edit_for(EntityId::with_generation(8, 1), "Sprite"),
        None,
        "another entity's Sprite row is not the target either"
    );
    assert_eq!(state.take_color_edit_for(entity, "Sprite"), Some([0.5, 0.5, 0.5, 1.0]));
    assert_eq!(state.take_color_edit_for(entity, "Sprite"), None, "an edit is written once");
    assert_eq!(
        state.color_editor_frame().map(|(_, value)| value),
        Some([0.5, 0.5, 0.5, 1.0]),
        "the popup keeps showing what it edited to while the row catches up"
    );
}

#[test]
fn test_a_row_that_stops_rendering_takes_the_editor_with_it() {
    let mut state: InspectorState<Rect, Vec4> = InspectorState::default();
    let entity = EntityId::with_generation(2, 1);
    let anchor = (4.0, 8.0, 20.0, 20.0);
    state.open_color_editor(
        ColorEditorTarget { entity, component: "Sprite".to_string(), field_index: 3 },
        anchor,
        ONE,
    );

    state.clear_color_editor_seen();
    assert!(!state.color_editor_row_was_seen(), "no walk has drawn the row since");

    let moved = (4.0, 40.0, 20.0, 20.0);
    state.note_color_row(moved, ZERO);
    assert!(state.color_editor_row_was_seen());
    assert_eq!(state.color_editor_frame(), Some((moved, ZERO)), "the popup follows its swatch as the panel scrolls");
}

#[test]
fn advanced_disclosures_toggle_independently_of_collapse() {
    let mut state: InspectorState<Rect, Vec4> = InspectorState::new();
    state.toggle_advanced("Sprite");
    assert!(state.is_advanced_open("Sprite"));
    assert!(!state.is_collapsed("Sprite"));
    state.toggle_advanced("Sprite");
    assert!(!state.is_advanced_open("Sprite"));
}

#[test]
fn a_close_after_an_edit_waits_for_the_row() {
    let mut state: InspectorState<Rect, Vec4> = InspectorState::new();
    assert!(!state.color_editor_closing());
    state.open_color_editor(
        ColorEditorTarget { entity: EntityId::with_generation(1, 1), component: "Sprite".to_string(), field_index: 0 },
        (0.0, 0.0, 1.0, 1.0),
        ONE,
    );
    state.close_color_editor_after_edit();
    assert!(state.color_editor_closing());
    assert!(state.color_editor().is_some(), "the editor stays until the row's walk");
}

/// Arm a texture drag, move past the threshold, release at `pos`.
fn drop_texture_at(drag_drop: &mut DragDropState<Vec2>, handle: u32, pos: Vec2) {
    drag_drop.arm(DragPayload::Texture { handle, path: "tex.png".into() }, (0.0, 0.0));
    begin_frame(drag_drop, (50.0, 50.0), true, false);
    begin_frame(drag_drop, pos, false, true);
}

#[test]
fn test_texture_drop_assigns_the_handle_only_inside_the_slot_and_only_when_it_changes() {
    // The slot's bounds as the host laid them out.
    let slot: Rect = (110.0, 12.0, 160.0, 16.0);
    let slot_center = (130.0, 20.0);
    let cases = [
        (7, slot_center, EditResult::Changed(7)),
        (7, (700.0, 500.0), EditResult::Unchanged), // dropped elsewhere
        (1, slot_center, EditResult::Unchanged),    // the handle it already has
    ];
    for (dropped, at, expected) in cases {
        let mut drag_drop = DragDropState::new();
        drop_texture_at(&mut drag_drop, dropped, at);
        let inside = drag_drop.drop_position().is_some_and(|p| contains(slot, p));
        let result = take_texture_drop(&mut drag_drop, inside, 1);
        assert_eq!(result, expected, "dropping handle {dropped} at {at:?} (a no-op drop must not dirty the scene)");
    }
}

#[test]
fn texture_slots_show_the_path_or_the_handle() {
    assert_eq!(texture_label(3, Some("player.png")), "player.png");
    assert_eq!(texture_label(0, None), "#white");
    assert_eq!(texture_label(12, None), "handle 12");
}

#[test]
fn a_script_dropped_on_a_row_attaches_to_its_entity() {
    let entity = EntityId::with_generation(3, 1);
    let mut dd = DragDropState::new();
    dd.arm(DragPayload::Script { path: "scripts/mover.rhai".into() }, (0.0, 0.0));
    begin_frame(&mut dd, (20.0, 0.0), true, false);
    begin_frame(&mut dd, (20.0, 0.0), false, true);
    assert_eq!(take_script_drop(&mut dd, false, entity), None, "a row the drop missed");
    assert_eq!(take_script_drop(&mut dd, true, entity), Some((entity, "scripts/mover.rhai".to_string())));
    assert!(dd.suppresses_click(), "the release frame still suppresses clicks after the take");
    begin_frame(&mut dd, (20.0, 0.0), false, false);
    assert!(!dd.suppresses_click(), "the next frame clicks again");

    let mut dd = DragDropState::new();
    dd.arm(texture_payload(), (0.0, 0.0));
    begin_frame(&mut dd, (20.0, 0.0), true, false);
    begin_frame(&mut dd, (20.0, 0.0), false, true);
    assert_eq!(take_script_drop(&mut dd, true, entity), None, "a texture on a row is ignored");
    assert_eq!(dd.drop_position(), None, "but taken");
}

#[test]
fn a_taken_drop_still_suppresses_clicks_for_the_rest_of_its_release_frame() {
    let mut dd = drag_and_drop_at((300.0, 200.0));
    assert_eq!(take_drop_in(&mut dd, (250.0, 150.0, 200.0, 200.0)), Some((texture_payload(), (300.0, 200.0))));
    assert!(dd.suppresses_click(), "a drop never doubles as a click under the cursor");
    begin_frame(&mut dd, (300.0, 200.0), false, false);
    assert!(!dd.suppresses_click());
}
