use editor::editor_input::{EditorInputMapping, InputState, Modifiers};
use editor::{EditorAction, EditorBinding, KeyCode, MouseButton};
use EditorAction as A;

#[test]
fn editor_input_tests_test_every_default_chord_resolves_to_its_action() {
    let mapping = EditorInputMapping::new();
    let table = [
        (KeyCode::KeyQ, false, false, A::ToolSelect),
        (KeyCode::KeyW, false, false, A::ToolMove),
        (KeyCode::KeyE, false, false, A::ToolRotate),
        (KeyCode::KeyR, false, false, A::ToolScale),
        (KeyCode::KeyZ, true, false, A::Undo),
        (KeyCode::KeyZ, true, true, A::Redo),
        (KeyCode::KeyY, true, false, A::Redo),
        (KeyCode::KeyS, true, false, A::Save),
        (KeyCode::KeyS, true, true, A::SaveAs),
        (KeyCode::KeyS, false, false, A::ToggleSnap),
        (KeyCode::KeyN, true, false, A::NewScene),
        (KeyCode::KeyO, true, false, A::OpenScene),
        (KeyCode::KeyD, true, false, A::Duplicate),
        (KeyCode::KeyC, true, false, A::Copy),
        (KeyCode::KeyC, false, false, A::ToggleColliders),
        (KeyCode::KeyV, true, false, A::Paste),
        (KeyCode::KeyX, true, false, A::Cut),
        (KeyCode::KeyA, true, false, A::SelectAll),
        (KeyCode::KeyG, false, false, A::ToggleGrid),
        (KeyCode::KeyF, false, false, A::FocusSelection),
        (KeyCode::KeyF, true, false, A::FocusSelection),
        (KeyCode::KeyF, true, true, A::ToggleCameraFollow),
        (KeyCode::Equal, false, false, A::ZoomIn),
        (KeyCode::Minus, false, false, A::ZoomOut),
        (KeyCode::Digit0, false, false, A::ResetZoom),
        (KeyCode::F2, false, false, A::RenameSelected),
        (KeyCode::F5, false, false, A::PlayResume),
        (KeyCode::KeyP, true, false, A::TogglePlayPause),
        (KeyCode::KeyP, true, true, A::StopPlay),
        // Any-mods bindings fire whatever is held.
        (KeyCode::Escape, false, false, A::Cancel),
        (KeyCode::Escape, true, true, A::Cancel),
        (KeyCode::ArrowLeft, false, true, A::NudgeLeft),
        (KeyCode::ArrowUp, false, false, A::NudgeUp),
        (KeyCode::Delete, true, false, A::Delete),
    ];
    for (key, ctrl, shift, expected) in table {
        assert_eq!(
            mapping.resolve(key, ctrl, shift),
            Some(expected),
            "chord {key:?} ctrl={ctrl} shift={shift}"
        );
    }
}

#[test]
fn editor_input_tests_test_chord_specificity_same_key_three_ways() {
    let mapping = EditorInputMapping::new();
    assert_eq!(mapping.resolve(KeyCode::KeyZ, false, false), None, "bare Z is unbound");
    assert_eq!(mapping.resolve(KeyCode::KeyZ, true, false), Some(A::Undo));
    assert_eq!(mapping.resolve(KeyCode::KeyZ, true, true), Some(A::Redo));
    assert_eq!(mapping.resolve(KeyCode::KeyD, false, false), None, "bare D must not duplicate");

    // Poll path: bare S is ToggleSnap; with Ctrl held the same key is Save.
    let mut input = InputState::new();
    input.handle_key_press(KeyCode::KeyS);
    assert!(mapping.is_action_just_pressed(A::ToggleSnap, &input));
    assert!(!mapping.is_action_just_pressed(A::Save, &input));
    input.handle_key_press(KeyCode::ControlLeft);
    assert!(mapping.is_action_just_pressed(A::Save, &input));
    assert!(!mapping.is_action_just_pressed(A::ToggleSnap, &input));
}

#[test]
fn editor_input_tests_test_rebind_evicts_only_the_exact_chord() {
    let mut mapping = EditorInputMapping::new();

    // Steal bare S for SelectAll: ToggleSnap loses it...
    mapping.bind(A::SelectAll, EditorBinding::key(KeyCode::KeyS));
    assert_eq!(mapping.resolve(KeyCode::KeyS, false, false), Some(A::SelectAll));
    assert_eq!(mapping.get_bindings(A::ToggleSnap), &[], "the evicted action has no chord left");
    // ...but Ctrl+S (Save) and Ctrl+Shift+S (SaveAs) survive untouched.
    assert_eq!(mapping.resolve(KeyCode::KeyS, true, false), Some(A::Save));
    assert_eq!(mapping.resolve(KeyCode::KeyS, true, true), Some(A::SaveAs));

    // Unbinding Undo leaves Redo's Ctrl+Shift+Z entry alone.
    mapping.unbind(A::Undo);
    assert_eq!(mapping.get_bindings(A::Undo), &[]);
    assert_eq!(mapping.resolve(KeyCode::KeyZ, true, false), None);
    assert_eq!(mapping.resolve(KeyCode::KeyZ, true, true), Some(A::Redo));
}

#[test]
fn test_pan_is_bound_to_space_and_the_middle_mouse_button() {
    let mapping = EditorInputMapping::new();
    assert_eq!(
        mapping.get_bindings(A::Pan),
        &[EditorBinding::KeyAnyMods(KeyCode::Space), EditorBinding::Mouse(MouseButton::Middle)]
    );
}

#[test]
fn test_modifiers_read_detects_left_and_right_ctrl_and_shift() {
    let mut input = InputState::new();
    assert_eq!(Modifiers::read(&input), Modifiers { ctrl: false, shift: false });

    input.handle_key_press(KeyCode::ControlLeft);
    assert_eq!(Modifiers::read(&input), Modifiers { ctrl: true, shift: false });

    input.handle_key_release(KeyCode::ControlLeft);
    input.handle_key_press(KeyCode::ControlRight);
    assert_eq!(Modifiers::read(&input), Modifiers { ctrl: true, shift: false });

    input.handle_key_press(KeyCode::ShiftLeft);
    assert_eq!(Modifiers::read(&input), Modifiers { ctrl: true, shift: true });

    input.handle_key_release(KeyCode::ControlRight);
    assert_eq!(Modifiers::read(&input), Modifiers { ctrl: false, shift: true });

    input.handle_key_release(KeyCode::ShiftLeft);
    input.handle_key_press(KeyCode::ShiftRight);
    assert_eq!(Modifiers::read(&input), Modifiers { ctrl: false, shift: true });
}

#[test]
fn editor_input_test_every_default_chord_resolves_to_its_action() {
    let m = EditorInputMapping::new();
    let table = [
        (KeyCode::KeyQ, false, false, A::ToolSelect),
        (KeyCode::KeyW, false, false, A::ToolMove),
        (KeyCode::KeyE, false, false, A::ToolRotate),
        (KeyCode::KeyR, false, false, A::ToolScale),
        (KeyCode::KeyZ, true, false, A::Undo),
        (KeyCode::KeyZ, true, true, A::Redo),
        (KeyCode::KeyY, true, false, A::Redo),
        (KeyCode::KeyS, true, false, A::Save),
        (KeyCode::KeyS, true, true, A::SaveAs),
        (KeyCode::KeyS, false, false, A::ToggleSnap),
        (KeyCode::KeyN, true, false, A::NewScene),
        (KeyCode::KeyO, true, false, A::OpenScene),
        (KeyCode::KeyD, true, false, A::Duplicate),
        (KeyCode::KeyC, true, false, A::Copy),
        (KeyCode::KeyC, false, false, A::ToggleColliders),
        (KeyCode::KeyV, true, false, A::Paste),
        (KeyCode::KeyX, true, false, A::Cut),
        (KeyCode::KeyA, true, false, A::SelectAll),
        (KeyCode::KeyG, false, false, A::ToggleGrid),
        (KeyCode::Equal, false, false, A::ZoomIn),
        (KeyCode::Minus, false, false, A::ZoomOut),
        (KeyCode::Digit0, false, false, A::ResetZoom),
        (KeyCode::F2, false, false, A::RenameSelected),
        (KeyCode::F5, false, false, A::PlayResume),
        (KeyCode::KeyP, true, false, A::TogglePlayPause),
        (KeyCode::KeyP, true, true, A::StopPlay),
    ];
    for (key, ctrl, shift, expected) in table {
        assert_eq!(m.resolve(key, ctrl, shift), Some(expected), "chord {key:?} ctrl={ctrl} shift={shift}");
    }
}

#[test]
fn editor_input_test_chord_specificity_same_key_three_ways() {
    let m = EditorInputMapping::new();
    // Z: bare unbound, Ctrl+Z undo, Ctrl+Shift+Z redo — all distinct
    assert_eq!(m.resolve(KeyCode::KeyZ, false, false), None);
    assert_eq!(m.resolve(KeyCode::KeyZ, true, false), Some(A::Undo));
    assert_eq!(m.resolve(KeyCode::KeyZ, true, true), Some(A::Redo));
    // bare D must NOT duplicate
    assert_eq!(m.resolve(KeyCode::KeyD, false, false), None);
}

#[test]
fn test_anymods_bindings_fire_under_any_modifiers() {
    let m = EditorInputMapping::new();
    // Escape and the arrows resolve regardless of held modifiers
    assert_eq!(m.resolve(KeyCode::Escape, false, false), Some(A::Cancel));
    assert_eq!(m.resolve(KeyCode::Escape, true, true), Some(A::Cancel));
    assert_eq!(m.resolve(KeyCode::ArrowLeft, false, true), Some(A::NudgeLeft));
    assert_eq!(m.resolve(KeyCode::ArrowUp, false, false), Some(A::NudgeUp));
    assert_eq!(m.resolve(KeyCode::Delete, true, false), Some(A::Delete));
}

#[test]
fn editor_input_test_rebind_evicts_only_the_exact_chord() {
    let mut m = EditorInputMapping::new();
    // Steal bare S for SelectAll: ToggleSnap loses it...
    m.bind(A::SelectAll, EditorBinding::key(KeyCode::KeyS));
    assert_eq!(m.resolve(KeyCode::KeyS, false, false), Some(A::SelectAll));
    assert!(m.get_bindings(A::ToggleSnap).is_empty());
    // ...but Ctrl+S (Save) and Ctrl+Shift+S (SaveAs) survive untouched
    assert_eq!(m.resolve(KeyCode::KeyS, true, false), Some(A::Save));
    assert_eq!(m.resolve(KeyCode::KeyS, true, true), Some(A::SaveAs));
}

#[test]
fn test_unbind_action_clears_its_index_entries() {
    let mut m = EditorInputMapping::new();
    m.unbind(A::Undo);
    assert!(m.get_bindings(A::Undo).is_empty());
    assert_eq!(m.resolve(KeyCode::KeyZ, true, false), None);
    // Redo's Ctrl+Shift+Z entry is untouched
    assert_eq!(m.resolve(KeyCode::KeyZ, true, true), Some(A::Redo));
}

#[test]
fn test_poll_methods_honor_chord_modifiers() {
    let m = EditorInputMapping::new();
    let mut input = InputState::new();

    // Bare S pressed: ToggleSnap active, Save not
    input.handle_key_press(KeyCode::KeyS);
    assert!(m.is_action_just_pressed(A::ToggleSnap, &input));
    assert!(!m.is_action_just_pressed(A::Save, &input));

    // Ctrl held: the same key press now satisfies Save, not ToggleSnap
    input.handle_key_press(KeyCode::ControlLeft);
    assert!(m.is_action_just_pressed(A::Save, &input));
    assert!(!m.is_action_just_pressed(A::ToggleSnap, &input));
}

#[test]
fn test_pan_has_multiple_bindings() {
    let mapping = EditorInputMapping::new();
    let bindings = mapping.get_bindings(A::Pan);
    // Both Space and middle mouse
    assert!(bindings.len() >= 2);
}

#[test]
fn rebinding_an_action_then_resolving_its_chord_gives_the_action() {
    let mut m = EditorInputMapping::new();
    m.bind(A::Duplicate, EditorBinding::ctrl_shift(KeyCode::KeyD));
    assert_eq!(m.resolve(KeyCode::KeyD, true, true), Some(A::Duplicate));
    assert_eq!(m.resolve(KeyCode::KeyD, true, false), Some(A::Duplicate), "the old chord stays bound");
    assert!(m.get_bindings(A::Duplicate).contains(&EditorBinding::ctrl_shift(KeyCode::KeyD)));
}

#[test]
fn unbound_action_never_resolves_and_is_never_pressed() {
    let mut m = EditorInputMapping::new();
    m.unbind(A::ToggleGrid);
    assert_eq!(m.resolve(KeyCode::KeyG, false, false), None);
    let mut input = InputState::new();
    input.handle_key_press(KeyCode::KeyG);
    assert!(!m.is_action_pressed(A::ToggleGrid, &input));
    assert!(!m.is_action_just_pressed(A::ToggleGrid, &input));
}

#[test]
fn update_clears_the_just_pressed_edge_but_keeps_the_held_key() {
    let m = EditorInputMapping::new();
    let mut input = InputState::new();
    input.handle_key_press(KeyCode::KeyS);
    input.update();
    assert!(!m.is_action_just_pressed(A::ToggleSnap, &input));
    assert!(m.is_action_pressed(A::ToggleSnap, &input));
    input.handle_key_release(KeyCode::KeyS);
    assert!(!m.is_action_pressed(A::ToggleSnap, &input));
}

#[test]
fn update_state_reads_the_pan_and_selection_modifiers() {
    let m = EditorInputMapping::new();
    let mut input = InputState::new();
    input.handle_key_press(KeyCode::ShiftLeft);
    input.handle_button_press(MouseButton::Middle);
    let state = m.update_state(&input);
    assert!(state.add_modifier);
    assert!(!state.toggle_modifier);
    assert!(state.pan_modifier, "the middle button pans");
    assert!(state.middle_button.pressed && state.middle_button.just_pressed);
    assert!(!state.primary_button.pressed);
}
