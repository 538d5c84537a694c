use editor::gizmo::{Corner, GizmoDrag, GizmoHandle, GizmoMode};
use editor::menu_actions::action_for_menu_label;
use editor::names::SortedNames;
use editor::picking::{PickCycle, PickResult};
use editor::read_only_rows::bool_text;
use editor::script_params::{param_rename, unique_param_name};
use editor::stored_component::{
    available_components, categorized_components, is_dynamic_component, unknown_component_error, ComponentCategory,
    ComponentKind, ComponentRef,
};
use editor::world_snapshot::{display_names, drop_report, loss_warning, short_type_name, uncaptured_type_names};
use editor::{EditorAction, EntityId};

fn entity(id: u64) -> EntityId {
    EntityId::with_generation(id, 1)
}

#[test]
fn test_snapshot_reports_unregistered_types_once_and_drops_only_them_on_restore() {
    // Present on two entities, reported once — announced BEFORE Stop.
    let uncaptured = uncaptured_type_names(&["game::EnemyAi".to_string(), "game::EnemyAi".to_string()]);
    assert_eq!(uncaptured.len(), 1);
    assert!(uncaptured[0].contains("EnemyAi"));
    let paths: Vec<&str> = uncaptured.iter().map(|s| s.as_str()).collect();
    let warning = loss_warning(&paths).expect("loss must be announced");
    assert!(warning.contains("EnemyAi") && warning.contains("lost on Stop"), "{warning}");
    let report = drop_report(&paths).expect("drop must be reported");
    assert!(report.contains("EnemyAi") && report.contains("dropped 1"), "{report}");

    // Reports use short names unless two full paths collide.
    assert_eq!(
        display_names(&["game::enemy::Ai", "game::player::Ai", "game::Brain<u32>"]),
        vec!["game::enemy::Ai".to_string(), "game::player::Ai".to_string(), "Brain".to_string()]
    );
}

#[test]
fn a_complete_capture_warns_of_nothing() {
    assert_eq!(loss_warning(&[]), None);
    assert_eq!(drop_report(&[]), None);
}

#[test]
fn warnings_spell_out_the_count_and_the_names() {
    assert_eq!(
        loss_warning(&["game::ai::Brain<State>", "Tag"]).as_deref(),
        Some("2 component type(s) not in the editor registry will be lost on Stop: Brain, Tag")
    );
    assert_eq!(
        drop_report(&["a::X"]).as_deref(),
        Some("Restored authored scene; dropped 1 unregistered component type(s): X")
    );
}

#[test]
fn short_type_names_drop_generics_and_the_path() {
    assert_eq!(short_type_name("game::ai::Brain<State>"), "Brain");
    assert_eq!(short_type_name("Plain"), "Plain");
    assert_eq!(short_type_name("a::b<c::D>"), "b");
    assert_eq!(short_type_name("x:::y"), "y");
    assert_eq!(short_type_name(""), "");
}

#[test]
fn uncaptured_types_come_out_sorted_and_once() {
    let names = uncaptured_type_names(&["b::Z".to_string(), "a::Y".to_string(), "b::Z".to_string()]);
    assert_eq!(names, vec!["a::Y".to_string(), "b::Z".to_string()]);
}

#[test]
fn sorted_names_order_like_strings_and_keep_each_once() {
    let mut names = SortedNames::new();
    assert!(names.insert("beta"));
    assert!(names.insert("alpha"));
    assert!(names.insert("Beta"));
    assert!(names.insert("alphabet"));
    assert!(!names.insert("beta"), "a name is held once");
    let mut expected = vec!["beta", "alpha", "Beta", "alphabet"];
    expected.sort();
    assert_eq!(names.to_vec(), expected);
    assert!(names.remove("alpha"));
    assert!(!names.remove("alpha"));
    assert!(!names.contains("alpha"));
    assert!(names.contains("alphabet"));
    assert_eq!(names.len(), 3);
    names.toggle("gamma");
    assert!(names.contains("gamma"));
    names.toggle("gamma");
    assert!(!names.contains("gamma"));
}

#[test]
fn a_new_param_takes_the_first_free_number() {
    assert_eq!(unique_param_name(&[]), "param_1");
    let taken = vec!["param_1".to_string(), "speed".to_string(), "param_2".to_string(), "param_4".to_string()];
    assert_eq!(unique_param_name(&taken), "param_3");
    let crowded: Vec<String> = (1..=11).map(|n| format!("param_{n}")).collect();
    assert_eq!(unique_param_name(&crowded), "param_12");
}

#[test]
fn a_param_rename_is_trimmed_and_never_clobbers() {
    let taken = vec!["speed".to_string(), "jump".to_string()];
    assert_eq!(param_rename("  height ", "speed", &taken), Some("height".to_string()));
    assert_eq!(param_rename("jump", "speed", &taken), None, "no silent clobber");
    assert_eq!(param_rename(" speed", "speed", &taken), None, "unchanged");
    assert_eq!(param_rename("   ", "speed", &taken), None, "blank");
}

/// The host's depth sort: highest depth first, ids breaking ties.
fn front_to_back(stack: &[(u64, f32)]) -> Vec<EntityId> {
    let mut hits: Vec<(u64, f32)> = stack.to_vec();
    hits.sort_by(|a, b| b.1.total_cmp(&a.1).then(a.0.cmp(&b.0)));
    hits.into_iter().map(|(id, _)| entity(id)).collect()
}

#[test]
fn test_click_hits_sort_front_to_back_then_by_id_and_repeat_clicks_cycle_the_stack() {
    let mut picker = PickCycle::new();
    let stack = [(1, 0.0), (9, 5.0), (2, 10.0), (4, 5.0)];
    let hits = front_to_back(&stack);

    let first = picker.pick(hits.clone(), false);

    // Highest depth first; equal depths order by id.
    assert_eq!(first.hits, vec![entity(2), entity(4), entity(9), entity(1)]);

    // Clicking the same spot again walks down the stack.
    let second = picker.pick(hits.clone(), true);
    assert_eq!(second.topmost(), Some(entity(4)), "a repeat click cycles to the next entity");
    assert_eq!(second.hits, vec![entity(4), entity(9), entity(1), entity(2)]);
    let third = picker.pick(hits.clone(), true);
    assert_eq!(third.topmost(), Some(entity(9)));
    // A selection change resets the cycle, and the host forgets the last
    // click's spot, so the next click is not a repeat.
    picker.reset_cycle();
    let reset = picker.pick(hits.clone(), false);
    assert_eq!(reset.topmost(), Some(entity(2)), "a selection change restarts from the front");
    let again = picker.pick(hits, true);
    assert_eq!(again.topmost(), Some(entity(4)), "and repeat clicks walk down from there");
}

#[test]
fn a_lone_hit_never_cycles() {
    let mut cycle = PickCycle::default();
    let r = cycle.pick(vec![entity(3)], true);
    assert_eq!(r.hits, vec![entity(3)]);
    assert_eq!(r.len(), 1);
    let empty = cycle.pick(Vec::new(), true);
    assert!(empty.is_empty());
    assert_eq!(empty.topmost(), None);
    assert!(PickResult::default().is_empty());
}

#[test]
fn test_cancel_latch_suppresses_rest_of_gesture_until_mouse_up() {
    let mut drag = GizmoDrag::new();
    assert!(drag.begin_frame(true, true));
    assert!(drag.begin_drag_if(true, GizmoHandle::Center));
    assert!(drag.is_active());
    drag.cancel();
    assert!(!drag.is_active());
    assert!(!drag.begin_frame(true, true), "still held: nothing can be grabbed");
    assert!(drag.begin_frame(false, true), "the release clears the latch");
    assert!(drag.begin_drag_if(true, GizmoHandle::Center), "a fresh press drags again");
}

#[test]
fn test_switching_tool_mid_drag_releases_the_stale_handle_instead_of_wedging() {
    let mut drag = GizmoDrag::new();
    drag.begin_frame(true, true);
    drag.begin_drag_if(true, GizmoHandle::Center);
    drag.set_mode(GizmoMode::Rotate);
    drag.begin_frame(true, true);
    assert!(!drag.is_active(), "stale handle from the old mode must release");
    assert!(GizmoMode::Scale.owns_handle(GizmoHandle::ScaleCorner(Corner::BottomRight)));
    assert!(!GizmoMode::Rotate.owns_handle(GizmoHandle::Center));
}

#[test]
fn test_outside_the_scene_panel_the_gizmo_draws_but_grabs_nothing() {
    let mut drag = GizmoDrag::new();
    assert!(!drag.begin_frame(true, false));
    drag.begin_frame(true, true);
    drag.begin_drag_if(true, GizmoHandle::Center);
    assert!(drag.begin_frame(true, false), "a drag in flight keeps going outside the panel");
}

#[test]
fn menu_labels_map_to_their_actions() {
    assert_eq!(action_for_menu_label("Save"), Some(EditorAction::Save));
    assert_eq!(action_for_menu_label("Toggle Grid"), Some(EditorAction::ToggleGrid));
    assert_eq!(action_for_menu_label("Reset Layout"), Some(EditorAction::ResetLayout));
    assert_eq!(action_for_menu_label("No Such Item"), None);
}

#[test]
fn read_only_booleans_read_like_the_checkbox() {
    assert_ne!(bool_text(true), bool_text(false));
}

#[test]
fn components_group_by_category_in_display_order() {
    let groups = categorized_components();
    let cats: Vec<ComponentCategory> = groups.iter().map(|(c, _)| *c).collect();
    assert_eq!(cats, ComponentCategory::all().to_vec());
    assert_eq!(groups[2].1, vec![ComponentKind::RigidBody, ComponentKind::Collider]);
    assert_eq!(ComponentCategory::Ui.label(), "UI");
}

#[test]
fn removing_a_rigid_body_takes_its_collider() {
    assert_eq!(
        ComponentRef::Typed(ComponentKind::RigidBody).cascade(),
        Some(ComponentRef::Typed(ComponentKind::Collider))
    );
    assert_eq!(ComponentRef::Dynamic("Health".to_string()).cascade(), None);
    assert_eq!(ComponentRef::Dynamic("Health".to_string()).display_name(), "Health");
}

#[test]
fn dynamic_names_and_the_unknown_component_message() {
    let dynamic = vec!["Health".to_string(), "Score".to_string()];
    assert!(is_dynamic_component("Score", &dynamic));
    assert!(!is_dynamic_component("Sprite", &dynamic));
    assert_eq!(unknown_component_error("Foo", &dynamic), "unknown component \"Foo\" — known: Health, Score");
    let available = available_components(&[ComponentKind::Sprite, ComponentKind::Camera]);
    assert!(!available.contains(&ComponentKind::Sprite));
    assert_eq!(available.len(), ComponentKind::all().len() - 2);
}

#[test]
fn as_many_repeat_clicks_as_hits_bring_the_front_back() {
    let hits = vec![entity(5), entity(6), entity(7)];
    let mut cycle = PickCycle::new();
    cycle.pick(hits.clone(), false);
    let mut last = None;
    for _ in 0..3 {
        last = cycle.pick(hits.clone(), true).topmost();
    }
    assert_eq!(last, Some(entity(5)));
}
