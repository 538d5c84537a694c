use editor::hierarchy::{
    entity_display_name, normalized_rename, resolve_by_name, script_display_label, script_label_with_stem,
    HierarchyClick, HierarchyPanel, NameResolution,
};
use editor::{EntityId, Selection};

fn entity(id: u64) -> EntityId {
    EntityId::with_generation(id, 1)
}

/// The host's side of a hierarchy pass: settle the rename focus (dropping
/// the keyboard focus where the panel says so), lay the rows out in draw
/// order, and draw those inside the panel — the rename field in its row.
struct Host {
    panel: HierarchyPanel,
    focused_rename: Option<EntityId>,
}

impl Host {
    fn new() -> Self {
        Host { panel: HierarchyPanel::new(), focused_rename: None }
    }

    fn begin_rename(&mut self, e: EntityId) {
        self.panel.begin_rename(e);
        self.focused_rename = Some(e);
    }

    fn settle(&mut self) {
        if let Some(e) = self.panel.settle_rename_focus() {
            if self.focused_rename == Some(e) {
                self.focused_rename = None;
            }
        }
    }

    /// One pass over `rows` (entity, drawn inside the panel).
    fn pass(&mut self, rows: &[(EntityId, bool)]) {
        self.settle();
        self.panel.clear_visible_order();
        for &(e, drawn) in rows {
            self.panel.note_row(e, drawn);
            if drawn && self.panel.renaming() == Some(e) {
                self.panel.note_rename_field_drawn();
                let focused = self.focused_rename == Some(e);
                self.panel.finish_rename_field(false, focused);
            }
        }
    }

    fn wants_keyboard(&self) -> bool {
        self.focused_rename.is_some()
    }
}

/// Rows of two roots, each with one child, all expanded: a, a_child, b, b_child.
fn four_rows(panel: &HierarchyPanel, a: EntityId, a_child: EntityId, b: EntityId, b_child: EntityId) -> Vec<(EntityId, bool)> {
    let mut rows = vec![(a, true)];
    if panel.is_expanded(a) {
        rows.push((a_child, true));
    }
    rows.push((b, true));
    if panel.is_expanded(b) {
        rows.push((b_child, true));
    }
    rows
}

#[test]
fn test_normalized_rename_rejects_empty_and_unchanged() {
    assert_eq!(normalized_rename(Some("Old"), "  New  "), Some("New".to_string()));
    assert_eq!(normalized_rename(None, "Fresh"), Some("Fresh".to_string()));
    assert_eq!(normalized_rename(Some("Old"), "   "), None, "blank commit is a no-op");
    assert_eq!(normalized_rename(None, ""), None);
    assert_eq!(normalized_rename(Some("Old"), " Old "), None, "unchanged commit records nothing");
}

#[test]
fn normalized_rename_trims_every_unicode_space() {
    assert_eq!(normalized_rename(None, "\t\u{00A0}Boss\u{3000}\n"), Some("Boss".to_string()));
    assert_eq!(normalized_rename(None, "Big Boss"), Some("Big Boss".to_string()), "inner spaces stay");
}

#[test]
fn test_default_expanded() {
    let panel = HierarchyPanel::new();
    let e1 = entity(1);

    // Entities are expanded by default
    assert!(panel.is_expanded(e1));
}

#[test]
fn test_toggle_collapse() {
    let mut panel = HierarchyPanel::new();
    let e1 = entity(1);

    // Initially expanded
    assert!(panel.is_expanded(e1));

    // Toggle to collapse
    panel.toggle_expanded(e1);
    assert!(!panel.is_expanded(e1));

    // Toggle to expand again
    panel.toggle_expanded(e1);
    assert!(panel.is_expanded(e1));
}

#[test]
fn test_collapse_persists() {
    let mut panel = HierarchyPanel::new();
    let e1 = entity(1);
    let e2 = entity(2);

    // Collapse e1
    panel.collapse(e1);
    assert!(!panel.is_expanded(e1));
    assert!(panel.is_expanded(e2)); // e2 still expanded

    // Expand e1
    panel.expand(e1);
    assert!(panel.is_expanded(e1));
}

#[test]
fn test_multiple_entities_independent_state() {
    let mut panel = HierarchyPanel::new();
    let e1 = entity(1);
    let e2 = entity(2);
    let e3 = entity(3);

    panel.collapse(e1);
    panel.collapse(e3);

    assert!(!panel.is_expanded(e1));
    assert!(panel.is_expanded(e2));
    assert!(!panel.is_expanded(e3));
}

#[test]
fn test_hierarchy_panel_new() {
    let panel = HierarchyPanel::new();
    assert!(panel.is_expanded(entity(1)), "nothing starts collapsed");
}

#[test]
fn test_collapsed_hides_children() {
    let mut panel = HierarchyPanel::new();
    let parent = entity(1);

    // When parent is expanded, children are visible (is_expanded returns true)
    assert!(panel.is_expanded(parent));

    // When parent is collapsed, children are hidden
    panel.collapse(parent);
    assert!(!panel.is_expanded(parent));
}

#[test]
fn test_name_from_name_component() {
    // Name component takes priority over the sprite the entity also has.
    let name = entity_display_name(Some("Player"), true, false, entity(1));
    assert_eq!(name, "Player");
}

#[test]
fn test_name_fallback_sprite() {
    let name = entity_display_name(None, true, false, entity(1));
    assert!(name.starts_with("Sprite (Entity"));
    assert_eq!(name, "Sprite (Entity 1)");
}

#[test]
fn test_name_fallback_rigidbody() {
    let name = entity_display_name(None, false, true, entity(1));
    assert!(name.starts_with("RigidBody (Entity"));
    assert_eq!(name, "RigidBody (Entity 1)");
}

#[test]
fn test_name_fallback_entity_id() {
    let name = entity_display_name(None, false, false, entity(42));
    assert!(name.starts_with("Entity"));
    assert_eq!(name, "Entity 42");
}

fn resolve_by_name_round_trip() {
    let named = entity(0);
    let other = entity(1);
    let unnamed = entity(2);

    // A unique name round-trips: display -> resolve.
    let names = vec![(named, "Player".to_string())];
    let display = entity_display_name(Some("Player"), false, false, named);
    assert_eq!(resolve_by_name(&names, &display), NameResolution::One(named));

    // Synthesized display names are NOT addresses.
    let synthesized = entity_display_name(None, false, false, unnamed);
    assert_eq!(resolve_by_name(&names, &synthesized), NameResolution::NotFound);

    // Duplicates report ambiguity instead of first-match.
    let names = vec![(other, "Player".to_string()), (named, "Player".to_string())];
    match resolve_by_name(&names, "Player") {
        NameResolution::Ambiguous(matches) => {
            assert_eq!(matches.len(), 2);
            assert_eq!(matches, vec![named, other], "sorted by id, not by iteration order");
        }
        other => panic!("expected Ambiguous, got {other:?}"),
    }
}

#[test]
fn tests_test_resolve_by_name_inverse_of_display_name() {
    resolve_by_name_round_trip();
}

#[test]
fn hierarchy_tests_test_resolve_by_name_inverse_of_display_name() {
    resolve_by_name_round_trip();
}

fn visible_order_follows_draw_order() {
    let (a, a_child, b, b_child) = (entity(1), entity(2), entity(3), entity(4));
    let mut host = Host::new();
    let rows = four_rows(&host.panel, a, a_child, b, b_child);
    host.pass(&rows);
    assert_eq!(host.panel.visible_order(), &[a, a_child, b, b_child]);

    host.panel.collapse(a);
    let rows = four_rows(&host.panel, a, a_child, b, b_child);
    host.pass(&rows);
    assert_eq!(host.panel.visible_order(), &[a, b, b_child], "a collapsed subtree has no rows");
}

#[test]
fn tests_test_visible_order_follows_draw_order_and_skips_collapsed_subtrees() {
    visible_order_follows_draw_order();
}

#[test]
fn hierarchy_tests_test_visible_order_follows_draw_order_and_skips_collapsed_subtrees() {
    visible_order_follows_draw_order();
}

fn shift_click_runs_anchor_first() {
    let (a, a_child, b, b_child) = (entity(1), entity(2), entity(3), entity(4));
    let mut host = Host::new();
    let mut selection = Selection::new();
    selection.select(a_child);
    let rows = four_rows(&host.panel, a, a_child, b, b_child);
    host.pass(&rows);

    // Downwards: anchor, then the rows below it.
    assert_eq!(host.panel.shift_click_range(&selection, b_child), Some(vec![a_child, b, b_child]));
    // Upwards: the same rows, anchor still first — select_multiple keeps it primary.
    assert_eq!(host.panel.shift_click_range(&selection, a), Some(vec![a_child, a]));
}

#[test]
fn tests_test_shift_click_range_runs_anchor_first_in_either_direction() {
    shift_click_runs_anchor_first();
}

#[test]
fn hierarchy_tests_test_shift_click_range_runs_anchor_first_in_either_direction() {
    shift_click_runs_anchor_first();
}

#[test]
fn test_shift_click_range_anchors_on_last_visible_selected_row_when_primary_hidden() {
    let (a, a_child, b, b_child) = (entity(1), entity(2), entity(3), entity(4));
    let mut host = Host::new();
    let mut selection = Selection::new();
    selection.select(a_child); // primary
    selection.add(b);
    host.panel.collapse(a); // hides the primary
    let rows = four_rows(&host.panel, a, a_child, b, b_child);
    host.pass(&rows);

    assert_eq!(
        host.panel.shift_click_range(&selection, b_child),
        Some(vec![b, b_child]),
        "the range anchors on the last visible selected row, not on nothing"
    );
}

#[test]
fn test_shift_click_range_is_none_when_no_selected_row_is_visible() {
    let (a, a_child, b, b_child) = (entity(1), entity(2), entity(3), entity(4));
    let mut host = Host::new();
    let mut selection = Selection::new();
    selection.select(a_child);
    host.panel.collapse(a);
    let rows = four_rows(&host.panel, a, a_child, b, b_child);
    host.pass(&rows);

    assert_eq!(host.panel.shift_click_range(&selection, b_child), None, "the host adds instead");
}

#[test]
fn test_a_rename_cancelled_from_outside_releases_the_keyboard_on_the_next_frame() {
    let named = entity(1);
    let mut host = Host::new();

    host.begin_rename(named);
    host.pass(&[(named, true)]);
    assert!(host.wants_keyboard(), "the rename field owns the keyboard");

    host.panel.cancel_rename();
    host.pass(&[(named, true)]);

    assert_eq!(host.panel.renaming(), None);
    assert!(!host.wants_keyboard(), "the cancelled field released the keyboard");
}

#[test]
fn test_a_rename_scrolled_off_the_panel_ends_and_releases_the_keyboard() {
    // Only a drawn field can take the Escape that would release it, so a
    // rename whose row has scrolled out of the panel must not keep the
    // keyboard.
    let named = entity(1);
    let others: Vec<EntityId> = (2..14).map(entity).collect();
    let mut host = Host::new();

    host.begin_rename(named);
    let mut rows = vec![(named, true)];
    rows.extend(others.iter().take(5).map(|&e| (e, true)));
    rows.extend(others.iter().skip(5).map(|&e| (e, false)));
    host.pass(&rows);
    assert!(host.wants_keyboard(), "the drawn rename field owns the keyboard");

    // Scrolled to the bottom: the first row is above the panel.
    let mut scrolled = vec![(named, false)];
    scrolled.extend(others.iter().take(6).map(|&e| (e, false)));
    scrolled.extend(others.iter().skip(6).map(|&e| (e, true)));
    host.pass(&scrolled);
    host.pass(&scrolled);

    assert_eq!(host.panel.renaming(), None, "the undrawn rename ended");
    assert!(!host.wants_keyboard(), "and released the keyboard");
}

#[test]
fn test_a_rename_hidden_behind_its_own_script_rows_ends_and_releases_the_keyboard() {
    // Script rows are rows: a panel showing only them has drawn content
    // without the rename field, so the field is gone, not merely unseen.
    let scripted = entity(1);
    let mut host = Host::new();

    host.begin_rename(scripted);
    host.pass(&[(scripted, true)]);
    assert!(host.wants_keyboard(), "the drawn rename field owns the keyboard");

    for _ in 0..2 {
        host.settle();
        host.panel.clear_visible_order();
        host.panel.note_row(scripted, false);
        for _ in 0..6 {
            host.panel.note_script_row_drawn();
        }
    }
    host.settle();

    assert_eq!(host.panel.renaming(), None, "the undrawn rename ended");
    assert!(!host.wants_keyboard(), "and released the keyboard");
}

#[test]
fn test_a_rename_survives_a_splitter_through_zero_but_not_a_panel_left_there() {
    let named = entity(1);
    let mut host = Host::new();

    host.begin_rename(named);
    host.pass(&[(named, true)]);

    host.pass(&[(named, false)]);
    host.pass(&[(named, false)]);
    assert_eq!(host.panel.renaming(), Some(named), "two empty passes are a splitter passing through");
    host.pass(&[(named, true)]);
    assert_eq!(host.panel.renaming(), Some(named), "and the rename is still there when the rows return");
    assert!(host.wants_keyboard());

    for _ in 0..40 {
        host.pass(&[(named, false)]);
    }
    assert_eq!(host.panel.renaming(), None, "a panel left empty ends the rename");
    assert!(!host.wants_keyboard(), "and releases the keyboard");
}

#[test]
fn test_a_rename_in_a_panel_the_dock_does_not_render_ends_after_the_grace() {
    let named = entity(1);
    let mut host = Host::new();

    host.begin_rename(named);
    host.pass(&[(named, true)]);
    assert!(host.wants_keyboard());

    for _ in 0..2 {
        host.settle();
    }
    assert_eq!(host.panel.renaming(), Some(named), "a frame or two without the panel is the grace");
    for _ in 0..40 {
        host.settle();
    }
    assert_eq!(host.panel.renaming(), None, "a panel the dock keeps leaving out ends the rename");
    assert!(!host.wants_keyboard(), "and releases the keyboard");
}

#[test]
fn the_grace_is_thirty_passes_and_the_next_one_ends_the_rename() {
    let named = entity(9);
    let mut host = Host::new();
    host.begin_rename(named);
    host.settle(); // the field counts as drawn the pass it opened
    for _ in 0..30 {
        host.settle();
    }
    assert_eq!(host.panel.renaming(), Some(named));
    host.settle();
    assert_eq!(host.panel.renaming(), None);
}

#[test]
fn a_committed_or_escaped_field_ends_the_rename() {
    let named = entity(3);
    let mut panel = HierarchyPanel::new();
    panel.begin_rename(named);
    panel.finish_rename_field(true, true);
    assert_eq!(panel.renaming(), None, "a commit ends the rename");
    panel.begin_rename(named);
    panel.finish_rename_field(false, false);
    assert_eq!(panel.renaming(), None, "focus lost without a commit cancels");
    panel.begin_rename(named);
    panel.forget_missing_rename(false);
    assert_eq!(panel.renaming(), None, "a deleted entity is not left armed");
}

#[test]
fn rename_widget_ids_name_the_entity() {
    assert_eq!(HierarchyPanel::rename_widget_id(entity(17)), "hierarchy_rename_17");
}

#[test]
fn script_rows_are_labelled_by_id_then_file_stem() {
    assert_eq!(script_display_label(" mover ", "scripts/other.rhai"), "mover");
    assert_eq!(script_display_label("  ", "scripts/player.rhai"), "player");
    assert_eq!(script_display_label("", " "), "script");
    assert_eq!(script_display_label("", "scripts/"), "scripts");
    assert_eq!(script_label_with_stem("", "x.rhai", Some("  ")), "script");
    assert_eq!(script_label_with_stem("", "x.rhai", Some("x")), "x");
}

#[test]
fn the_arrow_is_inert_while_its_row_is_renamed_and_an_arrow_click_is_no_row_click() {
    let mut panel = HierarchyPanel::new();
    let e = entity(3);
    // A live arrow click toggles the row and is not also a row click.
    assert_eq!(panel.row_clicks(e, true, true, true, false), None);
    assert!(!panel.is_expanded(e));
    // A click on the label area selects the row.
    assert_eq!(panel.row_clicks(e, true, false, true, false), Some(HierarchyClick::Entity(e)));
    // Without children there is no arrow to take the click.
    assert_eq!(panel.row_clicks(entity(4), false, true, true, false), Some(HierarchyClick::Entity(entity(4))));
    assert!(panel.is_expanded(entity(4)));
    // While dragging, or on the release frame, the row click is ignored.
    assert_eq!(panel.row_clicks(e, true, false, true, true), None);
    // While the row is renamed the arrow is inert and the field owns the row.
    panel.begin_rename(e);
    assert_eq!(panel.row_clicks(e, true, true, true, false), None);
    assert!(!panel.is_expanded(e), "the tree does not reflow under an open rename field");
    // Other rows keep their arrows.
    assert_eq!(panel.row_clicks(entity(5), true, true, false, false), None);
    assert!(!panel.is_expanded(entity(5)));
}
