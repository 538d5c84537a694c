use editor::dock::{panel_id_for_menu_label, DockArea, DockPanel, DockPosition};
use editor::editor_preferences::{apply_panel_flags, capture_panel_flags, default_grid_visible, PanelFlags};
use editor::PanelId;

/// The View menu's labels and the panel ids they toggle are two tables;
/// a renamed label must fail here, not silently do nothing when clicked.
#[test]
fn test_panel_id_for_menu_label_map() {
    let table = [
        ("Inspector", Some(PanelId::inspector())),
        ("Hierarchy", Some(PanelId::hierarchy())),
        ("Asset Browser", Some(PanelId::asset_browser())),
        // The scene view cannot be hidden; Console has no panel yet.
        ("Scene View", None),
        ("Console", None),
        ("Toggle Grid", None),
    ];
    for (label, expected) in table {
        assert_eq!(panel_id_for_menu_label(label), expected, "{label}");
    }
}

fn test_dock() -> DockArea {
    let mut dock = DockArea::new();
    dock.add_panel(DockPanel::new(PanelId::hierarchy(), "Hierarchy".to_string(), DockPosition::Left));
    dock.add_panel(DockPanel::new(PanelId::inspector(), "Inspector".to_string(), DockPosition::Right));
    dock.add_panel(DockPanel::new(PanelId::scene_view(), "Scene".to_string(), DockPosition::Center));
    dock
}

fn panel(dock: &DockArea, id: PanelId) -> &DockPanel {
    dock.get_panel(id).expect("panel exists")
}

#[test]
fn panel_flags_round_trip_onto_a_fresh_dock() {
    let mut dock = test_dock();
    assert!(dock.set_panel_collapsed(PanelId::hierarchy(), true));
    assert!(dock.set_panel_visible(PanelId::inspector(), false));

    let saved = capture_panel_flags(&dock);
    // The centre panel is layout-derived and never persisted.
    assert_eq!(
        saved,
        vec![
            PanelFlags { id: 2, visible: true, collapsed: true },
            PanelFlags { id: 1, visible: false, collapsed: false },
        ]
    );

    let mut fresh = test_dock();
    apply_panel_flags(&saved, &mut fresh);
    assert!(panel(&fresh, PanelId::hierarchy()).collapsed);
    assert!(!panel(&fresh, PanelId::inspector()).visible);
    assert!(panel(&fresh, PanelId::scene_view()).visible);
}

#[test]
fn applying_panel_flags_skips_unknown_ids_and_the_centre() {
    let mut dock = test_dock();
    apply_panel_flags(
        &[
            PanelFlags { id: 999, visible: false, collapsed: true },
            PanelFlags { id: 0, visible: false, collapsed: true },
        ],
        &mut dock,
    );
    assert_eq!(dock.panels().len(), 3, "an unknown id adds nothing");
    assert!(panel(&dock, PanelId::scene_view()).visible, "the centre takes nothing");
    assert!(!panel(&dock, PanelId::scene_view()).collapsed);
}

#[test]
fn a_floating_panel_is_restored_expanded() {
    let mut dock = DockArea::new();
    dock.add_panel(DockPanel::new(PanelId::console(), "Console".to_string(), DockPosition::Floating));
    apply_panel_flags(&[PanelFlags { id: 4, visible: true, collapsed: true }], &mut dock);
    assert!(!panel(&dock, PanelId::console()).collapsed, "only edge panels collapse");
    assert!(!dock.set_panel_collapsed(PanelId::console(), true));
}

#[test]
fn grid_defaults_to_visible_for_old_preferences() {
    assert!(default_grid_visible());
}

#[test]
fn collapse_is_for_edge_panels_and_toggles_back() {
    let mut dock = test_dock();
    assert!(!dock.set_panel_collapsed(PanelId::scene_view(), true), "the centre never collapses");
    assert!(dock.toggle_panel_collapsed(PanelId::inspector()));
    assert!(panel(&dock, PanelId::inspector()).shows_collapsed());
    assert!(dock.toggle_panel_collapsed(PanelId::inspector()));
    assert!(!panel(&dock, PanelId::inspector()).collapsed);
    assert!(!dock.toggle_panel_visible(PanelId::asset_browser()), "no such panel");
}

#[test]
fn narrow_mode_overlay_opens_one_panel_at_a_time_and_closes_on_reopen() {
    let mut dock = test_dock();
    assert_eq!(dock.narrow_overlay(), None);
    dock.set_narrow(true);
    assert_eq!(dock.narrow_overlay(), None, "narrow mode opens with both panels closed");
    dock.open_narrow_overlay(PanelId::inspector());
    assert_eq!(dock.narrow_overlay(), Some(PanelId::inspector()));
    dock.open_narrow_overlay(PanelId::hierarchy());
    assert_eq!(dock.narrow_overlay(), Some(PanelId::hierarchy()), "opening another closes the first");
    assert!(dock.shows_as_overlay(PanelId::hierarchy()));
    assert!(!dock.shows_as_overlay(PanelId::inspector()));
    dock.open_narrow_overlay(PanelId::hierarchy());
    assert_eq!(dock.narrow_overlay(), None, "opening the open panel closes it");

    dock.open_narrow_overlay(PanelId::inspector());
    dock.set_narrow(false);
    assert_eq!(dock.narrow_overlay(), None, "leaving narrow mode forgets the overlay");
}

#[test]
fn side_panels_leave_the_edge_allocation_only_while_narrow() {
    let mut dock = test_dock();
    assert!(dock.takes_edge_allocation(0));
    assert!(dock.takes_edge_allocation(1));
    dock.set_narrow(true);
    assert!(!dock.takes_edge_allocation(0));
    assert!(!dock.takes_edge_allocation(1));
    assert!(dock.takes_edge_allocation(2), "the centre keeps its place");
    dock.set_narrow(false);
    dock.set_panel_visible(PanelId::hierarchy(), false);
    assert!(!dock.takes_edge_allocation(0), "a hidden panel takes nothing");
}

#[test]
fn panel_builders_set_their_fields() {
    let p = DockPanel::new(PanelId(7), "Tools".to_string(), DockPosition::Top)
        .with_hint("Tool options")
        .with_resizable(false);
    assert_eq!(p.hint, "Tool options");
    assert!(!p.resizable);
    assert!(p.visible);
    assert!(p.is_collapsible());
    assert_eq!(p.title, "Tools");
}

#[test]
fn an_overlay_opened_outside_narrow_mode_is_not_kept_for_a_later_narrow_layout() {
    let mut dock = test_dock();
    dock.open_narrow_overlay(PanelId::inspector());
    assert_eq!(dock.narrow_overlay(), None);
    dock.set_narrow(true);
    assert_eq!(dock.narrow_overlay(), None, "going narrow later opens no stale overlay");
    assert!(!dock.shows_as_overlay(PanelId::inspector()));
}
