use editor::editor_input::EditorInputMapping;
use editor::overflow_menu::{
    apply_overflow_pick, menu_has_entries, overflow_rows, separator_index, settle_overflow_menu, OverflowPick,
};
use editor::play_controls::{control_buttons, has_stop_button, EditorPlayState, PlayControlAction};
use editor::toolbar::{fit_tools, EditorTool, Toolbar};
use editor::view_toggles::{view_group_pick, ViewGroupAction, ViewToggle, ViewToggles};
use editor::{EditorAction, EditorBinding};

/// The shortcut hint painted on each tool button and the binding table
/// that actually switches tools are two tables; this holds them together
/// so a rebind cannot leave a stale hint on screen.
#[test]
fn test_tool_shortcut_hints_match_the_editor_bindings() {
    let mapping = EditorInputMapping::new();
    let tools = [
        (EditorTool::Select, EditorAction::ToolSelect),
        (EditorTool::Move, EditorAction::ToolMove),
        (EditorTool::Rotate, EditorAction::ToolRotate),
        (EditorTool::Scale, EditorAction::ToolScale),
    ];
    assert_eq!(tools.map(|(tool, _)| tool).as_slice(), EditorTool::all());
    for (tool, action) in tools {
        let bindings = mapping.get_bindings(action);
        let [EditorBinding::Chord { key, ctrl: false, shift: false }] = bindings else {
            panic!("{tool:?} must have exactly one bare-key chord, got {bindings:?}");
        };
        let key_name = format!("{key:?}");
        let hinted = key_name.strip_prefix("Key").unwrap_or(&key_name);
        assert_eq!(hinted, tool.shortcut(), "{tool:?}: the hint shows a key that does not select it");
    }
}

#[test]
fn test_view_toggles_defaults() {
    let toggles = ViewToggles::default();
    assert!(toggles.grid);
    assert!(toggles.colliders);
    assert!(toggles.game_frame);
    assert!(!toggles.snap);
}

#[test]
fn test_view_toggles_toggle_and_set() {
    let mut toggles = ViewToggles::default();
    assert!(toggles.is_on(ViewToggle::Grid));
    assert!(!toggles.toggle(ViewToggle::Grid));
    assert!(!toggles.grid);
    assert!(!toggles.is_on(ViewToggle::Grid));

    toggles.set(ViewToggle::Snap, true);
    assert!(toggles.snap);
    assert!(toggles.is_on(ViewToggle::Snap));
}

#[test]
fn view_menu_checks_follow_the_toggles() {
    let mut toggles = ViewToggles::default();
    toggles.toggle(ViewToggle::Colliders);
    assert_eq!(
        toggles.sync_menu(),
        vec![("Toggle Grid", true), ("Toggle Colliders", false), ("Toggle Game Frame", true), ("Snap to Grid", false)]
    );
    assert_eq!(ViewToggle::Grid.action(), EditorAction::ToggleGrid);
    assert_eq!(ViewToggle::GameFrame.shortcut(), None);
    assert_eq!(ViewToggle::Snap.glyph(), "%");
}

#[test]
fn a_shed_view_group_lists_every_toggle_and_reset_layout_after_the_shed_tools() {
    let toggles = ViewToggles::default();
    let rows = overflow_rows(2, true, &toggles);
    let picks: Vec<OverflowPick> = rows.iter().map(|r| r.pick).collect();
    assert_eq!(
        picks,
        vec![
            OverflowPick::Tool(EditorTool::Rotate),
            OverflowPick::Tool(EditorTool::Scale),
            OverflowPick::Toggle(ViewToggle::Grid),
            OverflowPick::Toggle(ViewToggle::Colliders),
            OverflowPick::Toggle(ViewToggle::GameFrame),
            OverflowPick::Toggle(ViewToggle::Snap),
            OverflowPick::ResetLayout,
        ]
    );
    assert_eq!(rows[0].label, "Rotate");
    assert_eq!(rows[0].hint, Some("E"));
    assert_eq!(rows[0].checked, None);
    assert_eq!(rows[2].label, "Grid");
    assert_eq!(rows[2].checked, Some(true));
    assert_eq!(rows[5].checked, Some(false), "snap is off by default");
    assert_eq!(rows[4].hint, None, "the game frame has no shortcut");
    assert_eq!(rows[6].label, "Reset Layout");
    assert_eq!(separator_index(2, true), Some(2), "the rule sits before the first toggle");
}

#[test]
fn the_overflow_menu_lists_only_what_was_shed() {
    let toggles = ViewToggles::default();
    let tools_only = overflow_rows(3, false, &toggles);
    assert_eq!(tools_only.len(), 1);
    assert_eq!(tools_only[0].pick, OverflowPick::Tool(EditorTool::Scale));
    assert_eq!(separator_index(3, false), None);

    let toggles_only = overflow_rows(4, true, &toggles);
    assert_eq!(toggles_only.len(), 5);
    assert_eq!(separator_index(4, true), None, "no tools above, no rule");

    assert!(!menu_has_entries(4, false), "nothing shed closes the menu");
    assert!(menu_has_entries(9, true));
    assert!(overflow_rows(9, false, &toggles).is_empty());
}

#[test]
fn a_pick_closes_the_menu_and_a_tool_pick_selects_the_tool() {
    let mut toolbar = Toolbar::new();
    toolbar.toggle_overflow();
    apply_overflow_pick(&mut toolbar, Some(OverflowPick::Tool(EditorTool::Scale)));
    assert_eq!(toolbar.current_tool(), EditorTool::Scale);
    assert!(!toolbar.is_overflow_open());

    toolbar.toggle_overflow();
    apply_overflow_pick(&mut toolbar, Some(OverflowPick::ResetLayout));
    assert_eq!(toolbar.current_tool(), EditorTool::Scale);
    assert!(!toolbar.is_overflow_open());

    toolbar.toggle_overflow();
    apply_overflow_pick(&mut toolbar, None);
    assert!(toolbar.is_overflow_open(), "no pick leaves the menu open");
}

#[test]
fn tools_shed_from_the_end_and_at_least_one_goes_to_the_menu() {
    assert_eq!(fit_tools(4, 0), (4, false));
    assert_eq!(fit_tools(9, 9), (4, false));
    assert_eq!(fit_tools(3, 2), (2, true));
    assert_eq!(fit_tools(3, 7), (3, true), "one tool always goes to the menu");
    assert_eq!(fit_tools(0, 0), (0, true));
}

#[test]
fn toolbar_clicks_select_tools_and_toggle_the_menu() {
    let mut toolbar = Toolbar::default();
    assert_eq!(toolbar.current_tool(), EditorTool::Move);
    assert_eq!(toolbar.apply_clicks(Some(EditorTool::Rotate), true, true), Some(EditorTool::Rotate));
    assert_eq!(toolbar.current_tool(), EditorTool::Rotate);
    assert!(toolbar.is_overflow_open());
    toolbar.apply_clicks(None, false, false);
    assert!(!toolbar.is_overflow_open(), "a strip where every tool fits closes the menu");
}

#[test]
fn play_controls_show_the_buttons_of_their_state() {
    let labels = |s| control_buttons(s).iter().map(|b| (b.label, b.action)).collect::<Vec<_>>();
    assert_eq!(labels(EditorPlayState::Editing), vec![("Play", PlayControlAction::Play)]);
    assert_eq!(
        labels(EditorPlayState::Paused),
        vec![
            ("Resume", PlayControlAction::Play),
            ("Stop", PlayControlAction::Stop),
            ("Follow", PlayControlAction::ToggleCameraFollow)
        ]
    );
    assert_eq!(labels(EditorPlayState::Playing)[0], ("Pause", PlayControlAction::Pause));
    assert!(!has_stop_button(EditorPlayState::Editing));
    assert!(has_stop_button(EditorPlayState::Playing));
}

#[test]
fn toggling_a_view_toggle_twice_restores_it() {
    let before = ViewToggles::default();
    let mut toggles = before;
    for t in ViewToggle::all() {
        toggles.toggle(t);
        toggles.toggle(t);
    }
    assert_eq!(toggles, before);
}

/// With the view group shed, every toggle and Reset Layout is reachable
/// through the open menu, after however many tools were shed — a pick on
/// their rows returns them and closes the menu.
#[test]
fn test_a_shed_view_group_is_reachable_through_the_open_menu() {
    let toggles = ViewToggles::default();
    for visible_tools in 0..=4usize {
        let rows = overflow_rows(visible_tools, true, &toggles);
        let shed_tools = EditorTool::all().len() - visible_tools;
        for (offset, expected) in [
            (0, OverflowPick::Toggle(ViewToggle::Grid)),
            (3, OverflowPick::Toggle(ViewToggle::Snap)),
            (4, OverflowPick::ResetLayout),
        ] {
            let mut toolbar = Toolbar::new();
            toolbar.toggle_overflow();
            assert!(settle_overflow_menu(&mut toolbar, true, visible_tools, true, false), "the open menu draws");
            let picked = rows[shed_tools + offset].pick;
            apply_overflow_pick(&mut toolbar, Some(picked));
            assert_eq!(picked, expected, "row {offset} after the shed tools");
            assert!(!toolbar.is_overflow_open(), "the pick closed the menu");
        }
    }
}

#[test]
fn the_overflow_menu_closes_itself_when_it_has_nothing_to_hang_from_or_list() {
    let mut toolbar = Toolbar::new();
    assert!(!settle_overflow_menu(&mut toolbar, true, 2, true, false), "a closed menu stays closed");
    assert!(!toolbar.is_overflow_open());

    toolbar.toggle_overflow();
    assert!(!settle_overflow_menu(&mut toolbar, false, 2, true, false), "no overflow button");
    assert!(!toolbar.is_overflow_open());

    toolbar.toggle_overflow();
    assert!(!settle_overflow_menu(&mut toolbar, true, 4, false, false), "nothing shed");
    assert!(!toolbar.is_overflow_open());

    toolbar.toggle_overflow();
    assert!(!settle_overflow_menu(&mut toolbar, true, 2, false, true), "a press outside");
    assert!(!toolbar.is_overflow_open());

    toolbar.toggle_overflow();
    assert!(settle_overflow_menu(&mut toolbar, true, 2, false, false));
    assert!(toolbar.is_overflow_open());
}

#[test]
fn the_view_group_answers_the_last_click_and_reset_layout_comes_last() {
    assert_eq!(view_group_pick([false; 4], false), None);
    assert_eq!(view_group_pick([false, true, false, false], false), Some(ViewGroupAction::Toggle(ViewToggle::Colliders)));
    assert_eq!(view_group_pick([true, false, true, false], false), Some(ViewGroupAction::Toggle(ViewToggle::GameFrame)));
    assert_eq!(view_group_pick([false, false, false, true], false), Some(ViewGroupAction::Toggle(ViewToggle::Snap)));
    assert_eq!(view_group_pick([true, true, true, true], true), Some(ViewGroupAction::ResetLayout));
}
