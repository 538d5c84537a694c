//! View toggles: the four authoring overlays and aids an editor user turns
//! on and off while working (Grid, Colliders, Game Frame, Snap to Grid).
//!
//! The View menu and the toolbar strip read and toggle the same state.

use vstd::prelude::*;

use crate::editor_input::EditorAction;
use crate::text::opt_chars;

verus! {

/// The four view toggles.
#[derive(Debug, Clone, Copy, PartialEq, Eq, Hash, Structural)]
pub enum ViewToggle {
    Grid,
    Colliders,
    GameFrame,
    Snap,
}

/// Every view toggle, in menu/group order.
pub open spec fn all_view_toggles() -> Seq<ViewToggle> {
    seq![ViewToggle::Grid, ViewToggle::Colliders, ViewToggle::GameFrame, ViewToggle::Snap]
}

/// The View menu label of a toggle.
pub open spec fn menu_label_spec(t: ViewToggle) -> Seq<char> {
    match t {
        ViewToggle::Grid => "Toggle Grid"@,
        ViewToggle::Colliders => "Toggle Colliders"@,
        ViewToggle::GameFrame => "Toggle Game Frame"@,
        ViewToggle::Snap => "Snap to Grid"@,
    }
}

/// The editor action a toggle stands for.
pub open spec fn toggle_action_spec(t: ViewToggle) -> EditorAction {
    match t {
        ViewToggle::Grid => EditorAction::ToggleGrid,
        ViewToggle::Colliders => EditorAction::ToggleColliders,
        ViewToggle::GameFrame => EditorAction::ToggleGameFrame,
        ViewToggle::Snap => EditorAction::ToggleSnap,
    }
}

/// A toggle's short name.
pub open spec fn toggle_name_spec(t: ViewToggle) -> Seq<char> {
    match t {
        ViewToggle::Grid => "Grid"@,
        ViewToggle::Colliders => "Colliders"@,
        ViewToggle::GameFrame => "Game Frame"@,
        ViewToggle::Snap => "Snap"@,
    }
}

/// A toggle's default shortcut, if bound.
pub open spec fn toggle_shortcut_spec(t: ViewToggle) -> Option<Seq<char>> {
    match t {
        ViewToggle::Grid => Some("G"@),
        ViewToggle::Colliders => Some("C"@),
        ViewToggle::GameFrame => None,
        ViewToggle::Snap => Some("S"@),
    }
}

impl ViewToggle {
    /// Every view toggle, in menu/group order.
    pub fn all() -> (all: [ViewToggle; 4])
        ensures
            all@ == all_view_toggles(),
    {
        let all = [ViewToggle::Grid, ViewToggle::Colliders, ViewToggle::GameFrame, ViewToggle::Snap];
        assert(all@ =~= all_view_toggles());
        all
    }

    /// Label as shown in the View menu.
    pub fn menu_label(self) -> (label: &'static str)
        ensures
            label@ == menu_label_spec(self),
    {
        match self {
            ViewToggle::Grid => "Toggle Grid",
            ViewToggle::Colliders => "Toggle Colliders",
            ViewToggle::GameFrame => "Toggle Game Frame",
            ViewToggle::Snap => "Snap to Grid",
        }
    }

    /// Short name for tooltips and accessibility.
    pub fn name(self) -> (name: &'static str)
        ensures
            name@ == toggle_name_spec(self),
    {
        match self {
            ViewToggle::Grid => "Grid",
            ViewToggle::Colliders => "Colliders",
            ViewToggle::GameFrame => "Game Frame",
            ViewToggle::Snap => "Snap",
        }
    }

    /// Glyph drawn in the toggle button.
    pub fn glyph(self) -> (glyph: &'static str)
        ensures
            glyph@ == (match self {
                ViewToggle::Grid => "#"@,
                ViewToggle::Colliders => "O"@,
                ViewToggle::GameFrame => "[]"@,
                ViewToggle::Snap => "%"@,
            }),
    {
        match self {
            ViewToggle::Grid => "#",
            ViewToggle::Colliders => "O",
            ViewToggle::GameFrame => "[]",
            ViewToggle::Snap => "%",
        }
    }

    /// Default keyboard shortcut, if bound.
    pub fn shortcut(self) -> (shortcut: Option<&'static str>)
        ensures
            opt_chars(shortcut) == toggle_shortcut_spec(self),
    {
        match self {
            ViewToggle::Grid => Some("G"),
            ViewToggle::Colliders => Some("C"),
            ViewToggle::GameFrame => None,
            ViewToggle::Snap => Some("S"),
        }
    }

    /// Corresponding editor action.
    pub fn action(self) -> (action: EditorAction)
        ensures
            action == toggle_action_spec(self),
    {
        match self {
            ViewToggle::Grid => EditorAction::ToggleGrid,
            ViewToggle::Colliders => EditorAction::ToggleColliders,
            ViewToggle::GameFrame => EditorAction::ToggleGameFrame,
            ViewToggle::Snap => EditorAction::ToggleSnap,
        }
    }
}

/// The state of each view toggle.
#[derive(Debug, Clone, Copy, PartialEq, Eq, Structural)]
pub struct ViewToggles {
    /// Grid overlay visibility
    pub grid: bool,
    /// Collider outline overlay visibility
    pub colliders: bool,
    /// Game-frame camera rect overlay visibility
    pub game_frame: bool,
    /// Grid snapping active
    pub snap: bool,
}

/// Whether `toggle` is on in `t`.
pub open spec fn is_on_spec(t: ViewToggles, toggle: ViewToggle) -> bool {
    match toggle {
        ViewToggle::Grid => t.grid,
        ViewToggle::Colliders => t.colliders,
        ViewToggle::GameFrame => t.game_frame,
        ViewToggle::Snap => t.snap,
    }
}

/// `t` with `toggle` set to `on`.
pub open spec fn with_toggle(t: ViewToggles, toggle: ViewToggle, on: bool) -> ViewToggles {
    match toggle {
        ViewToggle::Grid => ViewToggles { grid: on, ..t },
        ViewToggle::Colliders => ViewToggles { colliders: on, ..t },
        ViewToggle::GameFrame => ViewToggles { game_frame: on, ..t },
        ViewToggle::Snap => ViewToggles { snap: on, ..t },
    }
}

/// `t` with `toggle` inverted.
pub open spec fn toggled(t: ViewToggles, toggle: ViewToggle) -> ViewToggles {
    with_toggle(t, toggle, !is_on_spec(t, toggle))
}

impl Default for ViewToggles {
    /// Grid, colliders and game frame on; snapping off.
    fn default() -> (t: Self)
        ensures
            t == (ViewToggles { grid: true, colliders: true, game_frame: true, snap: false }),
    {
        ViewToggles { grid: true, colliders: true, game_frame: true, snap: false }
    }
}

impl ViewToggles {
    /// Whether a given toggle is on.
    pub fn is_on(&self, toggle: ViewToggle) -> (on: bool)
        ensures
            on == is_on_spec(*self, toggle),
    {
        match toggle {
            ViewToggle::Grid => self.grid,
            ViewToggle::Colliders => self.colliders,
            ViewToggle::GameFrame => self.game_frame,
            ViewToggle::Snap => self.snap,
        }
    }

    /// Set one toggle's state; the others are untouched.
    pub fn set(&mut self, toggle: ViewToggle, on: bool)
        ensures
            *final(self) == with_toggle(*old(self), toggle, on),
    {
        match toggle {
            ViewToggle::Grid => self.grid = on,
            ViewToggle::Colliders => self.colliders = on,
            ViewToggle::GameFrame => self.game_frame = on,
            ViewToggle::Snap => self.snap = on,
        }
    }

    /// Invert a toggle's state and return the new value; the others are
    /// untouched.
    pub fn toggle(&mut self, toggle: ViewToggle) -> (now: bool)
        ensures
            now == !is_on_spec(*old(self), toggle),
            *final(self) == toggled(*old(self), toggle),
    {
        let new_val = !self.is_on(toggle);
        self.set(toggle, new_val);
        new_val
    }

    /// The View menu's check marks for these toggles: each toggle's menu
    /// label with whether it is on, in menu order, for the host to write
    /// into its View menu.
    pub fn sync_menu(&self) -> (checks: Vec<(&'static str, bool)>)
        ensures
            checks@.len() == 4,
            forall|i: int|
                0 <= i < 4 ==> (#[trigger] checks@[i]).0@ == menu_label_spec(all_view_toggles()[i])
                    && checks@[i].1 == is_on_spec(*self, all_view_toggles()[i]),
    {
        let mut checks: Vec<(&'static str, bool)> = Vec::new();
        let all = ViewToggle::all();
        let mut i: usize = 0;
        while i < 4
            invariant
                i <= 4,
                all@ == all_view_toggles(),
                checks@.len() == i,
                forall|j: int|
                    0 <= j < i ==> (#[trigger] checks@[j]).0@ == menu_label_spec(all_view_toggles()[j])
                        && checks@[j].1 == is_on_spec(*self, all_view_toggles()[j]),
            decreases 4 - i,
        {
            let t = all[i];
            checks.push((t.menu_label(), self.is_on(t)));
            i = i + 1;
        }
        checks
    }
}

/// Toggling the same view toggle twice restores every toggle; a toggle
/// changes only its own state and reads back as the new value.
pub proof fn lemma_toggle_twice_restores(t: ViewToggles, toggle: ViewToggle)
    ensures
        toggled(toggled(t, toggle), toggle) == t,
        is_on_spec(toggled(t, toggle), toggle) == !is_on_spec(t, toggle),
        forall|other: ViewToggle|
            other != toggle ==> is_on_spec(toggled(t, toggle), other) == is_on_spec(t, other),
{
}

/// Actions produced by the right-hand strip controls.
#[derive(Debug, Clone, Copy, PartialEq, Eq, Structural)]
pub enum ViewGroupAction {
    /// A view toggle was clicked.
    Toggle(ViewToggle),
    /// Reset layout was clicked.
    ResetLayout,
}

/// The last of the first `n` group buttons that was clicked, if any.
pub open spec fn last_clicked(clicks: Seq<bool>, n: int) -> Option<int>
    decreases n,
{
    if n <= 0 {
        None
    } else if clicks[n - 1] {
        Some(n - 1)
    } else {
        last_clicked(clicks, n - 1)
    }
}

/// What the view group answers to this frame's clicks: Reset Layout, drawn
/// last, wins; else the last toggle clicked, in group order.
pub open spec fn view_group_pick_spec(toggle_clicks: Seq<bool>, reset_clicked: bool) -> Option<ViewGroupAction> {
    if reset_clicked {
        Some(ViewGroupAction::ResetLayout)
    } else {
        match last_clicked(toggle_clicks, 4) {
            Some(i) => Some(ViewGroupAction::Toggle(all_view_toggles()[i])),
            None => None,
        }
    }
}

/// The view group's action for this frame, from which of its toggles
/// (in [`ViewToggle::all`] order) and whether Reset Layout reported a
/// click: later buttons win over earlier ones.
pub fn view_group_pick(toggle_clicks: [bool; 4], reset_clicked: bool) -> (picked: Option<ViewGroupAction>)
    ensures
        picked == view_group_pick_spec(toggle_clicks@, reset_clicked),
{
    let all = ViewToggle::all();
    let mut picked: Option<ViewGroupAction> = None;
    let mut i: usize = 0;
    while i < 4
        invariant
            i <= 4,
            all@ == all_view_toggles(),
            picked == (match last_clicked(toggle_clicks@, i as int) {
                Some(j) => Some(ViewGroupAction::Toggle(all_view_toggles()[j])),
                None => None,
            }),
        decreases 4 - i,
    {
        if toggle_clicks[i] {
            picked = Some(ViewGroupAction::Toggle(all[i]));
        }
        i = i + 1;
    }
    if reset_clicked {
        picked = Some(ViewGroupAction::ResetLayout);
    }
    picked
}

} // verus!
