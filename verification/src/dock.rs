//! Dock panel state: which panels exist, where they are docked, whether
//! they are shown or collapsed, and — when the window is too narrow for
//! side panels — which one is open as an overlay.
//!
//! Pixel geometry (sizes, bounds) is floating-point layout and is computed
//! by the host; the decisions here are the ones the layout acts on.

use vstd::prelude::*;

use crate::text::str_eq;

verus! {

/// Unique identifier for a dock panel.
#[derive(Debug, Clone, Copy, PartialEq, Eq, Hash, Structural)]
pub struct PanelId(pub u32);

impl PanelId {
    /// Scene view panel (main viewport)
    pub fn scene_view() -> (id: PanelId)
        ensures
            id == PanelId(0),
    {
        PanelId(0)
    }

    /// Entity inspector panel
    pub fn inspector() -> (id: PanelId)
        ensures
            id == PanelId(1),
    {
        PanelId(1)
    }

    /// Scene hierarchy panel
    pub fn hierarchy() -> (id: PanelId)
        ensures
            id == PanelId(2),
    {
        PanelId(2)
    }

    /// Asset browser panel
    pub fn asset_browser() -> (id: PanelId)
        ensures
            id == PanelId(3),
    {
        PanelId(3)
    }

    /// Console/output panel
    pub fn console() -> (id: PanelId)
        ensures
            id == PanelId(4),
    {
        PanelId(4)
    }
}

/// Position where a panel can be docked.
#[derive(Debug, Clone, Copy, PartialEq, Eq, Structural)]
pub enum DockPosition {
    /// Panel is docked to the left edge
    Left,
    /// Panel is docked to the right edge
    Right,
    /// Panel is docked to the top edge
    Top,
    /// Panel is docked to the bottom edge
    Bottom,
    /// Panel fills the center (main content area)
    Center,
    /// Panel is floating (not docked)
    Floating,
}

impl Default for DockPosition {
    /// The center.
    fn default() -> (p: Self)
        ensures
            p == DockPosition::Center,
    {
        DockPosition::Center
    }
}

/// Edge-docked panels can collapse to a strip.
pub open spec fn collapsible_at(position: DockPosition) -> bool {
    position is Left || position is Right || position is Top || position is Bottom
}

/// Every edge-docked panel (left, right, top or bottom) can collapse to a
/// strip; only the centre and floating panels cannot.
pub proof fn lemma_every_edge_panel_collapses(position: DockPosition)
    ensures
        collapsible_at(position) <==> !(position is Center || position is Floating),
{
    match position {
        DockPosition::Left => {},
        DockPosition::Right => {},
        DockPosition::Top => {},
        DockPosition::Bottom => {},
        DockPosition::Center => {},
        DockPosition::Floating => {},
    }
}

/// The side (left/right) edges — the panels narrow mode moves off the edge
/// allocation.
pub open spec fn side_position(position: DockPosition) -> bool {
    position is Left || position is Right
}

/// Whether `position` is a side (left/right) edge.
pub fn is_side(position: DockPosition) -> (side: bool)
    ensures
        side == side_position(position),
{
    matches!(position, DockPosition::Left | DockPosition::Right)
}

/// A dockable panel's identity and state. (Its pixel size, minimum size
/// and bounds are floating-point layout the host keeps beside it.)
#[derive(Debug)]
pub struct DockPanel {
    /// Panel identifier
    pub id: PanelId,
    /// Panel title displayed in the header
    pub title: String,
    /// One sentence on what the panel is for, shown as its header's
    /// tooltip. Empty means the header raises none.
    pub hint: &'static str,
    /// Where the panel is docked
    pub position: DockPosition,
    /// Whether the panel is visible
    pub visible: bool,
    /// Whether the panel can be resized
    pub resizable: bool,
    /// Whether the panel is collapsed to a slim strip
    pub collapsed: bool,
}

impl Clone for DockPanel {
    fn clone(&self) -> (copy: Self)
        ensures
            copy == *self,
    {
        DockPanel {
            id: self.id,
            title: self.title.clone(),
            hint: self.hint,
            position: self.position,
            visible: self.visible,
            resizable: self.resizable,
            collapsed: self.collapsed,
        }
    }
}

impl DockPanel {
    /// A new panel: visible, resizable, not collapsed, with no hint.
    pub fn new(id: PanelId, title: String, position: DockPosition) -> (p: Self)
        ensures
            p.id == id,
            p.title == title,
            p.hint@ == ""@,
            p.position == position,
            p.visible,
            p.resizable,
            !p.collapsed,
    {
        DockPanel { id, title, hint: "", position, visible: true, resizable: true, collapsed: false }
    }

    /// Set the sentence the panel's header explains itself with on hover.
    pub fn with_hint(self, hint: &'static str) -> (p: Self)
        ensures
            p == (DockPanel { hint, ..self }),
    {
        DockPanel { hint, ..self }
    }

    /// Set whether the panel is resizable.
    pub fn with_resizable(self, resizable: bool) -> (p: Self)
        ensures
            p == (DockPanel { resizable, ..self }),
    {
        DockPanel { resizable, ..self }
    }

    /// Whether this panel can be collapsed (edge-docked panels only).
    pub fn is_collapsible(&self) -> (c: bool)
        ensures
            c == collapsible_at(self.position),
    {
        matches!(
            self.position,
            DockPosition::Left | DockPosition::Right | DockPosition::Top | DockPosition::Bottom
        )
    }

    /// Whether the panel shows as a collapsed strip: collapsed and
    /// collapsible.
    pub fn shows_collapsed(&self) -> (strip: bool)
        ensures
            strip == (self.collapsed && collapsible_at(self.position)),
    {
        self.collapsed && self.is_collapsible()
    }
}

/// The index of the first panel with `id`.
pub open spec fn first_panel(panels: Seq<DockPanel>, id: PanelId) -> Option<int>
    decreases panels.len(),
{
    if panels.len() == 0 {
        None
    } else {
        match first_panel(panels.drop_last(), id) {
            Some(i) => Some(i),
            None => if panels.last().id == id {
                Some(panels.len() - 1)
            } else {
                None
            },
        }
    }
}

/// `first_panel` finds the earliest panel carrying the id.
pub proof fn lemma_first_panel(panels: Seq<DockPanel>, id: PanelId)
    ensures
        match first_panel(panels, id) {
            Some(i) => 0 <= i < panels.len() && panels[i].id == id && forall|j: int|
                0 <= j < i ==> panels[j].id != id,
            None => forall|j: int| 0 <= j < panels.len() ==> panels[j].id != id,
        },
    decreases panels.len(),
{
    if panels.len() > 0 {
        lemma_first_panel(panels.drop_last(), id);
        match first_panel(panels.drop_last(), id) {
            Some(i) => {
                assert(panels.drop_last()[i] == panels[i]);
                assert forall|j: int| 0 <= j < i implies panels[j].id != id by {
                    assert(panels.drop_last()[j] == panels[j]);
                }
            },
            None => {
                assert forall|j: int| 0 <= j < panels.len() - 1 implies panels[j].id != id by {
                    assert(panels.drop_last()[j] == panels[j]);
                }
            },
        }
    }
}

/// Manages the dock's panels and its narrow mode.
#[derive(Debug, Clone)]
pub struct DockArea {
    panels: Vec<DockPanel>,
    /// Whether the last layout went narrow: the side panels left the edge
    /// allocation because the centre would have been too narrow.
    narrow: bool,
    /// The one side panel shown as an overlay over the viewport while
    /// narrow.
    narrow_overlay: Option<PanelId>,
}

impl DockArea {
    /// The panels, in the order they were added.
    pub closed spec fn panels_spec(&self) -> Seq<DockPanel> {
        self.panels@
    }

    /// Whether the dock is narrow.
    pub closed spec fn narrow_spec(&self) -> bool {
        self.narrow
    }

    /// The overlay panel remembered for narrow mode.
    pub closed spec fn overlay_spec(&self) -> Option<PanelId> {
        self.narrow_overlay
    }

    /// An empty dock, not narrow, with no overlay.
    pub fn new() -> (d: Self)
        ensures
            d.panels_spec() == Seq::<DockPanel>::empty(),
            !d.narrow_spec(),
            d.overlay_spec() is None,
    {
        DockArea { panels: Vec::new(), narrow: false, narrow_overlay: None }
    }

    /// Add a panel to the dock area.
    pub fn add_panel(&mut self, panel: DockPanel)
        ensures
            final(self).panels_spec() == old(self).panels_spec().push(panel),
            final(self).narrow_spec() == old(self).narrow_spec(),
            final(self).overlay_spec() == old(self).overlay_spec(),
    {
        self.panels.push(panel);
    }

    /// The index of the panel with `id` (the first one, should two share
    /// an id).
    pub fn panel_index(&self, id: PanelId) -> (index: Option<usize>)
        ensures
            match index {
                Some(i) => first_panel(self.panels_spec(), id) == Some(i as int) && i
                    < self.panels_spec().len() && self.panels_spec()[i as int].id == id,
                None => first_panel(self.panels_spec(), id) is None,
            },
    {
        proof {
            lemma_first_panel(self.panels@, id);
        }
        let mut i: usize = 0;
        while i < self.panels.len()
            invariant
                i <= self.panels@.len(),
                forall|j: int| 0 <= j < i ==> self.panels@[j].id != id,
                match first_panel(self.panels@, id) {
                    Some(k) => 0 <= k < self.panels@.len() && self.panels@[k].id == id && forall|j: int|
                        0 <= j < k ==> self.panels@[j].id != id,
                    None => forall|j: int| 0 <= j < self.panels@.len() ==> self.panels@[j].id != id,
                },
            decreases self.panels@.len() - i,
        {
            if self.panels[i].id == id {
                assert(first_panel(self.panels@, id) == Some(i as int)) by {
                    match first_panel(self.panels@, id) {
                        Some(k) => {
                            assert(!(k < i));
                            assert(!(k > i));
                        },
                        None => {},
                    }
                }
                return Some(i);
            }
            i = i + 1;
        }
        None
    }

    /// The panel with `id`.
    pub fn get_panel(&self, id: PanelId) -> (panel: Option<&DockPanel>)
        ensures
            match first_panel(self.panels_spec(), id) {
                Some(i) => panel == Some(&self.panels_spec()[i]),
                None => panel is None,
            },
    {
        match self.panel_index(id) {
            Some(i) => Some(&self.panels[i]),
            None => None,
        }
    }

    /// All panels.
    pub fn panels(&self) -> (panels: &[DockPanel])
        ensures
            panels@ == self.panels_spec(),
    {
        self.panels.as_slice()
    }

    /// Set a panel's visibility; returns whether the panel exists (the host
    /// then re-runs the layout).
    pub fn set_panel_visible(&mut self, id: PanelId, visible: bool) -> (found: bool)
        ensures
            found == first_panel(old(self).panels_spec(), id) is Some,
            final(self).panels_spec() == (match first_panel(old(self).panels_spec(), id) {
                Some(i) => old(self).panels_spec().update(
                    i,
                    DockPanel { visible, ..old(self).panels_spec()[i] },
                ),
                None => old(self).panels_spec(),
            }),
            final(self).narrow_spec() == old(self).narrow_spec(),
            final(self).overlay_spec() == old(self).overlay_spec(),
    {
        match self.panel_index(id) {
            Some(i) => {
                let panel = DockPanel { visible, ..self.panels[i].clone() };
                self.panels.set(i, panel);
                true
            },
            None => false,
        }
    }

    /// Toggle a panel's visibility; returns whether the panel exists.
    pub fn toggle_panel_visible(&mut self, id: PanelId) -> (found: bool)
        ensures
            found == first_panel(old(self).panels_spec(), id) is Some,
            final(self).panels_spec() == (match first_panel(old(self).panels_spec(), id) {
                Some(i) => old(self).panels_spec().update(
                    i,
                    DockPanel { visible: !old(self).panels_spec()[i].visible, ..old(self).panels_spec()[i] },
                ),
                None => old(self).panels_spec(),
            }),
            final(self).narrow_spec() == old(self).narrow_spec(),
            final(self).overlay_spec() == old(self).overlay_spec(),
    {
        match self.panel_index(id) {
            Some(i) => {
                let visible = !self.panels[i].visible;
                let panel = DockPanel { visible, ..self.panels[i].clone() };
                self.panels.set(i, panel);
                true
            },
            None => false,
        }
    }

    /// Set a panel's collapsed state — edge panels only; returns whether
    /// anything changed hands (an edge panel with that id exists).
    pub fn set_panel_collapsed(&mut self, id: PanelId, collapsed: bool) -> (applied: bool)
        ensures
            applied == (match first_panel(old(self).panels_spec(), id) {
                Some(i) => collapsible_at(old(self).panels_spec()[i].position),
                None => false,
            }),
            final(self).panels_spec() == (if applied {
                let i = first_panel(old(self).panels_spec(), id)->0;
                old(self).panels_spec().update(i, DockPanel { collapsed, ..old(self).panels_spec()[i] })
            } else {
                old(self).panels_spec()
            }),
            final(self).narrow_spec() == old(self).narrow_spec(),
            final(self).overlay_spec() == old(self).overlay_spec(),
    {
        match self.panel_index(id) {
            Some(i) => {
                if self.panels[i].is_collapsible() {
                    let panel = DockPanel { collapsed, ..self.panels[i].clone() };
                    self.panels.set(i, panel);
                    true
                } else {
                    false
                }
            },
            None => false,
        }
    }

    /// Toggle a panel's collapsed state — edge panels only; returns whether
    /// it applied.
    pub fn toggle_panel_collapsed(&mut self, id: PanelId) -> (applied: bool)
        ensures
            applied == (match first_panel(old(self).panels_spec(), id) {
                Some(i) => collapsible_at(old(self).panels_spec()[i].position),
                None => false,
            }),
            final(self).panels_spec() == (if applied {
                let i = first_panel(old(self).panels_spec(), id)->0;
                old(self).panels_spec().update(
                    i,
                    DockPanel { collapsed: !old(self).panels_spec()[i].collapsed, ..old(self).panels_spec()[i] },
                )
            } else {
                old(self).panels_spec()
            }),
            final(self).narrow_spec() == old(self).narrow_spec(),
            final(self).overlay_spec() == old(self).overlay_spec(),
    {
        match self.panel_index(id) {
            Some(i) => {
                if self.panels[i].is_collapsible() {
                    let collapsed = !self.panels[i].collapsed;
                    let panel = DockPanel { collapsed, ..self.panels[i].clone() };
                    self.panels.set(i, panel);
                    true
                } else {
                    false
                }
            },
            None => false,
        }
    }

    /// Restore a panel's saved visibility and collapse state: the first
    /// panel with `id` takes them, collapsed only where it can collapse;
    /// the centre panel is layout-derived and takes nothing. Returns whether
    /// a panel took them.
    pub fn set_panel_flags(&mut self, id: PanelId, visible: bool, collapsed: bool) -> (applied: bool)
        ensures
            applied == (match first_panel(old(self).panels_spec(), id) {
                Some(i) => !(old(self).panels_spec()[i].position is Center),
                None => false,
            }),
            final(self).panels_spec() == (if applied {
                let i = first_panel(old(self).panels_spec(), id)->0;
                let p = old(self).panels_spec()[i];
                old(self).panels_spec().update(
                    i,
                    DockPanel { visible, collapsed: collapsed && collapsible_at(p.position), ..p },
                )
            } else {
                old(self).panels_spec()
            }),
            final(self).narrow_spec() == old(self).narrow_spec(),
            final(self).overlay_spec() == old(self).overlay_spec(),
    {
        match self.panel_index(id) {
            Some(i) => {
                if matches!(self.panels[i].position, DockPosition::Center) {
                    false
                } else {
                    let collapsed = collapsed && self.panels[i].is_collapsible();
                    let panel = DockPanel { visible, collapsed, ..self.panels[i].clone() };
                    self.panels.set(i, panel);
                    true
                }
            },
            None => false,
        }
    }

    /// Whether the dock is in narrow mode.
    pub fn is_narrow(&self) -> (narrow: bool)
        ensures
            narrow == self.narrow_spec(),
    {
        self.narrow
    }

    /// The side panel currently shown as a narrow-mode overlay, if any:
    /// only while narrow.
    pub fn narrow_overlay(&self) -> (overlay: Option<PanelId>)
        ensures
            overlay == (if self.narrow_spec() {
                self.overlay_spec()
            } else {
                None
            }),
    {
        if self.narrow {
            self.narrow_overlay
        } else {
            None
        }
    }

    /// Show `id` as the narrow-mode overlay, closing whichever panel was
    /// open; opening the panel that is already open closes it. Outside
    /// narrow mode no overlay is kept, so none is stored.
    pub fn open_narrow_overlay(&mut self, id: PanelId)
        ensures
            final(self).overlay_spec() == (if old(self).narrow_spec() {
                overlay_after_open(old(self).overlay_spec(), id)
            } else {
                None
            }),
            final(self).panels_spec() == old(self).panels_spec(),
            final(self).narrow_spec() == old(self).narrow_spec(),
    {
        if !self.narrow || self.narrow_overlay == Some(id) {
            self.narrow_overlay = None;
        } else {
            self.narrow_overlay = Some(id);
        }
    }

    /// Close the narrow-mode overlay, leaving the tabs at the edges.
    pub fn close_narrow_overlay(&mut self)
        ensures
            final(self).overlay_spec() is None,
            final(self).panels_spec() == old(self).panels_spec(),
            final(self).narrow_spec() == old(self).narrow_spec(),
    {
        self.narrow_overlay = None;
    }

    /// Adopt the layout's narrow decision (whether the centre would fall
    /// below its minimum width with the side panels docked). Leaving narrow
    /// mode forgets the overlay.
    pub fn set_narrow(&mut self, narrow: bool)
        ensures
            final(self).narrow_spec() == narrow,
            final(self).overlay_spec() == (if narrow {
                old(self).overlay_spec()
            } else {
                None
            }),
            final(self).panels_spec() == old(self).panels_spec(),
    {
        self.narrow = narrow;
        if !narrow {
            self.narrow_overlay = None;
        }
    }

    /// Whether the panel at `index` takes an edge allocation in the layout:
    /// visible, and not a side panel while narrow.
    pub fn takes_edge_allocation(&self, index: usize) -> (takes: bool)
        requires
            index < self.panels_spec().len(),
        ensures
            takes == (self.panels_spec()[index as int].visible && !(self.narrow_spec() && side_position(
                self.panels_spec()[index as int].position,
            ))),
    {
        self.panels[index].visible && !(self.narrow && is_side(self.panels[index].position))
    }

    /// Whether the side panel `id` is shown as the open overlay (rather
    /// than as its edge tab) in narrow mode.
    pub fn shows_as_overlay(&self, id: PanelId) -> (overlay: bool)
        ensures
            overlay == (self.narrow_spec() && self.overlay_spec() == Some(id)),
    {
        self.narrow && self.narrow_overlay == Some(id)
    }
}

impl Default for DockArea {
    fn default() -> (d: Self)
        ensures
            d.panels_spec() == Seq::<DockPanel>::empty(),
            !d.narrow_spec(),
            d.overlay_spec() is None,
    {
        DockArea::new()
    }
}

/// The overlay after opening `id`: `id`, unless it was the open one, which
/// closes.
pub open spec fn overlay_after_open(current: Option<PanelId>, id: PanelId) -> Option<PanelId> {
    if current == Some(id) {
        None
    } else {
        Some(id)
    }
}

/// Opening a panel's overlay twice leaves no overlay open, unless it was
/// open already, in which case it is open again; either way at most that
/// panel shows.
pub proof fn lemma_open_overlay_twice(current: Option<PanelId>, id: PanelId)
    ensures
        overlay_after_open(overlay_after_open(current, id), id) == (if current == Some(id) {
            Some(id)
        } else {
            None
        }),
{
}

/// The panel a View-menu label toggles.
pub open spec fn panel_for_label(label: Seq<char>) -> Option<PanelId> {
    if label == "Inspector"@ {
        Some(PanelId(1))
    } else if label == "Hierarchy"@ {
        Some(PanelId(2))
    } else if label == "Asset Browser"@ {
        Some(PanelId(3))
    } else {
        None
    }
}

/// Map a View-menu item label to the dock panel it toggles.
///
/// Scene View (always visible) and Console (no panel implementation yet)
/// return `None`.
pub fn panel_id_for_menu_label(label: &str) -> (panel: Option<PanelId>)
    ensures
        panel == panel_for_label(label@),
{
    if str_eq(label, "Inspector") {
        Some(PanelId::inspector())
    } else if str_eq(label, "Hierarchy") {
        Some(PanelId::hierarchy())
    } else if str_eq(label, "Asset Browser") {
        Some(PanelId::asset_browser())
    } else {
        None
    }
}

} // verus!
