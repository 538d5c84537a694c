//! The part of the editor preferences that is panel layout: which dock
//! panels are shown and which are collapsed, captured from the dock and
//! restored onto it. (Camera, grid size and panel sizes are floating-point
//! values the host persists beside these.)

use vstd::prelude::*;

use crate::dock::{collapsible_at, first_panel, lemma_first_panel, DockArea, DockPanel, DockPosition, PanelId};

verus! {

/// Whether the authoring grid overlay is visible when a preferences file
/// predates the drawn grid: it is.
pub fn default_grid_visible() -> (visible: bool)
    ensures
        visible,
{
    true
}

/// Persisted layout flags for one dock panel.
#[derive(Debug, Clone, Copy, PartialEq, Eq, Structural)]
pub struct PanelFlags {
    /// Panel identifier (`PanelId.0`)
    pub id: u32,
    /// Whether the panel is visible
    pub visible: bool,
    /// Whether the panel is collapsed to a slim strip
    pub collapsed: bool,
}

/// The flags a panel is saved with.
pub open spec fn flags_of(p: DockPanel) -> PanelFlags {
    PanelFlags { id: p.id.0, visible: p.visible, collapsed: p.collapsed }
}

/// The flags captured from `panels`: one per panel, in order, the centre
/// panel (layout-derived) left out.
pub open spec fn captured(panels: Seq<DockPanel>) -> Seq<PanelFlags>
    decreases panels.len(),
{
    if panels.len() == 0 {
        Seq::empty()
    } else if panels.last().position is Center {
        captured(panels.drop_last())
    } else {
        captured(panels.drop_last()).push(flags_of(panels.last()))
    }
}

/// `panels` after one saved entry is applied: the first panel with its id
/// takes its visibility, and its collapse where it can collapse; centre
/// panels and unknown ids are skipped.
pub open spec fn apply_flag(panels: Seq<DockPanel>, f: PanelFlags) -> Seq<DockPanel> {
    match first_panel(panels, PanelId(f.id)) {
        Some(i) => if panels[i].position is Center {
            panels
        } else {
            panels.update(
                i,
                DockPanel {
                    visible: f.visible,
                    collapsed: f.collapsed && collapsible_at(panels[i].position),
                    ..panels[i]
                },
            )
        },
        None => panels,
    }
}

/// `panels` after every saved entry is applied, in order.
pub open spec fn apply_flags(panels: Seq<DockPanel>, saved: Seq<PanelFlags>) -> Seq<DockPanel>
    decreases saved.len(),
{
    if saved.len() == 0 {
        panels
    } else {
        apply_flag(apply_flags(panels, saved.drop_last()), saved.last())
    }
}

/// Capture the current panel layout from a dock area. The centre panel
/// (scene view) is layout-derived and never persisted.
pub fn capture_panel_flags(dock: &DockArea) -> (saved: Vec<PanelFlags>)
    ensures
        saved@ == captured(dock.panels_spec()),
{
    let panels = dock.panels();
    let mut saved: Vec<PanelFlags> = Vec::new();
    let mut i: usize = 0;
    while i < panels.len()
        invariant
            panels@ == dock.panels_spec(),
            i <= panels@.len(),
            saved@ == captured(panels@.take(i as int)),
        decreases panels@.len() - i,
    {
        proof {
            assert(panels@.take(i + 1).drop_last() =~= panels@.take(i as int));
        }
        if !matches!(panels[i].position, DockPosition::Center) {
            saved.push(PanelFlags { id: panels[i].id.0, visible: panels[i].visible, collapsed: panels[i].collapsed });
        }
        i = i + 1;
    }
    assert(panels@.take(i as int) =~= panels@);
    saved
}

/// Apply saved panel flags onto a dock area. Unknown panel ids and the
/// centre panel are skipped; a panel that cannot collapse is restored
/// expanded. (The host then re-runs the layout.)
pub fn apply_panel_flags(saved: &[PanelFlags], dock: &mut DockArea)
    ensures
        final(dock).panels_spec() == apply_flags(old(dock).panels_spec(), saved@),
        final(dock).narrow_spec() == old(dock).narrow_spec(),
        final(dock).overlay_spec() == old(dock).overlay_spec(),
{
    let mut i: usize = 0;
    while i < saved.len()
        invariant
            i <= saved@.len(),
            dock.panels_spec() == apply_flags(old(dock).panels_spec(), saved@.take(i as int)),
            dock.narrow_spec() == old(dock).narrow_spec(),
            dock.overlay_spec() == old(dock).overlay_spec(),
        decreases saved@.len() - i,
    {
        proof {
            assert(saved@.take(i + 1).drop_last() =~= saved@.take(i as int));
        }
        let f = saved[i];
        dock.set_panel_flags(PanelId(f.id), f.visible, f.collapsed);
        i = i + 1;
    }
    assert(saved@.take(i as int) =~= saved@);
}

/// `fresh` with its first `n` panels given the flags `saved` holds at the
/// same positions (collapsed only where they can collapse); centre panels
/// are left alone.
pub open spec fn restored(saved: Seq<DockPanel>, fresh: Seq<DockPanel>, n: int) -> Seq<DockPanel> {
    Seq::new(
        fresh.len(),
        |i: int|
            if i < n && !(fresh[i].position is Center) {
                DockPanel {
                    visible: saved[i].visible,
                    collapsed: saved[i].collapsed && collapsible_at(fresh[i].position),
                    ..fresh[i]
                }
            } else {
                fresh[i]
            },
    )
}

/// The two docks hold the same panels — same ids at the same places,
/// docked at the same edges — and no id repeats.
pub open spec fn same_panel_set(saved: Seq<DockPanel>, fresh: Seq<DockPanel>) -> bool {
    &&& saved.len() == fresh.len()
    &&& forall|i: int| 0 <= i < fresh.len() ==> #[trigger] saved[i].id == fresh[i].id && saved[i].position
        == fresh[i].position
    &&& forall|i: int, j: int| 0 <= i < j < fresh.len() ==> fresh[i].id != fresh[j].id
}

/// Preferences round trip: flags captured from one dock and applied onto a
/// dock with the same panels give every non-centre panel the saved
/// visibility, and the saved collapse where the panel can collapse; the
/// rest of each panel is untouched.
pub proof fn lemma_capture_then_apply(saved: Seq<DockPanel>, fresh: Seq<DockPanel>)
    requires
        same_panel_set(saved, fresh),
    ensures
        apply_flags(fresh, captured(saved)) == restored(saved, fresh, fresh.len() as int),
{
    lemma_capture_then_apply_prefix(saved, fresh, saved.len() as int);
    assert(saved.take(saved.len() as int) =~= saved);
}

/// The round trip over the first `n` saved panels.
proof fn lemma_capture_then_apply_prefix(saved: Seq<DockPanel>, fresh: Seq<DockPanel>, n: int)
    requires
        same_panel_set(saved, fresh),
        0 <= n <= saved.len(),
    ensures
        apply_flags(fresh, captured(saved.take(n))) == restored(saved, fresh, n),
    decreases n,
{
    if n == 0 {
        assert(captured(saved.take(0)) =~= Seq::<PanelFlags>::empty()) by {
            assert(saved.take(0) =~= Seq::<DockPanel>::empty());
        }
        assert(restored(saved, fresh, 0) =~= fresh);
    } else {
        let k = n - 1;
        lemma_capture_then_apply_prefix(saved, fresh, k);
        let before = restored(saved, fresh, k);
        assert(saved.take(n).drop_last() =~= saved.take(k));
        assert(saved.take(n).last() == saved[k]);
        if saved[k].position is Center {
            assert(restored(saved, fresh, n) =~= before);
        } else {
            let f = flags_of(saved[k]);
            assert(captured(saved.take(n)) == captured(saved.take(k)).push(f));
            assert(captured(saved.take(n)).drop_last() =~= captured(saved.take(k)));
            lemma_first_panel(before, PanelId(f.id));
            assert(before[k].id == PanelId(f.id));
            assert(first_panel(before, PanelId(f.id)) == Some(k)) by {
                match first_panel(before, PanelId(f.id)) {
                    Some(i) => {
                        if i != k {
                            assert(before[i].id == fresh[i].id);
                            if i < k {
                                assert(fresh[i].id != fresh[k].id);
                            } else {
                                assert(fresh[k].id != fresh[i].id);
                            }
                        }
                    },
                    None => {},
                }
            }
            assert(apply_flag(before, f) =~= restored(saved, fresh, n));
        }
    }
}

} // verus!
