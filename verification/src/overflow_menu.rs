//! The toolbar strip's overflow menu: which entries it lists when the strip
//! is too narrow for its groups — the shed tools, a separator, then the
//! shed view toggles and Reset Layout — and what a pick does. (Where the
//! menu hangs and how its rows are drawn is the host's floating-point
//! layout.)

use vstd::prelude::*;

use crate::text::opt_chars;
use crate::toolbar::{all_tools, tool_name_spec, tool_shortcut_spec, EditorTool, Toolbar};
use crate::view_toggles::{
    all_view_toggles, is_on_spec, toggle_name_spec, toggle_shortcut_spec, ViewToggle, ViewToggles,
};

verus! {

/// An item selected from the overflow menu.
#[derive(Debug, Clone, Copy, PartialEq, Eq, Structural)]
pub enum OverflowPick {
    Tool(EditorTool),
    Toggle(ViewToggle),
    ResetLayout,
}

/// One entry of the open menu.
#[derive(Debug, Clone, Copy)]
pub struct OverflowRow {
    /// The entry's text.
    pub label: &'static str,
    /// The shortcut shown at the row's right, if any.
    pub hint: Option<&'static str>,
    /// For a toggle, whether it is on (a check is drawn); else nothing.
    pub checked: Option<bool>,
    /// What clicking the entry picks.
    pub pick: OverflowPick,
}

/// The tools the strip shed: those after the first `visible_tools`.
pub open spec fn shed_tools(visible_tools: nat) -> Seq<EditorTool> {
    if visible_tools >= all_tools().len() {
        Seq::empty()
    } else {
        all_tools().skip(visible_tools as int)
    }
}

/// The menu's entries, top to bottom: the shed tools; then, when the view
/// group was shed, every toggle and Reset Layout.
pub open spec fn overflow_picks(visible_tools: nat, view_group_shed: bool) -> Seq<OverflowPick> {
    shed_tools(visible_tools).map_values(|t: EditorTool| OverflowPick::Tool(t)) + if view_group_shed {
        all_view_toggles().map_values(|t: ViewToggle| OverflowPick::Toggle(t)).push(
            OverflowPick::ResetLayout,
        )
    } else {
        Seq::empty()
    }
}

/// The text of an entry.
pub open spec fn pick_label(pick: OverflowPick) -> Seq<char> {
    match pick {
        OverflowPick::Tool(t) => tool_name_spec(t),
        OverflowPick::Toggle(t) => toggle_name_spec(t),
        OverflowPick::ResetLayout => "Reset Layout"@,
    }
}

/// The shortcut an entry shows.
pub open spec fn pick_hint(pick: OverflowPick) -> Option<Seq<char>> {
    match pick {
        OverflowPick::Tool(t) => Some(tool_shortcut_spec(t)),
        OverflowPick::Toggle(t) => toggle_shortcut_spec(t),
        OverflowPick::ResetLayout => None,
    }
}

/// The row an entry is drawn as, given the toggles' state.
pub open spec fn row_matches(row: OverflowRow, pick: OverflowPick, toggles: ViewToggles) -> bool {
    &&& row.pick == pick
    &&& row.label@ == pick_label(pick)
    &&& opt_chars(row.hint) == pick_hint(pick)
    &&& row.checked == (match pick {
        OverflowPick::Toggle(t) => Some(is_on_spec(toggles, t)),
        _ => None,
    })
}

/// Whether the open menu has anything to list. With nothing shed the menu
/// closes itself.
pub fn menu_has_entries(visible_tools: usize, view_group_shed: bool) -> (any: bool)
    ensures
        any == (overflow_picks(visible_tools as nat, view_group_shed).len() > 0),
{
    let tools = EditorTool::all();
    proof {
        assert(all_tools().len() == 4);
    }
    visible_tools < tools.len() || view_group_shed
}

/// The menu's rows, top to bottom.
pub fn overflow_rows(visible_tools: usize, view_group_shed: bool, toggles: &ViewToggles) -> (rows: Vec<OverflowRow>)
    ensures
        rows@.len() == overflow_picks(visible_tools as nat, view_group_shed).len(),
        forall|i: int|
            0 <= i < rows@.len() ==> row_matches(
                #[trigger] rows@[i],
                overflow_picks(visible_tools as nat, view_group_shed)[i],
                *toggles,
            ),
{
    let tools = EditorTool::all();
    let ghost picks = overflow_picks(visible_tools as nat, view_group_shed);
    let ghost tool_part = shed_tools(visible_tools as nat).map_values(|t: EditorTool| OverflowPick::Tool(t));
    let mut rows: Vec<OverflowRow> = Vec::new();
    let mut k: usize = visible_tools;
    while k < tools.len()
        invariant
            tools@ == all_tools(),
            k >= visible_tools,
            visible_tools < tools@.len() ==> k <= tools@.len(),
            tool_part == shed_tools(visible_tools as nat).map_values(|t: EditorTool| OverflowPick::Tool(t)),
            forall|i: int| 0 <= i < rows@.len() ==> row_matches(#[trigger] rows@[i], tool_part[i], *toggles),
            visible_tools < tools@.len() ==> rows@.len() == k - visible_tools,
            visible_tools >= tools@.len() ==> rows@.len() == 0,
        decreases tools@.len() - k,
    {
        let tool = tools[k];
        rows.push(OverflowRow { label: tool.name(), hint: Some(tool.shortcut()), checked: None, pick: OverflowPick::Tool(tool) });
        k = k + 1;
    }
    assert(rows@.len() == tool_part.len());
    if view_group_shed {
        let all = ViewToggle::all();
        let mut j: usize = 0;
        while j < 4
            invariant
                all@ == all_view_toggles(),
                j <= 4,
                rows@.len() == tool_part.len() + j,
                forall|i: int| 0 <= i < tool_part.len() ==> row_matches(#[trigger] rows@[i], tool_part[i], *toggles),
                forall|i: int|
                    tool_part.len() <= i < rows@.len() ==> row_matches(
                        #[trigger] rows@[i],
                        OverflowPick::Toggle(all_view_toggles()[i - tool_part.len()]),
                        *toggles,
                    ),
            decreases 4 - j,
        {
            let t = all[j];
            rows.push(OverflowRow { label: t.name(), hint: t.shortcut(), checked: Some(toggles.is_on(t)), pick: OverflowPick::Toggle(t) });
            j = j + 1;
        }
        rows.push(OverflowRow { label: "Reset Layout", hint: None, checked: None, pick: OverflowPick::ResetLayout });
        assert forall|i: int| 0 <= i < rows@.len() implies row_matches(#[trigger] rows@[i], picks[i], *toggles) by {
            if i < tool_part.len() {
                assert(picks[i] == tool_part[i]);
            } else if i < tool_part.len() + 4 {
                assert(picks[i] == OverflowPick::Toggle(all_view_toggles()[i - tool_part.len()]));
            }
        }
    } else {
        assert(picks =~= tool_part);
    }
    rows
}

/// Where the separator rule goes: before the first toggle, when shed tools
/// precede the shed view group.
pub fn separator_index(visible_tools: usize, view_group_shed: bool) -> (index: Option<usize>)
    ensures
        index == (if view_group_shed && shed_tools(visible_tools as nat).len() > 0 {
            Some(shed_tools(visible_tools as nat).len() as usize)
        } else {
            None
        }),
{
    let total = EditorTool::all().len();
    if view_group_shed && visible_tools < total {
        Some(total - visible_tools)
    } else {
        None
    }
}

/// What a pick does to the toolbar: a tool pick selects the tool, and any
/// pick closes the menu.
pub fn apply_overflow_pick(toolbar: &mut Toolbar, pick: Option<OverflowPick>)
    ensures
        final(toolbar).tool() == (match pick {
            Some(OverflowPick::Tool(t)) => t,
            _ => old(toolbar).tool(),
        }),
        final(toolbar).overflow() == (old(toolbar).overflow() && pick is None),
{
    if let Some(p) = pick {
        if let OverflowPick::Tool(tool) = p {
            toolbar.set_tool(tool);
        }
        toolbar.close_overflow();
    }
}

/// Whether the open overflow menu is drawn this frame. It closes itself
/// when the strip has no overflow button (nothing was shed), when it has
/// nothing to list, or when a press landed outside both the menu and the
/// button that opened it (`pressed_outside`); a closed menu stays closed.
pub fn settle_overflow_menu(
    toolbar: &mut Toolbar,
    has_overflow_button: bool,
    visible_tools: usize,
    view_group_shed: bool,
    pressed_outside: bool,
) -> (shown: bool)
    ensures
        shown == (old(toolbar).overflow() && has_overflow_button && overflow_picks(
            visible_tools as nat,
            view_group_shed,
        ).len() > 0 && !pressed_outside),
        final(toolbar).overflow() == shown,
        final(toolbar).tool() == old(toolbar).tool(),
{
    if !toolbar.is_overflow_open() {
        return false;
    }
    if !has_overflow_button || !menu_has_entries(visible_tools, view_group_shed) || pressed_outside {
        toolbar.close_overflow();
        return false;
    }
    true
}

} // verus!
