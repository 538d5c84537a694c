//! The editor's tools and the toolbar state that selects among them.
//!
//! Button geometry is floating-point layout done by the host; what the
//! toolbar decides — the current tool, whether its overflow menu is open —
//! lives here.

use vstd::prelude::*;

verus! {

/// Available editor tools for manipulating entities.
#[derive(Debug, Clone, Copy, PartialEq, Eq, Hash, Structural)]
pub enum EditorTool {
    /// Select and click entities
    Select,
    /// Move/translate entities — the default, so a fresh editor shows a
    /// gizmo the moment something is selected.
    Move,
    /// Rotate entities
    Rotate,
    /// Scale entities uniformly or non-uniformly
    Scale,
}

/// Every tool, in toolbar order.
pub open spec fn all_tools() -> Seq<EditorTool> {
    seq![EditorTool::Select, EditorTool::Move, EditorTool::Rotate, EditorTool::Scale]
}

/// A tool's display name.
pub open spec fn tool_name_spec(tool: EditorTool) -> Seq<char> {
    match tool {
        EditorTool::Select => "Select"@,
        EditorTool::Move => "Move"@,
        EditorTool::Rotate => "Rotate"@,
        EditorTool::Scale => "Scale"@,
    }
}

/// A tool's shortcut hint.
pub open spec fn tool_shortcut_spec(tool: EditorTool) -> Seq<char> {
    match tool {
        EditorTool::Select => "Q"@,
        EditorTool::Move => "W"@,
        EditorTool::Rotate => "E"@,
        EditorTool::Scale => "R"@,
    }
}

impl Default for EditorTool {
    /// The Move tool.
    fn default() -> (tool: Self)
        ensures
            tool == EditorTool::Move,
    {
        EditorTool::Move
    }
}

impl EditorTool {
    /// The display name for this tool.
    pub fn name(&self) -> (name: &'static str)
        ensures
            name@ == tool_name_spec(*self),
    {
        match self {
            EditorTool::Select => "Select",
            EditorTool::Move => "Move",
            EditorTool::Rotate => "Rotate",
            EditorTool::Scale => "Scale",
        }
    }

    /// The keyboard shortcut hint for this tool.
    pub fn shortcut(&self) -> (hint: &'static str)
        ensures
            hint@ == tool_shortcut_spec(*self),
    {
        match self {
            EditorTool::Select => "Q",
            EditorTool::Move => "W",
            EditorTool::Rotate => "E",
            EditorTool::Scale => "R",
        }
    }

    /// All available tools, in toolbar order.
    pub fn all() -> (tools: &'static [EditorTool])
        ensures
            tools@ == all_tools(),
    {
        let tools: &'static [EditorTool] = &[
            EditorTool::Select,
            EditorTool::Move,
            EditorTool::Rotate,
            EditorTool::Scale,
        ];
        assert(tools@ =~= all_tools());
        tools
    }
}

/// The toolbar's state: the selected tool and whether the overflow menu of
/// tools the strip had no room for is open.
#[derive(Debug, Clone, Copy, PartialEq, Eq, Structural)]
pub struct Toolbar {
    current_tool: EditorTool,
    overflow_open: bool,
}

impl Toolbar {
    /// The selected tool.
    pub closed spec fn tool(&self) -> EditorTool {
        self.current_tool
    }

    /// Whether the overflow menu is open.
    pub closed spec fn overflow(&self) -> bool {
        self.overflow_open
    }

    /// A toolbar on the default tool with its overflow menu closed.
    pub fn new() -> (t: Self)
        ensures
            t.tool() == EditorTool::Move,
            !t.overflow(),
    {
        Toolbar { current_tool: EditorTool::Move, overflow_open: false }
    }

    /// The currently selected tool.
    pub fn current_tool(&self) -> (tool: EditorTool)
        ensures
            tool == self.tool(),
    {
        self.current_tool
    }

    /// Select a tool.
    pub fn set_tool(&mut self, tool: EditorTool)
        ensures
            final(self).tool() == tool,
            final(self).overflow() == old(self).overflow(),
    {
        self.current_tool = tool;
    }

    /// Whether the overflow menu of shed tools is open.
    pub fn is_overflow_open(&self) -> (open: bool)
        ensures
            open == self.overflow(),
    {
        self.overflow_open
    }

    /// Open the overflow menu if it is closed, close it if it is open.
    pub fn toggle_overflow(&mut self)
        ensures
            final(self).overflow() == !old(self).overflow(),
            final(self).tool() == old(self).tool(),
    {
        self.overflow_open = !self.overflow_open;
    }

    /// Close the overflow menu.
    pub fn close_overflow(&mut self)
        ensures
            !final(self).overflow(),
            final(self).tool() == old(self).tool(),
    {
        self.overflow_open = false;
    }

    /// What one toolbar pass does with its clicks: a clicked tool becomes
    /// current and is reported; a click on the overflow button toggles the
    /// menu; a strip with no overflow button (every tool fits) closes the
    /// menu.
    pub fn apply_clicks(
        &mut self,
        clicked_tool: Option<EditorTool>,
        has_overflow_button: bool,
        overflow_clicked: bool,
    ) -> (picked: Option<EditorTool>)
        ensures
            picked == clicked_tool,
            final(self).tool() == (match clicked_tool {
                Some(t) => t,
                None => old(self).tool(),
            }),
            final(self).overflow() == (if !has_overflow_button {
                false
            } else if overflow_clicked {
                !old(self).overflow()
            } else {
                old(self).overflow()
            }),
    {
        if let Some(tool) = clicked_tool {
            self.current_tool = tool;
        }
        if has_overflow_button {
            if overflow_clicked {
                self.toggle_overflow();
            }
        } else {
            self.overflow_open = false;
        }
        clicked_tool
    }
}

impl Default for Toolbar {
    fn default() -> (t: Self)
        ensures
            t.tool() == EditorTool::Move,
            !t.overflow(),
    {
        Toolbar::new()
    }
}

/// How many tool buttons the strip shows, given how many fit in the tool
/// group's width on their own and how many fit beside the overflow button;
/// and whether the overflow button is needed. Shedding takes from the end
/// of the tool order, and at least one tool always goes to the menu once
/// any must.
pub fn fit_tools(fit_alone: usize, fit_beside_button: usize) -> (fit: (usize, bool))
    ensures
        fit == (if fit_alone >= all_tools().len() {
            (all_tools().len() as usize, false)
        } else if fit_beside_button < all_tools().len() - 1 {
            (fit_beside_button, true)
        } else {
            ((all_tools().len() - 1) as usize, true)
        }),
{
    let total = EditorTool::all().len();
    if fit_alone >= total {
        (total, false)
    } else if fit_beside_button < total - 1 {
        (fit_beside_button, true)
    } else {
        (total - 1, true)
    }
}

} // verus!
