//! Menu item labels to editor actions: the menu bar speaks labels, the
//! rest of the editor speaks actions.

use vstd::prelude::*;

use crate::dock::{panel_for_label, panel_id_for_menu_label};
use crate::editor_input::EditorAction;
use crate::text::str_eq;

verus! {

/// The action a menu label stands for.
pub open spec fn action_for_label(label: Seq<char>) -> Option<EditorAction> {
    if panel_for_label(label) is Some {
        Some(EditorAction::TogglePanel(panel_for_label(label)->0))
    } else if label == "New Scene"@ {
        Some(EditorAction::NewScene)
    } else if label == "Open Scene..."@ {
        Some(EditorAction::OpenScene)
    } else if label == "Save"@ {
        Some(EditorAction::Save)
    } else if label == "Save As..."@ {
        Some(EditorAction::SaveAs)
    } else if label == "Exit"@ {
        Some(EditorAction::Exit)
    } else if label == "Undo"@ {
        Some(EditorAction::Undo)
    } else if label == "Redo"@ {
        Some(EditorAction::Redo)
    } else if label == "Cut"@ {
        Some(EditorAction::Cut)
    } else if label == "Copy"@ {
        Some(EditorAction::Copy)
    } else if label == "Paste"@ {
        Some(EditorAction::Paste)
    } else if label == "Delete"@ {
        Some(EditorAction::Delete)
    } else if label == "Duplicate"@ {
        Some(EditorAction::Duplicate)
    } else if label == "Toggle Grid"@ {
        Some(EditorAction::ToggleGrid)
    } else if label == "Toggle Colliders"@ {
        Some(EditorAction::ToggleColliders)
    } else if label == "Snap to Grid"@ {
        Some(EditorAction::ToggleSnap)
    } else if label == "Cycle Game Locale"@ {
        Some(EditorAction::CycleGameLocale)
    } else if label == "Reset Layout"@ {
        Some(EditorAction::ResetLayout)
    } else {
        None
    }
}

/// Menu label to editor action: a panel's View-menu label toggles the
/// panel; the File, Edit and View items map to their actions; any other
/// label maps to nothing.
pub fn action_for_menu_label(label: &str) -> (action: Option<EditorAction>)
    ensures
        action == action_for_label(label@),
{
    if let Some(panel) = panel_id_for_menu_label(label) {
        Some(EditorAction::TogglePanel(panel))
    } else if str_eq(label, "New Scene") {
        Some(EditorAction::NewScene)
    } else if str_eq(label, "Open Scene...") {
        Some(EditorAction::OpenScene)
    } else if str_eq(label, "Save") {
        Some(EditorAction::Save)
    } else if str_eq(label, "Save As...") {
        Some(EditorAction::SaveAs)
    } else if str_eq(label, "Exit") {
        Some(EditorAction::Exit)
    } else if str_eq(label, "Undo") {
        Some(EditorAction::Undo)
    } else if str_eq(label, "Redo") {
        Some(EditorAction::Redo)
    } else if str_eq(label, "Cut") {
        Some(EditorAction::Cut)
    } else if str_eq(label, "Copy") {
        Some(EditorAction::Copy)
    } else if str_eq(label, "Paste") {
        Some(EditorAction::Paste)
    } else if str_eq(label, "Delete") {
        Some(EditorAction::Delete)
    } else if str_eq(label, "Duplicate") {
        Some(EditorAction::Duplicate)
    } else if str_eq(label, "Toggle Grid") {
        Some(EditorAction::ToggleGrid)
    } else if str_eq(label, "Toggle Colliders") {
        Some(EditorAction::ToggleColliders)
    } else if str_eq(label, "Snap to Grid") {
        Some(EditorAction::ToggleSnap)
    } else if str_eq(label, "Cycle Game Locale") {
        Some(EditorAction::CycleGameLocale)
    } else if str_eq(label, "Reset Layout") {
        Some(EditorAction::ResetLayout)
    } else {
        None
    }
}

} // verus!
