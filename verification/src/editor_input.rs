//! Editor shortcuts: the one table mapping keys, chords and mouse buttons
//! to editor actions.
//!
//! A `Chord` fires only when Ctrl and Shift are exactly as written —
//! Ctrl+Shift+Z, Ctrl+Z and bare Z are three chords; a `KeyAnyMods` binding
//! fires under any modifiers; a mouse binding is read on the poll path only.
//! The event path (`resolve`) looks the exact chord up first and falls back
//! to the any-modifier binding of the same key.

use vstd::prelude::*;

use std::collections::HashMap;

use crate::dock::PanelId;

verus! {

broadcast use vstd::std_specs::hash::group_hash_axioms;

/// A keyboard key, by its position on the keyboard (the names follow the
/// physical key codes of the windowing layer).
#[derive(Debug, Clone, Copy, PartialEq, Eq, Hash, Structural)]
pub enum KeyCode {
    KeyA,
    KeyB,
    KeyC,
    KeyD,
    KeyE,
    KeyF,
    KeyG,
    KeyH,
    KeyI,
    KeyJ,
    KeyK,
    KeyL,
    KeyM,
    KeyN,
    KeyO,
    KeyP,
    KeyQ,
    KeyR,
    KeyS,
    KeyT,
    KeyU,
    KeyV,
    KeyW,
    KeyX,
    KeyY,
    KeyZ,
    Digit0,
    Digit1,
    Digit2,
    Digit3,
    Digit4,
    Digit5,
    Digit6,
    Digit7,
    Digit8,
    Digit9,
    F1,
    F2,
    F3,
    F4,
    F5,
    F6,
    F7,
    F8,
    F9,
    F10,
    F11,
    F12,
    ArrowLeft,
    ArrowRight,
    ArrowUp,
    ArrowDown,
    Space,
    Enter,
    Escape,
    Tab,
    Backspace,
    Delete,
    Insert,
    Home,
    End,
    PageUp,
    PageDown,
    ShiftLeft,
    ShiftRight,
    ControlLeft,
    ControlRight,
    AltLeft,
    AltRight,
    SuperLeft,
    SuperRight,
    Equal,
    Minus,
    Comma,
    Period,
    Slash,
    Semicolon,
    Quote,
    BracketLeft,
    BracketRight,
    Backslash,
    Backquote,
}

/// Number of keys [`KeyCode`] names.
pub const KEY_COUNT: usize = 82;

/// Each key's slot in the key tables, `0..KEY_COUNT`.
pub open spec fn key_code(k: KeyCode) -> nat {
    match k {
        KeyCode::KeyA => 0,
        KeyCode::KeyB => 1,
        KeyCode::KeyC => 2,
        KeyCode::KeyD => 3,
        KeyCode::KeyE => 4,
        KeyCode::KeyF => 5,
        KeyCode::KeyG => 6,
        KeyCode::KeyH => 7,
        KeyCode::KeyI => 8,
        KeyCode::KeyJ => 9,
        KeyCode::KeyK => 10,
        KeyCode::KeyL => 11,
        KeyCode::KeyM => 12,
        KeyCode::KeyN => 13,
        KeyCode::KeyO => 14,
        KeyCode::KeyP => 15,
        KeyCode::KeyQ => 16,
        KeyCode::KeyR => 17,
        KeyCode::KeyS => 18,
        KeyCode::KeyT => 19,
        KeyCode::KeyU => 20,
        KeyCode::KeyV => 21,
        KeyCode::KeyW => 22,
        KeyCode::KeyX => 23,
        KeyCode::KeyY => 24,
        KeyCode::KeyZ => 25,
        KeyCode::Digit0 => 26,
        KeyCode::Digit1 => 27,
        KeyCode::Digit2 => 28,
        KeyCode::Digit3 => 29,
        KeyCode::Digit4 => 30,
        KeyCode::Digit5 => 31,
        KeyCode::Digit6 => 32,
        KeyCode::Digit7 => 33,
        KeyCode::Digit8 => 34,
        KeyCode::Digit9 => 35,
        KeyCode::F1 => 36,
        KeyCode::F2 => 37,
        KeyCode::F3 => 38,
        KeyCode::F4 => 39,
        KeyCode::F5 => 40,
        KeyCode::F6 => 41,
        KeyCode::F7 => 42,
        KeyCode::F8 => 43,
        KeyCode::F9 => 44,
        KeyCode::F10 => 45,
        KeyCode::F11 => 46,
        KeyCode::F12 => 47,
        KeyCode::ArrowLeft => 48,
        KeyCode::ArrowRight => 49,
        KeyCode::ArrowUp => 50,
        KeyCode::ArrowDown => 51,
        KeyCode::Space => 52,
        KeyCode::Enter => 53,
        KeyCode::Escape => 54,
        KeyCode::Tab => 55,
        KeyCode::Backspace => 56,
        KeyCode::Delete => 57,
        KeyCode::Insert => 58,
        KeyCode::Home => 59,
        KeyCode::End => 60,
        KeyCode::PageUp => 61,
        KeyCode::PageDown => 62,
        KeyCode::ShiftLeft => 63,
        KeyCode::ShiftRight => 64,
        KeyCode::ControlLeft => 65,
        KeyCode::ControlRight => 66,
        KeyCode::AltLeft => 67,
        KeyCode::AltRight => 68,
        KeyCode::SuperLeft => 69,
        KeyCode::SuperRight => 70,
        KeyCode::Equal => 71,
        KeyCode::Minus => 72,
        KeyCode::Comma => 73,
        KeyCode::Period => 74,
        KeyCode::Slash => 75,
        KeyCode::Semicolon => 76,
        KeyCode::Quote => 77,
        KeyCode::BracketLeft => 78,
        KeyCode::BracketRight => 79,
        KeyCode::Backslash => 80,
        KeyCode::Backquote => 81,
    }
}

/// The key in slot `c`.
pub open spec fn key_of_code(c: nat) -> KeyCode {
    if c == 0 {
        KeyCode::KeyA
    } else if c == 1 {
        KeyCode::KeyB
    } else if c == 2 {
        KeyCode::KeyC
    } else if c == 3 {
        KeyCode::KeyD
    } else if c == 4 {
        KeyCode::KeyE
    } else if c == 5 {
        KeyCode::KeyF
    } else if c == 6 {
        KeyCode::KeyG
    } else if c == 7 {
        KeyCode::KeyH
    } else if c == 8 {
        KeyCode::KeyI
    } else if c == 9 {
        KeyCode::KeyJ
    } else if c == 10 {
        KeyCode::KeyK
    } else if c == 11 {
        KeyCode::KeyL
    } else if c == 12 {
        KeyCode::KeyM
    } else if c == 13 {
        KeyCode::KeyN
    } else if c == 14 {
        KeyCode::KeyO
    } else if c == 15 {
        KeyCode::KeyP
    } else if c == 16 {
        KeyCode::KeyQ
    } else if c == 17 {
        KeyCode::KeyR
    } else if c == 18 {
        KeyCode::KeyS
    } else if c == 19 {
        KeyCode::KeyT
    } else if c == 20 {
        KeyCode::KeyU
    } else if c == 21 {
        KeyCode::KeyV
    } else if c == 22 {
        KeyCode::KeyW
    } else if c == 23 {
        KeyCode::KeyX
    } else if c == 24 {
        KeyCode::KeyY
    } else if c == 25 {
        KeyCode::KeyZ
    } else if c == 26 {
        KeyCode::Digit0
    } else if c == 27 {
        KeyCode::Digit1
    } else if c == 28 {
        KeyCode::Digit2
    } else if c == 29 {
        KeyCode::Digit3
    } else if c == 30 {
        KeyCode::Digit4
    } else if c == 31 {
        KeyCode::Digit5
    } else if c == 32 {
        KeyCode::Digit6
    } else if c == 33 {
        KeyCode::Digit7
    } else if c == 34 {
        KeyCode::Digit8
    } else if c == 35 {
        KeyCode::Digit9
    } else if c == 36 {
        KeyCode::F1
    } else if c == 37 {
        KeyCode::F2
    } else if c == 38 {
        KeyCode::F3
    } else if c == 39 {
        KeyCode::F4
    } else if c == 40 {
        KeyCode::F5
    } else if c == 41 {
        KeyCode::F6
    } else if c == 42 {
        KeyCode::F7
    } else if c == 43 {
        KeyCode::F8
    } else if c == 44 {
        KeyCode::F9
    } else if c == 45 {
        KeyCode::F10
    } else if c == 46 {
        KeyCode::F11
    } else if c == 47 {
        KeyCode::F12
    } else if c == 48 {
        KeyCode::ArrowLeft
    } else if c == 49 {
        KeyCode::ArrowRight
    } else if c == 50 {
        KeyCode::ArrowUp
    } else if c == 51 {
        KeyCode::ArrowDown
    } else if c == 52 {
        KeyCode::Space
    } else if c == 53 {
        KeyCode::Enter
    } else if c == 54 {
        KeyCode::Escape
    } else if c == 55 {
        KeyCode::Tab
    } else if c == 56 {
        KeyCode::Backspace
    } else if c == 57 {
        KeyCode::Delete
    } else if c == 58 {
        KeyCode::Insert
    } else if c == 59 {
        KeyCode::Home
    } else if c == 60 {
        KeyCode::End
    } else if c == 61 {
        KeyCode::PageUp
    } else if c == 62 {
        KeyCode::PageDown
    } else if c == 63 {
        KeyCode::ShiftLeft
    } else if c == 64 {
        KeyCode::ShiftRight
    } else if c == 65 {
        KeyCode::ControlLeft
    } else if c == 66 {
        KeyCode::ControlRight
    } else if c == 67 {
        KeyCode::AltLeft
    } else if c == 68 {
        KeyCode::AltRight
    } else if c == 69 {
        KeyCode::SuperLeft
    } else if c == 70 {
        KeyCode::SuperRight
    } else if c == 71 {
        KeyCode::Equal
    } else if c == 72 {
        KeyCode::Minus
    } else if c == 73 {
        KeyCode::Comma
    } else if c == 74 {
        KeyCode::Period
    } else if c == 75 {
        KeyCode::Slash
    } else if c == 76 {
        KeyCode::Semicolon
    } else if c == 77 {
        KeyCode::Quote
    } else if c == 78 {
        KeyCode::BracketLeft
    } else if c == 79 {
        KeyCode::BracketRight
    } else if c == 80 {
        KeyCode::Backslash
    } else {
        KeyCode::Backquote
    }
}

/// A key's slot in the key tables.
pub fn key_index(k: KeyCode) -> (i: usize)
    ensures
        i == key_code(k),
        i < KEY_COUNT,
{
    match k {
        KeyCode::KeyA => 0,
        KeyCode::KeyB => 1,
        KeyCode::KeyC => 2,
        KeyCode::KeyD => 3,
        KeyCode::KeyE => 4,
        KeyCode::KeyF => 5,
        KeyCode::KeyG => 6,
        KeyCode::KeyH => 7,
        KeyCode::KeyI => 8,
        KeyCode::KeyJ => 9,
        KeyCode::KeyK => 10,
        KeyCode::KeyL => 11,
        KeyCode::KeyM => 12,
        KeyCode::KeyN => 13,
        KeyCode::KeyO => 14,
        KeyCode::KeyP => 15,
        KeyCode::KeyQ => 16,
        KeyCode::KeyR => 17,
        KeyCode::KeyS => 18,
        KeyCode::KeyT => 19,
        KeyCode::KeyU => 20,
        KeyCode::KeyV => 21,
        KeyCode::KeyW => 22,
        KeyCode::KeyX => 23,
        KeyCode::KeyY => 24,
        KeyCode::KeyZ => 25,
        KeyCode::Digit0 => 26,
        KeyCode::Digit1 => 27,
        KeyCode::Digit2 => 28,
        KeyCode::Digit3 => 29,
        KeyCode::Digit4 => 30,
        KeyCode::Digit5 => 31,
        KeyCode::Digit6 => 32,
        KeyCode::Digit7 => 33,
        KeyCode::Digit8 => 34,
        KeyCode::Digit9 => 35,
        KeyCode::F1 => 36,
        KeyCode::F2 => 37,
        KeyCode::F3 => 38,
        KeyCode::F4 => 39,
        KeyCode::F5 => 40,
        KeyCode::F6 => 41,
        KeyCode::F7 => 42,
        KeyCode::F8 => 43,
        KeyCode::F9 => 44,
        KeyCode::F10 => 45,
        KeyCode::F11 => 46,
        KeyCode::F12 => 47,
        KeyCode::ArrowLeft => 48,
        KeyCode::ArrowRight => 49,
        KeyCode::ArrowUp => 50,
        KeyCode::ArrowDown => 51,
        KeyCode::Space => 52,
        KeyCode::Enter => 53,
        KeyCode::Escape => 54,
        KeyCode::Tab => 55,
        KeyCode::Backspace => 56,
        KeyCode::Delete => 57,
        KeyCode::Insert => 58,
        KeyCode::Home => 59,
        KeyCode::End => 60,
        KeyCode::PageUp => 61,
        KeyCode::PageDown => 62,
        KeyCode::ShiftLeft => 63,
        KeyCode::ShiftRight => 64,
        KeyCode::ControlLeft => 65,
        KeyCode::ControlRight => 66,
        KeyCode::AltLeft => 67,
        KeyCode::AltRight => 68,
        KeyCode::SuperLeft => 69,
        KeyCode::SuperRight => 70,
        KeyCode::Equal => 71,
        KeyCode::Minus => 72,
        KeyCode::Comma => 73,
        KeyCode::Period => 74,
        KeyCode::Slash => 75,
        KeyCode::Semicolon => 76,
        KeyCode::Quote => 77,
        KeyCode::BracketLeft => 78,
        KeyCode::BracketRight => 79,
        KeyCode::Backslash => 80,
        KeyCode::Backquote => 81,
    }
}

/// The key in a key's slot is that key.
pub proof fn lemma_key_code_inverse(k: KeyCode)
    ensures
        key_of_code(key_code(k)) == k,
        key_code(k) < KEY_COUNT,
{
}

/// A mouse button.
#[derive(Debug, Clone, Copy, PartialEq, Eq, Hash, Structural)]
pub enum MouseButton {
    Left,
    Right,
    Middle,
    Back,
    Forward,
}

/// Number of mouse buttons [`MouseButton`] names.
pub const BUTTON_COUNT: usize = 5;

/// Each button's slot in the button tables.
pub open spec fn button_code(b: MouseButton) -> nat {
    match b {
        MouseButton::Left => 0,
        MouseButton::Right => 1,
        MouseButton::Middle => 2,
        MouseButton::Back => 3,
        MouseButton::Forward => 4,
    }
}

/// A button's slot in the button tables.
pub fn button_index(b: MouseButton) -> (i: usize)
    ensures
        i == button_code(b),
        i < BUTTON_COUNT,
{
    match b {
        MouseButton::Left => 0,
        MouseButton::Right => 1,
        MouseButton::Middle => 2,
        MouseButton::Back => 3,
        MouseButton::Forward => 4,
    }
}

/// All editor actions that can be bound to input.
#[derive(Debug, Clone, Copy, PartialEq, Eq, Hash, Structural)]
pub enum EditorAction {
    /// Pan the viewport camera (held)
    Pan,
    /// Zoom in
    ZoomIn,
    /// Zoom out
    ZoomOut,
    /// Reset zoom to 1:1
    ResetZoom,
    /// Focus camera on selection (Shift = frame all)
    FocusSelection,
    /// Reset camera to origin
    ResetCamera,
    /// Select entity under cursor
    Select,
    /// Add to selection (held modifier)
    AddToSelection,
    /// Toggle selection (held modifier)
    ToggleSelection,
    /// Select all entities
    SelectAll,
    /// Cancel the most specific live thing: gizmo drag, marquee, selection
    Cancel,
    /// Switch to select tool
    ToolSelect,
    /// Switch to move tool
    ToolMove,
    /// Switch to rotate tool
    ToolRotate,
    /// Switch to scale tool
    ToolScale,
    /// Delete selected entities
    Delete,
    /// Duplicate selected entities
    Duplicate,
    /// Undo last operation
    Undo,
    /// Redo last undone operation
    Redo,
    /// Copy selection to the entity clipboard
    Copy,
    /// Paste the entity clipboard
    Paste,
    /// Cut selection to the entity clipboard
    Cut,
    /// Rename the primary selection (inline, in the hierarchy)
    RenameSelected,
    /// Nudge the selection left by one unit (Shift = 10)
    NudgeLeft,
    /// Nudge the selection right by one unit (Shift = 10)
    NudgeRight,
    /// Nudge the selection up by one unit (Shift = 10)
    NudgeUp,
    /// Nudge the selection down by one unit (Shift = 10)
    NudgeDown,
    /// Save the scene
    Save,
    /// Save the scene under a new path
    SaveAs,
    /// New empty scene
    NewScene,
    /// Open a scene
    OpenScene,
    /// Quit the editor
    Exit,
    /// Toggle grid display
    ToggleGrid,
    /// Toggle collider overlay
    ToggleColliders,
    /// Toggle the game-frame overlay
    ToggleGameFrame,
    /// Toggle snap to grid
    ToggleSnap,
    /// Step the running game to its next locale
    CycleGameLocale,
    /// Put every panel back where the editor starts them
    ResetLayout,
    /// Show or hide a dock panel
    TogglePanel(PanelId),
    /// Start or resume a play session
    PlayResume,
    /// Toggle between Play and Pause
    TogglePlayPause,
    /// Stop the play session
    StopPlay,
    /// Toggle the play-session camera follow
    ToggleCameraFollow,
}

/// One input binding in the editor's chord model.
#[derive(Debug, Clone, Copy, PartialEq, Eq, Hash, Structural)]
pub enum EditorBinding {
    /// Fires only when the Ctrl/Shift state matches exactly.
    Chord { key: KeyCode, ctrl: bool, shift: bool },
    /// Fires on the key under any modifier state.
    KeyAnyMods(KeyCode),
    /// A mouse button (poll path only).
    Mouse(MouseButton),
}

impl EditorBinding {
    /// A no-modifier chord.
    pub fn key(key: KeyCode) -> (b: Self)
        ensures
            b == (EditorBinding::Chord { key, ctrl: false, shift: false }),
    {
        EditorBinding::Chord { key, ctrl: false, shift: false }
    }

    /// A Ctrl+key chord.
    pub fn ctrl(key: KeyCode) -> (b: Self)
        ensures
            b == (EditorBinding::Chord { key, ctrl: true, shift: false }),
    {
        EditorBinding::Chord { key, ctrl: true, shift: false }
    }

    /// A Ctrl+Shift+key chord.
    pub fn ctrl_shift(key: KeyCode) -> (b: Self)
        ensures
            b == (EditorBinding::Chord { key, ctrl: true, shift: true }),
    {
        EditorBinding::Chord { key, ctrl: true, shift: true }
    }
}

/// Slot of a chord `(key, ctrl, shift)` in the chord table.
pub open spec fn chord_code(key: KeyCode, ctrl: bool, shift: bool) -> nat {
    key_code(key) * 4 + (if ctrl { 2nat } else { 0nat }) + (if shift { 1nat } else { 0nat })
}

/// The chord that sits in chord-table slot `c`.
pub open spec fn chord_at(c: nat) -> EditorBinding {
    EditorBinding::Chord { key: key_of_code(c / 4), ctrl: c % 4 >= 2, shift: c % 2 == 1 }
}

/// The chord in a chord's own slot is that chord.
pub proof fn lemma_chord_at(key: KeyCode, ctrl: bool, shift: bool)
    ensures
        chord_at(chord_code(key, ctrl, shift)) == (EditorBinding::Chord { key, ctrl, shift }),
        chord_code(key, ctrl, shift) < 4 * KEY_COUNT,
{
    lemma_key_code_inverse(key);
    let c = chord_code(key, ctrl, shift);
    let k = key_code(key);
    let r: nat = (if ctrl { 2nat } else { 0nat }) + (if shift { 1nat } else { 0nat });
    assert(c == k * 4 + r);
    assert(c / 4 == k) by (nonlinear_arith)
        requires
            c == k * 4 + r,
            r < 4,
    ;
    assert(c % 4 == r) by (nonlinear_arith)
        requires
            c == k * 4 + r,
            r < 4,
    ;
    assert(c % 2 == r % 2) by (nonlinear_arith)
        requires
            c == k * 4 + r,
            r < 4,
    ;
}

/// Slot of a chord in the chord table.
pub fn chord_index(key: KeyCode, ctrl: bool, shift: bool) -> (i: usize)
    ensures
        i == chord_code(key, ctrl, shift),
        i < 4 * KEY_COUNT,
{
    let k = key_index(key);
    k * 4 + (if ctrl { 2 } else { 0 }) + (if shift { 1 } else { 0 })
}

/// The abstract shortcut table: the chord table (one slot per chord), the
/// any-modifier table (one slot per key), and each bound action's list of
/// bindings, in the order they were bound.
pub struct MappingModel {
    pub chords: Seq<Option<EditorAction>>,
    pub anymods: Seq<Option<EditorAction>>,
    pub lists: Map<EditorAction, Seq<EditorBinding>>,
}

/// The bindings of `a` (none when `a` has no entry).
pub open spec fn bindings_of(m: MappingModel, a: EditorAction) -> Seq<EditorBinding> {
    if m.lists.dom().contains(a) {
        m.lists[a]
    } else {
        Seq::empty()
    }
}

/// The event-path lookup: the exact chord wins over the key's any-modifier
/// binding.
pub open spec fn model_resolve(m: MappingModel, key: KeyCode, ctrl: bool, shift: bool) -> Option<
    EditorAction,
> {
    match m.chords[chord_code(key, ctrl, shift) as int] {
        Some(a) => Some(a),
        None => m.anymods[key_code(key) as int],
    }
}

/// The table with nothing bound.
pub open spec fn empty_model() -> MappingModel {
    MappingModel {
        chords: Seq::new((4 * KEY_COUNT) as nat, |c: int| None::<EditorAction>),
        anymods: Seq::new(KEY_COUNT as nat, |c: int| None::<EditorAction>),
        lists: Map::empty(),
    }
}

/// `s` without any occurrence of `b`, the rest in order.
pub open spec fn without(s: Seq<EditorBinding>, b: EditorBinding) -> Seq<EditorBinding>
    decreases s.len(),
{
    if s.len() == 0 {
        s
    } else {
        let rest = without(s.drop_last(), b);
        if s.last() == b {
            rest
        } else {
            rest.push(s.last())
        }
    }
}

/// The action a binding's table slot currently names (mouse bindings have
/// no slot).
pub open spec fn slot_owner(m: MappingModel, b: EditorBinding) -> Option<EditorAction> {
    match b {
        EditorBinding::Chord { key, ctrl, shift } => m.chords[chord_code(key, ctrl, shift) as int],
        EditorBinding::KeyAnyMods(key) => m.anymods[key_code(key) as int],
        EditorBinding::Mouse(_) => None,
    }
}

/// Binding `b` to `a`: the binding's table slot now names `a`; if it named
/// another action, that action loses exactly this binding (and nothing
/// else); `a` gains the binding at the end of its list unless it already
/// had it.
pub open spec fn model_bind(m: MappingModel, a: EditorAction, b: EditorBinding) -> MappingModel {
    let previous = slot_owner(m, b);
    let chords = match b {
        EditorBinding::Chord { key, ctrl, shift } => m.chords.update(
            chord_code(key, ctrl, shift) as int,
            Some(a),
        ),
        _ => m.chords,
    };
    let anymods = match b {
        EditorBinding::KeyAnyMods(key) => m.anymods.update(key_code(key) as int, Some(a)),
        _ => m.anymods,
    };
    let lists1 = match previous {
        Some(p) => if p != a && m.lists.dom().contains(p) {
            m.lists.insert(p, without(m.lists[p], b))
        } else {
            m.lists
        },
        None => m.lists,
    };
    let base = if lists1.dom().contains(a) {
        lists1[a]
    } else {
        Seq::empty()
    };
    MappingModel {
        chords,
        anymods,
        lists: lists1.insert(a, if base.contains(b) { base } else { base.push(b) }),
    }
}

/// Whether `b` is one of `list`'s chords or any-modifier bindings whose slot
/// is `c` in the chord table.
pub open spec fn list_has_chord_slot(list: Seq<EditorBinding>, c: int) -> bool {
    exists|j: int| 0 <= j < list.len() && list[j] is Chord && chord_code(list[j]->key, list[j]->ctrl, list[j]->shift) == c
}

/// Whether `list` has an any-modifier binding whose slot is `k`.
pub open spec fn list_has_anymods_slot(list: Seq<EditorBinding>, k: int) -> bool {
    exists|j: int| 0 <= j < list.len() && list[j] is KeyAnyMods && key_code(list[j]->KeyAnyMods_0) == k
}

/// Unbinding `a`: its list goes, and every table slot one of its bindings
/// occupied is cleared.
pub open spec fn model_unbind(m: MappingModel, a: EditorAction) -> MappingModel {
    if m.lists.dom().contains(a) {
        let list = m.lists[a];
        MappingModel {
            chords: Seq::new(
                m.chords.len(),
                |c: int|
                    if list_has_chord_slot(list, c) {
                        None
                    } else {
                        m.chords[c]
                    },
            ),
            anymods: Seq::new(
                m.anymods.len(),
                |k: int|
                    if list_has_anymods_slot(list, k) {
                        None
                    } else {
                        m.anymods[k]
                    },
            ),
            lists: m.lists.remove(a),
        }
    } else {
        m
    }
}

/// The table is consistent: every occupied slot names an action whose list
/// holds the binding of that slot, and every keyboard binding in a list
/// occupies its slot in the action's name.
pub open spec fn model_wf(m: MappingModel) -> bool {
    &&& m.chords.len() == 4 * KEY_COUNT
    &&& m.anymods.len() == KEY_COUNT
    &&& forall|c: int|
        0 <= c < m.chords.len() && (#[trigger] m.chords[c]) is Some ==> {
            let x = m.chords[c]->0;
            m.lists.dom().contains(x) && m.lists[x].contains(chord_at(c as nat))
        }
    &&& forall|k: int|
        0 <= k < m.anymods.len() && (#[trigger] m.anymods[k]) is Some ==> {
            let x = m.anymods[k]->0;
            m.lists.dom().contains(x) && m.lists[x].contains(
                EditorBinding::KeyAnyMods(key_of_code(k as nat)),
            )
        }
    &&& forall|x: EditorAction, j: int|
        #![trigger m.lists[x][j]]
        m.lists.dom().contains(x) && 0 <= j < m.lists[x].len() && !(m.lists[x][j] is Mouse)
            ==> slot_owner(m, m.lists[x][j]) == Some(x)
}

/// The slot of the key in slot `i` is `i`.
pub proof fn lemma_key_of_code_inverse(i: nat)
    requires
        i < KEY_COUNT,
    ensures
        key_code(key_of_code(i)) == i,
{
}

/// The chord in slot `c` has slot `c`.
pub proof fn lemma_chord_at_code(c: nat)
    requires
        c < 4 * KEY_COUNT,
    ensures
        chord_at(c) is Chord,
        chord_code(chord_at(c)->key, chord_at(c)->ctrl, chord_at(c)->shift) == c,
{
    let k = c / 4;
    assert(k < KEY_COUNT);
    lemma_key_of_code_inverse(k);
    let r = c % 4;
    assert(c == k * 4 + r);
    assert(c % 2 == r % 2) by (nonlinear_arith)
        requires
            c == k * 4 + r,
            r < 4,
    ;
}

/// `without` drops exactly `b`.
pub proof fn lemma_without(s: Seq<EditorBinding>, b: EditorBinding)
    ensures
        !without(s, b).contains(b),
        forall|v: EditorBinding| v != b ==> (without(s, b).contains(v) <==> s.contains(v)),
        forall|j: int|
            0 <= j < without(s, b).len() ==> s.contains(#[trigger] without(s, b)[j]),
    decreases s.len(),
{
    if s.len() > 0 {
        let d = s.drop_last();
        lemma_without(d, b);
        let r = without(d, b);
        assert forall|v: EditorBinding| v != b implies (without(s, b).contains(v) <==> s.contains(
            v,
        )) by {
            if s.contains(v) {
                let i = choose|i: int| 0 <= i < s.len() && s[i] == v;
                if i < s.len() - 1 {
                    assert(d[i] == v);
                    assert(d.contains(v));
                    assert(r.contains(v));
                    if s.last() != b {
                        let k = choose|k: int| 0 <= k < r.len() && r[k] == v;
                        assert(r.push(s.last())[k] == v);
                    }
                } else {
                    assert(r.push(s.last())[r.len() as int] == v);
                }
            }
            if without(s, b).contains(v) {
                let k = choose|k: int| 0 <= k < without(s, b).len() && without(s, b)[k] == v;
                if s.last() != b && k == r.len() {
                    assert(s[s.len() - 1] == v);
                } else {
                    assert(k < r.len());
                    if s.last() != b {
                        assert(without(s, b) == r.push(s.last()));
                        assert(r.push(s.last())[k] == r[k]);
                    }
                    assert(r[k] == v);
                    assert(r.contains(v));
                    let i = choose|i: int| 0 <= i < d.len() && d[i] == v;
                    assert(s[i] == v);
                }
            }
        }
        if without(s, b).contains(b) {
            let k = choose|k: int| 0 <= k < without(s, b).len() && without(s, b)[k] == b;
            if s.last() != b && k == r.len() {
            } else {
                assert(r[k] == b);
            }
        }
        assert forall|j: int| 0 <= j < without(s, b).len() implies s.contains(
            #[trigger] without(s, b)[j],
        ) by {
            let v = without(s, b)[j];
            if v == b {
                assert(without(s, b).contains(b));
            }
        }
    }
}

/// Binding keeps the table consistent.
pub proof fn lemma_bind_wf(m: MappingModel, a: EditorAction, b: EditorBinding)
    requires
        model_wf(m),
    ensures
        model_wf(model_bind(m, a, b)),
{
    let m2 = model_bind(m, a, b);
    let previous = slot_owner(m, b);
    let lists1 = match previous {
        Some(p) => if p != a && m.lists.dom().contains(p) {
            m.lists.insert(p, without(m.lists[p], b))
        } else {
            m.lists
        },
        None => m.lists,
    };
    let base = if lists1.dom().contains(a) { lists1[a] } else { Seq::empty() };
    let new_a = if base.contains(b) { base } else { base.push(b) };
    assert(m2.lists == lists1.insert(a, new_a));
    lemma_without(if m.lists.dom().contains(previous->0) { m.lists[previous->0] } else { Seq::empty() }, b);
    // new_a holds the old list of `a` and `b`
    assert(new_a.contains(b)) by {
        if !base.contains(b) {
            assert(new_a[base.len() as int] == b);
        }
    }
    assert forall|v: EditorBinding| base.contains(v) implies new_a.contains(v) by {
        if !base.contains(b) {
            let k = choose|k: int| 0 <= k < base.len() && base[k] == v;
            assert(new_a[k] == v);
        }
    }
    assert forall|j: int| 0 <= j < new_a.len() implies (#[trigger] new_a[j] == b || base.contains(
        new_a[j],
    )) by {
        if j < base.len() {
            assert(base[j] == new_a[j]);
        }
    }
    if m.lists.dom().contains(a) && (previous != Some(a) || true) {
        assert forall|v: EditorBinding| m.lists[a].contains(v) implies base.contains(v) by {
            if previous is Some && previous->0 != a && m.lists.dom().contains(previous->0) {
                assert(lists1[a] == m.lists[a]);
            }
        }
    }
    // Forward, chord slots.
    assert forall|c: int| 0 <= c < m2.chords.len() && (#[trigger] m2.chords[c]) is Some implies {
        let x = m2.chords[c]->0;
        m2.lists.dom().contains(x) && m2.lists[x].contains(chord_at(c as nat))
    } by {
        let x = m2.chords[c]->0;
        if b is Chord && c == chord_code(b->key, b->ctrl, b->shift) {
            lemma_chord_at(b->key, b->ctrl, b->shift);
            assert(x == a);
        } else {
            assert(m2.chords[c] == m.chords[c]);
            assert(m.lists[x].contains(chord_at(c as nat)));
            lemma_chord_at_code(c as nat);
            if x == a {
                assert(base.contains(chord_at(c as nat)));
            } else if previous == Some(x) {
                // x loses only b, and the chord of slot c is not b
                if b is Chord {
                    lemma_chord_at_code(chord_code(b->key, b->ctrl, b->shift));
                    lemma_chord_at(b->key, b->ctrl, b->shift);
                }
                assert(chord_at(c as nat) != b);
                assert(m2.lists[x] == without(m.lists[x], b));
            } else {
                assert(m2.lists[x] == m.lists[x]);
            }
        }
    }
    // Forward, any-modifier slots.
    assert forall|k: int| 0 <= k < m2.anymods.len() && (#[trigger] m2.anymods[k]) is Some implies {
        let x = m2.anymods[k]->0;
        m2.lists.dom().contains(x) && m2.lists[x].contains(
            EditorBinding::KeyAnyMods(key_of_code(k as nat)),
        )
    } by {
        let x = m2.anymods[k]->0;
        let kb = EditorBinding::KeyAnyMods(key_of_code(k as nat));
        if b is KeyAnyMods && k == key_code(b->KeyAnyMods_0) {
            lemma_key_code_inverse(b->KeyAnyMods_0);
            assert(x == a);
        } else {
            assert(m2.anymods[k] == m.anymods[k]);
            assert(m.lists[x].contains(kb));
            if x == a {
                assert(base.contains(kb));
            } else if previous == Some(x) {
                if b is KeyAnyMods {
                    lemma_key_of_code_inverse(k as nat);
                }
                assert(kb != b);
                assert(m2.lists[x] == without(m.lists[x], b));
            } else {
                assert(m2.lists[x] == m.lists[x]);
            }
        }
    }
    // Reverse: every keyboard binding occupies its slot in its owner's name.
    assert forall|x: EditorAction, j: int|
        #![trigger m2.lists[x][j]]
        m2.lists.dom().contains(x) && 0 <= j < m2.lists[x].len() && !(m2.lists[x][j] is Mouse)
            implies slot_owner(m2, m2.lists[x][j]) == Some(x) by {
        let v = m2.lists[x][j];
        if v == b {
            if x != a {
                // only `a`'s list gains b; a previous owner's list lost it
                if previous == Some(x) {
                    assert(m2.lists[x] == without(m.lists[x], b));
                    assert(m2.lists[x].contains(b));
                } else {
                    assert(m2.lists[x] == m.lists[x]);
                    assert(m.lists[x][j] == b);
                }
            }
        } else {
            // v was already in x's list before, occupying its old slot
            let old_list = m.lists[x];
            assert(m.lists.dom().contains(x));
            assert(old_list.contains(v)) by {
                if x == a {
                    assert(new_a.contains(v));
                    assert(base.contains(v));
                    if previous is Some && previous->0 != a && m.lists.dom().contains(previous->0) {
                    }
                } else if previous == Some(x) && m.lists.dom().contains(x) {
                    assert(m2.lists[x] == without(m.lists[x], b));
                    assert(m2.lists[x].contains(v));
                } else {
                    assert(m2.lists[x] == m.lists[x]);
                    assert(m2.lists[x].contains(v));
                }
            }
            let i = choose|i: int| 0 <= i < old_list.len() && old_list[i] == v;
            assert(slot_owner(m, m.lists[x][i]) == Some(x));
            if v is Chord && b is Chord {
                lemma_chord_at(v->key, v->ctrl, v->shift);
                lemma_chord_at(b->key, b->ctrl, b->shift);
                if chord_code(v->key, v->ctrl, v->shift) == chord_code(b->key, b->ctrl, b->shift) {
                    assert(v == b);
                }
            }
            if v is KeyAnyMods && b is KeyAnyMods {
                lemma_key_code_inverse(v->KeyAnyMods_0);
                lemma_key_code_inverse(b->KeyAnyMods_0);
                if key_code(v->KeyAnyMods_0) == key_code(b->KeyAnyMods_0) {
                    assert(v == b);
                }
            }
        }
    }
}

/// Unbinding keeps the table consistent.
pub proof fn lemma_unbind_wf(m: MappingModel, a: EditorAction)
    requires
        model_wf(m),
    ensures
        model_wf(model_unbind(m, a)),
{
    if m.lists.dom().contains(a) {
        let m2 = model_unbind(m, a);
        let list = m.lists[a];
        assert forall|c: int| 0 <= c < m2.chords.len() && (#[trigger] m2.chords[c]) is Some implies {
            let x = m2.chords[c]->0;
            m2.lists.dom().contains(x) && m2.lists[x].contains(chord_at(c as nat))
        } by {
            let x = m2.chords[c]->0;
            assert(!list_has_chord_slot(list, c));
            assert(m.chords[c] == Some(x));
            if x == a {
                lemma_chord_at_code(c as nat);
                let j = choose|j: int| 0 <= j < list.len() && list[j] == chord_at(c as nat);
                assert(list[j] is Chord && chord_code(list[j]->key, list[j]->ctrl, list[j]->shift)
                    == c);
            }
        }
        assert forall|k: int| 0 <= k < m2.anymods.len() && (#[trigger] m2.anymods[k]) is Some implies {
            let x = m2.anymods[k]->0;
            m2.lists.dom().contains(x) && m2.lists[x].contains(
                EditorBinding::KeyAnyMods(key_of_code(k as nat)),
            )
        } by {
            let x = m2.anymods[k]->0;
            assert(!list_has_anymods_slot(list, k));
            assert(m.anymods[k] == Some(x));
            if x == a {
                lemma_key_of_code_inverse(k as nat);
                let kb = EditorBinding::KeyAnyMods(key_of_code(k as nat));
                let j = choose|j: int| 0 <= j < list.len() && list[j] == kb;
                assert(list[j] is KeyAnyMods && key_code(list[j]->KeyAnyMods_0) == k);
            }
        }
        assert forall|x: EditorAction, j: int|
            #![trigger m2.lists[x][j]]
            m2.lists.dom().contains(x) && 0 <= j < m2.lists[x].len() && !(m2.lists[x][j] is Mouse)
                implies slot_owner(m2, m2.lists[x][j]) == Some(x) by {
            let v = m2.lists[x][j];
            assert(m.lists[x][j] == v);
            assert(slot_owner(m, v) == Some(x));
            if v is Chord {
                let c = chord_code(v->key, v->ctrl, v->shift) as int;
                lemma_chord_at(v->key, v->ctrl, v->shift);
                if list_has_chord_slot(list, c) {
                    let i = choose|i: int| 0 <= i < list.len() && list[i] is Chord && chord_code(list[i]->key, list[i]->ctrl, list[i]->shift) == c;
                    assert(slot_owner(m, m.lists[a][i]) == Some(a));
                }
            } else {
                let k = key_code(v->KeyAnyMods_0) as int;
                lemma_key_code_inverse(v->KeyAnyMods_0);
                if list_has_anymods_slot(list, k) {
                    let i = choose|i: int| 0 <= i < list.len() && list[i] is KeyAnyMods && key_code(list[i]->KeyAnyMods_0) == k;
                    assert(slot_owner(m, m.lists[a][i]) == Some(a));
                }
            }
        }
    }
}

/// A chord resolves, on the event path, to the action it was last bound to.
pub proof fn lemma_bound_chord_resolves(
    m: MappingModel,
    a: EditorAction,
    key: KeyCode,
    ctrl: bool,
    shift: bool,
)
    requires
        model_wf(m),
    ensures
        model_resolve(model_bind(m, a, EditorBinding::Chord { key, ctrl, shift }), key, ctrl, shift)
            == Some(a),
        bindings_of(model_bind(m, a, EditorBinding::Chord { key, ctrl, shift }), a).contains(
            EditorBinding::Chord { key, ctrl, shift },
        ),
{
    lemma_chord_at(key, ctrl, shift);
    let b = EditorBinding::Chord { key, ctrl, shift };
    lemma_bind_wf(m, a, b);
    let m2 = model_bind(m, a, b);
    let c = chord_code(key, ctrl, shift) as int;
    assert(m2.chords[c] == Some(a));
}

/// An any-modifier binding fires for its key under every modifier state,
/// except where an exact chord of that key claims the state.
pub proof fn lemma_bound_anymods_resolves(
    m: MappingModel,
    a: EditorAction,
    key: KeyCode,
    ctrl: bool,
    shift: bool,
)
    requires
        model_wf(m),
    ensures
        model_resolve(model_bind(m, a, EditorBinding::KeyAnyMods(key)), key, ctrl, shift) == (
        match m.chords[chord_code(key, ctrl, shift) as int] {
            Some(x) => Some(x),
            None => Some(a),
        }),
{
    lemma_chord_at(key, ctrl, shift);
    lemma_key_code_inverse(key);
}

/// Rebinding evicts only the exact binding: every other chord slot and
/// every other key's any-modifier slot keeps its action, and every action
/// other than the new owner and the evicted one keeps its bindings; the
/// evicted action keeps all its other bindings.
pub proof fn lemma_bind_evicts_only_the_exact_binding(
    m: MappingModel,
    a: EditorAction,
    b: EditorBinding,
    x: EditorAction,
)
    requires
        model_wf(m),
        x != a,
    ensures
        forall|c: int|
            0 <= c < 4 * KEY_COUNT && !(b is Chord && c == chord_code(b->key, b->ctrl, b->shift))
                ==> #[trigger] model_bind(m, a, b).chords[c] == m.chords[c],
        forall|k: int|
            0 <= k < KEY_COUNT && !(b is KeyAnyMods && k == key_code(b->KeyAnyMods_0))
                ==> #[trigger] model_bind(m, a, b).anymods[k] == m.anymods[k],
        slot_owner(m, b) != Some(x) ==> bindings_of(model_bind(m, a, b), x) == bindings_of(m, x),
        slot_owner(m, b) == Some(x) ==> bindings_of(model_bind(m, a, b), x) == without(
            bindings_of(m, x),
            b,
        ),
{
}

/// After an action is unbound it has no bindings, and no key, chord or
/// modifier state resolves to it.
pub proof fn lemma_unbound_action_never_resolves(
    m: MappingModel,
    a: EditorAction,
    key: KeyCode,
    ctrl: bool,
    shift: bool,
)
    requires
        model_wf(m),
    ensures
        bindings_of(model_unbind(m, a), a) == Seq::<EditorBinding>::empty(),
        model_resolve(model_unbind(m, a), key, ctrl, shift) != Some(a),
{
    let m2 = model_unbind(m, a);
    lemma_chord_at(key, ctrl, shift);
    lemma_key_code_inverse(key);
    let c = chord_code(key, ctrl, shift) as int;
    let k = key_code(key) as int;
    if m.lists.dom().contains(a) {
        let list = m.lists[a];
        if m.chords[c] == Some(a) {
            let j = choose|j: int| 0 <= j < list.len() && list[j] == chord_at(c as nat);
            assert(list_has_chord_slot(list, c));
        }
        if m.anymods[k] == Some(a) {
            let kb = EditorBinding::KeyAnyMods(key_of_code(k as nat));
            let j = choose|j: int| 0 <= j < list.len() && list[j] == kb;
            assert(list_has_anymods_slot(list, k));
        }
    } else {
        assert(m.chords[c] != Some(a));
        assert(m.anymods[k] != Some(a));
    }
}

/// The key under which an action's bindings are kept: the non-panel actions
/// in declaration order from 0, and a panel toggle at 64 plus the panel's id.
spec fn action_code(a: EditorAction) -> u64 {
    match a {
        EditorAction::Pan => 0,
        EditorAction::ZoomIn => 1,
        EditorAction::ZoomOut => 2,
        EditorAction::ResetZoom => 3,
        EditorAction::FocusSelection => 4,
        EditorAction::ResetCamera => 5,
        EditorAction::Select => 6,
        EditorAction::AddToSelection => 7,
        EditorAction::ToggleSelection => 8,
        EditorAction::SelectAll => 9,
        EditorAction::Cancel => 10,
        EditorAction::ToolSelect => 11,
        EditorAction::ToolMove => 12,
        EditorAction::ToolRotate => 13,
        EditorAction::ToolScale => 14,
        EditorAction::Delete => 15,
        EditorAction::Duplicate => 16,
        EditorAction::Undo => 17,
        EditorAction::Redo => 18,
        EditorAction::Copy => 19,
        EditorAction::Paste => 20,
        EditorAction::Cut => 21,
        EditorAction::RenameSelected => 22,
        EditorAction::NudgeLeft => 23,
        EditorAction::NudgeRight => 24,
        EditorAction::NudgeUp => 25,
        EditorAction::NudgeDown => 26,
        EditorAction::Save => 27,
        EditorAction::SaveAs => 28,
        EditorAction::NewScene => 29,
        EditorAction::OpenScene => 30,
        EditorAction::Exit => 31,
        EditorAction::ToggleGrid => 32,
        EditorAction::ToggleColliders => 33,
        EditorAction::ToggleGameFrame => 34,
        EditorAction::ToggleSnap => 35,
        EditorAction::CycleGameLocale => 36,
        EditorAction::ResetLayout => 37,
        EditorAction::TogglePanel(p) => (64 + p.0) as u64,
        EditorAction::PlayResume => 38,
        EditorAction::TogglePlayPause => 39,
        EditorAction::StopPlay => 40,
        EditorAction::ToggleCameraFollow => 41,
    }
}

/// The action kept under key `c` (the inverse of [`action_code`]).
spec fn action_of_code(c: u64) -> EditorAction {
    if c >= 64 {
        EditorAction::TogglePanel(PanelId((c - 64) as u32))
    } else if c == 0 {
        EditorAction::Pan
    } else if c == 1 {
        EditorAction::ZoomIn
    } else if c == 2 {
        EditorAction::ZoomOut
    } else if c == 3 {
        EditorAction::ResetZoom
    } else if c == 4 {
        EditorAction::FocusSelection
    } else if c == 5 {
        EditorAction::ResetCamera
    } else if c == 6 {
        EditorAction::Select
    } else if c == 7 {
        EditorAction::AddToSelection
    } else if c == 8 {
        EditorAction::ToggleSelection
    } else if c == 9 {
        EditorAction::SelectAll
    } else if c == 10 {
        EditorAction::Cancel
    } else if c == 11 {
        EditorAction::ToolSelect
    } else if c == 12 {
        EditorAction::ToolMove
    } else if c == 13 {
        EditorAction::ToolRotate
    } else if c == 14 {
        EditorAction::ToolScale
    } else if c == 15 {
        EditorAction::Delete
    } else if c == 16 {
        EditorAction::Duplicate
    } else if c == 17 {
        EditorAction::Undo
    } else if c == 18 {
        EditorAction::Redo
    } else if c == 19 {
        EditorAction::Copy
    } else if c == 20 {
        EditorAction::Paste
    } else if c == 21 {
        EditorAction::Cut
    } else if c == 22 {
        EditorAction::RenameSelected
    } else if c == 23 {
        EditorAction::NudgeLeft
    } else if c == 24 {
        EditorAction::NudgeRight
    } else if c == 25 {
        EditorAction::NudgeUp
    } else if c == 26 {
        EditorAction::NudgeDown
    } else if c == 27 {
        EditorAction::Save
    } else if c == 28 {
        EditorAction::SaveAs
    } else if c == 29 {
        EditorAction::NewScene
    } else if c == 30 {
        EditorAction::OpenScene
    } else if c == 31 {
        EditorAction::Exit
    } else if c == 32 {
        EditorAction::ToggleGrid
    } else if c == 33 {
        EditorAction::ToggleColliders
    } else if c == 34 {
        EditorAction::ToggleGameFrame
    } else if c == 35 {
        EditorAction::ToggleSnap
    } else if c == 36 {
        EditorAction::CycleGameLocale
    } else if c == 37 {
        EditorAction::ResetLayout
    } else if c == 38 {
        EditorAction::PlayResume
    } else if c == 39 {
        EditorAction::TogglePlayPause
    } else if c == 40 {
        EditorAction::StopPlay
    } else if c == 41 {
        EditorAction::ToggleCameraFollow
    } else {
        EditorAction::Pan
    }
}

/// Each action has a key of its own.
proof fn lemma_action_code_inverse(a: EditorAction)
    ensures
        action_of_code(action_code(a)) == a,
{
}

/// The key of an action.
fn action_key(a: EditorAction) -> (k: u64)
    ensures
        k == action_code(a),
{
    match a {
        EditorAction::Pan => 0,
        EditorAction::ZoomIn => 1,
        EditorAction::ZoomOut => 2,
        EditorAction::ResetZoom => 3,
        EditorAction::FocusSelection => 4,
        EditorAction::ResetCamera => 5,
        EditorAction::Select => 6,
        EditorAction::AddToSelection => 7,
        EditorAction::ToggleSelection => 8,
        EditorAction::SelectAll => 9,
        EditorAction::Cancel => 10,
        EditorAction::ToolSelect => 11,
        EditorAction::ToolMove => 12,
        EditorAction::ToolRotate => 13,
        EditorAction::ToolScale => 14,
        EditorAction::Delete => 15,
        EditorAction::Duplicate => 16,
        EditorAction::Undo => 17,
        EditorAction::Redo => 18,
        EditorAction::Copy => 19,
        EditorAction::Paste => 20,
        EditorAction::Cut => 21,
        EditorAction::RenameSelected => 22,
        EditorAction::NudgeLeft => 23,
        EditorAction::NudgeRight => 24,
        EditorAction::NudgeUp => 25,
        EditorAction::NudgeDown => 26,
        EditorAction::Save => 27,
        EditorAction::SaveAs => 28,
        EditorAction::NewScene => 29,
        EditorAction::OpenScene => 30,
        EditorAction::Exit => 31,
        EditorAction::ToggleGrid => 32,
        EditorAction::ToggleColliders => 33,
        EditorAction::ToggleGameFrame => 34,
        EditorAction::ToggleSnap => 35,
        EditorAction::CycleGameLocale => 36,
        EditorAction::ResetLayout => 37,
        EditorAction::TogglePanel(p) => 64 + p.0 as u64,
        EditorAction::PlayResume => 38,
        EditorAction::TogglePlayPause => 39,
        EditorAction::StopPlay => 40,
        EditorAction::ToggleCameraFollow => 41,
    }
}

/// Each bound action's list, read from the table keyed by action.
spec fn lists_of(m: Map<u64, Vec<EditorBinding>>) -> Map<EditorAction, Seq<EditorBinding>> {
    Map::new(|a: EditorAction| m.contains_key(action_code(a)), |a: EditorAction| m[action_code(a)]@)
}

/// Storing a list under an action's key sets that action's list only.
proof fn lemma_lists_insert(m: Map<u64, Vec<EditorBinding>>, a: EditorAction, v: Vec<EditorBinding>)
    ensures
        lists_of(m.insert(action_code(a), v)) == lists_of(m).insert(a, v@),
{
    assert forall|x: EditorAction| action_code(x) == action_code(a) implies x == a by {
        lemma_action_code_inverse(x);
        lemma_action_code_inverse(a);
    }
    assert(lists_of(m.insert(action_code(a), v)) =~= lists_of(m).insert(a, v@));
}

/// Dropping an action's key drops that action's list only.
proof fn lemma_lists_remove(m: Map<u64, Vec<EditorBinding>>, a: EditorAction)
    ensures
        lists_of(m.remove(action_code(a))) == lists_of(m).remove(a),
{
    assert forall|x: EditorAction| action_code(x) == action_code(a) implies x == a by {
        lemma_action_code_inverse(x);
        lemma_action_code_inverse(a);
    }
    assert(lists_of(m.remove(action_code(a))) =~= lists_of(m).remove(a));
}

/// A lookup table keyed by slot, read as one entry per slot below `n`:
/// the action at that slot, or `None` where the slot is free.
spec fn slot_table(m: Map<usize, EditorAction>, n: nat) -> Seq<Option<EditorAction>> {
    Seq::new(n, |i: int| if m.contains_key(i as usize) { Some(m[i as usize]) } else { None })
}

/// An empty table has every slot free.
proof fn lemma_slot_table_empty(n: nat)
    requires
        n <= usize::MAX,
    ensures
        slot_table(Map::empty(), n) == Seq::new(n, |c: int| None::<EditorAction>),
{
    assert(slot_table(Map::empty(), n) =~= Seq::new(n, |c: int| None::<EditorAction>));
}

/// Filling a slot updates that slot only.
proof fn lemma_slot_table_insert(m: Map<usize, EditorAction>, n: nat, c: usize, a: EditorAction)
    requires
        c < n,
        n <= usize::MAX,
    ensures
        slot_table(m.insert(c, a), n) == slot_table(m, n).update(c as int, Some(a)),
{
    assert(slot_table(m.insert(c, a), n) =~= slot_table(m, n).update(c as int, Some(a)));
}

/// Freeing a slot updates that slot only.
proof fn lemma_slot_table_remove(m: Map<usize, EditorAction>, n: nat, c: usize)
    requires
        c < n,
        n <= usize::MAX,
    ensures
        slot_table(m.remove(c), n) == slot_table(m, n).update(c as int, None),
{
    assert(slot_table(m.remove(c), n) =~= slot_table(m, n).update(c as int, None));
}

/// The editor's shortcut table: rebindable chord-aware bindings with an
/// event-path `resolve` and poll-path action queries.
#[derive(Debug)]
pub struct EditorInputMapping {
    /// Bindings per action (the authoritative table), keyed by the action's
    /// key.
    bindings: HashMap<u64, Vec<EditorBinding>>,
    /// Exact-chord lookup, keyed by the slot of `(key, ctrl, shift)`.
    chord_index: HashMap<usize, EditorAction>,
    /// Any-modifier lookup, keyed by the key's slot.
    anymods_index: HashMap<usize, EditorAction>,
}

impl EditorInputMapping {
    /// The abstract table.
    pub closed spec fn model(&self) -> MappingModel {
        MappingModel {
            chords: slot_table(self.chord_index@, (4 * KEY_COUNT) as nat),
            anymods: slot_table(self.anymods_index@, KEY_COUNT as nat),
            lists: lists_of(self.bindings@),
        }
    }

    /// Internally consistent (see [`model_wf`]).
    pub closed spec fn wf(&self) -> bool {
        model_wf(self.model())
    }

    /// The well-formed table is consistent.
    pub proof fn lemma_wf(&self)
        requires
            self.wf(),
        ensures
            model_wf(self.model()),
    {
    }

    /// A table with nothing bound.
    fn empty() -> (m: Self)
        ensures
            m.wf(),
            m.model() == empty_model(),
    {
        let bindings: HashMap<u64, Vec<EditorBinding>> = HashMap::new();
        let chord_index: HashMap<usize, EditorAction> = HashMap::new();
        let anymods_index: HashMap<usize, EditorAction> = HashMap::new();
        proof {
            lemma_slot_table_empty((4 * KEY_COUNT) as nat);
            lemma_slot_table_empty(KEY_COUNT as nat);
        }
        let m = EditorInputMapping { bindings, chord_index, anymods_index };
        assert(lists_of(m.bindings@) =~= Map::empty());
        m
    }

    /// Bind an input to an action. Rebinding evicts only the exact same
    /// binding from its previous owner — binding bare `S` elsewhere leaves
    /// `Ctrl+S` untouched.
    pub fn bind(&mut self, action: EditorAction, binding: EditorBinding)
        requires
            old(self).wf(),
        ensures
            final(self).wf(),
            final(self).model() == model_bind(old(self).model(), action, binding),
    {
        let ghost m0 = self.model();
        proof {
            lemma_bind_wf(m0, action, binding);
        }
        let previous = match binding {
            EditorBinding::Chord { key, ctrl, shift } => {
                let c = chord_index(key, ctrl, shift);
                proof {
                    lemma_slot_table_insert(self.chord_index@, (4 * KEY_COUNT) as nat, c, action);
                }
                self.chord_index.insert(c, action)
            },
            EditorBinding::KeyAnyMods(key) => {
                let k = key_index(key);
                proof {
                    lemma_slot_table_insert(self.anymods_index@, KEY_COUNT as nat, k, action);
                }
                self.anymods_index.insert(k, action)
            },
            EditorBinding::Mouse(_) => None,
        };
        assert(previous == slot_owner(m0, binding));
        if let Some(p) = previous {
            if p != action {
                let pk = action_key(p);
                let trimmed = match self.bindings.get(&pk) {
                    Some(list) => Some(without_binding(list, binding)),
                    None => None,
                };
                if let Some(rest) = trimmed {
                    proof {
                        lemma_lists_insert(self.bindings@, p, rest);
                    }
                    self.bindings.insert(pk, rest);
                }
            }
        }
        let ghost lists1 = lists_of(self.bindings@);
        let k = action_key(action);
        let grown = match self.bindings.get(&k) {
            Some(list) => {
                if !list_contains(list, binding) {
                    let mut grown = copy_bindings(list);
                    grown.push(binding);
                    Some(grown)
                } else {
                    assert(lists1.insert(action, lists1[action]) =~= lists1);
                    None
                }
            },
            None => {
                let mut fresh: Vec<EditorBinding> = Vec::new();
                fresh.push(binding);
                assert(fresh@ =~= Seq::<EditorBinding>::empty().push(binding));
                Some(fresh)
            },
        };
        if let Some(list) = grown {
            proof {
                lemma_lists_insert(self.bindings@, action, list);
            }
            self.bindings.insert(k, list);
        }
    }

    /// Remove all bindings of an action, and free every table slot they
    /// held.
    #[verifier::rlimit(50)]
    pub fn unbind(&mut self, action: EditorAction)
        requires
            old(self).wf(),
        ensures
            final(self).wf(),
            final(self).model() == model_unbind(old(self).model(), action),
    {
        let ghost m0 = self.model();
        proof {
            lemma_unbind_wf(m0, action);
        }
        let ak = action_key(action);
        proof {
            lemma_lists_remove(self.bindings@, action);
        }
        if let Some(list) = self.bindings.remove(&ak) {
            assert(list@ == m0.lists[action]);
            assert(m0.chords =~= cleared_chords(m0, list@.take(0)));
            assert(m0.anymods =~= cleared_anymods(m0, list@.take(0)));
            let mut j: usize = 0;
            while j < list.len()
                invariant
                    j <= list@.len(),
                    list@ == m0.lists[action],
                    lists_of(self.bindings@) == m0.lists.remove(action),
                    slot_table(self.chord_index@, (4 * KEY_COUNT) as nat) == cleared_chords(
                        m0,
                        list@.take(j as int),
                    ),
                    slot_table(self.anymods_index@, KEY_COUNT as nat) == cleared_anymods(
                        m0,
                        list@.take(j as int),
                    ),
                    m0.chords.len() == 4 * KEY_COUNT,
                    m0.anymods.len() == KEY_COUNT,
                decreases list@.len() - j,
            {
                proof {
                    assert(list@.take(j + 1) =~= list@.take(j as int).push(list@[j as int]));
                    lemma_clear_step(m0, list@.take(j as int), list@[j as int]);
                }
                match list[j] {
                    EditorBinding::Chord { key, ctrl, shift } => {
                        let c = chord_index(key, ctrl, shift);
                        proof {
                            lemma_slot_table_remove(self.chord_index@, (4 * KEY_COUNT) as nat, c);
                        }
                        self.chord_index.remove(&c);
                    },
                    EditorBinding::KeyAnyMods(key) => {
                        let k = key_index(key);
                        proof {
                            lemma_slot_table_remove(self.anymods_index@, KEY_COUNT as nat, k);
                        }
                        self.anymods_index.remove(&k);
                    },
                    EditorBinding::Mouse(_) => {},
                }
                j = j + 1;
            }
            assert(list@.take(list@.len() as int) =~= list@);
            assert(self.model().chords == model_unbind(m0, action).chords);
            assert(self.model().anymods == model_unbind(m0, action).anymods);
            assert(self.model().lists == model_unbind(m0, action).lists);
        } else {
            assert(!m0.lists.dom().contains(action));
            assert(m0.lists.remove(action) =~= m0.lists);
        }
    }

    /// All bindings of an action, in the order they were bound.
    pub fn get_bindings(&self, action: EditorAction) -> (list: &[EditorBinding])
        requires
            self.wf(),
        ensures
            list@ == bindings_of(self.model(), action),
    {
        let k = action_key(action);
        match self.bindings.get(&k) {
            Some(list) => list.as_slice(),
            None => &[],
        }
    }

    /// Event-path lookup for a key press: the exact chord wins over an
    /// any-modifier binding for the same key.
    pub fn resolve(&self, key: KeyCode, ctrl: bool, shift: bool) -> (action: Option<EditorAction>)
        requires
            self.wf(),
        ensures
            action == model_resolve(self.model(), key, ctrl, shift),
    {
        let c = chord_index(key, ctrl, shift);
        let k = key_index(key);
        match self.chord_index.get(&c) {
            Some(a) => Some(*a),
            None => match self.anymods_index.get(&k) {
                Some(a) => Some(*a),
                None => None,
            },
        }
    }
}

/// The editor's default shortcut table, in the order it is bound.
pub open spec fn default_bindings() -> Seq<(EditorAction, EditorBinding)> {
    seq![
        (EditorAction::Pan, EditorBinding::KeyAnyMods(KeyCode::Space)),
        (EditorAction::Pan, EditorBinding::Mouse(MouseButton::Middle)),
        (EditorAction::FocusSelection, EditorBinding::KeyAnyMods(KeyCode::KeyF)),
        (EditorAction::ResetCamera, EditorBinding::KeyAnyMods(KeyCode::Home)),
        (EditorAction::ZoomIn, EditorBinding::Chord { key: KeyCode::Equal, ctrl: false, shift: false }),
        (EditorAction::ZoomOut, EditorBinding::Chord { key: KeyCode::Minus, ctrl: false, shift: false }),
        (EditorAction::ResetZoom, EditorBinding::Chord { key: KeyCode::Digit0, ctrl: false, shift: false }),
        (EditorAction::AddToSelection, EditorBinding::KeyAnyMods(KeyCode::ShiftLeft)),
        (EditorAction::AddToSelection, EditorBinding::KeyAnyMods(KeyCode::ShiftRight)),
        (EditorAction::ToggleSelection, EditorBinding::KeyAnyMods(KeyCode::ControlLeft)),
        (EditorAction::ToggleSelection, EditorBinding::KeyAnyMods(KeyCode::ControlRight)),
        (EditorAction::Select, EditorBinding::Mouse(MouseButton::Left)),
        (EditorAction::SelectAll, EditorBinding::Chord { key: KeyCode::KeyA, ctrl: true, shift: false }),
        (EditorAction::Cancel, EditorBinding::KeyAnyMods(KeyCode::Escape)),
        (EditorAction::ToolSelect, EditorBinding::Chord { key: KeyCode::KeyQ, ctrl: false, shift: false }),
        (EditorAction::ToolMove, EditorBinding::Chord { key: KeyCode::KeyW, ctrl: false, shift: false }),
        (EditorAction::ToolRotate, EditorBinding::Chord { key: KeyCode::KeyE, ctrl: false, shift: false }),
        (EditorAction::ToolScale, EditorBinding::Chord { key: KeyCode::KeyR, ctrl: false, shift: false }),
        (EditorAction::Delete, EditorBinding::KeyAnyMods(KeyCode::Delete)),
        (EditorAction::Delete, EditorBinding::KeyAnyMods(KeyCode::Backspace)),
        (EditorAction::Duplicate, EditorBinding::Chord { key: KeyCode::KeyD, ctrl: true, shift: false }),
        (EditorAction::Undo, EditorBinding::Chord { key: KeyCode::KeyZ, ctrl: true, shift: false }),
        (EditorAction::Redo, EditorBinding::Chord { key: KeyCode::KeyZ, ctrl: true, shift: true }),
        (EditorAction::Redo, EditorBinding::Chord { key: KeyCode::KeyY, ctrl: true, shift: false }),
        (EditorAction::Copy, EditorBinding::Chord { key: KeyCode::KeyC, ctrl: true, shift: false }),
        (EditorAction::Paste, EditorBinding::Chord { key: KeyCode::KeyV, ctrl: true, shift: false }),
        (EditorAction::Cut, EditorBinding::Chord { key: KeyCode::KeyX, ctrl: true, shift: false }),
        (EditorAction::RenameSelected, EditorBinding::Chord { key: KeyCode::F2, ctrl: false, shift: false }),
        (EditorAction::NudgeLeft, EditorBinding::KeyAnyMods(KeyCode::ArrowLeft)),
        (EditorAction::NudgeRight, EditorBinding::KeyAnyMods(KeyCode::ArrowRight)),
        (EditorAction::NudgeUp, EditorBinding::KeyAnyMods(KeyCode::ArrowUp)),
        (EditorAction::NudgeDown, EditorBinding::KeyAnyMods(KeyCode::ArrowDown)),
        (EditorAction::Save, EditorBinding::Chord { key: KeyCode::KeyS, ctrl: true, shift: false }),
        (EditorAction::SaveAs, EditorBinding::Chord { key: KeyCode::KeyS, ctrl: true, shift: true }),
        (EditorAction::NewScene, EditorBinding::Chord { key: KeyCode::KeyN, ctrl: true, shift: false }),
        (EditorAction::OpenScene, EditorBinding::Chord { key: KeyCode::KeyO, ctrl: true, shift: false }),
        (EditorAction::ToggleGrid, EditorBinding::Chord { key: KeyCode::KeyG, ctrl: false, shift: false }),
        (EditorAction::ToggleColliders, EditorBinding::Chord { key: KeyCode::KeyC, ctrl: false, shift: false }),
        (EditorAction::ToggleSnap, EditorBinding::Chord { key: KeyCode::KeyS, ctrl: false, shift: false }),
        (EditorAction::PlayResume, EditorBinding::Chord { key: KeyCode::F5, ctrl: false, shift: false }),
        (EditorAction::TogglePlayPause, EditorBinding::Chord { key: KeyCode::KeyP, ctrl: true, shift: false }),
        (EditorAction::StopPlay, EditorBinding::Chord { key: KeyCode::KeyP, ctrl: true, shift: true }),
        (EditorAction::ToggleCameraFollow, EditorBinding::Chord { key: KeyCode::KeyF, ctrl: true, shift: true }),
    ]
}

/// Bind each `(action, binding)` of `s`, in order.
pub open spec fn model_bind_all(m: MappingModel, s: Seq<(EditorAction, EditorBinding)>) -> MappingModel
    decreases s.len(),
{
    if s.len() == 0 {
        m
    } else {
        let before = model_bind_all(m, s.drop_last());
        model_bind(before, s.last().0, s.last().1)
    }
}

/// The default shortcut table as a list.
fn default_binding_list() -> (list: Vec<(EditorAction, EditorBinding)>)
    ensures
        list@ == default_bindings(),
{
    let mut list: Vec<(EditorAction, EditorBinding)> = Vec::new();
    list.push((EditorAction::Pan, EditorBinding::KeyAnyMods(KeyCode::Space)));
    list.push((EditorAction::Pan, EditorBinding::Mouse(MouseButton::Middle)));
    list.push((EditorAction::FocusSelection, EditorBinding::KeyAnyMods(KeyCode::KeyF)));
    list.push((EditorAction::ResetCamera, EditorBinding::KeyAnyMods(KeyCode::Home)));
    list.push((EditorAction::ZoomIn, EditorBinding::Chord { key: KeyCode::Equal, ctrl: false, shift: false }));
    list.push((EditorAction::ZoomOut, EditorBinding::Chord { key: KeyCode::Minus, ctrl: false, shift: false }));
    list.push((EditorAction::ResetZoom, EditorBinding::Chord { key: KeyCode::Digit0, ctrl: false, shift: false }));
    list.push((EditorAction::AddToSelection, EditorBinding::KeyAnyMods(KeyCode::ShiftLeft)));
    list.push((EditorAction::AddToSelection, EditorBinding::KeyAnyMods(KeyCode::ShiftRight)));
    list.push((EditorAction::ToggleSelection, EditorBinding::KeyAnyMods(KeyCode::ControlLeft)));
    list.push((EditorAction::ToggleSelection, EditorBinding::KeyAnyMods(KeyCode::ControlRight)));
    list.push((EditorAction::Select, EditorBinding::Mouse(MouseButton::Left)));
    list.push((EditorAction::SelectAll, EditorBinding::Chord { key: KeyCode::KeyA, ctrl: true, shift: false }));
    list.push((EditorAction::Cancel, EditorBinding::KeyAnyMods(KeyCode::Escape)));
    list.push((EditorAction::ToolSelect, EditorBinding::Chord { key: KeyCode::KeyQ, ctrl: false, shift: false }));
    list.push((EditorAction::ToolMove, EditorBinding::Chord { key: KeyCode::KeyW, ctrl: false, shift: false }));
    list.push((EditorAction::ToolRotate, EditorBinding::Chord { key: KeyCode::KeyE, ctrl: false, shift: false }));
    list.push((EditorAction::ToolScale, EditorBinding::Chord { key: KeyCode::KeyR, ctrl: false, shift: false }));
    list.push((EditorAction::Delete, EditorBinding::KeyAnyMods(KeyCode::Delete)));
    list.push((EditorAction::Delete, EditorBinding::KeyAnyMods(KeyCode::Backspace)));
    list.push((EditorAction::Duplicate, EditorBinding::Chord { key: KeyCode::KeyD, ctrl: true, shift: false }));
    list.push((EditorAction::Undo, EditorBinding::Chord { key: KeyCode::KeyZ, ctrl: true, shift: false }));
    list.push((EditorAction::Redo, EditorBinding::Chord { key: KeyCode::KeyZ, ctrl: true, shift: true }));
    list.push((EditorAction::Redo, EditorBinding::Chord { key: KeyCode::KeyY, ctrl: true, shift: false }));
    list.push((EditorAction::Copy, EditorBinding::Chord { key: KeyCode::KeyC, ctrl: true, shift: false }));
    list.push((EditorAction::Paste, EditorBinding::Chord { key: KeyCode::KeyV, ctrl: true, shift: false }));
    list.push((EditorAction::Cut, EditorBinding::Chord { key: KeyCode::KeyX, ctrl: true, shift: false }));
    list.push((EditorAction::RenameSelected, EditorBinding::Chord { key: KeyCode::F2, ctrl: false, shift: false }));
    list.push((EditorAction::NudgeLeft, EditorBinding::KeyAnyMods(KeyCode::ArrowLeft)));
    list.push((EditorAction::NudgeRight, EditorBinding::KeyAnyMods(KeyCode::ArrowRight)));
    list.push((EditorAction::NudgeUp, EditorBinding::KeyAnyMods(KeyCode::ArrowUp)));
    list.push((EditorAction::NudgeDown, EditorBinding::KeyAnyMods(KeyCode::ArrowDown)));
    list.push((EditorAction::Save, EditorBinding::Chord { key: KeyCode::KeyS, ctrl: true, shift: false }));
    list.push((EditorAction::SaveAs, EditorBinding::Chord { key: KeyCode::KeyS, ctrl: true, shift: true }));
    list.push((EditorAction::NewScene, EditorBinding::Chord { key: KeyCode::KeyN, ctrl: true, shift: false }));
    list.push((EditorAction::OpenScene, EditorBinding::Chord { key: KeyCode::KeyO, ctrl: true, shift: false }));
    list.push((EditorAction::ToggleGrid, EditorBinding::Chord { key: KeyCode::KeyG, ctrl: false, shift: false }));
    list.push((EditorAction::ToggleColliders, EditorBinding::Chord { key: KeyCode::KeyC, ctrl: false, shift: false }));
    list.push((EditorAction::ToggleSnap, EditorBinding::Chord { key: KeyCode::KeyS, ctrl: false, shift: false }));
    list.push((EditorAction::PlayResume, EditorBinding::Chord { key: KeyCode::F5, ctrl: false, shift: false }));
    list.push((EditorAction::TogglePlayPause, EditorBinding::Chord { key: KeyCode::KeyP, ctrl: true, shift: false }));
    list.push((EditorAction::StopPlay, EditorBinding::Chord { key: KeyCode::KeyP, ctrl: true, shift: true }));
    list.push((EditorAction::ToggleCameraFollow, EditorBinding::Chord { key: KeyCode::KeyF, ctrl: true, shift: true }));
    assert(list@ =~= default_bindings());
    list
}

impl EditorInputMapping {
    /// A mapping holding the editor's default shortcut table.
    pub fn new() -> (m: Self)
        ensures
            m.wf(),
            m.model() == model_bind_all(empty_model(), default_bindings()),
    {
        let mut m = Self::empty();
        m.set_default_bindings();
        m
    }

    /// Bind the default shortcut table, in order, onto the current one.
    fn set_default_bindings(&mut self)
        requires
            old(self).wf(),
        ensures
            final(self).wf(),
            final(self).model() == model_bind_all(old(self).model(), default_bindings()),
    {
        let list = default_binding_list();
        let ghost m0 = self.model();
        let mut i: usize = 0;
        while i < list.len()
            invariant
                i <= list@.len(),
                list@ == default_bindings(),
                self.wf(),
                self.model() == model_bind_all(m0, list@.take(i as int)),
            decreases list@.len() - i,
        {
            let (action, binding) = list[i];
            proof {
                assert(list@.take(i + 1).drop_last() =~= list@.take(i as int));
                assert(list@.take(i + 1).last() == (action, binding));
            }
            self.bind(action, binding);
            i = i + 1;
        }
        assert(list@.take(list@.len() as int) =~= list@);
    }
}

impl Default for EditorInputMapping {
    fn default() -> (m: Self)
        ensures
            m.wf(),
            m.model() == model_bind_all(empty_model(), default_bindings()),
    {
        Self::new()
    }
}

/// The chord table with every slot of `t`'s chords cleared.
pub open spec fn cleared_chords(m0: MappingModel, t: Seq<EditorBinding>) -> Seq<Option<EditorAction>> {
    Seq::new(m0.chords.len(), |c: int| if list_has_chord_slot(t, c) { None } else { m0.chords[c] })
}

/// The any-modifier table with every slot of `t`'s any-modifier bindings
/// cleared.
pub open spec fn cleared_anymods(m0: MappingModel, t: Seq<EditorBinding>) -> Seq<Option<EditorAction>> {
    Seq::new(m0.anymods.len(), |k: int| if list_has_anymods_slot(t, k) { None } else { m0.anymods[k] })
}

/// Clearing one more binding's slot.
proof fn lemma_clear_step(m0: MappingModel, t0: Seq<EditorBinding>, v: EditorBinding)
    requires
        m0.chords.len() == 4 * KEY_COUNT,
        m0.anymods.len() == KEY_COUNT,
    ensures
        cleared_chords(m0, t0.push(v)) == (match v {
            EditorBinding::Chord { key, ctrl, shift } => cleared_chords(m0, t0).update(
                chord_code(key, ctrl, shift) as int,
                None,
            ),
            _ => cleared_chords(m0, t0),
        }),
        cleared_anymods(m0, t0.push(v)) == (match v {
            EditorBinding::KeyAnyMods(key) => cleared_anymods(m0, t0).update(
                key_code(key) as int,
                None,
            ),
            _ => cleared_anymods(m0, t0),
        }),
{
    let t1 = t0.push(v);
    if v is Chord {
        lemma_chord_at(v->key, v->ctrl, v->shift);
    }
    if v is KeyAnyMods {
        lemma_key_code_inverse(v->KeyAnyMods_0);
    }
    assert forall|x: int| 0 <= x < m0.chords.len() implies list_has_chord_slot(t1, x) == (
    list_has_chord_slot(t0, x) || (v is Chord && chord_code(v->key, v->ctrl, v->shift) == x)) by {
        if list_has_chord_slot(t0, x) {
            let w = choose|w: int| 0 <= w < t0.len() && t0[w] is Chord && chord_code(t0[w]->key, t0[w]->ctrl, t0[w]->shift) == x;
            assert(t1[w] == t0[w]);
        }
        if v is Chord && chord_code(v->key, v->ctrl, v->shift) == x {
            assert(t1[t0.len() as int] == v);
        }
        if list_has_chord_slot(t1, x) {
            let w = choose|w: int| 0 <= w < t1.len() && t1[w] is Chord && chord_code(t1[w]->key, t1[w]->ctrl, t1[w]->shift) == x;
            if w < t0.len() {
                assert(t0[w] == t1[w]);
            }
        }
    }
    assert forall|x: int| 0 <= x < m0.anymods.len() implies list_has_anymods_slot(t1, x) == (
    list_has_anymods_slot(t0, x) || (v is KeyAnyMods && key_code(v->KeyAnyMods_0) == x)) by {
        if list_has_anymods_slot(t0, x) {
            let w = choose|w: int| 0 <= w < t0.len() && t0[w] is KeyAnyMods && key_code(t0[w]->KeyAnyMods_0) == x;
            assert(t1[w] == t0[w]);
        }
        if v is KeyAnyMods && key_code(v->KeyAnyMods_0) == x {
            assert(t1[t0.len() as int] == v);
        }
        if list_has_anymods_slot(t1, x) {
            let w = choose|w: int| 0 <= w < t1.len() && t1[w] is KeyAnyMods && key_code(t1[w]->KeyAnyMods_0) == x;
            if w < t0.len() {
                assert(t0[w] == t1[w]);
            }
        }
    }
    match v {
        EditorBinding::Chord { key, ctrl, shift } => {
            assert(cleared_chords(m0, t1) =~= cleared_chords(m0, t0).update(
                chord_code(key, ctrl, shift) as int,
                None,
            ));
            assert(cleared_anymods(m0, t1) =~= cleared_anymods(m0, t0));
        },
        EditorBinding::KeyAnyMods(key) => {
            assert(cleared_chords(m0, t1) =~= cleared_chords(m0, t0));
            assert(cleared_anymods(m0, t1) =~= cleared_anymods(m0, t0).update(
                key_code(key) as int,
                None,
            ));
        },
        EditorBinding::Mouse(_) => {
            assert(cleared_chords(m0, t1) =~= cleared_chords(m0, t0));
            assert(cleared_anymods(m0, t1) =~= cleared_anymods(m0, t0));
        },
    }
}

/// The keyboard and mouse button state the editor's poll path reads: which
/// keys and buttons are held, and which went down or up this frame.
#[derive(Debug, Clone)]
pub struct InputState {
    keys_pressed: Vec<bool>,
    keys_just_pressed: Vec<bool>,
    keys_just_released: Vec<bool>,
    buttons_pressed: Vec<bool>,
    buttons_just_pressed: Vec<bool>,
    buttons_just_released: Vec<bool>,
}

/// `n` copies of `false`.
fn all_false(n: usize) -> (v: Vec<bool>)
    ensures
        v@ == Seq::new(n as nat, |i: int| false),
{
    let mut v: Vec<bool> = Vec::new();
    let mut i: usize = 0;
    while i < n
        invariant
            i <= n,
            v@ == Seq::new(i as nat, |j: int| false),
        decreases n - i,
    {
        v.push(false);
        i = i + 1;
        assert(v@ =~= Seq::new(i as nat, |j: int| false));
    }
    v
}

impl InputState {
    /// Table sizes are right.
    pub closed spec fn wf(&self) -> bool {
        &&& self.keys_pressed@.len() == KEY_COUNT
        &&& self.keys_just_pressed@.len() == KEY_COUNT
        &&& self.keys_just_released@.len() == KEY_COUNT
        &&& self.buttons_pressed@.len() == BUTTON_COUNT
        &&& self.buttons_just_pressed@.len() == BUTTON_COUNT
        &&& self.buttons_just_released@.len() == BUTTON_COUNT
    }

    /// Whether `key` is held.
    pub closed spec fn key_down(&self, key: KeyCode) -> bool {
        self.keys_pressed@[key_code(key) as int]
    }

    /// Whether `key` went down this frame.
    pub closed spec fn key_went_down(&self, key: KeyCode) -> bool {
        self.keys_just_pressed@[key_code(key) as int]
    }

    /// Whether `key` went up this frame.
    pub closed spec fn key_went_up(&self, key: KeyCode) -> bool {
        self.keys_just_released@[key_code(key) as int]
    }

    /// Whether `button` is held.
    pub closed spec fn button_down(&self, button: MouseButton) -> bool {
        self.buttons_pressed@[button_code(button) as int]
    }

    /// Whether `button` went down this frame.
    pub closed spec fn button_went_down(&self, button: MouseButton) -> bool {
        self.buttons_just_pressed@[button_code(button) as int]
    }

    /// Whether `button` went up this frame.
    pub closed spec fn button_went_up(&self, button: MouseButton) -> bool {
        self.buttons_just_released@[button_code(button) as int]
    }

    /// Nothing held, nothing changed.
    pub fn new() -> (s: Self)
        ensures
            s.wf(),
            forall|k: KeyCode| !s.key_down(k) && !s.key_went_down(k) && !s.key_went_up(k),
            forall|b: MouseButton| !s.button_down(b) && !s.button_went_down(b) && !s.button_went_up(b),
    {
        let s = InputState {
            keys_pressed: all_false(KEY_COUNT),
            keys_just_pressed: all_false(KEY_COUNT),
            keys_just_released: all_false(KEY_COUNT),
            buttons_pressed: all_false(BUTTON_COUNT),
            buttons_just_pressed: all_false(BUTTON_COUNT),
            buttons_just_released: all_false(BUTTON_COUNT),
        };
        assert forall|k: KeyCode| !s.key_down(k) && !s.key_went_down(k) && !s.key_went_up(k) by {
            lemma_key_code_inverse(k);
        }
        s
    }

    /// A key went down: it is held, and went down this frame unless it was
    /// already held.
    pub fn handle_key_press(&mut self, key: KeyCode)
        requires
            old(self).wf(),
        ensures
            final(self).wf(),
            final(self).key_down(key),
            final(self).key_went_down(key) == (old(self).key_went_down(key) || !old(self).key_down(key)),
            final(self).key_went_up(key) == old(self).key_went_up(key),
            forall|k: KeyCode| k != key ==> final(self).key_down(k) == old(self).key_down(k)
                && final(self).key_went_down(k) == old(self).key_went_down(k)
                && final(self).key_went_up(k) == old(self).key_went_up(k),
            forall|b: MouseButton| final(self).button_down(b) == old(self).button_down(b)
                && final(self).button_went_down(b) == old(self).button_went_down(b)
                && final(self).button_went_up(b) == old(self).button_went_up(b),
    {
        let i = key_index(key);
        if !self.keys_pressed[i] {
            self.keys_just_pressed.set(i, true);
        }
        self.keys_pressed.set(i, true);
        assert forall|k: KeyCode| k != key implies key_code(k) != key_code(key) by {
            lemma_key_code_inverse(k);
            lemma_key_code_inverse(key);
        }
    }

    /// A key went up: it is no longer held, and went up this frame if it
    /// was held.
    pub fn handle_key_release(&mut self, key: KeyCode)
        requires
            old(self).wf(),
        ensures
            final(self).wf(),
            !final(self).key_down(key),
            final(self).key_went_up(key) == (old(self).key_went_up(key) || old(self).key_down(key)),
            final(self).key_went_down(key) == old(self).key_went_down(key),
            forall|k: KeyCode| k != key ==> final(self).key_down(k) == old(self).key_down(k)
                && final(self).key_went_down(k) == old(self).key_went_down(k)
                && final(self).key_went_up(k) == old(self).key_went_up(k),
            forall|b: MouseButton| final(self).button_down(b) == old(self).button_down(b)
                && final(self).button_went_down(b) == old(self).button_went_down(b)
                && final(self).button_went_up(b) == old(self).button_went_up(b),
    {
        let i = key_index(key);
        if self.keys_pressed[i] {
            self.keys_just_released.set(i, true);
        }
        self.keys_pressed.set(i, false);
        assert forall|k: KeyCode| k != key implies key_code(k) != key_code(key) by {
            lemma_key_code_inverse(k);
            lemma_key_code_inverse(key);
        }
    }

    /// A mouse button went down.
    pub fn handle_button_press(&mut self, button: MouseButton)
        requires
            old(self).wf(),
        ensures
            final(self).wf(),
            final(self).button_down(button),
            final(self).button_went_down(button) == (old(self).button_went_down(button) || !old(
                self,
            ).button_down(button)),
            final(self).button_went_up(button) == old(self).button_went_up(button),
            forall|b: MouseButton| b != button ==> final(self).button_down(b) == old(self).button_down(b)
                && final(self).button_went_down(b) == old(self).button_went_down(b)
                && final(self).button_went_up(b) == old(self).button_went_up(b),
            forall|k: KeyCode| final(self).key_down(k) == old(self).key_down(k)
                && final(self).key_went_down(k) == old(self).key_went_down(k)
                && final(self).key_went_up(k) == old(self).key_went_up(k),
    {
        let i = button_index(button);
        if !self.buttons_pressed[i] {
            self.buttons_just_pressed.set(i, true);
        }
        self.buttons_pressed.set(i, true);
    }

    /// A mouse button went up.
    pub fn handle_button_release(&mut self, button: MouseButton)
        requires
            old(self).wf(),
        ensures
            final(self).wf(),
            !final(self).button_down(button),
            final(self).button_went_up(button) == (old(self).button_went_up(button) || old(
                self,
            ).button_down(button)),
            final(self).button_went_down(button) == old(self).button_went_down(button),
            forall|b: MouseButton| b != button ==> final(self).button_down(b) == old(self).button_down(b)
                && final(self).button_went_down(b) == old(self).button_went_down(b)
                && final(self).button_went_up(b) == old(self).button_went_up(b),
            forall|k: KeyCode| final(self).key_down(k) == old(self).key_down(k)
                && final(self).key_went_down(k) == old(self).key_went_down(k)
                && final(self).key_went_up(k) == old(self).key_went_up(k),
    {
        let i = button_index(button);
        if self.buttons_pressed[i] {
            self.buttons_just_released.set(i, true);
        }
        self.buttons_pressed.set(i, false);
    }

    /// Start the next frame: this frame's down and up edges are forgotten;
    /// held keys and buttons stay held.
    pub fn update(&mut self)
        requires
            old(self).wf(),
        ensures
            final(self).wf(),
            forall|k: KeyCode| final(self).key_down(k) == old(self).key_down(k)
                && !final(self).key_went_down(k) && !final(self).key_went_up(k),
            forall|b: MouseButton| final(self).button_down(b) == old(self).button_down(b)
                && !final(self).button_went_down(b) && !final(self).button_went_up(b),
    {
        self.keys_just_pressed = all_false(KEY_COUNT);
        self.keys_just_released = all_false(KEY_COUNT);
        self.buttons_just_pressed = all_false(BUTTON_COUNT);
        self.buttons_just_released = all_false(BUTTON_COUNT);
        assert forall|k: KeyCode| !self.key_went_down(k) && !self.key_went_up(k) by {
            lemma_key_code_inverse(k);
        }
    }

    /// Whether `key` is held.
    pub fn is_key_pressed(&self, key: KeyCode) -> (down: bool)
        requires
            self.wf(),
        ensures
            down == self.key_down(key),
    {
        self.keys_pressed[key_index(key)]
    }

    /// Whether `key` went down this frame.
    pub fn is_key_just_pressed(&self, key: KeyCode) -> (down: bool)
        requires
            self.wf(),
        ensures
            down == self.key_went_down(key),
    {
        self.keys_just_pressed[key_index(key)]
    }

    /// Whether `button` is held.
    pub fn is_button_pressed(&self, button: MouseButton) -> (down: bool)
        requires
            self.wf(),
        ensures
            down == self.button_down(button),
    {
        self.buttons_pressed[button_index(button)]
    }

    /// Whether `button` went down this frame.
    pub fn is_button_just_pressed(&self, button: MouseButton) -> (down: bool)
        requires
            self.wf(),
        ensures
            down == self.button_went_down(button),
    {
        self.buttons_just_pressed[button_index(button)]
    }

    /// Whether `button` went up this frame.
    pub fn is_button_just_released(&self, button: MouseButton) -> (up: bool)
        requires
            self.wf(),
        ensures
            up == self.button_went_up(button),
    {
        self.buttons_just_released[button_index(button)]
    }
}

/// The modifier state the editor's chord model reads: Ctrl and Shift,
/// either side of the keyboard.
#[derive(Debug, Clone, Copy, PartialEq, Eq, Structural)]
pub struct Modifiers {
    pub ctrl: bool,
    pub shift: bool,
}

/// Whether either Ctrl key is held.
pub open spec fn ctrl_down(input: InputState) -> bool {
    input.key_down(KeyCode::ControlLeft) || input.key_down(KeyCode::ControlRight)
}

/// Whether either Shift key is held.
pub open spec fn shift_down(input: InputState) -> bool {
    input.key_down(KeyCode::ShiftLeft) || input.key_down(KeyCode::ShiftRight)
}

impl Modifiers {
    /// The modifiers held in `input`.
    pub fn read(input: &InputState) -> (m: Modifiers)
        requires
            input.wf(),
        ensures
            m.ctrl == ctrl_down(*input),
            m.shift == shift_down(*input),
    {
        Modifiers {
            ctrl: input.is_key_pressed(KeyCode::ControlLeft) || input.is_key_pressed(
                KeyCode::ControlRight,
            ),
            shift: input.is_key_pressed(KeyCode::ShiftLeft) || input.is_key_pressed(
                KeyCode::ShiftRight,
            ),
        }
    }
}

/// Whether `binding` is satisfied by the device state: held (or, with
/// `just`, gone down this frame), and for a chord with exactly its Ctrl and
/// Shift state.
pub open spec fn binding_satisfied(binding: EditorBinding, input: InputState, just: bool) -> bool {
    match binding {
        EditorBinding::Chord { key, ctrl, shift } => (if just {
            input.key_went_down(key)
        } else {
            input.key_down(key)
        }) && ctrl_down(input) == ctrl && shift_down(input) == shift,
        EditorBinding::KeyAnyMods(key) => if just {
            input.key_went_down(key)
        } else {
            input.key_down(key)
        },
        EditorBinding::Mouse(button) => if just {
            input.button_went_down(button)
        } else {
            input.button_down(button)
        },
    }
}

/// Whether some binding in `list` is satisfied.
pub open spec fn any_satisfied(list: Seq<EditorBinding>, input: InputState, just: bool) -> bool {
    exists|j: int| 0 <= j < list.len() && binding_satisfied(#[trigger] list[j], input, just)
}

/// A chord is satisfied exactly when its key is held (or, asked for the
/// frame's edge, went down this frame) and Ctrl (either side) and Shift
/// (either side) are held exactly as the chord says.
pub proof fn lemma_chord_needs_exact_modifiers(key: KeyCode, ctrl: bool, shift: bool, input: InputState, just: bool)
    ensures
        binding_satisfied(EditorBinding::Chord { key, ctrl, shift }, input, just) <==> {
            &&& if just {
                input.key_went_down(key)
            } else {
                input.key_down(key)
            }
            &&& (input.key_down(KeyCode::ControlLeft) || input.key_down(KeyCode::ControlRight)) == ctrl
            &&& (input.key_down(KeyCode::ShiftLeft) || input.key_down(KeyCode::ShiftRight)) == shift
        },
{
}

/// Two chords on the same key and Ctrl state that differ only in Shift are
/// never satisfied together: Ctrl+S and Ctrl+Shift+S, or Ctrl+Z and
/// Ctrl+Shift+Z, never fire on one key press.
pub proof fn lemma_shift_tells_chords_apart(key: KeyCode, ctrl: bool, input: InputState, just: bool)
    ensures
        !(binding_satisfied(EditorBinding::Chord { key, ctrl, shift: false }, input, just)
            && binding_satisfied(EditorBinding::Chord { key, ctrl, shift: true }, input, just)),
{
}

/// While a Shift key is held, an action counts as pressed only through a
/// binding that is not a Shift-free chord; likewise, with no Shift key
/// held, only through one that is not a Shift chord.
pub proof fn lemma_held_shift_picks_the_chords(list: Seq<EditorBinding>, input: InputState, just: bool)
    requires
        any_satisfied(list, input, just),
    ensures
        exists|j: int|
            0 <= j < list.len() && !(#[trigger] list[j] is Chord && list[j]->shift != (input.key_down(
                KeyCode::ShiftLeft,
            ) || input.key_down(KeyCode::ShiftRight))),
{
    let j = choose|j: int| 0 <= j < list.len() && binding_satisfied(#[trigger] list[j], input, just);
    assert(!(list[j] is Chord && list[j]->shift != (input.key_down(KeyCode::ShiftLeft) || input.key_down(
        KeyCode::ShiftRight,
    ))));
}

/// State of a mouse button.
#[derive(Debug, Clone, Copy, Default, PartialEq, Eq, Structural)]
pub struct ButtonState {
    /// Currently held down
    pub pressed: bool,
    /// Just pressed this frame
    pub just_pressed: bool,
    /// Just released this frame
    pub just_released: bool,
}

/// The editor's modifier and button state for one frame.
#[derive(Debug, Clone, Copy, Default, PartialEq, Eq, Structural)]
pub struct EditorInputState {
    /// Whether the pan modifier is active (Space held, or middle button)
    pub pan_modifier: bool,
    /// Whether the add-to-selection modifier is active (Shift held)
    pub add_modifier: bool,
    /// Whether the toggle-selection modifier is active (Ctrl held)
    pub toggle_modifier: bool,
    /// Primary mouse button (left) state
    pub primary_button: ButtonState,
    /// Secondary mouse button (right) state
    pub secondary_button: ButtonState,
    /// Middle mouse button state
    pub middle_button: ButtonState,
}

/// The state of `button` in `input`.
pub fn button_state(input: &InputState, button: MouseButton) -> (state: ButtonState)
    requires
        input.wf(),
    ensures
        state.pressed == input.button_down(button),
        state.just_pressed == input.button_went_down(button),
        state.just_released == input.button_went_up(button),
{
    ButtonState {
        pressed: input.is_button_pressed(button),
        just_pressed: input.is_button_just_pressed(button),
        just_released: input.is_button_just_released(button),
    }
}

/// Whether a binding is currently satisfied by the device state.
fn binding_pressed(binding: &EditorBinding, input: &InputState, just: bool) -> (on: bool)
    requires
        input.wf(),
    ensures
        on == binding_satisfied(*binding, *input, just),
{
    let mods = Modifiers::read(input);
    match *binding {
        EditorBinding::Chord { key, ctrl, shift } => {
            let key_state = if just {
                input.is_key_just_pressed(key)
            } else {
                input.is_key_pressed(key)
            };
            key_state && mods.ctrl == ctrl && mods.shift == shift
        },
        EditorBinding::KeyAnyMods(key) => {
            if just {
                input.is_key_just_pressed(key)
            } else {
                input.is_key_pressed(key)
            }
        },
        EditorBinding::Mouse(button) => {
            if just {
                input.is_button_just_pressed(button)
            } else {
                input.is_button_pressed(button)
            }
        },
    }
}

impl EditorInputMapping {
    /// Whether some binding of `action` is satisfied, held or (with `just`)
    /// gone down this frame.
    fn any_binding_pressed(&self, action: EditorAction, input: &InputState, just: bool) -> (on: bool)
        requires
            self.wf(),
            input.wf(),
        ensures
            on == any_satisfied(bindings_of(self.model(), action), *input, just),
    {
        let list = self.get_bindings(action);
        let mut i: usize = 0;
        while i < list.len()
            invariant
                i <= list@.len(),
                list@ == bindings_of(self.model(), action),
                input.wf(),
                forall|j: int| 0 <= j < i ==> !binding_satisfied(#[trigger] list@[j], *input, just),
            decreases list@.len() - i,
        {
            if binding_pressed(&list[i], input, just) {
                return true;
            }
            i = i + 1;
        }
        false
    }

    /// Whether an action is currently active (any bound input held).
    pub fn is_action_pressed(&self, action: EditorAction, input: &InputState) -> (on: bool)
        requires
            self.wf(),
            input.wf(),
        ensures
            on == any_satisfied(bindings_of(self.model(), action), *input, false),
    {
        self.any_binding_pressed(action, input, false)
    }

    /// Whether an action became active this frame.
    pub fn is_action_just_pressed(&self, action: EditorAction, input: &InputState) -> (on: bool)
        requires
            self.wf(),
            input.wf(),
        ensures
            on == any_satisfied(bindings_of(self.model(), action), *input, true),
    {
        self.any_binding_pressed(action, input, true)
    }

    /// The editor's modifier and button state for this frame.
    pub fn update_state(&self, input: &InputState) -> (state: EditorInputState)
        requires
            self.wf(),
            input.wf(),
        ensures
            state.pan_modifier == any_satisfied(bindings_of(self.model(), EditorAction::Pan), *input, false),
            state.add_modifier == any_satisfied(
                bindings_of(self.model(), EditorAction::AddToSelection),
                *input,
                false,
            ),
            state.toggle_modifier == any_satisfied(
                bindings_of(self.model(), EditorAction::ToggleSelection),
                *input,
                false,
            ),
            state.primary_button.pressed == input.button_down(MouseButton::Left),
            state.primary_button.just_pressed == input.button_went_down(MouseButton::Left),
            state.primary_button.just_released == input.button_went_up(MouseButton::Left),
            state.secondary_button.pressed == input.button_down(MouseButton::Right),
            state.secondary_button.just_pressed == input.button_went_down(MouseButton::Right),
            state.secondary_button.just_released == input.button_went_up(MouseButton::Right),
            state.middle_button.pressed == input.button_down(MouseButton::Middle),
            state.middle_button.just_pressed == input.button_went_down(MouseButton::Middle),
            state.middle_button.just_released == input.button_went_up(MouseButton::Middle),
    {
        EditorInputState {
            pan_modifier: self.is_action_pressed(EditorAction::Pan, input),
            add_modifier: self.is_action_pressed(EditorAction::AddToSelection, input),
            toggle_modifier: self.is_action_pressed(EditorAction::ToggleSelection, input),
            primary_button: button_state(input, MouseButton::Left),
            secondary_button: button_state(input, MouseButton::Right),
            middle_button: button_state(input, MouseButton::Middle),
        }
    }
}

/// A copy of a binding list.
fn copy_bindings(list: &Vec<EditorBinding>) -> (copy: Vec<EditorBinding>)
    ensures
        copy@ == list@,
{
    let mut copy: Vec<EditorBinding> = Vec::new();
    let mut i: usize = 0;
    while i < list.len()
        invariant
            i <= list@.len(),
            copy@ == list@.take(i as int),
        decreases list@.len() - i,
    {
        copy.push(list[i]);
        i = i + 1;
        assert(copy@ =~= list@.take(i as int));
    }
    assert(list@.take(list@.len() as int) =~= list@);
    copy
}

/// Whether `list` holds `b`.
fn list_contains(list: &Vec<EditorBinding>, b: EditorBinding) -> (present: bool)
    ensures
        present == list@.contains(b),
{
    let mut i: usize = 0;
    while i < list.len()
        invariant
            i <= list@.len(),
            forall|j: int| 0 <= j < i ==> list@[j] != b,
        decreases list@.len() - i,
    {
        if list[i] == b {
            return true;
        }
        i = i + 1;
    }
    false
}

/// `list` with every occurrence of `b` dropped.
fn without_binding(list: &Vec<EditorBinding>, b: EditorBinding) -> (rest: Vec<EditorBinding>)
    ensures
        rest@ == without(list@, b),
{
    let mut rest: Vec<EditorBinding> = Vec::new();
    let mut i: usize = 0;
    while i < list.len()
        invariant
            i <= list@.len(),
            rest@ == without(list@.take(i as int), b),
        decreases list@.len() - i,
    {
        let v = list[i];
        proof {
            assert(list@.take(i + 1).drop_last() =~= list@.take(i as int));
            assert(list@.take(i + 1).last() == v);
        }
        if v != b {
            rest.push(v);
        }
        i = i + 1;
    }
    assert(list@.take(list@.len() as int) =~= list@);
    rest
}

} // verus!
