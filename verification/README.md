# editor

The decision-making core of a 2D scene editor, written in Verus: every
function carries a contract, and the contracts are proved.

- `src/` — the verified library: the selection, the shortcut table and
  input polling, dock panel state and narrow mode, the preferences' panel
  flags, view toggles, the toolbar and its overflow menu, play controls,
  the gizmo drag lifecycle, the viewport's gesture state machine, drag and
  drop, picking order, the hierarchy panel (collapse state, Shift-click
  ranges, inline rename and its keyboard focus, display names), the
  inspector's view state, component registry tables, script parameter
  names and the play-mode snapshot's loss reports. Laws that span several
  operations (a toggle undone by a second toggle, a rename that cannot keep
  the keyboard past its grace, preferences that round-trip onto a fresh
  dock, …) are public proof functions beside the code they speak of.
- `tests/` — executable tests of the library.
- `app/` — the host side: floating-point geometry (panel placement,
  picking by bounds and depth, strip fitting, gizmo angles), the JSON
  preferences file, and the mapping from the windowing layer's key codes.
