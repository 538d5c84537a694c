//! Transform gizmo modes and handles, and the drag bookkeeping that decides
//! which handle a gesture belongs to.
//!
//! Handle geometry and the drag deltas are floating-point screen math done
//! by the host; the drag's lifecycle is decided here.

use vstd::prelude::*;

verus! {

/// The type of gizmo operation.
#[derive(Debug, Clone, Copy, PartialEq, Eq, Structural)]
pub enum GizmoMode {
    /// No gizmo visible (the mode the editor calls "None")
    Off,
    /// Move/translate gizmo with XY axes
    Translate,
    /// Rotation gizmo with circular handle
    Rotate,
    /// Scale gizmo with corner handles
    Scale,
}

impl Default for GizmoMode {
    /// The translate gizmo.
    fn default() -> (mode: Self)
        ensures
            mode == GizmoMode::Translate,
    {
        GizmoMode::Translate
    }
}

/// Corner positions for scale handles.
#[derive(Debug, Clone, Copy, PartialEq, Eq, Structural)]
pub enum Corner {
    TopLeft,
    TopRight,
    BottomLeft,
    BottomRight,
}

/// Which part of the gizmo is being interacted with.
#[derive(Debug, Clone, Copy, PartialEq, Eq, Structural)]
pub enum GizmoHandle {
    /// X-axis handle
    AxisX,
    /// Y-axis handle
    AxisY,
    /// Both axes (center/free movement)
    Center,
    /// Rotation ring
    Ring,
    /// Scale corner handle
    ScaleCorner(Corner),
}

/// Whether `mode`'s renderer manages `handle`.
pub open spec fn owns_handle_spec(mode: GizmoMode, handle: GizmoHandle) -> bool {
    match mode {
        GizmoMode::Off => false,
        GizmoMode::Translate => handle is AxisX || handle is AxisY || handle is Center,
        GizmoMode::Rotate => handle is Ring,
        GizmoMode::Scale => handle is ScaleCorner,
    }
}

impl GizmoMode {
    /// The display name for this mode.
    pub fn name(&self) -> (name: &'static str)
        ensures
            name@ == (match *self {
                GizmoMode::Off => "None"@,
                GizmoMode::Translate => "Translate"@,
                GizmoMode::Rotate => "Rotate"@,
                GizmoMode::Scale => "Scale"@,
            }),
    {
        match self {
            GizmoMode::Off => "None",
            GizmoMode::Translate => "Translate",
            GizmoMode::Rotate => "Rotate",
            GizmoMode::Scale => "Scale",
        }
    }

    /// Whether `handle` is one this mode's renderer manages (and can
    /// therefore release at the end of a drag).
    pub fn owns_handle(&self, handle: GizmoHandle) -> (owns: bool)
        ensures
            owns == owns_handle_spec(*self, handle),
    {
        match self {
            GizmoMode::Off => false,
            GizmoMode::Translate => matches!(
                handle,
                GizmoHandle::AxisX | GizmoHandle::AxisY | GizmoHandle::Center
            ),
            GizmoMode::Rotate => matches!(handle, GizmoHandle::Ring),
            GizmoMode::Scale => matches!(handle, GizmoHandle::ScaleCorner(_)),
        }
    }
}

/// A gizmo's drag lifecycle: its mode, the handle being dragged, and the
/// cancel latch that ignores the rest of a gesture after Escape.
#[derive(Debug, Clone, Copy, PartialEq, Eq, Structural)]
pub struct GizmoDrag {
    pub mode: GizmoMode,
    pub active_handle: Option<GizmoHandle>,
    pub suppressed_until_release: bool,
}

impl GizmoDrag {
    /// A translate gizmo with no drag in flight.
    pub fn new() -> (d: Self)
        ensures
            d.mode == GizmoMode::Translate,
            d.active_handle is None,
            !d.suppressed_until_release,
    {
        GizmoDrag { mode: GizmoMode::Translate, active_handle: None, suppressed_until_release: false }
    }

    /// Set the gizmo mode.
    pub fn set_mode(&mut self, mode: GizmoMode)
        ensures
            *final(self) == (GizmoDrag { mode, ..*old(self) }),
    {
        self.mode = mode;
    }

    /// Whether a drag is in flight.
    pub fn is_active(&self) -> (active: bool)
        ensures
            active == self.active_handle is Some,
    {
        self.active_handle.is_some()
    }

    /// Cancel any drag and ignore the rest of the current mouse gesture.
    pub fn cancel(&mut self)
        ensures
            *final(self) == (GizmoDrag {
                active_handle: None,
                suppressed_until_release: true,
                ..*old(self)
            }),
    {
        self.active_handle = None;
        self.suppressed_until_release = true;
    }

    /// The start of a gizmo frame: the cancel latch clears once the mouse
    /// is up (read from the polled state, so a release missed while the
    /// window was unfocused cannot wedge it); a handle the current mode
    /// does not own (the tool switched mid-drag) is released. Returns
    /// whether handles may be grabbed this frame: not while the latch
    /// holds, and only inside the scene panel unless a drag is already in
    /// flight.
    pub fn begin_frame(&mut self, mouse_down: bool, interactive: bool) -> (hit_enabled: bool)
        ensures
            final(self).mode == old(self).mode,
            final(self).suppressed_until_release == (old(self).suppressed_until_release
                && mouse_down),
            final(self).active_handle == (match old(self).active_handle {
                Some(h) => if owns_handle_spec(old(self).mode, h) {
                    Some(h)
                } else {
                    None
                },
                None => None,
            }),
            hit_enabled == (!final(self).suppressed_until_release && (interactive
                || final(self).active_handle is Some)),
    {
        if self.suppressed_until_release && !mouse_down {
            self.suppressed_until_release = false;
        }
        if let Some(handle) = self.active_handle {
            if !self.mode.owns_handle(handle) {
                self.active_handle = None;
            }
        }
        !self.suppressed_until_release && (interactive || self.is_active())
    }

    /// Start a drag on `handle` if the handle is being dragged and no drag
    /// is in flight; returns whether this call started it (the host records
    /// the press position then).
    pub fn begin_drag_if(&mut self, dragging: bool, handle: GizmoHandle) -> (started: bool)
        ensures
            started == (dragging && old(self).active_handle is None),
            final(self).active_handle == (if started {
                Some(handle)
            } else {
                old(self).active_handle
            }),
            final(self).mode == old(self).mode,
            final(self).suppressed_until_release == old(self).suppressed_until_release,
    {
        if dragging && self.active_handle.is_none() {
            self.active_handle = Some(handle);
            true
        } else {
            false
        }
    }

    /// End the drag in flight.
    pub fn end_drag(&mut self)
        ensures
            *final(self) == (GizmoDrag { active_handle: None, ..*old(self) }),
    {
        self.active_handle = None;
    }
}

} // verus!
