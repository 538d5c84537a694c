//! The scene viewport's gesture state machine: panning (middle button, or
//! Space with the primary button), wheel zoom, the marquee drag and the
//! click it becomes when it never passes the drag threshold, and the camera
//! shortcuts, which are only requests the caller consumes.
//!
//! Points (`P`) are the host's screen positions: the host measures the drag
//! distance from the press point and moves the camera; the decisions are
//! made here.

use vstd::prelude::*;

verus! {

/// One frame's input as the viewport sees it.
#[derive(Debug, Clone, Copy)]
pub struct ViewportFrame<P> {
    /// Mouse position (screen).
    pub mouse_pos: P,
    /// Whether the mouse is over the viewport.
    pub over_viewport: bool,
    /// Primary button held.
    pub primary_pressed: bool,
    /// Middle button held.
    pub middle_pressed: bool,
    /// Pan modifier (Space) held.
    pub pan_modifier: bool,
    /// Add-to-selection modifier (Shift) held.
    pub add_modifier: bool,
    /// Toggle-selection modifier (Ctrl) held.
    pub toggle_modifier: bool,
    /// The focus-selection shortcut was just pressed.
    pub focus_pressed: bool,
    /// The reset-camera shortcut was just pressed.
    pub reset_pressed: bool,
    /// The wheel moved this frame.
    pub scrolled: bool,
    /// The mouse is farther than the drag threshold from the marquee's
    /// press point.
    pub past_drag_threshold: bool,
}

/// What the camera does about a pan this frame.
#[derive(Debug, Clone, Copy, PartialEq, Eq, Structural)]
pub enum PanStep<P> {
    /// No pan.
    Idle,
    /// A pan starts at the mouse; the camera has not moved yet.
    Start,
    /// The camera moves by the mouse's travel since `from`.
    Continue { from: P },
}

/// What the viewport did with a frame's input.
#[derive(Debug, Clone, Copy)]
pub struct ViewportResponse<P> {
    /// Whether the viewport consumed this input (panning or zooming).
    pub consumed: bool,
    /// A click (a press released before the drag threshold), at its press
    /// position.
    pub click: Option<P>,
    /// Whether add-to-selection (Shift) is held.
    pub shift_held: bool,
    /// Whether toggle-selection (Ctrl) is held.
    pub ctrl_held: bool,
    /// A marquee drag live this frame: start and current point.
    pub marquee_active: Option<(P, P)>,
    /// A marquee drag completed this frame: start and end point.
    pub marquee_released: Option<(P, P)>,
    /// Focus on the selection requested (F).
    pub focus_requested: bool,
    /// Framing every entity requested (Shift+F).
    pub frame_all_requested: bool,
    /// Camera reset requested (Home).
    pub reset_requested: bool,
    /// The pan to apply.
    pub pan: PanStep<P>,
    /// Zoom around the mouse by one wheel notch.
    pub zoom: bool,
}

/// The gesture in flight.
#[derive(Debug, Clone, Copy)]
pub struct ViewportGesture<P> {
    /// Whether panning is active.
    pub panning: bool,
    /// Mouse position at the last pan step.
    pub last_pan: Option<P>,
    /// Where the marquee press started.
    pub selection_start: Option<P>,
    /// Whether the marquee has passed the drag threshold.
    pub selection_active: bool,
    /// The rest of the current mouse gesture is ignored (a cancelled
    /// marquee), until the primary button comes up.
    pub suppressed_until_release: bool,
}

/// A response that reports nothing but the held modifiers.
pub open spec fn quiet<P>(f: ViewportFrame<P>) -> ViewportResponse<P> {
    ViewportResponse {
        consumed: false,
        click: None,
        shift_held: f.add_modifier,
        ctrl_held: f.toggle_modifier,
        marquee_active: None,
        marquee_released: None,
        focus_requested: false,
        frame_all_requested: false,
        reset_requested: false,
        pan: PanStep::Idle,
        zoom: false,
    }
}

/// One frame of the viewport's gesture handling.
///
/// Off the viewport, any pan or live marquee ends (a pending press is kept)
/// and nothing else happens. Over it: the camera shortcuts are requests;
/// the middle button, or Space with the primary button, pans; the wheel
/// zooms. A cancelled gesture then stays dead until the primary button is
/// up. Otherwise the primary button without Space (and not panning) presses
/// or drags the marquee — live once past the drag threshold — and its
/// release completes the marquee, or is a click at the press point when it
/// never passed the threshold.
pub open spec fn viewport_step<P>(g: ViewportGesture<P>, f: ViewportFrame<P>) -> (ViewportGesture<P>, ViewportResponse<P>) {
    if !f.over_viewport {
        (
            ViewportGesture {
                panning: false,
                selection_start: if g.selection_active {
                    None
                } else {
                    g.selection_start
                },
                selection_active: false,
                suppressed_until_release: g.suppressed_until_release && f.primary_pressed,
                ..g
            },
            quiet(f),
        )
    } else {
        let pan_active = f.middle_pressed || (f.pan_modifier && f.primary_pressed);
        let pan = if !pan_active {
            PanStep::Idle
        } else if !g.panning {
            PanStep::Start
        } else {
            PanStep::Continue { from: g.last_pan->0 }
        };
        let panned = ViewportGesture {
            panning: pan_active,
            last_pan: if pan_active {
                Some(f.mouse_pos)
            } else {
                g.last_pan
            },
            ..g
        };
        let base = ViewportResponse {
            consumed: pan_active || f.scrolled,
            focus_requested: f.focus_pressed && !f.add_modifier,
            frame_all_requested: f.focus_pressed && f.add_modifier,
            reset_requested: f.reset_pressed,
            pan,
            zoom: f.scrolled,
            ..quiet(f)
        };
        if g.suppressed_until_release {
            (ViewportGesture { suppressed_until_release: f.primary_pressed, ..panned }, base)
        } else if f.primary_pressed && !f.pan_modifier && !panned.panning {
            let (start, active) = match g.selection_start {
                None => (f.mouse_pos, false),
                Some(s) => (s, g.selection_active || f.past_drag_threshold),
            };
            (
                ViewportGesture { selection_start: Some(start), selection_active: active, ..panned },
                ViewportResponse {
                    marquee_active: if active {
                        Some((start, f.mouse_pos))
                    } else {
                        None
                    },
                    ..base
                },
            )
        } else {
            (
                ViewportGesture { selection_start: None, selection_active: false, ..panned },
                match g.selection_start {
                    Some(s) => if g.selection_active {
                        ViewportResponse { marquee_released: Some((s, f.mouse_pos)), ..base }
                    } else {
                        ViewportResponse { click: Some(s), ..base }
                    },
                    None => base,
                },
            )
        }
    }
}

/// A pan in progress remembers where it last was.
pub open spec fn gesture_wf<P>(g: ViewportGesture<P>) -> bool {
    g.panning ==> g.last_pan is Some
}

/// Handles the viewport's navigation gestures.
#[derive(Debug, Clone)]
pub struct ViewportInputHandler<P> {
    state: ViewportGesture<P>,
}

impl<P: Copy> ViewportInputHandler<P> {
    /// The gesture in flight.
    pub closed spec fn gesture(&self) -> ViewportGesture<P> {
        self.state
    }

    /// No gesture in flight.
    pub fn new() -> (h: Self)
        ensures
            h.gesture() == (ViewportGesture::<P> {
                panning: false,
                last_pan: None,
                selection_start: None,
                selection_active: false,
                suppressed_until_release: false,
            }),
    {
        ViewportInputHandler {
            state: ViewportGesture {
                panning: false,
                last_pan: None,
                selection_start: None,
                selection_active: false,
                suppressed_until_release: false,
            },
        }
    }

    /// Where the marquee press started, while one is pending (the host
    /// measures the drag threshold from it).
    pub fn selection_start(&self) -> (start: Option<P>)
        ensures
            start == self.gesture().selection_start,
    {
        self.state.selection_start
    }

    /// Handle one frame's input.
    pub fn handle_input(&mut self, frame: ViewportFrame<P>) -> (response: ViewportResponse<P>)
        requires
            gesture_wf(old(self).gesture()),
        ensures
            gesture_wf(final(self).gesture()),
            (final(self).gesture(), response) == viewport_step(old(self).gesture(), frame),
    {
        let mut response = ViewportResponse {
            consumed: false,
            click: None,
            shift_held: frame.add_modifier,
            ctrl_held: frame.toggle_modifier,
            marquee_active: None,
            marquee_released: None,
            focus_requested: false,
            frame_all_requested: false,
            reset_requested: false,
            pan: PanStep::Idle,
            zoom: false,
        };
        if !frame.over_viewport {
            self.state.panning = false;
            if self.state.selection_active {
                self.state.selection_active = false;
                self.state.selection_start = None;
            }
            if self.state.suppressed_until_release && !frame.primary_pressed {
                self.state.suppressed_until_release = false;
            }
            return response;
        }
        if frame.focus_pressed {
            if frame.add_modifier {
                response.frame_all_requested = true;
            } else {
                response.focus_requested = true;
            }
        }
        if frame.reset_pressed {
            response.reset_requested = true;
        }
        let pan_active = frame.middle_pressed || (frame.pan_modifier && frame.primary_pressed);
        if pan_active {
            if !self.state.panning {
                self.state.panning = true;
                response.pan = PanStep::Start;
            } else {
                let from = match self.state.last_pan {
                    Some(p) => p,
                    None => frame.mouse_pos,
                };
                response.pan = PanStep::Continue { from };
            }
            self.state.last_pan = Some(frame.mouse_pos);
            response.consumed = true;
        } else {
            self.state.panning = false;
        }
        if frame.scrolled {
            response.zoom = true;
            response.consumed = true;
        }
        if self.state.suppressed_until_release {
            if !frame.primary_pressed {
                self.state.suppressed_until_release = false;
            }
            return response;
        }
        let can_select = frame.primary_pressed && !frame.pan_modifier && !self.state.panning;
        if can_select {
            match self.state.selection_start {
                None => {
                    self.state.selection_start = Some(frame.mouse_pos);
                    self.state.selection_active = false;
                },
                Some(_) => {
                    if frame.past_drag_threshold {
                        self.state.selection_active = true;
                    }
                },
            }
            if self.state.selection_active {
                if let Some(start) = self.state.selection_start {
                    response.marquee_active = Some((start, frame.mouse_pos));
                }
            }
        } else {
            if let Some(start) = self.state.selection_start {
                if self.state.selection_active {
                    response.marquee_released = Some((start, frame.mouse_pos));
                } else {
                    response.click = Some(start);
                }
            }
            self.state.selection_start = None;
            self.state.selection_active = false;
        }
        response
    }

    /// Cancel a marquee in progress (Escape): the rect disappears, nothing
    /// is selected on release, and the rest of the mouse gesture is ignored
    /// so a fresh rect can't re-arm at the cursor.
    pub fn cancel_marquee(&mut self)
        requires
            gesture_wf(old(self).gesture()),
        ensures
            gesture_wf(final(self).gesture()),
            final(self).gesture() == (ViewportGesture {
                selection_start: None,
                selection_active: false,
                suppressed_until_release: old(self).gesture().suppressed_until_release || old(
                    self,
                ).gesture().selection_start is Some,
                ..old(self).gesture()
            }),
    {
        if self.state.selection_start.is_some() {
            self.state.suppressed_until_release = true;
        }
        self.state.selection_start = None;
        self.state.selection_active = false;
    }

    /// Whether panning is active.
    pub fn is_panning(&self) -> (panning: bool)
        ensures
            panning == self.gesture().panning,
    {
        self.state.panning
    }

    /// Whether any marquee gesture is in flight — an active rect or a
    /// pressed-but-under-threshold press. Escape uses this: cancelling a
    /// pending press must suppress the click it would otherwise become.
    pub fn has_pending_marquee(&self) -> (pending: bool)
        ensures
            pending == self.gesture().selection_start is Some,
    {
        self.state.selection_start.is_some()
    }
}

impl<P: Copy> Default for ViewportInputHandler<P> {
    fn default() -> (h: Self)
        ensures
            h.gesture().selection_start is None,
            !h.gesture().panning,
            !h.gesture().suppressed_until_release,
    {
        ViewportInputHandler::new()
    }
}

/// A cancelled gesture stays dead until release: while the primary button
/// is held it yields no marquee, no release and no click, and stays
/// cancelled; the frame the button is up clears the latch.
pub proof fn lemma_cancelled_gesture_stays_dead<P>(g: ViewportGesture<P>, f: ViewportFrame<P>)
    requires
        g.suppressed_until_release,
        g.selection_start is None,
    ensures
        viewport_step(g, f).1.marquee_active is None,
        viewport_step(g, f).1.marquee_released is None,
        viewport_step(g, f).1.click is None,
        viewport_step(g, f).0.selection_start is None,
        viewport_step(g, f).0.suppressed_until_release == f.primary_pressed,
{
}

/// A press released before it passed the drag threshold is a click at the
/// press position, never a marquee.
pub proof fn lemma_short_press_is_a_click<P>(start: P, g: ViewportGesture<P>, f: ViewportFrame<P>)
    requires
        g.selection_start == Some(start),
        !g.selection_active,
        !g.suppressed_until_release,
        f.over_viewport,
        !f.primary_pressed,
    ensures
        viewport_step(g, f).1.click == Some(start),
        viewport_step(g, f).1.marquee_released is None,
        viewport_step(g, f).0.selection_start is None,
{
}

/// The camera shortcuts are requests only: they never claim the input.
pub proof fn lemma_shortcuts_never_consume<P>(g: ViewportGesture<P>, f: ViewportFrame<P>)
    requires
        !f.middle_pressed,
        !f.primary_pressed,
        !f.scrolled,
    ensures
        !viewport_step(g, f).1.consumed,
{
}

} // verus!
