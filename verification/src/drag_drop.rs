//! Cross-panel drag-and-drop state for the editor.
//!
//! One drag can be in flight at a time. Sources arm a payload on mouse
//! press; the state machine promotes it to a drag once the mouse has
//! travelled the drag threshold from the press point, and to a one-frame
//! `Dropped` state on release. Drop targets consume the drop — the first
//! target whose bounds hold the drop position wins; unclaimed drops expire
//! after one frame.
//!
//! Positions (`P`) are the host's floating-point points: the host measures
//! the distance from the press point and tests a target's bounds, and hands
//! the answers in.

use vstd::prelude::*;

verus! {

/// What is being dragged.
#[derive(Debug, Clone, PartialEq)]
pub enum DragPayload {
    /// A texture from the asset browser. `path` is the asset-relative path
    /// (used for labels and status messages); `handle` is the loaded
    /// renderer texture id.
    Texture { handle: u32, path: String },
    /// A script asset from the asset browser (asset-relative path).
    Script { path: String },
}

/// Where a drag is.
#[derive(Debug)]
pub enum DragState<P> {
    Idle,
    /// Mouse pressed on a source; not yet moved past the threshold.
    Armed { payload: DragPayload, press_pos: P },
    /// Actively dragging.
    Dragging { payload: DragPayload },
    /// Released this frame at `pos`; consumable by a target for ONE frame.
    Dropped { payload: DragPayload, pos: P },
}

/// One frame's step: an armed payload released before the threshold was a
/// plain click; one moved past it becomes a drag. A drag ends in a drop at
/// the mouse — on release, or when the button is found up (a release
/// missed while unfocused). A drop nobody took expires.
pub open spec fn next_state<P>(s: DragState<P>, mouse_pos: P, mouse_down: bool, just_released: bool, past_threshold: bool) -> DragState<P> {
    match s {
        DragState::Idle => DragState::Idle,
        DragState::Armed { payload, press_pos } => if just_released || !mouse_down {
            DragState::Idle
        } else if past_threshold {
            DragState::Dragging { payload }
        } else {
            DragState::Armed { payload, press_pos }
        },
        DragState::Dragging { payload } => if just_released || !mouse_down {
            DragState::Dropped { payload, pos: mouse_pos }
        } else {
            DragState::Dragging { payload }
        },
        DragState::Dropped { .. } => DragState::Idle,
    }
}

/// A drop target asking for the drop: a drop that landed inside it
/// (`inside`) is handed over, payload and position, and the state goes
/// idle; anything else is left as it is and nothing is handed over.
pub open spec fn take_step<P>(s: DragState<P>, inside: bool) -> (DragState<P>, Option<(DragPayload, P)>) {
    match s {
        DragState::Dropped { payload, pos } => if inside {
            (DragState::Idle, Some((payload, pos)))
        } else {
            (s, None)
        },
        _ => (s, None),
    }
}

/// Whether click handlers ignore this frame's click: while dragging, and
/// on the whole frame a drag was released in — whether or not a target has
/// taken the drop since — so a drop never doubles as a click-select
/// underneath the cursor.
pub open spec fn suppressing<P>(s: DragState<P>, release_frame: bool) -> bool {
    s is Dragging || s is Dropped || release_frame
}

/// Editor-wide drag-and-drop coordinator.
#[derive(Debug)]
pub struct DragDropState<P> {
    state: DragState<P>,
    /// This frame is the one a drag was released in; kept when a target
    /// takes the drop, cleared by the next frame's step.
    release_frame: bool,
}

impl<P: Copy> DragDropState<P> {
    /// The drag's state.
    pub closed spec fn state_spec(&self) -> DragState<P> {
        self.state
    }

    /// Whether this frame is the one a drag was released in.
    pub closed spec fn released_spec(&self) -> bool {
        self.release_frame
    }

    /// A new idle drag-drop state.
    pub fn new() -> (d: Self)
        ensures
            d.state_spec() is Idle,
            !d.released_spec(),
    {
        DragDropState { state: DragState::Idle, release_frame: false }
    }

    /// Advance the state machine. Call ONCE per frame, before panels
    /// render. `past_threshold`: the mouse is at least the drag threshold
    /// away from the armed press point.
    pub fn begin_frame(&mut self, mouse_pos: P, mouse_down: bool, mouse_just_released: bool, past_threshold: bool)
        ensures
            final(self).state_spec() == next_state(
                old(self).state_spec(),
                mouse_pos,
                mouse_down,
                mouse_just_released,
                past_threshold,
            ),
            final(self).released_spec() == final(self).state_spec() is Dropped,
    {
        let mut current = DragState::Idle;
        std::mem::swap(&mut self.state, &mut current);
        self.state = match current {
            DragState::Idle => DragState::Idle,
            DragState::Armed { payload, press_pos } => {
                if mouse_just_released || !mouse_down {
                    DragState::Idle
                } else if past_threshold {
                    DragState::Dragging { payload }
                } else {
                    DragState::Armed { payload, press_pos }
                }
            },
            DragState::Dragging { payload } => {
                if mouse_just_released || !mouse_down {
                    DragState::Dropped { payload, pos: mouse_pos }
                } else {
                    DragState::Dragging { payload }
                }
            },
            DragState::Dropped { .. } => DragState::Idle,
        };
        self.release_frame = matches!(self.state, DragState::Dropped { .. });
    }

    /// Where the armed payload was pressed, while one is armed (the host
    /// measures the threshold from it).
    pub fn armed_press_pos(&self) -> (pos: Option<P>)
        ensures
            pos == (match self.state_spec() {
                DragState::Armed { press_pos, .. } => Some(press_pos),
                _ => None,
            }),
    {
        match &self.state {
            DragState::Armed { press_pos, .. } => Some(*press_pos),
            _ => None,
        }
    }

    /// Arm a drag from a source widget on mouse press. Ignored unless idle.
    pub fn arm(&mut self, payload: DragPayload, press_pos: P)
        ensures
            final(self).state_spec() == (if old(self).state_spec() is Idle {
                DragState::Armed { payload, press_pos }
            } else {
                old(self).state_spec()
            }),
            final(self).released_spec() == old(self).released_spec(),
    {
        if matches!(self.state, DragState::Idle) {
            self.state = DragState::Armed { payload, press_pos };
        }
    }

    /// The payload being dragged (for ghost rendering and drop-target hover
    /// highlights); nothing unless dragging.
    pub fn dragging_payload(&self) -> (payload: Option<&DragPayload>)
        ensures
            match self.state_spec() {
                DragState::Dragging { payload: p } => payload == Some(&p),
                _ => payload is None,
            },
    {
        match &self.state {
            DragState::Dragging { payload } => Some(payload),
            _ => None,
        }
    }

    /// Where this frame's drop landed, while one waits to be taken.
    pub fn drop_position(&self) -> (pos: Option<P>)
        ensures
            pos == (match self.state_spec() {
                DragState::Dropped { pos, .. } => Some(pos),
                _ => None,
            }),
    {
        match &self.state {
            DragState::Dropped { pos, .. } => Some(*pos),
            _ => None,
        }
    }

    /// Consume the drop when it landed inside the asking target's bounds
    /// (`inside`). First caller wins: the drop is gone afterwards.
    pub fn take_drop_if(&mut self, inside: bool) -> (taken: Option<(DragPayload, P)>)
        ensures
            (final(self).state_spec(), taken) == take_step(old(self).state_spec(), inside),
            final(self).released_spec() == old(self).released_spec(),
    {
        if inside && matches!(self.state, DragState::Dropped { .. }) {
            let mut current = DragState::Idle;
            std::mem::swap(&mut self.state, &mut current);
            match current {
                DragState::Dropped { payload, pos } => Some((payload, pos)),
                other => {
                    self.state = other;
                    None
                },
            }
        } else {
            None
        }
    }

    /// Whether click handlers should ignore this frame's click: true while
    /// dragging and on the whole release frame — also after a target has
    /// taken the drop — so a drop never doubles as a click-select
    /// underneath the cursor.
    pub fn suppresses_click(&self) -> (suppress: bool)
        ensures
            suppress == suppressing(self.state_spec(), self.released_spec()),
    {
        self.release_frame || matches!(self.state, DragState::Dragging { .. } | DragState::Dropped { .. })
    }
}

impl<P: Copy> Default for DragDropState<P> {
    fn default() -> (d: Self)
        ensures
            d.state_spec() is Idle,
            !d.released_spec(),
    {
        DragDropState::new()
    }
}

/// A drop is consumed once: after one target has taken it, no other
/// target gets anything, wherever its bounds are.
pub proof fn lemma_drop_taken_once<P>(s: DragState<P>, first_inside: bool, second_inside: bool)
    requires
        take_step(s, first_inside).1 is Some,
    ensures
        take_step(take_step(s, first_inside).0, second_inside).1 is None,
{
}

/// A drop never doubles as a click: on the frame a drag is released, click
/// handlers stay suppressed however many targets ask for the drop, and
/// whether one took it; the next frame's step lifts the suppression once
/// no drag is in flight.
pub proof fn lemma_release_frame_suppresses_clicks<P>(
    s: DragState<P>,
    mouse_pos: P,
    down: bool,
    released: bool,
    past: bool,
    first_inside: bool,
    second_inside: bool,
    next_mouse: P,
)
    requires
        s is Dragging,
        released || !down,
    ensures
        ({
            let dropped = next_state(s, mouse_pos, down, released, past);
            let after_takes = take_step(take_step(dropped, first_inside).0, second_inside).0;
            &&& dropped is Dropped
            &&& suppressing(dropped, true)
            &&& suppressing(take_step(dropped, first_inside).0, true)
            &&& suppressing(after_takes, true)
            &&& !suppressing(next_state(after_takes, next_mouse, false, false, false), false)
        }),
{
}

/// A drop nobody takes is gone after one more frame, whatever the mouse
/// does: it never lingers to be taken later.
pub proof fn lemma_unclaimed_drop_expires<P>(payload: DragPayload, pos: P, mouse_pos: P, down: bool, released: bool, past: bool)
    ensures
        next_state(DragState::Dropped { payload, pos }, mouse_pos, down, released, past) is Idle,
{
}

/// A release before the threshold is a click: the armed payload never
/// becomes a drag or a drop.
pub proof fn lemma_release_before_threshold_is_a_click<P>(payload: DragPayload, press_pos: P, mouse_pos: P, down: bool, past: bool)
    ensures
        next_state(DragState::Armed { payload, press_pos }, mouse_pos, down, true, past) is Idle,
{
}

} // verus!
