use editor::viewport_input::{PanStep, ViewportFrame, ViewportInputHandler, ViewportResponse};

type Vec2 = (f32, f32);
const DRAG_THRESHOLD: f32 = 5.0;
const PANEL_CENTER: Vec2 = (400.0, 300.0);

fn frame_at(pos: Vec2, pressed: bool) -> ViewportFrame<Vec2> {
    ViewportFrame {
        mouse_pos: pos,
        over_viewport: true,
        primary_pressed: pressed,
        middle_pressed: false,
        pan_modifier: false,
        add_modifier: false,
        toggle_modifier: false,
        focus_pressed: false,
        reset_pressed: false,
        scrolled: false,
        past_drag_threshold: false,
    }
}

/// The host's side: the drag distance measured from the marquee's press.
fn handle(handler: &mut ViewportInputHandler<Vec2>, mut frame: ViewportFrame<Vec2>) -> ViewportResponse<Vec2> {
    frame.past_drag_threshold = handler.selection_start().is_some_and(|s| {
        let (dx, dy) = (frame.mouse_pos.0 - s.0, frame.mouse_pos.1 - s.1);
        (dx * dx + dy * dy).sqrt() > DRAG_THRESHOLD
    });
    handler.handle_input(frame)
}

#[test]
fn test_marquee_from_screen_origin_is_real_and_a_sub_threshold_press_is_a_click() {
    let mut handler = ViewportInputHandler::new();

    // Press exactly at (0,0).
    handle(&mut handler, frame_at((0.0, 0.0), true));
    let live = handle(&mut handler, frame_at((100.0, 80.0), true));
    assert_eq!(live.marquee_active, Some(((0.0, 0.0), (100.0, 80.0))));
    let released = handle(&mut handler, frame_at((100.0, 80.0), false));
    assert_eq!(released.marquee_released, Some(((0.0, 0.0), (100.0, 80.0))));
    assert!(released.click.is_none(), "a drag is not a click");

    // 2px of jitter stays under the 5px drag threshold: a click at the
    // PRESS position, no marquee.
    handle(&mut handler, frame_at((50.0, 50.0), true));
    let jitter = handle(&mut handler, frame_at((52.0, 51.0), true));
    assert_eq!(jitter.marquee_active, None, "jitter must not start a marquee");
    let clicked = handle(&mut handler, frame_at((52.0, 51.0), false));
    assert!(clicked.click.is_some(), "a sub-threshold gesture stays a click");
    assert_eq!(clicked.click, Some((50.0, 50.0)));
    assert_eq!(clicked.marquee_released, None);
}

#[test]
fn test_cancel_marquee_kills_the_gesture_until_release() {
    let mut handler = ViewportInputHandler::new();

    handle(&mut handler, frame_at((0.0, 0.0), true));
    handle(&mut handler, frame_at((100.0, 100.0), true));

    // Escape
    handler.cancel_marquee();

    // Still holding: the cancelled gesture must not re-arm a fresh rect
    let held = handle(&mut handler, frame_at((150.0, 150.0), true));
    assert_eq!(held.marquee_active, None);

    // Release: nothing selected, nothing clicked
    let released = handle(&mut handler, frame_at((150.0, 150.0), false));
    assert_eq!(released.marquee_released, None);
    assert!(released.click.is_none());

    // A fresh press afterwards drags normally again
    handle(&mut handler, frame_at((10.0, 10.0), true));
    let fresh = handle(&mut handler, frame_at((60.0, 60.0), true));
    assert_eq!(fresh.marquee_active, Some(((10.0, 10.0), (60.0, 60.0))), "latch must clear on release");
}

#[test]
fn test_camera_shortcuts_are_requests_the_caller_consumes() {
    // (focus key, shift held, mouse over the viewport, reset key) → (focus, frame all, reset)
    let table = [
        (true, false, true, false, (true, false, false)),
        (true, true, true, false, (false, true, false)),
        (false, false, true, true, (false, false, true)),
        (true, false, false, false, (false, false, false)),
    ];
    for (focus, shift, over_viewport, reset, expected) in table {
        let mut handler = ViewportInputHandler::new();
        let mut frame = frame_at(PANEL_CENTER, false);
        frame.focus_pressed = focus;
        frame.reset_pressed = reset;
        frame.add_modifier = shift;
        frame.over_viewport = over_viewport;

        let result = handle(&mut handler, frame);

        assert_eq!(
            (result.focus_requested, result.frame_all_requested, result.reset_requested),
            expected,
            "focus={focus} shift={shift} over_viewport={over_viewport}"
        );
        assert!(!result.consumed, "requests never claim the input");
        assert_eq!(result.pan, PanStep::Idle, "and never move the camera");
    }
}

#[test]
fn middle_button_drag_pans_from_the_last_position() {
    let mut handler = ViewportInputHandler::new();
    let mut f = frame_at((100.0, 100.0), false);
    f.middle_pressed = true;
    let first = handle(&mut handler, f);
    assert_eq!(first.pan, PanStep::Start);
    assert!(first.consumed);
    assert!(handler.is_panning());
    f.mouse_pos = (130.0, 90.0);
    let second = handle(&mut handler, f);
    assert_eq!(second.pan, PanStep::Continue { from: (100.0, 100.0) });
    f.middle_pressed = false;
    let third = handle(&mut handler, f);
    assert_eq!(third.pan, PanStep::Idle);
    assert!(!handler.is_panning());
}

#[test]
fn space_with_the_primary_button_pans_instead_of_selecting() {
    let mut handler = ViewportInputHandler::new();
    let mut f = frame_at((10.0, 10.0), true);
    f.pan_modifier = true;
    let r = handle(&mut handler, f);
    assert_eq!(r.pan, PanStep::Start);
    assert!(!handler.has_pending_marquee(), "a pan never arms a marquee");
}

#[test]
fn the_wheel_zooms_and_claims_the_input() {
    let mut handler = ViewportInputHandler::new();
    let mut f = frame_at(PANEL_CENTER, false);
    f.scrolled = true;
    let r = handle(&mut handler, f);
    assert!(r.zoom && r.consumed);
}

#[test]
fn leaving_the_viewport_ends_a_live_marquee_but_keeps_a_pending_press() {
    let mut handler = ViewportInputHandler::new();
    handle(&mut handler, frame_at((0.0, 0.0), true));
    let mut away = frame_at((0.0, 0.0), true);
    away.over_viewport = false;
    handle(&mut handler, away);
    assert!(handler.has_pending_marquee(), "an unmoved press survives");
    handle(&mut handler, frame_at((100.0, 0.0), true));
    handle(&mut handler, away);
    assert!(!handler.has_pending_marquee(), "a live marquee ends");
}

#[test]
fn modifiers_are_reported_every_frame() {
    let mut handler = ViewportInputHandler::new();
    let mut f = frame_at(PANEL_CENTER, false);
    f.add_modifier = true;
    f.toggle_modifier = true;
    f.over_viewport = false;
    let r = handle(&mut handler, f);
    assert!(r.shift_held && r.ctrl_held);
}
