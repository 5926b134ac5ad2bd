use hutch::geometry::Point;
use hutch::geometry::SubPoint;
use hutch::grabs::GrabStartData;
use hutch::grabs::MoveSurfaceGrab;
use hutch::input::AxisFrame;
use hutch::input::ButtonEvent;
use hutch::input::ButtonState;
use hutch::input::MotionDispatch;
use hutch::input::MotionEvent;
use hutch::space::Window;
use hutch::space::WindowSpace;
use hutch::state::Hutch;

const BTN_LEFT: u32 = 0x110;
const BTN_RIGHT: u32 = 0x111;

fn motion(x: i64, y: i64) -> MotionEvent {
    MotionEvent { location: SubPoint { x, y }, serial: 1, time: 1 }
}

fn press(button: u32) -> ButtonEvent {
    ButtonEvent { button, state: ButtonState::Pressed, serial: 1, time: 1 }
}

fn release(button: u32) -> ButtonEvent {
    ButtonEvent { button, state: ButtonState::Released, serial: 1, time: 1 }
}

/// Pixel coordinates to fixed-point units.
fn sub(x: i64, y: i64) -> SubPoint {
    SubPoint { x: x * 256, y: y * 256 }
}

#[test]
fn single_grab_second_press() {
    let mut h = Hutch::new();
    h.map_window(Window { id: 1, width: 100, height: 100 }, Point { x: 0, y: 0 }, true);
    h.map_window(Window { id: 2, width: 100, height: 100 }, Point { x: 200, y: 0 }, true);
    h.handle_motion(&motion(2560, 2560));
    let d1 = h.handle_button(&press(BTN_LEFT), true);
    assert!(d1.started);
    let g = h.grab;
    assert!(g.is_some());

    // A second press while the grab is active must not create a second
    // grab, even over another window and with the trigger policy set.
    h.handle_motion(&motion(210 * 256, 2560));
    let d2 = h.handle_button(&press(BTN_RIGHT), true);
    assert!(!d2.started);
    assert_eq!(h.grab, g);
}

#[test]
fn release_on_empty_first_order() {
    let mut h = Hutch::new();
    h.map_window(Window { id: 1, width: 100, height: 100 }, Point { x: 0, y: 0 }, true);
    h.handle_motion(&motion(2560, 2560));
    h.handle_button(&press(BTN_LEFT), true);
    h.handle_button(&press(BTN_RIGHT), false);
    assert!(h.grab.is_some());

    let d1 = h.handle_button(&release(BTN_LEFT), false);
    assert!(!d1.released);
    assert!(h.grab.is_some());

    let d2 = h.handle_button(&release(BTN_RIGHT), false);
    assert!(d2.released);
    assert!(h.grab.is_none());
}

#[test]
fn release_on_empty_other_order() {
    let mut h = Hutch::new();
    h.map_window(Window { id: 1, width: 100, height: 100 }, Point { x: 0, y: 0 }, true);
    h.handle_motion(&motion(2560, 2560));
    h.handle_button(&press(BTN_LEFT), true);
    h.handle_button(&press(BTN_RIGHT), false);

    let d1 = h.handle_button(&release(BTN_RIGHT), false);
    assert!(!d1.released);
    assert!(h.grab.is_some());

    let d2 = h.handle_button(&release(BTN_LEFT), false);
    assert!(d2.released);
    assert!(h.grab.is_none());
}

#[test]
fn release_of_untracked_button_keeps_grab() {
    let mut h = Hutch::new();
    h.map_window(Window { id: 1, width: 100, height: 100 }, Point { x: 0, y: 0 }, true);
    h.handle_motion(&motion(2560, 2560));
    h.handle_button(&press(BTN_LEFT), true);
    assert!(h.grab.is_some());
    // Releasing a button that was never pressed leaves the pressed set
    // nonempty, so the grab survives: release goes by cardinality.
    let d = h.handle_button(&release(BTN_RIGHT), false);
    assert!(!d.released);
    assert!(h.grab.is_some());
}

#[test]
fn motion_delta_exact() {
    // start_position (10,10), initial window position (100,100), motion
    // to (15,12): the window maps to (105,102).
    let mut space = WindowSpace::new();
    let w = Window { id: 7, width: 50, height: 50 };
    space.map(w, Point { x: 100, y: 100 }, true);
    let g = MoveSurfaceGrab {
        start_data: GrabStartData { focus: Some(7), button: BTN_LEFT, location: sub(10, 10) },
        window: w,
        initial_window_location: Point { x: 100, y: 100 },
    };
    let moved = g.motion(&mut space, sub(15, 12));
    assert_eq!(moved, Some(Point { x: 105, y: 102 }));
    assert_eq!(space.position_of(7), Some(Point { x: 105, y: 102 }));
}

#[test]
fn motion_rounds_half_away_from_zero() {
    let mut space = WindowSpace::new();
    let w = Window { id: 1, width: 10, height: 10 };
    space.map(w, Point { x: 0, y: 0 }, true);
    let g = MoveSurfaceGrab {
        start_data: GrabStartData { focus: Some(1), button: BTN_LEFT, location: sub(0, 0) },
        window: w,
        initial_window_location: Point { x: 0, y: 0 },
    };
    // Half a pixel of travel rounds up; half a pixel the other way
    // rounds down: halves go away from zero.
    let moved = g.motion(&mut space, SubPoint { x: 128, y: -128 });
    assert_eq!(moved, Some(Point { x: 1, y: -1 }));
    // Just under half a pixel rounds to zero.
    let moved = g.motion(&mut space, SubPoint { x: 127, y: -127 });
    assert_eq!(moved, Some(Point { x: 0, y: 0 }));
}

#[test]
fn stale_window_motion_is_no_op() {
    let mut space = WindowSpace::new();
    let grabbed = Window { id: 1, width: 10, height: 10 };
    let other = Window { id: 2, width: 10, height: 10 };
    space.map(grabbed, Point { x: 0, y: 0 }, true);
    space.map(other, Point { x: 50, y: 50 }, true);
    let g = MoveSurfaceGrab {
        start_data: GrabStartData { focus: Some(1), button: BTN_LEFT, location: sub(5, 5) },
        window: grabbed,
        initial_window_location: Point { x: 0, y: 0 },
    };
    // Destroy the grabbed window mid-grab, then deliver a motion event:
    // no panic, nothing re-mapped, the rest of the table untouched.
    space.unmap(1);
    let moved = g.motion(&mut space, sub(30, 30));
    assert_eq!(moved, None);
    assert_eq!(space.position_of(1), None);
    assert_eq!(space.position_of(2), Some(Point { x: 50, y: 50 }));
    assert_eq!(space.window_count(), 1);
}

#[test]
fn unmap_window_cancels_grab() {
    let mut h = Hutch::new();
    h.map_window(Window { id: 1, width: 100, height: 100 }, Point { x: 0, y: 0 }, true);
    h.handle_motion(&motion(2560, 2560));
    h.handle_button(&press(BTN_LEFT), true);
    assert!(h.grab.is_some());
    h.unmap_window(1);
    assert!(h.grab.is_none());
}

#[test]
fn axis_passes_through_unchanged() {
    let mut h = Hutch::new();
    let frame = AxisFrame { horizontal: 0, vertical: -3, time: 9 };
    assert_eq!(h.handle_axis(frame), frame);
    // The same with a grab active: a grab never intercepts axis data.
    h.map_window(Window { id: 1, width: 100, height: 100 }, Point { x: 0, y: 0 }, true);
    h.handle_motion(&motion(2560, 2560));
    h.handle_button(&press(BTN_LEFT), true);
    assert!(h.grab.is_some());
    assert_eq!(h.handle_axis(frame), frame);
}

#[test]
fn start_data_reports_the_anchor() {
    let start = GrabStartData { focus: Some(3), button: BTN_LEFT, location: sub(4, 4) };
    let g = MoveSurfaceGrab {
        start_data: start,
        window: Window { id: 3, width: 10, height: 10 },
        initial_window_location: Point { x: 1, y: 2 },
    };
    assert_eq!(*g.start_data(), start);
}

#[test]
fn press_without_window_starts_nothing() {
    let mut h = Hutch::new();
    // Nothing mapped: the press hit-tests onto no window.
    h.handle_motion(&motion(2560, 2560));
    let d = h.handle_button(&press(BTN_LEFT), true);
    assert!(!d.started);
    assert!(h.grab.is_none());
}

#[test]
fn press_without_trigger_starts_nothing() {
    let mut h = Hutch::new();
    h.map_window(Window { id: 1, width: 100, height: 100 }, Point { x: 0, y: 0 }, true);
    h.handle_motion(&motion(2560, 2560));
    // The press is not the designated move trigger.
    let d = h.handle_button(&press(BTN_LEFT), false);
    assert!(!d.started);
    assert!(h.grab.is_none());
}

#[test]
fn end_to_end_move_grab() {
    let mut h = Hutch::new();

    // A client connects.
    let client = h.accept_client();
    assert!(h.clients.is_connected(client));

    // It maps a window at the origin.
    let w = Window { id: 1, width: 100, height: 100 };
    h.map_window(w, Point { x: 0, y: 0 }, true);

    // The pointer moves to (5,5), inside the window.
    match h.handle_motion(&motion(5 * 256, 5 * 256)) {
        MotionDispatch::Forward { target } => {
            let hit = target.expect("the window is under the pointer");
            assert_eq!(hit.surface, 1);
            assert_eq!(hit.local, SubPoint { x: 5 * 256, y: 5 * 256 });
        }
        other => panic!("no grab is active yet: {other:?}"),
    }

    // A button press starts the move grab, anchored at the window's
    // current position.
    let d = h.handle_button(&press(BTN_LEFT), true);
    assert!(d.started);
    let g = h.grab.expect("the press installed a grab");
    assert_eq!(g.initial_window_location, Point { x: 0, y: 0 });

    // Dragging the pointer 20 pixels right moves the window to (20,0).
    match h.handle_motion(&motion(25 * 256, 5 * 256)) {
        MotionDispatch::Grabbed { moved } => {
            assert_eq!(moved, Some(Point { x: 20, y: 0 }));
        }
        other => panic!("the grab intercepts motion: {other:?}"),
    }
    assert_eq!(h.space.position_of(1), Some(Point { x: 20, y: 0 }));

    // Releasing the only pressed button terminates the grab.
    let d = h.handle_button(&release(BTN_LEFT), false);
    assert!(d.released);
    assert!(h.grab.is_none());

    // Subsequent motion no longer moves the window.
    match h.handle_motion(&motion(40 * 256, 5 * 256)) {
        MotionDispatch::Forward { .. } => {}
        other => panic!("the grab is gone: {other:?}"),
    }
    assert_eq!(h.space.position_of(1), Some(Point { x: 20, y: 0 }));
}
