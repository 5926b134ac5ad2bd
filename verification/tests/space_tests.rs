use hutch::geometry::COORD_LIMIT;
use hutch::geometry::Point;
use hutch::geometry::SubPoint;
use hutch::grabs::GrabStartData;
use hutch::grabs::MoveSurfaceGrab;
use hutch::space::Window;
use hutch::space::WindowSpace;

fn sub(x: i64, y: i64) -> SubPoint {
    SubPoint { x: x * 256, y: y * 256 }
}

#[test]
fn hit_test_topmost() {
    let mut space = WindowSpace::new();
    let w1 = Window { id: 1, width: 100, height: 100 };
    let w2 = Window { id: 2, width: 100, height: 100 };
    space.map(w1, Point { x: 0, y: 0 }, true);
    // W2 overlaps W1 and is raised above it.
    space.map(w2, Point { x: 50, y: 50 }, true);

    // Both windows cover (60,60); the raised one wins.
    let hit = space.surface_under(sub(60, 60)).expect("a window covers the point");
    assert_eq!(hit.surface, 2);
    assert_eq!(hit.local, sub(10, 10));

    // A point only W1 covers still resolves to W1.
    let hit = space.surface_under(sub(10, 10)).expect("a window covers the point");
    assert_eq!(hit.surface, 1);
    assert_eq!(hit.local, sub(10, 10));
}

#[test]
fn hit_test_raise_changes_topmost() {
    let mut space = WindowSpace::new();
    let w1 = Window { id: 1, width: 100, height: 100 };
    let w2 = Window { id: 2, width: 100, height: 100 };
    space.map(w1, Point { x: 0, y: 0 }, true);
    space.map(w2, Point { x: 50, y: 50 }, true);
    // Raising W1 back to the top shadows W2 on the overlap.
    space.map(w1, Point { x: 0, y: 0 }, true);
    let hit = space.surface_under(sub(60, 60)).expect("a window covers the point");
    assert_eq!(hit.surface, 1);
}

#[test]
fn hit_test_empty_and_miss() {
    let mut space = WindowSpace::new();
    assert_eq!(space.surface_under(sub(5, 5)), None);
    space.map(Window { id: 1, width: 10, height: 10 }, Point { x: 0, y: 0 }, true);
    // Just outside the right edge: the extent is half-open.
    assert_eq!(space.surface_under(sub(10, 5)), None);
    // The top-left corner is inside.
    assert!(space.surface_under(sub(0, 0)).is_some());
}

#[test]
fn map_is_idempotent() {
    let mut space = WindowSpace::new();
    let w1 = Window { id: 1, width: 100, height: 100 };
    let w2 = Window { id: 2, width: 100, height: 100 };
    space.map(w1, Point { x: 0, y: 0 }, true);
    space.map(w2, Point { x: 50, y: 50 }, true);

    // Mapping W2 again with identical arguments changes nothing
    // observable: no duplicate entry, no position change, no further
    // stacking change.
    space.map(w2, Point { x: 50, y: 50 }, true);
    assert_eq!(space.window_count(), 2);
    assert_eq!(space.position_of(2), Some(Point { x: 50, y: 50 }));
    assert_eq!(space.surface_under(sub(60, 60)).unwrap().surface, 2);
    assert_eq!(space.surface_under(sub(10, 10)).unwrap().surface, 1);
}

#[test]
fn map_without_activate_keeps_stacking() {
    let mut space = WindowSpace::new();
    let w1 = Window { id: 1, width: 100, height: 100 };
    let w2 = Window { id: 2, width: 100, height: 100 };
    space.map(w1, Point { x: 0, y: 0 }, true);
    space.map(w2, Point { x: 50, y: 50 }, true);
    // Moving the lower window without activating leaves it below.
    space.map(w1, Point { x: 10, y: 10 }, false);
    assert_eq!(space.position_of(1), Some(Point { x: 10, y: 10 }));
    assert_eq!(space.surface_under(sub(60, 60)).unwrap().surface, 2);
}

#[test]
fn unmap_removes_only_that_window() {
    let mut space = WindowSpace::new();
    space.map(Window { id: 1, width: 10, height: 10 }, Point { x: 0, y: 0 }, true);
    space.map(Window { id: 2, width: 10, height: 10 }, Point { x: 20, y: 0 }, true);
    space.unmap(1);
    assert_eq!(space.window_count(), 1);
    assert_eq!(space.position_of(1), None);
    assert_eq!(space.position_of(2), Some(Point { x: 20, y: 0 }));
    assert!(!space.contains_window(1));
    assert!(space.contains_window(2));
    // Unmapping an absent identity is a normal empty result.
    space.unmap(1);
    assert_eq!(space.window_count(), 1);
}

#[test]
fn remap_moves_and_tolerates_stale_ids() {
    let mut space = WindowSpace::new();
    space.map(Window { id: 1, width: 10, height: 10 }, Point { x: 0, y: 0 }, true);
    space.remap(1, Point { x: 5, y: 6 }, true);
    assert_eq!(space.position_of(1), Some(Point { x: 5, y: 6 }));
    // A stale identity changes nothing and inserts nothing.
    space.remap(9, Point { x: 7, y: 8 }, true);
    assert_eq!(space.window_count(), 1);
    assert_eq!(space.position_of(9), None);
}

#[test]
fn motion_target_saturates_at_the_coordinate_limit() {
    let mut space = WindowSpace::new();
    let w = Window { id: 1, width: 10, height: 10 };
    space.map(w, Point { x: COORD_LIMIT, y: 0 }, true);
    let g = MoveSurfaceGrab {
        start_data: GrabStartData {
            focus: Some(1),
            button: 0x110,
            location: SubPoint { x: 0, y: 0 },
        },
        window: w,
        initial_window_location: Point { x: COORD_LIMIT, y: 0 },
    };
    // Dragging further right than the representable range saturates.
    let moved = g.motion(&mut space, SubPoint { x: COORD_LIMIT * 256, y: 0 });
    assert_eq!(moved, Some(Point { x: COORD_LIMIT, y: 0 }));
}

#[test]
fn checked_constructors_reject_out_of_range() {
    assert_eq!(Point::checked(0, 0), Some(Point { x: 0, y: 0 }));
    assert_eq!(Point::checked(COORD_LIMIT, -COORD_LIMIT), Some(Point {
        x: COORD_LIMIT,
        y: -COORD_LIMIT,
    }));
    assert_eq!(Point::checked(COORD_LIMIT + 1, 0), None);
    assert_eq!(SubPoint::checked(COORD_LIMIT * 256, 0), Some(SubPoint {
        x: COORD_LIMIT * 256,
        y: 0,
    }));
    assert_eq!(SubPoint::checked(0, -(COORD_LIMIT * 256) - 1), None);
}
