use vstd::prelude::*;

use crate::geometry::Point;
use crate::geometry::SubPoint;
use crate::geometry::SUBPIXEL;
use crate::geometry::clamp_coord;
use crate::geometry::clamp_spec;
use crate::geometry::round_near;
use crate::geometry::round_to_coord;
use crate::geometry::valid_point;
use crate::geometry::valid_sub_point;
use crate::input::AxisFrame;
use crate::input::ButtonEvent;
use crate::space::WindowSpace;
use crate::space::Window;
use crate::space::contains_id;
use crate::space::remap_spec;

verus! {

/// What the pointer looked like the instant the grab began: the surface
/// under it, the button that started the interaction, and the pointer
/// position in fixed-point units.
#[derive(Clone, Copy, PartialEq, Eq, Structural, Debug)]
pub struct GrabStartData {
    pub focus: Option<u64>,
    pub button: u32,
    pub location: SubPoint,
}

/// The active "move window" operation: a value-typed record holding the
/// anchor position, a non-owning copy of the window handle, and the
/// window's position when the interaction began. The handle is
/// revalidated against the placement table on every access, so the grab
/// tolerates its window being destroyed while it is active.
#[derive(Clone, Copy, PartialEq, Eq, Structural, Debug)]
pub struct MoveSurfaceGrab {
    pub start_data: GrabStartData,
    pub window: Window,
    pub initial_window_location: Point,
}

/// What the caller must do with a button event seen by an active grab:
/// forward the raw event first, then — only if no button is left
/// pressed — release the grab.
#[derive(Clone, Copy, PartialEq, Eq, Structural, Debug)]
pub struct GrabButtonDecision {
    pub forward: ButtonEvent,
    pub release: bool,
}

impl MoveSurfaceGrab {
    pub open spec fn wf(&self) -> bool {
        valid_sub_point(self.start_data.location) && valid_point(self.initial_window_location)
    }

    /// Where a motion to `location` puts the grabbed window: the initial
    /// window position plus the pointer's travel since the grab began,
    /// rounded to the nearest pixel and saturated into the representable
    /// coordinate range.
    pub open spec fn target_x(&self, location: SubPoint) -> int {
        clamp_spec(
            round_near(
                self.initial_window_location.x * SUBPIXEL + (location.x
                    - self.start_data.location.x),
            ),
        )
    }

    pub open spec fn target_y(&self, location: SubPoint) -> int {
        clamp_spec(
            round_near(
                self.initial_window_location.y * SUBPIXEL + (location.y
                    - self.start_data.location.y),
            ),
        )
    }

    pub open spec fn motion_target(&self, location: SubPoint) -> Point {
        Point { x: self.target_x(location) as i64, y: self.target_y(location) as i64 }
    }

    /// Reinterpret a motion event as "move me": re-map the grabbed window
    /// to the anchored position plus the pointer delta, and report where
    /// it went. If the window no longer resolves in the placement table
    /// the event is a no-op — the stale handle is skipped, never acted on.
    pub fn motion(&self, space: &mut WindowSpace, location: SubPoint) -> (moved: Option<Point>)
        requires
            self.wf(),
            old(space).wf(),
            valid_sub_point(location),
        ensures
            final(space).wf(),
            final(space)@ == remap_spec(
                old(space)@,
                self.window.id,
                self.motion_target(location),
                true,
            ),
            !contains_id(old(space)@, self.window.id) ==> final(space)@ == old(space)@,
            moved == (if contains_id(old(space)@, self.window.id) {
                Some(self.motion_target(location))
            } else {
                None::<Point>
            }),
    {
        let dx = location.x - self.start_data.location.x;
        let dy = location.y - self.start_data.location.y;
        let fx = self.initial_window_location.x * SUBPIXEL + dx;
        let fy = self.initial_window_location.y * SUBPIXEL + dy;
        let tx = clamp_coord(round_to_coord(fx));
        let ty = clamp_coord(round_to_coord(fy));
        let target = Point { x: tx, y: ty };
        let present = space.contains_window(self.window.id);
        space.remap(self.window.id, target, true);
        if present {
            Some(target)
        } else {
            None
        }
    }

    /// Decide what a button event means while this grab is active: the raw
    /// event is forwarded unconditionally (and first, so clients still
    /// observe button state), and the grab is to be released exactly when
    /// the tracked pressed-button set has become empty.
    pub fn button(&self, event: &ButtonEvent, no_buttons_pressed: bool) -> (d: GrabButtonDecision)
        ensures
            d.forward == *event,
            d.release == no_buttons_pressed,
    {
        GrabButtonDecision { forward: *event, release: no_buttons_pressed }
    }

    /// A grab never intercepts axis data: the frame passes through
    /// unchanged.
    pub fn axis(&self, details: AxisFrame) -> (r: AxisFrame)
        ensures
            r == details,
    {
        details
    }

    pub fn start_data(&self) -> (r: &GrabStartData)
        ensures
            *r == self.start_data,
    {
        &self.start_data
    }
}

} // verus!
