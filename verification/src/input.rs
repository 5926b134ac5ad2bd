use vstd::prelude::*;

use crate::geometry::Point;
use crate::geometry::SubPoint;
use crate::space::Hit;

verus! {

/// Whether a button event reports the button going down or up.
#[derive(Clone, Copy, PartialEq, Eq, Structural, Debug)]
pub enum ButtonState {
    Pressed,
    Released,
}

/// A pointer motion event: the new absolute pointer position in
/// fixed-point units.
#[derive(Clone, Copy, PartialEq, Eq, Structural, Debug)]
pub struct MotionEvent {
    pub location: SubPoint,
    pub serial: u32,
    pub time: u32,
}

/// A pointer button event. The button is the raw device-level code of the
/// host input subsystem, not a symbolic name.
#[derive(Clone, Copy, PartialEq, Eq, Structural, Debug)]
pub struct ButtonEvent {
    pub button: u32,
    pub state: ButtonState,
    pub serial: u32,
    pub time: u32,
}

/// A scroll frame. A grab never interprets axis data; frames are always
/// forwarded verbatim.
#[derive(Clone, Copy, PartialEq, Eq, Structural, Debug)]
pub struct AxisFrame {
    pub horizontal: i32,
    pub vertical: i32,
    pub time: u32,
}

/// How a motion event was routed.
#[derive(Clone, Copy, PartialEq, Eq, Structural, Debug)]
pub enum MotionDispatch {
    /// An active grab consumed the event: the grabbed window was moved to
    /// the given position, or the window was gone and nothing changed.
    Grabbed { moved: Option<Point> },
    /// No grab is active: deliver the motion to the surface under the
    /// pointer, given with the position in surface-local coordinates.
    Forward { target: Option<Hit> },
}

/// What the caller must do with a button event. The raw event is always
/// forwarded — first, before any grab release takes effect — so the
/// client-visible event stream is never starved by the release decision.
#[derive(Clone, Copy, PartialEq, Eq, Structural, Debug)]
pub struct ButtonDispatch {
    /// The raw event to forward to the pointer-event sink.
    pub forward: ButtonEvent,
    /// A move grab was installed by this press.
    pub started: bool,
    /// The active grab ended with this release.
    pub released: bool,
}

} // verus!
