use vstd::prelude::*;

use crate::geometry::Point;
use crate::geometry::SubPoint;
use crate::geometry::valid_point;
use crate::geometry::valid_sub_point;
use crate::grabs::GrabStartData;
use crate::grabs::MoveSurfaceGrab;
use crate::input::AxisFrame;
use crate::input::ButtonDispatch;
use crate::input::ButtonEvent;
use crate::input::ButtonState;
use crate::input::MotionDispatch;
use crate::input::MotionEvent;
use crate::seat::Seat;
use crate::session::ClientRegistry;
use crate::space::Hit;
use crate::space::Mapped;
use crate::space::Window;
use crate::space::WindowSpace;
use crate::space::contains_id;
use crate::space::hit_result;
use crate::space::hit_spec;
use crate::space::lemma_hit_spec_is_element;
use crate::space::map_spec;
use crate::space::remap_spec;
use crate::space::unmap_spec;

verus! {

/// Which readiness source woke the reactor.
#[derive(Clone, Copy, PartialEq, Eq, Structural, Debug)]
pub enum Readiness {
    /// The listening socket has a pending connection.
    Listener,
    /// The protocol dispatch descriptor has buffered client requests.
    Dispatch,
}

/// What the reactor must do for a readiness event.
#[derive(Clone, Copy, PartialEq, Eq, Structural, Debug)]
pub enum ReactorAction {
    AcceptClient,
    DispatchClients,
    /// The stop signal was raised; the loop terminates.
    Stopped,
}

/// How a round of protocol dispatch ended, as reported by the protocol
/// layer.
#[derive(Clone, Copy, PartialEq, Eq, Structural, Debug)]
pub enum DispatchOutcome {
    /// All buffered requests were processed.
    Dispatched,
    /// The connection to the display backend itself is lost: unrecoverable.
    BackendLost,
    /// A single client misbehaved: logged and dropped, the loop goes on.
    ClientError,
}

/// The grab installed by a button press: an active grab is never
/// replaced, and a press starts one only when the caller's policy says
/// the press is the move trigger and the press hit-tests onto a window.
pub open spec fn grab_after_press(
    grab: Option<MoveSurfaceGrab>,
    s: Seq<Mapped>,
    pointer: SubPoint,
    button: u32,
    start_move: bool,
) -> Option<MoveSurfaceGrab> {
    match grab {
        Some(g) => Some(g),
        None => if start_move {
            match hit_spec(s, pointer) {
                Some(e) => Some(
                    MoveSurfaceGrab {
                        start_data: GrabStartData {
                            focus: Some(e.window.id),
                            button,
                            location: pointer,
                        },
                        window: e.window,
                        initial_window_location: e.pos,
                    },
                ),
                None => None,
            }
        } else {
            None
        },
    }
}

/// The grab left after a button release: it survives exactly while some
/// tracked button is still down — release is decided by cardinality, not
/// by which button went up.
pub open spec fn grab_after_release(
    grab: Option<MoveSurfaceGrab>,
    buttons_after: Set<u32>,
) -> Option<MoveSurfaceGrab> {
    if buttons_after.is_empty() {
        None
    } else {
        grab
    }
}

/// The whole single-threaded compositor core: every field is mutated only
/// through the handlers below, serialized by the reactor's dispatch order.
pub struct Hutch {
    /// The authoritative cursor position, in fixed-point units.
    pub pointer_location: SubPoint,
    /// Window placement and stacking.
    pub space: WindowSpace,
    /// Pressed-button and key bookkeeping, keyboard focus.
    pub seat: Seat,
    /// The active interactive operation, if any. At most one exists at a
    /// time; a new one is never installed over an active one.
    pub grab: Option<MoveSurfaceGrab>,
    /// Connected-client bookkeeping.
    pub clients: ClientRegistry,
    /// Cleared by the stop signal; the reactor loop runs while it holds.
    pub running: bool,
}

impl Hutch {
    pub open spec fn wf(&self) -> bool {
        &&& valid_sub_point(self.pointer_location)
        &&& self.space.wf()
        &&& self.seat.wf()
        &&& self.clients.wf()
        &&& match self.grab {
            Some(g) => g.wf(),
            None => true,
        }
    }

    /// A fresh compositor: pointer at the origin, nothing mapped, no
    /// buttons down, no grab, no clients, loop running.
    pub fn new() -> (r: Hutch)
        ensures
            r.wf(),
            r.pointer_location == (SubPoint { x: 0, y: 0 }),
            r.space@ == Seq::<Mapped>::empty(),
            r.seat.buttons() == Set::<u32>::empty(),
            r.seat.held_keys() == Set::<u32>::empty(),
            r.seat.focus() is None,
            r.grab is None,
            r.clients.ids() == Set::<u64>::empty(),
            r.running,
    {
        Hutch {
            pointer_location: SubPoint { x: 0, y: 0 },
            space: WindowSpace::new(),
            seat: Seat::new(),
            grab: None,
            clients: ClientRegistry::new(),
            running: true,
        }
    }

    /// The topmost surface under the cursor, with the cursor position in
    /// that surface's local coordinates.
    pub fn surface_under_pointer(&self) -> (r: Option<Hit>)
        requires
            self.wf(),
        ensures
            r == hit_result(self.space@, self.pointer_location),
    {
        self.space.surface_under(self.pointer_location)
    }

    /// Insert or update a window's placement (see `WindowSpace::map`);
    /// nothing else changes.
    pub fn map_window(&mut self, window: Window, pos: Point, activate: bool)
        requires
            old(self).wf(),
            valid_point(pos),
        ensures
            final(self).wf(),
            final(self).space@ == map_spec(old(self).space@, window, pos, activate),
            final(self).pointer_location == old(self).pointer_location,
            final(self).seat == old(self).seat,
            final(self).grab == old(self).grab,
            final(self).clients == old(self).clients,
            final(self).running == old(self).running,
    {
        self.space.map(window, pos, activate);
    }

    /// Remove a window. A grab bound to it is cancelled here and now:
    /// rather than leaving a logically dead grab to expire lazily on the
    /// next release, destroying the grabbed window tears the grab down.
    pub fn unmap_window(&mut self, id: u64)
        requires
            old(self).wf(),
        ensures
            final(self).wf(),
            final(self).space@ == unmap_spec(old(self).space@, id),
            final(self).grab == (match old(self).grab {
                Some(g) => if g.window.id == id {
                    None
                } else {
                    Some(g)
                },
                None => None::<MoveSurfaceGrab>,
            }),
            final(self).pointer_location == old(self).pointer_location,
            final(self).seat == old(self).seat,
            final(self).clients == old(self).clients,
            final(self).running == old(self).running,
    {
        self.space.unmap(id);
        let cancel = match &self.grab {
            Some(g) => g.window.id == id,
            None => false,
        };
        if cancel {
            self.grab = None;
        }
    }

    /// Route a motion event: the cursor moves; an active grab reinterprets
    /// the motion as "move my window" (a stale window is skipped and the
    /// table left unchanged), and without a grab the motion is delivered
    /// to the surface under the new cursor position.
    pub fn handle_motion(&mut self, event: &MotionEvent) -> (d: MotionDispatch)
        requires
            old(self).wf(),
            valid_sub_point(event.location),
        ensures
            final(self).wf(),
            final(self).pointer_location == event.location,
            final(self).seat == old(self).seat,
            final(self).grab == old(self).grab,
            final(self).clients == old(self).clients,
            final(self).running == old(self).running,
            match old(self).grab {
                Some(g) => {
                    &&& final(self).space@ == remap_spec(
                        old(self).space@,
                        g.window.id,
                        g.motion_target(event.location),
                        true,
                    )
                    &&& d == (MotionDispatch::Grabbed {
                        moved: if contains_id(old(self).space@, g.window.id) {
                            Some(g.motion_target(event.location))
                        } else {
                            None::<Point>
                        },
                    })
                },
                None => {
                    &&& final(self).space@ == old(self).space@
                    &&& d == (MotionDispatch::Forward {
                        target: hit_result(old(self).space@, event.location),
                    })
                },
            },
    {
        self.pointer_location = event.location;
        let g_opt = self.grab;
        match g_opt {
            Some(g) => {
                let moved = g.motion(&mut self.space, event.location);
                MotionDispatch::Grabbed { moved }
            },
            None => {
                let target = self.space.surface_under(event.location);
                MotionDispatch::Forward { target }
            },
        }
    }

    /// Route a button event. The raw event is always forwarded (first).
    /// A press updates the pressed set and may install a move grab — never
    /// over an active one; `start_move` is the caller's policy decision
    /// that this press is the move trigger. A release updates the pressed
    /// set and releases the active grab exactly when no tracked button is
    /// left down.
    pub fn handle_button(&mut self, event: &ButtonEvent, start_move: bool) -> (d: ButtonDispatch)
        requires
            old(self).wf(),
        ensures
            final(self).wf(),
            final(self).pointer_location == old(self).pointer_location,
            final(self).space@ == old(self).space@,
            final(self).clients == old(self).clients,
            final(self).running == old(self).running,
            final(self).seat.held_keys() == old(self).seat.held_keys(),
            final(self).seat.focus() == old(self).seat.focus(),
            d.forward == *event,
            event.state is Pressed ==> {
                &&& final(self).seat.buttons() == old(self).seat.buttons().insert(event.button)
                &&& final(self).grab == grab_after_press(
                    old(self).grab,
                    old(self).space@,
                    old(self).pointer_location,
                    event.button,
                    start_move,
                )
                &&& !d.released
                &&& (d.started <==> (old(self).grab is None && final(self).grab is Some))
            },
            event.state is Released ==> {
                &&& final(self).seat.buttons() == old(self).seat.buttons().remove(event.button)
                &&& final(self).grab == grab_after_release(
                    old(self).grab,
                    old(self).seat.buttons().remove(event.button),
                )
                &&& !d.started
                &&& (d.released <==> (old(self).grab is Some && final(self).grab is None))
            },
            old(self).grab is Some ==> final(self).grab == old(self).grab
                || final(self).grab is None,
    {
        match event.state {
            ButtonState::Pressed => {
                self.seat.press_button(event.button);
                let mut started = false;
                let no_grab = match &self.grab {
                    Some(_) => false,
                    None => true,
                };
                if start_move && no_grab {
                    match self.space.window_under(self.pointer_location) {
                        Some(e) => {
                            proof {
                                lemma_hit_spec_is_element(self.space@, self.pointer_location);
                            }
                            let g = MoveSurfaceGrab {
                                start_data: GrabStartData {
                                    focus: Some(e.window.id),
                                    button: event.button,
                                    location: self.pointer_location,
                                },
                                window: e.window,
                                initial_window_location: e.pos,
                            };
                            self.grab = Some(g);
                            started = true;
                        },
                        None => {},
                    }
                }
                ButtonDispatch { forward: *event, started, released: false }
            },
            ButtonState::Released => {
                self.seat.release_button(event.button);
                let empty = self.seat.no_buttons_pressed();
                let mut released = false;
                let g_opt = self.grab;
                match g_opt {
                    Some(g) => {
                        let decision = g.button(event, empty);
                        if decision.release {
                            self.grab = None;
                            released = true;
                        }
                    },
                    None => {},
                }
                ButtonDispatch { forward: *event, started: false, released }
            },
        }
    }

    /// Route an axis (scroll) frame: forwarded verbatim whether or not a
    /// grab is active — a grab never intercepts axis data.
    pub fn handle_axis(&self, details: AxisFrame) -> (r: AxisFrame)
        ensures
            r == details,
    {
        match &self.grab {
            Some(g) => g.axis(details),
            None => details,
        }
    }

    /// What a reactor wake-up must do for a readiness source; no work is
    /// done once the stop signal has been raised.
    pub fn reactor_step(&self, source: Readiness) -> (a: ReactorAction)
        ensures
            a == (if !self.running {
                ReactorAction::Stopped
            } else {
                match source {
                    Readiness::Listener => ReactorAction::AcceptClient,
                    Readiness::Dispatch => ReactorAction::DispatchClients,
                }
            }),
    {
        if !self.running {
            ReactorAction::Stopped
        } else {
            match source {
                Readiness::Listener => ReactorAction::AcceptClient,
                Readiness::Dispatch => ReactorAction::DispatchClients,
            }
        }
    }

    /// Register a newly accepted connection and hand back its fresh
    /// session identity.
    pub fn accept_client(&mut self) -> (id: u64)
        requires
            old(self).wf(),
            old(self).clients.next() < u64::MAX,
        ensures
            final(self).wf(),
            id == old(self).clients.next(),
            !old(self).clients.ids().contains(id),
            final(self).clients.ids() == old(self).clients.ids().insert(id),
            final(self).pointer_location == old(self).pointer_location,
            final(self).space@ == old(self).space@,
            final(self).seat == old(self).seat,
            final(self).grab == old(self).grab,
            final(self).running == old(self).running,
    {
        self.clients.connect()
    }

    /// Retire a disconnected client's session; the rest of the core is
    /// untouched (as in the reference design, no window or grab ownership
    /// is tracked per client).
    pub fn client_disconnected(&mut self, id: u64)
        requires
            old(self).wf(),
        ensures
            final(self).wf(),
            final(self).clients.ids() == old(self).clients.ids().remove(id),
            final(self).pointer_location == old(self).pointer_location,
            final(self).space@ == old(self).space@,
            final(self).seat == old(self).seat,
            final(self).grab == old(self).grab,
            final(self).running == old(self).running,
    {
        self.clients.disconnect(id);
    }

    /// Apply the error policy after a round of protocol dispatch: only a
    /// lost display backend is fatal and stops the loop; a misbehaving
    /// client is dropped and the loop goes on.
    pub fn after_dispatch(&mut self, outcome: DispatchOutcome) -> (fatal: bool)
        requires
            old(self).wf(),
        ensures
            final(self).wf(),
            fatal == (outcome is BackendLost),
            final(self).running == (old(self).running && !(outcome is BackendLost)),
            final(self).pointer_location == old(self).pointer_location,
            final(self).space@ == old(self).space@,
            final(self).seat == old(self).seat,
            final(self).grab == old(self).grab,
            final(self).clients == old(self).clients,
    {
        match outcome {
            DispatchOutcome::BackendLost => {
                self.running = false;
                true
            },
            DispatchOutcome::Dispatched => false,
            DispatchOutcome::ClientError => false,
        }
    }

    /// Raise the stop signal: the reactor loop terminates on its next
    /// wake-up.
    pub fn stop(&mut self)
        requires
            old(self).wf(),
        ensures
            final(self).wf(),
            !final(self).running,
            final(self).pointer_location == old(self).pointer_location,
            final(self).space@ == old(self).space@,
            final(self).seat == old(self).seat,
            final(self).grab == old(self).grab,
            final(self).clients == old(self).clients,
    {
        self.running = false;
    }
}

} // verus!
