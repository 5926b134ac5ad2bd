use hutch::seat::Seat;
use hutch::session::ClientRegistry;
use hutch::session::ClientState;
use hutch::session::DisconnectReason;
use hutch::state::DispatchOutcome;
use hutch::state::Hutch;
use hutch::state::ReactorAction;
use hutch::state::Readiness;

#[test]
fn seat_tracks_buttons_without_duplicates() {
    let mut seat = Seat::new();
    assert!(seat.no_buttons_pressed());
    seat.press_button(0x110);
    seat.press_button(0x111);
    // Pressing an already-pressed button changes nothing.
    seat.press_button(0x110);
    assert_eq!(seat.pressed_count(), 2);
    assert!(seat.button_is_pressed(0x110));
    // Releasing an unpressed button changes nothing.
    seat.release_button(0x112);
    assert_eq!(seat.pressed_count(), 2);
    seat.release_button(0x110);
    assert_eq!(seat.pressed_count(), 1);
    assert!(!seat.button_is_pressed(0x110));
    assert!(!seat.no_buttons_pressed());
    seat.release_button(0x111);
    assert!(seat.no_buttons_pressed());
}

#[test]
fn seat_tracks_keys_and_focus() {
    let mut seat = Seat::new();
    seat.press_key(30);
    seat.press_key(30);
    assert!(seat.key_is_pressed(30));
    seat.release_key(30);
    assert!(!seat.key_is_pressed(30));
    seat.set_focus(Some(5));
    seat.set_focus(None);
}

#[test]
fn registry_hands_out_fresh_identities() {
    let mut reg = ClientRegistry::new();
    assert_eq!(reg.client_count(), 0);
    let a = reg.connect();
    let b = reg.connect();
    assert_ne!(a, b);
    assert!(reg.is_connected(a));
    assert!(reg.is_connected(b));
    assert_eq!(reg.client_count(), 2);

    reg.disconnect(a);
    assert!(!reg.is_connected(a));
    assert!(reg.is_connected(b));
    assert_eq!(reg.client_count(), 1);

    // An identity is never reused, even after its owner disconnected.
    let c = reg.connect();
    assert_ne!(c, a);
    assert_ne!(c, b);

    // Disconnecting an unknown identity changes nothing.
    reg.disconnect(a);
    assert_eq!(reg.client_count(), 2);
}

#[test]
fn client_state_hooks_are_pure() {
    let token = ClientState;
    token.initialized(0);
    token.disconnected(0, DisconnectReason::ConnectionClosed);
    token.disconnected(1, DisconnectReason::ProtocolError);
}

#[test]
fn reactor_steps_follow_readiness() {
    let mut h = Hutch::new();
    assert_eq!(h.reactor_step(Readiness::Listener), ReactorAction::AcceptClient);
    assert_eq!(h.reactor_step(Readiness::Dispatch), ReactorAction::DispatchClients);
    h.stop();
    assert_eq!(h.reactor_step(Readiness::Listener), ReactorAction::Stopped);
    assert_eq!(h.reactor_step(Readiness::Dispatch), ReactorAction::Stopped);
}

#[test]
fn dispatch_errors_follow_the_policy() {
    let mut h = Hutch::new();
    // A misbehaving client is dropped; the loop goes on.
    assert!(!h.after_dispatch(DispatchOutcome::ClientError));
    assert!(h.running);
    assert!(!h.after_dispatch(DispatchOutcome::Dispatched));
    assert!(h.running);
    // Losing the display backend is fatal.
    assert!(h.after_dispatch(DispatchOutcome::BackendLost));
    assert!(!h.running);
}

#[test]
fn accept_and_disconnect_touch_only_the_registry() {
    let mut h = Hutch::new();
    let id = h.accept_client();
    assert!(h.clients.is_connected(id));
    assert!(h.grab.is_none());
    h.client_disconnected(id);
    assert!(!h.clients.is_connected(id));
}
