use quicinput::event::{class_of, Class, Event, MouseMove, QuicCommand};
use quicinput::forwarder::{Forwarder, ForwarderAction, SenderLink};
use quicinput::session::{
    parse_port, validate_connect_fields, ConnectInputError, SessionHandle, SessionTracker,
};

#[test]
fn forwarder_writes_each_class_to_its_stream() {
    let mut f = Forwarder::new();
    match f.step(QuicCommand::Mouse(vec![1, 2, 3])) {
        ForwarderAction::Write(Class::Mouse, payload) => assert_eq!(payload, vec![1, 2, 3]),
        other => panic!("unexpected action {:?}", action_name(&other)),
    }
    match f.step(QuicCommand::Keyboard(vec![4])) {
        ForwarderAction::Write(Class::Keyboard, payload) => assert_eq!(payload, vec![4]),
        other => panic!("unexpected action {:?}", action_name(&other)),
    }
}

#[test]
fn write_failure_abandons_only_that_class() {
    let mut f = Forwarder::new();
    match f.step(QuicCommand::Keyboard(vec![9])) {
        ForwarderAction::Write(Class::Keyboard, _) => {}
        other => panic!("unexpected action {:?}", action_name(&other)),
    }
    // The keyboard write failed: that class is dropped silently from now on.
    f.on_write_result(Class::Keyboard, false);
    assert!(matches!(f.step(QuicCommand::Keyboard(vec![10])), ForwarderAction::Drop));
    // The mouse class keeps flowing, degraded but alive.
    match f.step(QuicCommand::Mouse(vec![11])) {
        ForwarderAction::Write(Class::Mouse, payload) => assert_eq!(payload, vec![11]),
        other => panic!("unexpected action {:?}", action_name(&other)),
    }
    f.on_write_result(Class::Mouse, true);
    assert!(f.mouse_open);
    assert!(!f.keyboard_open);
}

#[test]
fn shutdown_finishes_both_streams() {
    let mut f = Forwarder::new();
    assert!(matches!(f.step(QuicCommand::Shutdown), ForwarderAction::FinishStreams));
    assert!(f.finished);
    assert!(!f.mouse_open);
    assert!(!f.keyboard_open);
}

fn action_name(a: &ForwarderAction) -> &'static str {
    match a {
        ForwarderAction::Write(Class::Mouse, _) => "write-mouse",
        ForwarderAction::Write(Class::Keyboard, _) => "write-keyboard",
        ForwarderAction::Drop => "drop",
        ForwarderAction::FinishStreams => "finish",
    }
}

#[test]
fn keys_travel_on_the_keyboard_channel_and_the_rest_on_the_mouse_channel() {
    assert_eq!(class_of(&Event::KeyPress(5)), Class::Keyboard);
    assert_eq!(class_of(&Event::KeyRelease(5)), Class::Keyboard);
    assert_eq!(
        class_of(&Event::MouseDelta(MouseMove { dx_bits: 0, dy_bits: 0 })),
        Class::Mouse
    );
    assert_eq!(class_of(&Event::ButtonPress(1)), Class::Mouse);
    assert_eq!(class_of(&Event::ButtonRelease(1)), Class::Mouse);
    assert_eq!(class_of(&Event::Wheel(1, 0)), Class::Mouse);
}

#[test]
fn a_refused_send_drops_the_handle() {
    let mut link = SenderLink::new();
    link.record_send(true);
    assert!(link.connected);
    link.record_send(false);
    assert!(!link.connected);
    // Later sends are no-ops; the handle stays dropped.
    link.record_send(true);
    assert!(!link.connected);
}

#[test]
fn stale_connect_results_are_recognized() {
    let mut t = SessionTracker::new();
    let marker = t.current();
    assert!(t.is_current(marker));
    // The user resets before the attempt resolves.
    t.bump();
    assert!(!t.is_current(marker));
    let marker2 = t.current();
    assert!(t.is_current(marker2));
}

#[test]
fn generation_wraps_instead_of_failing() {
    let mut t = SessionTracker::new();
    for _ in 0..3 {
        t.bump();
    }
    assert_eq!(t.current(), 3);
}

#[test]
fn closing_a_session_twice_is_a_no_op() {
    let mut s = SessionHandle::new();
    assert!(!s.closed);
    assert!(s.close());
    assert!(s.closed);
    // The second close must not send another close signal.
    assert!(!s.close());
    assert!(s.closed);
}

#[test]
fn port_parsing() {
    assert_eq!(parse_port(b"80"), Ok(80));
    assert_eq!(parse_port(b"0"), Ok(0));
    assert_eq!(parse_port(b"4433"), Ok(4433));
    assert_eq!(parse_port(b"65535"), Ok(65535));
    assert_eq!(parse_port(b"+443"), Ok(443));
    assert_eq!(parse_port(b"007"), Ok(7));
    assert_eq!(parse_port(b"65536"), Err(ConnectInputError::InvalidPort));
    assert_eq!(parse_port(b"99999999"), Err(ConnectInputError::InvalidPort));
    assert_eq!(parse_port(b""), Err(ConnectInputError::InvalidPort));
    assert_eq!(parse_port(b"+"), Err(ConnectInputError::InvalidPort));
    assert_eq!(parse_port(b"-1"), Err(ConnectInputError::InvalidPort));
    assert_eq!(parse_port(b"80a"), Err(ConnectInputError::InvalidPort));
    assert_eq!(parse_port(b" 80"), Err(ConnectInputError::InvalidPort));
}

#[test]
fn connect_fields_are_checked_in_form_order() {
    assert_eq!(
        validate_connect_fields(b"", b"4433"),
        Err(ConnectInputError::MissingIp)
    );
    assert_eq!(
        validate_connect_fields(b"127.0.0.1", b""),
        Err(ConnectInputError::MissingPort)
    );
    assert_eq!(
        validate_connect_fields(b"127.0.0.1", b"port"),
        Err(ConnectInputError::InvalidPort)
    );
    assert_eq!(validate_connect_fields(b"127.0.0.1", b"4433"), Ok(4433));
    // Both fields empty: the address is reported first, as the form does.
    assert_eq!(validate_connect_fields(b"", b""), Err(ConnectInputError::MissingIp));
}
