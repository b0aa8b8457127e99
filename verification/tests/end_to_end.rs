//! The full session, client to server, with the transport's delivery
//! simulated: each payload written to a stream arrives as one read-side
//! chunk, in order, and finishing the streams arrives as end-of-stream.

use quicinput::capture::{Capture, CaptureAction};
use quicinput::codec::encode;
use quicinput::event::{
    Class, Event, MouseMove, QuicCommand, RawSample, KEY_ALT, KEY_CONTROL_LEFT, KEY_NUM0,
};
use quicinput::forwarder::{Forwarder, ForwarderAction};
use quicinput::listener::{is_graceful, CloseReason};
use quicinput::replay::{IngestOutcome, ReplaySession};
use quicinput::session::validate_connect_fields;

#[test]
fn mouse_delta_travels_and_hotkey_tears_down() {
    // The user fills in the connect form.
    assert_eq!(validate_connect_fields(b"127.0.0.1", b"4433"), Ok(4433));

    let mut capture = Capture::new();
    assert!(capture.try_start());
    let mut forwarder = Forwarder::new();

    // The simulated transport: one chunk per write, delivered in order.
    let mut mouse_stream: Vec<Vec<u8>> = Vec::new();
    let mut keyboard_stream: Vec<Vec<u8>> = Vec::new();
    let mut streams_finished = false;

    let mut drive = |forwarder: &mut Forwarder,
                     cmd: QuicCommand,
                     mouse_stream: &mut Vec<Vec<u8>>,
                     keyboard_stream: &mut Vec<Vec<u8>>,
                     streams_finished: &mut bool| {
        match forwarder.step(cmd) {
            ForwarderAction::Write(Class::Mouse, payload) => mouse_stream.push(payload),
            ForwarderAction::Write(Class::Keyboard, payload) => keyboard_stream.push(payload),
            ForwarderAction::Drop => {}
            ForwarderAction::FinishStreams => *streams_finished = true,
        }
    };

    // The user moves the mouse by (10.5, -3.0).
    let sample = RawSample::MouseMoved {
        dx_bits: 10.5f64.to_bits(),
        dy_bits: (-3.0f64).to_bits(),
    };
    match capture.on_sample(sample) {
        CaptureAction::ForwardAndRecenter(m) => {
            let frame = encode(&Event::MouseDelta(m));
            drive(
                &mut forwarder,
                QuicCommand::Mouse(frame),
                &mut mouse_stream,
                &mut keyboard_stream,
                &mut streams_finished,
            );
        }
        other => panic!("expected an emitted delta, got {:?}", other),
    }
    // The re-centering echo is swallowed, nothing more is sent.
    assert_eq!(
        capture.on_sample(RawSample::MouseMoved { dx_bits: 0, dy_bits: 0 }),
        CaptureAction::Swallow
    );
    assert_eq!(mouse_stream.len(), 1);

    // The user types the disconnect chord; the presses of the modifiers are
    // forwarded, the chord press is not.
    for code in [KEY_CONTROL_LEFT, KEY_ALT] {
        match capture.on_sample(RawSample::Key { code, pressed: true }) {
            CaptureAction::Forward(e) => drive(
                &mut forwarder,
                QuicCommand::Keyboard(encode(&e)),
                &mut mouse_stream,
                &mut keyboard_stream,
                &mut streams_finished,
            ),
            other => panic!("expected a forwarded key, got {:?}", other),
        }
    }
    assert_eq!(
        capture.on_sample(RawSample::Key { code: KEY_NUM0, pressed: true }),
        CaptureAction::Disconnect
    );
    assert!(!capture.running);
    drive(
        &mut forwarder,
        QuicCommand::Shutdown,
        &mut mouse_stream,
        &mut keyboard_stream,
        &mut streams_finished,
    );
    assert!(streams_finished);
    assert_eq!(keyboard_stream.len(), 2);

    // Server side: the chunks arrive in write order on each stream.
    let mut session = ReplaySession::new();
    match session.ingest_chunk(mouse_stream[0].as_slice()) {
        IngestOutcome::MoveMouse(m) => {
            assert_eq!(f64::from_bits(m.dx_bits), 10.5);
            assert_eq!(f64::from_bits(m.dy_bits), -3.0);
        }
        other => panic!("expected a mouse move, got {:?}", other),
    }
    for chunk in &keyboard_stream {
        session.ingest_chunk(chunk.as_slice());
    }

    // The streams end while control and alt were last seen down: the
    // failsafe releases follow the forwarded presses.
    session.on_stream_end();
    assert_eq!(session.keyboard_misc.take_next(), Some(Event::KeyPress(KEY_CONTROL_LEFT)));
    assert_eq!(session.keyboard_misc.take_next(), Some(Event::KeyPress(KEY_ALT)));
    assert_eq!(session.keyboard_misc.take_next(), Some(Event::KeyRelease(KEY_CONTROL_LEFT)));
    assert_eq!(session.keyboard_misc.take_next(), Some(Event::KeyRelease(KEY_ALT)));
    assert_eq!(session.keyboard_misc.take_next(), Some(Event::KeyRelease(KEY_NUM0)));
    assert_eq!(session.keyboard_misc.take_next(), None);

    // Both sides log a graceful close.
    assert!(is_graceful(&CloseReason::ApplicationClosed));
    assert!(is_graceful(&CloseReason::LocallyClosed));
}

#[test]
fn forwarded_mouse_move_is_unchanged_on_the_wire() {
    // The encoded frame must carry exactly the captured bit patterns: a
    // codec that tampered with the payload would inject a different motion.
    let m = MouseMove { dx_bits: 10.5f64.to_bits(), dy_bits: (-3.0f64).to_bits() };
    let frame = encode(&Event::MouseDelta(m));
    let mut session = ReplaySession::new();
    match session.ingest_chunk(frame.as_slice()) {
        IngestOutcome::MoveMouse(back) => assert_eq!(back, m),
        other => panic!("expected a mouse move, got {:?}", other),
    }
}
