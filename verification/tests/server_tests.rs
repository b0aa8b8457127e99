use quicinput::admission::AdmissionController;
use quicinput::codec::encode;
use quicinput::event::{Event, MouseMove, KEY_ALT, KEY_CONTROL_LEFT, KEY_NUM0};
use quicinput::listener::{BiStream, CloseReason, SessionSlot, SessionTask};
use quicinput::replay::{DeviceClass, IngestOutcome, ReplaySession};
use quicinput::startup::module_listed;

#[test]
fn admission_never_exceeds_capacity() {
    let mut pool = AdmissionController::new(16);
    for _ in 0..16 {
        assert!(pool.try_acquire());
        assert!(pool.wf());
    }
    assert_eq!(pool.available(), 0);
    assert!(!pool.try_acquire());
    assert!(!pool.try_acquire());
    assert!(pool.wf());
}

#[test]
fn releasing_one_permit_admits_exactly_one_more() {
    let mut pool = AdmissionController::new(2);
    assert!(pool.try_acquire());
    assert!(pool.try_acquire());
    assert!(!pool.try_acquire());
    pool.release();
    assert!(pool.try_acquire());
    assert!(!pool.try_acquire());
}

#[test]
fn zero_capacity_admits_nobody() {
    let mut pool = AdmissionController::new(0);
    assert!(!pool.try_acquire());
}

#[test]
fn ingest_routes_each_event_to_its_class() {
    let mut session = ReplaySession::new();
    assert_eq!(
        session.ingest_chunk(encode(&Event::KeyPress(7)).as_slice()),
        IngestOutcome::Enqueued(DeviceClass::KeyboardMisc)
    );
    assert_eq!(
        session.ingest_chunk(encode(&Event::ButtonPress(1)).as_slice()),
        IngestOutcome::Enqueued(DeviceClass::ButtonWheel)
    );
    assert_eq!(
        session.ingest_chunk(encode(&Event::Wheel(0, 5)).as_slice()),
        IngestOutcome::Enqueued(DeviceClass::ButtonWheel)
    );
    let delta = MouseMove { dx_bits: 1, dy_bits: 2 };
    assert_eq!(
        session.ingest_chunk(encode(&Event::MouseDelta(delta)).as_slice()),
        IngestOutcome::MoveMouse(delta)
    );
    assert_eq!(session.keyboard_misc.len(), 1);
    assert_eq!(session.button_wheel.len(), 2);
}

#[test]
fn unknown_payload_is_discarded_not_fatal() {
    let mut session = ReplaySession::new();
    assert_eq!(session.ingest_chunk(&[9u8, 9, 9]), IngestOutcome::Discarded);
    assert_eq!(session.ingest_chunk(&[]), IngestOutcome::Discarded);
    assert_eq!(session.keyboard_misc.len(), 0);
    assert_eq!(session.button_wheel.len(), 0);
    // The session keeps working afterwards.
    assert_eq!(
        session.ingest_chunk(encode(&Event::KeyPress(1)).as_slice()),
        IngestOutcome::Enqueued(DeviceClass::KeyboardMisc)
    );
}

#[test]
fn per_class_order_survives_interleaved_delivery() {
    let mut session = ReplaySession::new();
    let keys = [Event::KeyPress(10), Event::KeyRelease(10), Event::KeyPress(11)];
    let buttons = [Event::ButtonPress(1), Event::Wheel(2, 0), Event::ButtonRelease(1)];
    // Interleave the two classes as concurrent streams would deliver them.
    for i in 0..3 {
        session.ingest_chunk(encode(&buttons[i]).as_slice());
        session.ingest_chunk(encode(&keys[i]).as_slice());
    }
    for e in keys {
        assert_eq!(session.keyboard_misc.take_next(), Some(e));
    }
    assert_eq!(session.keyboard_misc.take_next(), None);
    for e in buttons {
        assert_eq!(session.button_wheel.take_next(), Some(e));
    }
    assert_eq!(session.button_wheel.take_next(), None);
}

#[test]
fn stream_end_enqueues_failsafe_releases() {
    let mut session = ReplaySession::new();
    // The peer was mid-chord: presses arrived, then the stream ended.
    session.ingest_chunk(encode(&Event::KeyPress(KEY_CONTROL_LEFT)).as_slice());
    session.ingest_chunk(encode(&Event::KeyPress(KEY_ALT)).as_slice());
    session.on_stream_end();
    assert_eq!(session.keyboard_misc.take_next(), Some(Event::KeyPress(KEY_CONTROL_LEFT)));
    assert_eq!(session.keyboard_misc.take_next(), Some(Event::KeyPress(KEY_ALT)));
    assert_eq!(session.keyboard_misc.take_next(), Some(Event::KeyRelease(KEY_CONTROL_LEFT)));
    assert_eq!(session.keyboard_misc.take_next(), Some(Event::KeyRelease(KEY_ALT)));
    assert_eq!(session.keyboard_misc.take_next(), Some(Event::KeyRelease(KEY_NUM0)));
    assert_eq!(session.keyboard_misc.take_next(), None);
}

#[test]
fn failsafe_fires_even_when_no_key_was_down() {
    let mut session = ReplaySession::new();
    session.on_stream_end();
    assert_eq!(session.keyboard_misc.len(), 3);
    assert_eq!(session.button_wheel.len(), 0);
}

#[test]
fn close_reasons_classify() {
    assert!(quicinput::listener::is_graceful(&CloseReason::ApplicationClosed));
    assert!(quicinput::listener::is_graceful(&CloseReason::LocallyClosed));
    assert!(!quicinput::listener::is_graceful(&CloseReason::Error));
}

#[test]
fn bi_stream_counts_bytes_and_acks() {
    let mut b = BiStream::new();
    b.on_chunk(3);
    b.on_chunk(10);
    assert_eq!(b.total, 13);
    b.on_chunk(usize::MAX);
    assert_eq!(b.total, usize::MAX);
    assert_eq!(BiStream::ack(), b"ack".to_vec());
}

#[test]
fn permit_is_released_exactly_once_when_all_tasks_end() {
    let orders = [
        [SessionTask::BiListener, SessionTask::UniListener, SessionTask::CloseWatcher],
        [SessionTask::CloseWatcher, SessionTask::BiListener, SessionTask::UniListener],
        [SessionTask::UniListener, SessionTask::CloseWatcher, SessionTask::BiListener],
    ];
    for order in orders {
        let mut slot = SessionSlot::new();
        let mut releases = 0usize;
        for task in order {
            if slot.task_finished(task) {
                releases += 1;
            }
        }
        assert_eq!(releases, 1);
        assert!(slot.permit_released);
    }
}

#[test]
fn module_listing_scan() {
    let listing = b"Module                  Size  Used by\nuinput                 20480  0\nsnd_seq               86016  1\n";
    assert!(module_listed(listing, b"uinput"));
    assert!(module_listed(listing, b"snd_seq"));
    assert!(!module_listed(listing, b"uinpu"));
    assert!(!module_listed(listing, b"uinputx"));
    // The name must be a line's first word, not just any word.
    assert!(!module_listed(listing, b"Size"));
    assert!(!module_listed(b"", b"uinput"));
    // A module name at the very end of the text, without a trailing newline.
    assert!(module_listed(b"first 1 0\nuinput", b"uinput"));
}

#[test]
fn module_listing_scan_skips_leading_blanks() {
    // Leading spaces or tabs before a line's first word do not hide it.
    assert!(module_listed(b" uinput 16384 0\n", b"uinput"));
    assert!(module_listed(b"snd 1 0\n\t  uinput 16384 0\n", b"uinput"));
    assert!(module_listed(b"  \tuinput", b"uinput"));
    // Blanks only reach up to the first word: a later word still does not
    // count, and a different first word still does not match.
    assert!(!module_listed(b"  snd uinput 0\n", b"uinput"));
    assert!(!module_listed(b"  uinputx 1 0\n", b"uinput"));
    assert!(!module_listed(b" \n", b"uinput"));
}
