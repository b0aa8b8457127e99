//! Server-side replay engine: decodes inbound frames, routes each event to
//! the serialization queue of its device class (or to the relative-motion
//! injector for mouse deltas), and performs the failsafe modifier release
//! when a stream ends. Each queue is drained by exactly one worker, so OS
//! injection per class happens strictly in queue order.

use vstd::prelude::*;

use crate::codec::{decode, spec_decode};
use crate::event::{Event, MouseMove, KEY_ALT, KEY_CONTROL_LEFT, KEY_NUM0};

verus! {

/// The two serialization queues on the server, one injection worker each.
#[derive(Clone, Copy, PartialEq, Eq, Structural, Debug)]
pub enum DeviceClass {
    /// Key events and anything else that is not a button or wheel event.
    KeyboardMisc,
    /// Button and wheel events.
    ButtonWheel,
}

/// Which queue an event is injected from. Mouse deltas never reach a queue
/// — ingestion hands them to the relative-motion device directly — so their
/// value here is only the match arm the catch-all of the router gives them.
pub open spec fn spec_device_class(e: Event) -> DeviceClass {
    match e {
        Event::ButtonPress(_) => DeviceClass::ButtonWheel,
        Event::ButtonRelease(_) => DeviceClass::ButtonWheel,
        Event::Wheel(_, _) => DeviceClass::ButtonWheel,
        _ => DeviceClass::KeyboardMisc,
    }
}

/// Executable form of [`spec_device_class`].
pub fn device_class(e: &Event) -> (c: DeviceClass)
    ensures
        c == spec_device_class(*e),
{
    match e {
        Event::ButtonPress(_) => DeviceClass::ButtonWheel,
        Event::ButtonRelease(_) => DeviceClass::ButtonWheel,
        Event::Wheel(_, _) => DeviceClass::ButtonWheel,
        _ => DeviceClass::KeyboardMisc,
    }
}

/// An ordered FIFO of events awaiting OS injection. The single worker that
/// drains it injects in exactly the order events were enqueued.
pub struct ReplayQueue {
    events: Vec<Event>,
}

impl View for ReplayQueue {
    type V = Seq<Event>;

    closed spec fn view(&self) -> Seq<Event> {
        self.events@
    }
}

impl ReplayQueue {
    /// An empty queue.
    pub fn new() -> (q: ReplayQueue)
        ensures
            q@ == Seq::<Event>::empty(),
    {
        ReplayQueue { events: Vec::new() }
    }

    /// Appends one event; everything already queued is injected first.
    pub fn enqueue(&mut self, e: Event)
        ensures
            final(self)@ == old(self)@.push(e),
    {
        self.events.push(e);
    }

    /// Hands the injection worker the oldest queued event, if any.
    pub fn take_next(&mut self) -> (r: Option<Event>)
        ensures
            old(self)@.len() == 0 ==> r is None && final(self)@ == old(self)@,
            old(self)@.len() > 0 ==> r == Some(old(self)@[0]) && final(self)@ == old(
                self,
            )@.drop_first(),
    {
        if self.events.len() == 0 {
            None
        } else {
            let e = self.events.remove(0);
            proof {
                assert(old(self)@.remove(0) =~= old(self)@.drop_first());
            }
            Some(e)
        }
    }

    /// How many events are waiting.
    pub fn len(&self) -> (n: usize)
        ensures
            n == self@.len(),
    {
        self.events.len()
    }
}

/// What ingesting one chunk asks the server to do.
#[derive(Clone, Copy, PartialEq, Eq, Structural, Debug)]
pub enum IngestOutcome {
    /// The chunk was a mouse delta: apply it as relative cursor motion.
    MoveMouse(MouseMove),
    /// The chunk decoded to an event and was queued on this class.
    Enqueued(DeviceClass),
    /// The chunk matched no known frame shape: logged and dropped, never
    /// fatal.
    Discarded,
}

/// Per-session replay state: the two serialization queues the session's
/// inbound frames feed.
pub struct ReplaySession {
    pub keyboard_misc: ReplayQueue,
    pub button_wheel: ReplayQueue,
}

/// The pair of queue contents after one frame is ingested.
pub open spec fn spec_ingest_one(kb: Seq<Event>, bw: Seq<Event>, frame: Seq<u8>) -> (
    Seq<Event>,
    Seq<Event>,
) {
    match spec_decode(frame) {
        Some(e) => if e is MouseDelta {
            (kb, bw)
        } else if spec_device_class(e) == DeviceClass::ButtonWheel {
            (kb, bw.push(e))
        } else {
            (kb.push(e), bw)
        },
        None => (kb, bw),
    }
}

/// Queue contents after a whole sequence of frames is ingested in order.
pub open spec fn spec_ingest_all(kb: Seq<Event>, bw: Seq<Event>, frames: Seq<Seq<u8>>) -> (
    Seq<Event>,
    Seq<Event>,
)
    decreases frames.len(),
{
    if frames.len() == 0 {
        (kb, bw)
    } else {
        let stepped = spec_ingest_one(kb, bw, frames[0]);
        spec_ingest_all(stepped.0, stepped.1, frames.drop_first())
    }
}

/// The events a sequence of frames contributes to one queue, in frame
/// order: decoded non-delta events of that class; deltas, and frames that do
/// not decode, contribute nothing.
pub open spec fn spec_replayed(frames: Seq<Seq<u8>>, c: DeviceClass) -> Seq<Event>
    decreases frames.len(),
{
    if frames.len() == 0 {
        Seq::empty()
    } else {
        let rest = spec_replayed(frames.drop_first(), c);
        match spec_decode(frames[0]) {
            Some(e) => if !(e is MouseDelta) && spec_device_class(e) == c {
                seq![e] + rest
            } else {
                rest
            },
            None => rest,
        }
    }
}

impl ReplaySession {
    /// A session with empty queues.
    pub fn new() -> (s: ReplaySession)
        ensures
            s.keyboard_misc@ == Seq::<Event>::empty(),
            s.button_wheel@ == Seq::<Event>::empty(),
    {
        ReplaySession { keyboard_misc: ReplayQueue::new(), button_wheel: ReplayQueue::new() }
    }

    /// Ingests one read-side chunk: decodes it, hands a mouse delta to the
    /// injector, queues every other recognized event on its class's queue,
    /// and discards (never fatally) a payload that matches no frame shape.
    pub fn ingest_chunk(&mut self, bytes: &[u8]) -> (o: IngestOutcome)
        ensures
            (final(self).keyboard_misc@, final(self).button_wheel@) == spec_ingest_one(
                old(self).keyboard_misc@,
                old(self).button_wheel@,
                bytes@,
            ),
            match spec_decode(bytes@) {
                Some(e) => if e is MouseDelta {
                    o == IngestOutcome::MoveMouse(e->MouseDelta_0)
                } else {
                    o == IngestOutcome::Enqueued(spec_device_class(e))
                },
                None => o == IngestOutcome::Discarded,
            },
    {
        match decode(bytes) {
            Ok(e) => {
                match e {
                    Event::MouseDelta(m) => IngestOutcome::MoveMouse(m),
                    _ => {
                        let c = device_class(&e);
                        match c {
                            DeviceClass::ButtonWheel => self.button_wheel.enqueue(e),
                            DeviceClass::KeyboardMisc => self.keyboard_misc.enqueue(e),
                        }
                        IngestOutcome::Enqueued(c)
                    },
                }
            },
            Err(_) => IngestOutcome::Discarded,
        }
    }

    /// Failsafe release, run when an inbound unidirectional stream reaches
    /// its natural end: queues key releases for control, alt and "0" —
    /// whether or not those keys were ever observed down — so a session
    /// ending mid-chord can never leave the server with stuck modifiers.
    pub fn on_stream_end(&mut self)
        ensures
            final(self).keyboard_misc@ == old(self).keyboard_misc@ + seq![
                Event::KeyRelease(KEY_CONTROL_LEFT),
                Event::KeyRelease(KEY_ALT),
                Event::KeyRelease(KEY_NUM0),
            ],
            final(self).button_wheel@ == old(self).button_wheel@,
    {
        self.keyboard_misc.enqueue(Event::KeyRelease(KEY_CONTROL_LEFT));
        self.keyboard_misc.enqueue(Event::KeyRelease(KEY_ALT));
        self.keyboard_misc.enqueue(Event::KeyRelease(KEY_NUM0));
        proof {
            assert(final(self).keyboard_misc@ =~= old(self).keyboard_misc@ + seq![
                Event::KeyRelease(KEY_CONTROL_LEFT),
                Event::KeyRelease(KEY_ALT),
                Event::KeyRelease(KEY_NUM0),
            ]);
        }
    }
}

/// Ordering law, ingestion side: after any sequence of frames is ingested,
/// each queue holds its old contents followed by exactly the events those
/// frames contribute to that class, in frame order — delivery of the other
/// class's frames in between cannot reorder a class's queue.
pub proof fn lemma_ingest_order(kb: Seq<Event>, bw: Seq<Event>, frames: Seq<Seq<u8>>)
    ensures
        spec_ingest_all(kb, bw, frames).0 == kb + spec_replayed(frames, DeviceClass::KeyboardMisc),
        spec_ingest_all(kb, bw, frames).1 == bw + spec_replayed(frames, DeviceClass::ButtonWheel),
    decreases frames.len(),
{
    if frames.len() == 0 {
        assert(spec_ingest_all(kb, bw, frames).0 =~= kb + spec_replayed(
            frames,
            DeviceClass::KeyboardMisc,
        ));
        assert(spec_ingest_all(kb, bw, frames).1 =~= bw + spec_replayed(
            frames,
            DeviceClass::ButtonWheel,
        ));
    } else {
        let stepped = spec_ingest_one(kb, bw, frames[0]);
        lemma_ingest_order(stepped.0, stepped.1, frames.drop_first());
        assert(spec_ingest_all(kb, bw, frames).0 =~= kb + spec_replayed(
            frames,
            DeviceClass::KeyboardMisc,
        ));
        assert(spec_ingest_all(kb, bw, frames).1 =~= bw + spec_replayed(
            frames,
            DeviceClass::ButtonWheel,
        ));
    }
}

/// Frames that all decode to one class contribute nothing to the other
/// class's queue.
pub proof fn lemma_replayed_other_class_empty(evs: Seq<Event>, c: DeviceClass, c2: DeviceClass)
    requires
        c2 != c,
        forall|i: int|
            0 <= i < evs.len() ==> !(#[trigger] evs[i] is MouseDelta) && spec_device_class(evs[i])
                == c,
    ensures
        spec_replayed(evs.map_values(|e: Event| crate::codec::spec_encode(e)), c2) == Seq::<
            Event,
        >::empty(),
    decreases evs.len(),
{
    let frames = evs.map_values(|e: Event| crate::codec::spec_encode(e));
    if evs.len() == 0 {
        assert(spec_replayed(frames, c2) =~= Seq::<Event>::empty());
    } else {
        crate::codec::lemma_decode_encode(evs[0]);
        assert(frames.drop_first() =~= evs.drop_first().map_values(
            |e: Event| crate::codec::spec_encode(e),
        ));
        lemma_replayed_other_class_empty(evs.drop_first(), c, c2);
        assert(spec_replayed(frames, c2) =~= Seq::<Event>::empty());
    }
}

/// Ordering law, composed: if the transport delivers, in write order, the
/// frames the client emitted for one class, then that class's queue ends as
/// its old contents followed by exactly the client's events, in the
/// client's order, and the other class's queue is untouched — whatever was
/// delivered for the other class in between.
pub proof fn lemma_replay_preserves_client_order(
    kb: Seq<Event>,
    bw: Seq<Event>,
    evs: Seq<Event>,
    c: DeviceClass,
)
    requires
        forall|i: int|
            0 <= i < evs.len() ==> !(#[trigger] evs[i] is MouseDelta) && spec_device_class(evs[i])
                == c,
    ensures
        ({
            let after = spec_ingest_all(
                kb,
                bw,
                evs.map_values(|e: Event| crate::codec::spec_encode(e)),
            );
            if c == DeviceClass::KeyboardMisc {
                after.0 == kb + evs && after.1 == bw
            } else {
                after.0 == kb && after.1 == bw + evs
            }
        }),
{
    let frames = evs.map_values(|e: Event| crate::codec::spec_encode(e));
    lemma_ingest_order(kb, bw, frames);
    lemma_replay_matches_emitted(evs, c);
    match c {
        DeviceClass::KeyboardMisc => {
            lemma_replayed_other_class_empty(evs, c, DeviceClass::ButtonWheel);
            assert(bw + Seq::<Event>::empty() =~= bw);
        },
        DeviceClass::ButtonWheel => {
            lemma_replayed_other_class_empty(evs, c, DeviceClass::KeyboardMisc);
            assert(kb + Seq::<Event>::empty() =~= kb);
        },
    }
}

/// Ordering law, end to end: frames written by the client as the encodings
/// of a sequence of same-class (non-delta) events replay as exactly that
/// event sequence, in the order written. With [`lemma_ingest_order`], a
/// session whose streams deliver writes in order injects each class in the
/// exact order the client emitted it.
pub proof fn lemma_replay_matches_emitted(evs: Seq<Event>, c: DeviceClass)
    requires
        forall|i: int|
            0 <= i < evs.len() ==> !(#[trigger] evs[i] is MouseDelta) && spec_device_class(evs[i])
                == c,
    ensures
        spec_replayed(evs.map_values(|e: Event| crate::codec::spec_encode(e)), c) == evs,
    decreases evs.len(),
{
    let frames = evs.map_values(|e: Event| crate::codec::spec_encode(e));
    if evs.len() == 0 {
        assert(spec_replayed(frames, c) =~= evs);
    } else {
        crate::codec::lemma_decode_encode(evs[0]);
        assert(frames.drop_first() =~= evs.drop_first().map_values(
            |e: Event| crate::codec::spec_encode(e),
        ));
        lemma_replay_matches_emitted(evs.drop_first(), c);
        assert(spec_replayed(frames, c) =~= evs);
    }
}

} // verus!
