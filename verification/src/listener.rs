//! Server-side session listener bookkeeping: how the per-connection tasks
//! react to the transport's close notification, the request/ack test
//! channel, and the rule that a session's admission permit is released
//! exactly once, when all three of its tasks have completed.

use vstd::prelude::*;

verus! {

/// How the transport reported a connection's end, as the close watcher and
/// the stream-accept loops see it.
#[derive(Clone, Copy, PartialEq, Eq, Structural, Debug)]
pub enum CloseReason {
    /// The peer closed the connection at the application level.
    ApplicationClosed,
    /// This side closed the connection.
    LocallyClosed,
    /// The transport reported an error.
    Error,
}

/// A graceful end: the accept loops stop quietly on it, while any other
/// reason is logged as an error before stopping.
pub open spec fn spec_is_graceful(r: CloseReason) -> bool {
    r == CloseReason::ApplicationClosed || r == CloseReason::LocallyClosed
}

/// Executable form of [`spec_is_graceful`].
pub fn is_graceful(r: &CloseReason) -> (b: bool)
    ensures
        b == spec_is_graceful(*r),
{
    match r {
        CloseReason::ApplicationClosed => true,
        CloseReason::LocallyClosed => true,
        CloseReason::Error => false,
    }
}

/// The request/ack test channel: one bidirectional stream whose inbound
/// side is read to its end, counting bytes, before the fixed short
/// acknowledgement is written back and the stream is half-closed.
pub struct BiStream {
    /// Bytes read so far; kept for the closing log line, saturating rather
    /// than ever failing.
    pub total: usize,
}

impl BiStream {
    /// Nothing read yet.
    pub fn new() -> (b: BiStream)
        ensures
            b.total == 0,
    {
        BiStream { total: 0 }
    }

    /// Accounts one inbound chunk.
    pub fn on_chunk(&mut self, len: usize)
        ensures
            final(self).total == (if old(self).total + len <= usize::MAX {
                (old(self).total + len) as usize
            } else {
                usize::MAX
            }),
    {
        if len <= usize::MAX - self.total {
            self.total = self.total + len;
        } else {
            self.total = usize::MAX;
        }
    }

    /// The fixed reply sent once the inbound side ends: the bytes `ack`.
    pub fn ack() -> (v: Vec<u8>)
        ensures
            v@ == seq![97u8, 99u8, 107u8],
    {
        let mut v: Vec<u8> = Vec::new();
        v.push(97);
        v.push(99);
        v.push(107);
        proof {
            assert(v@ =~= seq![97u8, 99u8, 107u8]);
        }
        v
    }
}

/// The three concurrent tasks one accepted session spawns.
#[derive(Clone, Copy, PartialEq, Eq, Structural, Debug)]
pub enum SessionTask {
    /// Accepts inbound bidirectional streams.
    BiListener,
    /// Accepts inbound unidirectional streams and feeds the replay engine.
    UniListener,
    /// Waits for the connection to close and logs the reason.
    CloseWatcher,
}

/// One accepted session's slot: which of its tasks have completed, and
/// whether its admission permit has been given back.
pub struct SessionSlot {
    pub bi_done: bool,
    pub uni_done: bool,
    pub close_done: bool,
    pub permit_released: bool,
}

/// The permit is held exactly until the last task completes.
pub open spec fn spec_slot_wf(s: SessionSlot) -> bool {
    s.permit_released == (s.bi_done && s.uni_done && s.close_done)
}

impl SessionSlot {
    /// A freshly admitted session: all tasks running, permit held.
    pub fn new() -> (s: SessionSlot)
        ensures
            !s.bi_done,
            !s.uni_done,
            !s.close_done,
            !s.permit_released,
            spec_slot_wf(s),
    {
        SessionSlot { bi_done: false, uni_done: false, close_done: false, permit_released: false }
    }

    /// Records that one task completed — however it completed — and says
    /// whether this was the last one, i.e. whether the caller must release
    /// the permit now. Each task completes once, so the permit is released
    /// exactly once per session.
    pub fn task_finished(&mut self, t: SessionTask) -> (release_now: bool)
        requires
            spec_slot_wf(*old(self)),
            match t {
                SessionTask::BiListener => !old(self).bi_done,
                SessionTask::UniListener => !old(self).uni_done,
                SessionTask::CloseWatcher => !old(self).close_done,
            },
        ensures
            spec_slot_wf(*final(self)),
            final(self).bi_done == (old(self).bi_done || t == SessionTask::BiListener),
            final(self).uni_done == (old(self).uni_done || t == SessionTask::UniListener),
            final(self).close_done == (old(self).close_done || t == SessionTask::CloseWatcher),
            release_now == (final(self).bi_done && final(self).uni_done
                && final(self).close_done),
            release_now == (!old(self).permit_released && final(self).permit_released),
    {
        match t {
            SessionTask::BiListener => {
                self.bi_done = true;
            },
            SessionTask::UniListener => {
                self.uni_done = true;
            },
            SessionTask::CloseWatcher => {
                self.close_done = true;
            },
        }
        let done = self.bi_done && self.uni_done && self.close_done;
        self.permit_released = done;
        done
    }
}

} // verus!
