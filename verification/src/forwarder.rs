//! Client-side stream multiplexer: decides, for each command drained from
//! the capture-to-network queue, what the network worker must do. Each event
//! class is bound to one outbound stream; a failed write abandons that class
//! silently instead of ever blocking the capture path, and the shutdown
//! marker finishes both streams.

use vstd::prelude::*;

use crate::event::{Class, QuicCommand};

verus! {

/// What the network worker must do with one drained command.
pub enum ForwarderAction {
    /// Write this payload to the given class's stream.
    Write(Class, Vec<u8>),
    /// The class's stream was abandoned earlier: drop the payload silently.
    Drop,
    /// Shutdown marker: signal end-of-stream on both streams and exit the
    /// worker.
    FinishStreams,
}

/// The forwarder's view of its two outbound streams, plus the history of
/// payloads handed to each stream, in order.
pub struct Forwarder {
    /// The mouse-class stream is still usable.
    pub mouse_open: bool,
    /// The keyboard-class stream is still usable.
    pub keyboard_open: bool,
    /// The shutdown marker has been drained; no further command may follow.
    pub finished: bool,
    /// Every payload handed to the mouse stream, oldest first.
    pub mouse_written: Ghost<Seq<Seq<u8>>>,
    /// Every payload handed to the keyboard stream, oldest first.
    pub keyboard_written: Ghost<Seq<Seq<u8>>>,
}

impl Forwarder {
    /// A forwarder whose two streams have just been opened.
    pub fn new() -> (f: Forwarder)
        ensures
            f.mouse_open,
            f.keyboard_open,
            !f.finished,
            f.mouse_written@ == Seq::<Seq<u8>>::empty(),
            f.keyboard_written@ == Seq::<Seq<u8>>::empty(),
    {
        Forwarder {
            mouse_open: true,
            keyboard_open: true,
            finished: false,
            mouse_written: Ghost(Seq::empty()),
            keyboard_written: Ghost(Seq::empty()),
        }
    }

    /// Handles one command in receive order: a payload goes to its class's
    /// stream if that stream is still usable and is dropped otherwise; the
    /// shutdown marker closes both streams and ends the worker.
    pub fn step(&mut self, cmd: QuicCommand) -> (a: ForwarderAction)
        requires
            !old(self).finished,
        ensures
            final(self).finished == (cmd is Shutdown),
            match cmd {
                QuicCommand::Mouse(buf) => {
                    &&& final(self).mouse_open == old(self).mouse_open
                    &&& final(self).keyboard_open == old(self).keyboard_open
                    &&& final(self).keyboard_written@ == old(self).keyboard_written@
                    &&& if old(self).mouse_open {
                        &&& a == ForwarderAction::Write(Class::Mouse, buf)
                        &&& final(self).mouse_written@ == old(self).mouse_written@.push(buf@)
                    } else {
                        &&& a is Drop
                        &&& final(self).mouse_written@ == old(self).mouse_written@
                    }
                },
                QuicCommand::Keyboard(buf) => {
                    &&& final(self).mouse_open == old(self).mouse_open
                    &&& final(self).keyboard_open == old(self).keyboard_open
                    &&& final(self).mouse_written@ == old(self).mouse_written@
                    &&& if old(self).keyboard_open {
                        &&& a == ForwarderAction::Write(Class::Keyboard, buf)
                        &&& final(self).keyboard_written@ == old(self).keyboard_written@.push(
                            buf@,
                        )
                    } else {
                        &&& a is Drop
                        &&& final(self).keyboard_written@ == old(self).keyboard_written@
                    }
                },
                QuicCommand::Shutdown => {
                    &&& a is FinishStreams
                    &&& !final(self).mouse_open
                    &&& !final(self).keyboard_open
                    &&& final(self).mouse_written@ == old(self).mouse_written@
                    &&& final(self).keyboard_written@ == old(self).keyboard_written@
                },
            },
    {
        match cmd {
            QuicCommand::Mouse(buf) => {
                if self.mouse_open {
                    self.mouse_written = Ghost(self.mouse_written@.push(buf@));
                    ForwarderAction::Write(Class::Mouse, buf)
                } else {
                    ForwarderAction::Drop
                }
            },
            QuicCommand::Keyboard(buf) => {
                if self.keyboard_open {
                    self.keyboard_written = Ghost(self.keyboard_written@.push(buf@));
                    ForwarderAction::Write(Class::Keyboard, buf)
                } else {
                    ForwarderAction::Drop
                }
            },
            QuicCommand::Shutdown => {
                self.finished = true;
                self.mouse_open = false;
                self.keyboard_open = false;
                ForwarderAction::FinishStreams
            },
        }
    }

    /// Records the outcome of a write the worker performed: a failure marks
    /// that class's stream unusable, so later payloads of the class are
    /// dropped silently — no retry, and no signal back to the capture
    /// thread.
    pub fn on_write_result(&mut self, class: Class, delivered: bool)
        ensures
            final(self).finished == old(self).finished,
            final(self).mouse_written@ == old(self).mouse_written@,
            final(self).keyboard_written@ == old(self).keyboard_written@,
            final(self).mouse_open == (old(self).mouse_open && (class is Keyboard
                || delivered)),
            final(self).keyboard_open == (old(self).keyboard_open && (class is Mouse
                || delivered)),
    {
        if !delivered {
            match class {
                Class::Mouse => {
                    self.mouse_open = false;
                },
                Class::Keyboard => {
                    self.keyboard_open = false;
                },
            }
        }
    }
}

/// The capture thread's handle to the forwarder queue. A send that the queue
/// refuses (the worker is gone) drops the handle, so every later send is a
/// silent no-op.
pub struct SenderLink {
    pub connected: bool,
}

impl SenderLink {
    /// A fresh handle to a just-spawned worker.
    pub fn new() -> (l: SenderLink)
        ensures
            l.connected,
    {
        SenderLink { connected: true }
    }

    /// Records one send attempt: `accepted` says whether the queue took the
    /// command. Nothing was attempted if the handle was already dropped.
    pub fn record_send(&mut self, accepted: bool)
        ensures
            final(self).connected == (old(self).connected && accepted),
    {
        if !accepted {
            self.connected = false;
        }
    }
}

} // verus!
