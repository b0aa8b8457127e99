//! Capture-side state machine: tracks the hotkey modifiers, recognizes the
//! disconnect chord, and suppresses the one-sample echo produced by the
//! programmatic cursor re-centering that follows every forwarded delta.
//!
//! The blocking OS hook itself lives outside this crate; its callback hands
//! every raw sample to [`Capture::on_sample`] and performs the returned
//! action (forward, re-center, or tear down).

use vstd::prelude::*;

use crate::event::{
    spec_is_zero_key, Event, MouseMove, RawSample, KEY_ALT, KEY_CONTROL_LEFT,
};

verus! {

/// Hotkey modifier tracking: which of left-control and alt are held, as seen
/// from the stream of key events. Created at capture start, reset when the
/// hotkey stops capture.
#[derive(Clone, Copy, PartialEq, Eq, Structural, Debug)]
pub struct ModifierState {
    pub ctrl_left: bool,
    pub alt_left: bool,
}

/// The modifier state after observing one key transition: only the two
/// modifier keys change anything.
pub open spec fn spec_update(m: ModifierState, code: u32, pressed: bool) -> ModifierState {
    if code == KEY_CONTROL_LEFT {
        ModifierState { ctrl_left: pressed, alt_left: m.alt_left }
    } else if code == KEY_ALT {
        ModifierState { ctrl_left: m.ctrl_left, alt_left: pressed }
    } else {
        m
    }
}

impl ModifierState {
    /// Fresh state: nothing held.
    pub fn new() -> (m: ModifierState)
        ensures
            m == (ModifierState { ctrl_left: false, alt_left: false }),
    {
        ModifierState { ctrl_left: false, alt_left: false }
    }

    /// Records one key transition.
    pub fn update(&mut self, code: u32, pressed: bool)
        ensures
            *final(self) == spec_update(*old(self), code, pressed),
    {
        if code == KEY_CONTROL_LEFT {
            self.ctrl_left = pressed;
        } else if code == KEY_ALT {
            self.alt_left = pressed;
        }
    }

    /// Are both chord modifiers currently held?
    pub fn ctrl_alt_active(&self) -> (r: bool)
        ensures
            r == (self.ctrl_left && self.alt_left),
    {
        self.ctrl_left && self.alt_left
    }
}

/// What the hook callback must do with one raw sample.
#[derive(Clone, Copy, PartialEq, Eq, Structural, Debug)]
pub enum CaptureAction {
    /// Forward this event on its class's channel.
    Forward(Event),
    /// Forward the delta on the mouse channel, then move the real cursor
    /// back to the reference point.
    ForwardAndRecenter(MouseMove),
    /// The sample is the echo of a previous re-centering: drop it.
    Swallow,
    /// A zero/zero wheel sample: never emitted.
    Discard,
    /// The disconnect hotkey completed: send the shutdown marker, close the
    /// session, and leave the capture loop. The chord press itself is not
    /// forwarded.
    Disconnect,
}

/// State owned by one capture session.
#[derive(Clone, Copy, PartialEq, Eq, Structural, Debug)]
pub struct Capture {
    /// Whether a capture loop is active; a second start is a no-op while it
    /// is.
    pub running: bool,
    /// Set right after a programmatic re-centering, so that exactly the next
    /// mouse sample is discarded as its echo.
    pub ignore_next_mouse: bool,
    pub modifiers: ModifierState,
}

/// Does this sample complete the disconnect chord, given the modifiers held
/// before it? Both modifiers must be down when one of the "0" keys is
/// pressed; a release never fires it, and neither does "0" with a modifier
/// already released.
pub open spec fn spec_hotkey_fires(m: ModifierState, s: RawSample) -> bool {
    &&& s matches RawSample::Key { code, pressed }
    &&& pressed
    &&& spec_is_zero_key(code)
    &&& spec_update(m, code, pressed).ctrl_left
    &&& spec_update(m, code, pressed).alt_left
}

/// One step of the capture state machine: the state after a raw sample, and
/// the action the hook callback must take for it.
pub open spec fn spec_on_sample(st: Capture, s: RawSample) -> (Capture, CaptureAction) {
    match s {
        RawSample::Key { code, pressed } => {
            let m2 = spec_update(st.modifiers, code, pressed);
            if spec_hotkey_fires(st.modifiers, s) {
                (
                    Capture {
                        running: false,
                        ignore_next_mouse: st.ignore_next_mouse,
                        modifiers: ModifierState { ctrl_left: false, alt_left: false },
                    },
                    CaptureAction::Disconnect,
                )
            } else {
                (
                    Capture { running: st.running, ignore_next_mouse: st.ignore_next_mouse, modifiers: m2 },
                    CaptureAction::Forward(
                        if pressed {
                            Event::KeyPress(code)
                        } else {
                            Event::KeyRelease(code)
                        },
                    ),
                )
            }
        },
        RawSample::MouseMoved { dx_bits, dy_bits } => {
            if st.ignore_next_mouse {
                (
                    Capture { running: st.running, ignore_next_mouse: false, modifiers: st.modifiers },
                    CaptureAction::Swallow,
                )
            } else {
                (
                    Capture { running: st.running, ignore_next_mouse: true, modifiers: st.modifiers },
                    CaptureAction::ForwardAndRecenter(MouseMove { dx_bits, dy_bits }),
                )
            }
        },
        RawSample::Button { button, pressed } => {
            (
                st,
                CaptureAction::Forward(
                    if pressed {
                        Event::ButtonPress(button)
                    } else {
                        Event::ButtonRelease(button)
                    },
                ),
            )
        },
        RawSample::Wheel { dx, dy } => {
            if dx == 0 && dy == 0 {
                (st, CaptureAction::Discard)
            } else {
                (st, CaptureAction::Forward(Event::Wheel(dx, dy)))
            }
        },
    }
}

impl Capture {
    /// A session that has not started yet.
    pub fn new() -> (c: Capture)
        ensures
            c == (Capture {
                running: false,
                ignore_next_mouse: false,
                modifiers: ModifierState { ctrl_left: false, alt_left: false },
            }),
    {
        Capture {
            running: false,
            ignore_next_mouse: false,
            modifiers: ModifierState { ctrl_left: false, alt_left: false },
        }
    }

    /// Starts a capture loop unless one is already active: starting twice is
    /// a no-op, not an error. A real start begins from fresh modifier and
    /// echo state.
    pub fn try_start(&mut self) -> (started: bool)
        ensures
            started == !old(self).running,
            final(self).running,
            started ==> *final(self) == (Capture {
                running: true,
                ignore_next_mouse: false,
                modifiers: ModifierState { ctrl_left: false, alt_left: false },
            }),
            !started ==> *final(self) == *old(self),
    {
        if self.running {
            false
        } else {
            self.running = true;
            self.ignore_next_mouse = false;
            self.modifiers = ModifierState::new();
            true
        }
    }

    /// Cooperative stop, as when the capture loop winds down for any reason:
    /// clears the running flag so a later start can succeed, and drops the
    /// per-session state.
    pub fn stop(&mut self)
        ensures
            *final(self) == (Capture {
                running: false,
                ignore_next_mouse: false,
                modifiers: ModifierState { ctrl_left: false, alt_left: false },
            }),
    {
        self.running = false;
        self.ignore_next_mouse = false;
        self.modifiers = ModifierState::new();
    }

    /// Processes one raw sample from the OS hook.
    pub fn on_sample(&mut self, s: RawSample) -> (a: CaptureAction)
        requires
            old(self).running,
        ensures
            *final(self) == spec_on_sample(*old(self), s).0,
            a == spec_on_sample(*old(self), s).1,
            a == CaptureAction::Disconnect <==> spec_hotkey_fires(old(self).modifiers, s),
            a == CaptureAction::Disconnect <==> !final(self).running,
    {
        match s {
            RawSample::Key { code, pressed } => {
                self.modifiers.update(code, pressed);
                if pressed && self.modifiers.ctrl_alt_active() && crate::event::is_zero_key(code) {
                    self.running = false;
                    self.modifiers = ModifierState::new();
                    CaptureAction::Disconnect
                } else {
                    if pressed {
                        CaptureAction::Forward(Event::KeyPress(code))
                    } else {
                        CaptureAction::Forward(Event::KeyRelease(code))
                    }
                }
            },
            RawSample::MouseMoved { dx_bits, dy_bits } => {
                if self.ignore_next_mouse {
                    self.ignore_next_mouse = false;
                    CaptureAction::Swallow
                } else {
                    self.ignore_next_mouse = true;
                    CaptureAction::ForwardAndRecenter(MouseMove { dx_bits, dy_bits })
                }
            },
            RawSample::Button { button, pressed } => {
                if pressed {
                    CaptureAction::Forward(Event::ButtonPress(button))
                } else {
                    CaptureAction::Forward(Event::ButtonRelease(button))
                }
            },
            RawSample::Wheel { dx, dy } => {
                if dx == 0 && dy == 0 {
                    CaptureAction::Discard
                } else {
                    CaptureAction::Forward(Event::Wheel(dx, dy))
                }
            },
        }
    }
}

/// The state after the first `i` samples of a run have been processed.
pub open spec fn spec_state_after(st: Capture, samples: Seq<RawSample>, i: int) -> Capture
    decreases i,
{
    if i <= 0 {
        st
    } else {
        spec_on_sample(spec_state_after(st, samples, i - 1), samples[i - 1]).0
    }
}

/// The action taken for sample `i` of a run.
pub open spec fn spec_action_at(st: Capture, samples: Seq<RawSample>, i: int) -> CaptureAction {
    spec_on_sample(spec_state_after(st, samples, i), samples[i]).1
}

/// Hotkey law: in any interleaving of samples, the disconnect action fires
/// at step `i` exactly when both modifiers are held there and sample `i`
/// presses one of the "0" keys. In particular, releasing either modifier
/// before the "0" press means no disconnect at that press.
pub proof fn lemma_hotkey_iff(st: Capture, samples: Seq<RawSample>, i: int)
    requires
        0 <= i < samples.len(),
    ensures
        spec_action_at(st, samples, i) == CaptureAction::Disconnect <==> spec_hotkey_fires(
            spec_state_after(st, samples, i).modifiers,
            samples[i],
        ),
{
}

/// How many of the first `i` actions of a run emit a mouse delta.
pub open spec fn spec_emitted_through(
    st: Capture,
    samples: Seq<RawSample>,
    i: int,
) -> nat
    decreases i,
{
    if i <= 0 {
        0
    } else {
        spec_emitted_through(st, samples, i - 1) + (if spec_action_at(
            st,
            samples,
            i - 1,
        ) is ForwardAndRecenter {
            1nat
        } else {
            0nat
        })
    }
}

/// How many of the first `i` tags mark a sample as physical (not the echo of
/// a re-centering).
pub open spec fn spec_physical_through(tags: Seq<bool>, i: int) -> nat
    decreases i,
{
    if i <= 0 {
        0
    } else {
        spec_physical_through(tags, i - 1) + (if tags[i - 1] {
            0nat
        } else {
            1nat
        })
    }
}

/// Echo-suppression law. Take any run of mouse samples in which `tags` marks
/// the programmatic ones — the echoes of the machine's own re-centering
/// moves. The hook delivers each such echo as the very next sample after the
/// re-centering that caused it, which is exactly the hypothesis that a
/// sample is programmatic when and only when the ignore flag is set as it
/// arrives. Then every programmatic sample is swallowed exactly once,
/// no physical sample is ever swallowed (so none is double-swallowed when no
/// compensating move is pending), and the number of emitted deltas equals
/// the number of physical samples.
pub proof fn lemma_echo_suppression(st: Capture, samples: Seq<RawSample>, tags: Seq<bool>, n: int)
    requires
        0 <= n <= samples.len(),
        tags.len() == samples.len(),
        forall|i: int| 0 <= i < samples.len() ==> samples[i] is MouseMoved,
        forall|i: int|
            0 <= i < samples.len() ==> tags[i] == spec_state_after(
                st,
                samples,
                i,
            ).ignore_next_mouse,
    ensures
        forall|i: int|
            0 <= i < n ==> (spec_action_at(st, samples, i) == CaptureAction::Swallow <==> tags[i]),
        forall|i: int|
            0 <= i < n ==> (spec_action_at(st, samples, i) is ForwardAndRecenter <==> !tags[i]),
        spec_emitted_through(st, samples, n) == spec_physical_through(tags, n),
    decreases n,
{
    if n > 0 {
        lemma_echo_suppression(st, samples, tags, n - 1);
        assert(samples[n - 1] is MouseMoved);
        assert(tags[n - 1] == spec_state_after(st, samples, n - 1).ignore_next_mouse);
    }
}

} // verus!
