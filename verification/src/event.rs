//! Wire-level event model: the self-contained values that travel from the
//! capturing client to the replaying server, and the per-class commands the
//! capture thread hands to the forwarder.

use vstd::prelude::*;

verus! {

/// Identifier for the left control key, one of the two hotkey modifiers.
pub const KEY_CONTROL_LEFT: u32 = 1;

/// Identifier for the (left) alt key, the other hotkey modifier.
pub const KEY_ALT: u32 = 2;

/// Identifier for the "0" key on the main row; pressed with both modifiers
/// held it triggers the disconnect hotkey.
pub const KEY_NUM0: u32 = 3;

/// Identifier for the "0" key on the keypad; it triggers the hotkey too.
pub const KEY_KP0: u32 = 4;

/// Relative mouse movement since the last sample. The two fields carry the
/// IEEE 754 bit patterns of the signed displacements; this crate never does
/// arithmetic on them, it only moves them from one host to the other.
#[derive(Clone, Copy, PartialEq, Eq, Structural, Debug)]
pub struct MouseMove {
    pub dx_bits: u64,
    pub dy_bits: u64,
}

/// One self-contained input event. Every variant decodes independently of any
/// other frame; ordering meaning comes only from the stream it travels on.
#[derive(Clone, Copy, PartialEq, Eq, Structural, Debug)]
pub enum Event {
    /// A physical key went down.
    KeyPress(u32),
    /// A physical key came up.
    KeyRelease(u32),
    /// Relative cursor movement.
    MouseDelta(MouseMove),
    /// A mouse button went down.
    ButtonPress(u8),
    /// A mouse button came up.
    ButtonRelease(u8),
    /// Scroll deltas; a 0/0 wheel event is never emitted by capture.
    Wheel(i64, i64),
}

/// Decoding failure: the payload matches no known frame shape. The receiver
/// logs and discards such a frame; it is never fatal.
#[derive(Clone, Copy, PartialEq, Eq, Structural, Debug)]
pub enum DecodeError {
    Unknown,
}

/// The two outbound channels the client multiplexes onto, one per stream.
#[derive(Clone, Copy, PartialEq, Eq, Structural, Debug)]
pub enum Class {
    /// Mouse deltas, buttons and wheel events.
    Mouse,
    /// Key presses and releases.
    Keyboard,
}

/// One message on the capture-to-forwarder queue: an encoded payload tagged
/// with its class, or the terminal shutdown marker.
pub enum QuicCommand {
    Mouse(Vec<u8>),
    Keyboard(Vec<u8>),
    Shutdown,
}

/// Which outbound channel carries an event: keys travel on the keyboard
/// stream, everything else on the mouse stream.
pub open spec fn spec_class_of(e: Event) -> Class {
    match e {
        Event::KeyPress(_) => Class::Keyboard,
        Event::KeyRelease(_) => Class::Keyboard,
        Event::MouseDelta(_) => Class::Mouse,
        Event::ButtonPress(_) => Class::Mouse,
        Event::ButtonRelease(_) => Class::Mouse,
        Event::Wheel(_, _) => Class::Mouse,
    }
}

/// Executable form of [`spec_class_of`].
pub fn class_of(e: &Event) -> (c: Class)
    ensures
        c == spec_class_of(*e),
{
    match e {
        Event::KeyPress(_) => Class::Keyboard,
        Event::KeyRelease(_) => Class::Keyboard,
        Event::MouseDelta(_) => Class::Mouse,
        Event::ButtonPress(_) => Class::Mouse,
        Event::ButtonRelease(_) => Class::Mouse,
        Event::Wheel(_, _) => Class::Mouse,
    }
}

/// Is this key one of the two "0" keys that complete the disconnect chord?
pub open spec fn spec_is_zero_key(code: u32) -> bool {
    code == KEY_NUM0 || code == KEY_KP0
}

/// Executable form of [`spec_is_zero_key`].
pub fn is_zero_key(code: u32) -> (r: bool)
    ensures
        r == spec_is_zero_key(code),
{
    code == KEY_NUM0 || code == KEY_KP0
}

/// One raw sample as the OS hook delivers it to the capture callback. The
/// hook reports absolute cursor positions; the caller subtracts the fixed
/// reference point before handing the sample over, so a mouse sample already
/// carries its displacement (as IEEE 754 bit patterns).
#[derive(Clone, Copy, PartialEq, Eq, Structural, Debug)]
pub enum RawSample {
    /// A key transition: `pressed` is true for a press, false for a release.
    Key { code: u32, pressed: bool },
    /// The cursor moved; the fields are its displacement from the reference
    /// point.
    MouseMoved { dx_bits: u64, dy_bits: u64 },
    /// A mouse button transition.
    Button { button: u8, pressed: bool },
    /// A scroll step.
    Wheel { dx: i64, dy: i64 },
}

} // verus!
