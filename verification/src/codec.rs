//! Binary framing of [`Event`] values: every event becomes one
//! self-describing frame, and a frame decodes back to exactly the event it
//! came from. The first byte tags the variant, so the receiver needs no
//! out-of-band type information; fixed-width little-endian fields follow.

use vstd::prelude::*;

use crate::event::{DecodeError, Event, MouseMove};
use vstd::bytes::lemma_auto_spec_u32_to_from_le_bytes;
use vstd::bytes::lemma_auto_spec_u64_to_from_le_bytes;
use vstd::bytes::spec_u32_from_le_bytes;
use vstd::bytes::spec_u32_to_le_bytes;
use vstd::bytes::spec_u64_from_le_bytes;
use vstd::bytes::spec_u64_to_le_bytes;
use vstd::bytes::u32_from_le_bytes;
use vstd::bytes::u32_to_le_bytes;
use vstd::bytes::u64_from_le_bytes;
use vstd::bytes::u64_to_le_bytes;
use vstd::slice::slice_index_get;
use vstd::slice::slice_subrange;

verus! {

pub const TAG_KEY_PRESS: u8 = 1;

pub const TAG_KEY_RELEASE: u8 = 2;

pub const TAG_BUTTON_PRESS: u8 = 3;

pub const TAG_BUTTON_RELEASE: u8 = 4;

pub const TAG_WHEEL: u8 = 5;

pub const TAG_MOUSE_DELTA: u8 = 6;

/// Two's-complement bit pattern of a signed scroll delta, as carried on the
/// wire.
pub open spec fn spec_i64_to_bits(x: i64) -> u64 {
    if x >= 0 {
        x as u64
    } else {
        (x + 0x1_0000_0000_0000_0000) as u64
    }
}

/// The signed value a wire bit pattern stands for.
pub open spec fn spec_i64_from_bits(x: u64) -> i64 {
    if x <= 0x7fff_ffff_ffff_ffff {
        x as i64
    } else {
        (x - 0x1_0000_0000_0000_0000) as i64
    }
}

pub proof fn lemma_i64_bits_roundtrip(x: i64)
    ensures
        spec_i64_from_bits(spec_i64_to_bits(x)) == x,
{
}

fn i64_to_bits(x: i64) -> (r: u64)
    ensures
        r == spec_i64_to_bits(x),
{
    if x >= 0 {
        x as u64
    } else {
        let y: i64 = (x + 1) + 0x7fff_ffff_ffff_ffff;
        (y as u64) + 0x8000_0000_0000_0000u64
    }
}

fn i64_from_bits(x: u64) -> (r: i64)
    ensures
        r == spec_i64_from_bits(x),
{
    if x <= 0x7fff_ffff_ffff_ffff {
        x as i64
    } else {
        let y: u64 = x - 0x8000_0000_0000_0000;
        ((y as i64) - 0x7fff_ffff_ffff_ffff) - 1
    }
}

/// The frame an event is serialized to: a tag byte, then the variant's
/// fixed-width little-endian fields.
pub open spec fn spec_encode(e: Event) -> Seq<u8> {
    match e {
        Event::KeyPress(code) => seq![TAG_KEY_PRESS] + spec_u32_to_le_bytes(code),
        Event::KeyRelease(code) => seq![TAG_KEY_RELEASE] + spec_u32_to_le_bytes(code),
        Event::ButtonPress(b) => seq![TAG_BUTTON_PRESS, b],
        Event::ButtonRelease(b) => seq![TAG_BUTTON_RELEASE, b],
        Event::Wheel(dx, dy) => seq![TAG_WHEEL] + spec_u64_to_le_bytes(spec_i64_to_bits(dx))
            + spec_u64_to_le_bytes(spec_i64_to_bits(dy)),
        Event::MouseDelta(m) => seq![TAG_MOUSE_DELTA] + spec_u64_to_le_bytes(m.dx_bits)
            + spec_u64_to_le_bytes(m.dy_bits),
    }
}

/// Total decoding function: `Some(e)` exactly when the bytes are a
/// well-formed frame for `e`, `None` for every other payload.
pub open spec fn spec_decode(b: Seq<u8>) -> Option<Event> {
    if b.len() == 0 {
        None
    } else if b[0] == TAG_KEY_PRESS && b.len() == 5 {
        Some(Event::KeyPress(spec_u32_from_le_bytes(b.subrange(1, 5))))
    } else if b[0] == TAG_KEY_RELEASE && b.len() == 5 {
        Some(Event::KeyRelease(spec_u32_from_le_bytes(b.subrange(1, 5))))
    } else if b[0] == TAG_BUTTON_PRESS && b.len() == 2 {
        Some(Event::ButtonPress(b[1]))
    } else if b[0] == TAG_BUTTON_RELEASE && b.len() == 2 {
        Some(Event::ButtonRelease(b[1]))
    } else if b[0] == TAG_WHEEL && b.len() == 17 {
        Some(
            Event::Wheel(
                spec_i64_from_bits(spec_u64_from_le_bytes(b.subrange(1, 9))),
                spec_i64_from_bits(spec_u64_from_le_bytes(b.subrange(9, 17))),
            ),
        )
    } else if b[0] == TAG_MOUSE_DELTA && b.len() == 17 {
        Some(
            Event::MouseDelta(
                MouseMove {
                    dx_bits: spec_u64_from_le_bytes(b.subrange(1, 9)),
                    dy_bits: spec_u64_from_le_bytes(b.subrange(9, 17)),
                },
            ),
        )
    } else {
        None
    }
}

/// Serializes one event into one frame.
pub fn encode(e: &Event) -> (out: Vec<u8>)
    ensures
        out@ == spec_encode(*e),
{
    proof {
        lemma_auto_spec_u32_to_from_le_bytes();
        lemma_auto_spec_u64_to_from_le_bytes();
    }
    let mut out: Vec<u8> = Vec::new();
    match e {
        Event::KeyPress(code) => {
            out.push(TAG_KEY_PRESS);
            let mut bs = u32_to_le_bytes(*code);
            out.append(&mut bs);
            assert(out@ =~= spec_encode(*e));
        },
        Event::KeyRelease(code) => {
            out.push(TAG_KEY_RELEASE);
            let mut bs = u32_to_le_bytes(*code);
            out.append(&mut bs);
            assert(out@ =~= spec_encode(*e));
        },
        Event::ButtonPress(b) => {
            out.push(TAG_BUTTON_PRESS);
            out.push(*b);
            assert(out@ =~= spec_encode(*e));
        },
        Event::ButtonRelease(b) => {
            out.push(TAG_BUTTON_RELEASE);
            out.push(*b);
            assert(out@ =~= spec_encode(*e));
        },
        Event::Wheel(dx, dy) => {
            out.push(TAG_WHEEL);
            let mut xs = u64_to_le_bytes(i64_to_bits(*dx));
            out.append(&mut xs);
            let mut ys = u64_to_le_bytes(i64_to_bits(*dy));
            out.append(&mut ys);
            assert(out@ =~= spec_encode(*e));
        },
        Event::MouseDelta(m) => {
            out.push(TAG_MOUSE_DELTA);
            let mut xs = u64_to_le_bytes(m.dx_bits);
            out.append(&mut xs);
            let mut ys = u64_to_le_bytes(m.dy_bits);
            out.append(&mut ys);
            assert(out@ =~= spec_encode(*e));
        },
    }
    out
}

/// Parses one frame; an unrecognized payload is reported, never fatal.
pub fn decode(bytes: &[u8]) -> (r: Result<Event, DecodeError>)
    ensures
        r matches Ok(e) ==> spec_decode(bytes@) == Some(e),
        r is Err ==> spec_decode(bytes@) is None && r == Err::<Event, DecodeError>(
            DecodeError::Unknown,
        ),
{
    let n = bytes.len();
    if n == 0 {
        return Err(DecodeError::Unknown);
    }
    let tag = *slice_index_get(bytes, 0);
    if tag == TAG_KEY_PRESS && n == 5 {
        let code = u32_from_le_bytes(slice_subrange(bytes, 1, 5));
        Ok(Event::KeyPress(code))
    } else if tag == TAG_KEY_RELEASE && n == 5 {
        let code = u32_from_le_bytes(slice_subrange(bytes, 1, 5));
        Ok(Event::KeyRelease(code))
    } else if tag == TAG_BUTTON_PRESS && n == 2 {
        Ok(Event::ButtonPress(*slice_index_get(bytes, 1)))
    } else if tag == TAG_BUTTON_RELEASE && n == 2 {
        Ok(Event::ButtonRelease(*slice_index_get(bytes, 1)))
    } else if tag == TAG_WHEEL && n == 17 {
        let dx = i64_from_bits(u64_from_le_bytes(slice_subrange(bytes, 1, 9)));
        let dy = i64_from_bits(u64_from_le_bytes(slice_subrange(bytes, 9, 17)));
        Ok(Event::Wheel(dx, dy))
    } else if tag == TAG_MOUSE_DELTA && n == 17 {
        let dx_bits = u64_from_le_bytes(slice_subrange(bytes, 1, 9));
        let dy_bits = u64_from_le_bytes(slice_subrange(bytes, 9, 17));
        Ok(Event::MouseDelta(MouseMove { dx_bits, dy_bits }))
    } else {
        Err(DecodeError::Unknown)
    }
}

/// Round trip: decoding the frame an event was encoded to yields that event
/// again, for every variant and every field value.
pub proof fn lemma_decode_encode(e: Event)
    ensures
        spec_decode(spec_encode(e)) == Some(e),
{
    lemma_auto_spec_u32_to_from_le_bytes();
    lemma_auto_spec_u64_to_from_le_bytes();
    let b = spec_encode(e);
    match e {
        Event::KeyPress(code) => {
            assert(b.subrange(1, 5) =~= spec_u32_to_le_bytes(code));
        },
        Event::KeyRelease(code) => {
            assert(b.subrange(1, 5) =~= spec_u32_to_le_bytes(code));
        },
        Event::ButtonPress(_) => {
        },
        Event::ButtonRelease(_) => {
        },
        Event::Wheel(dx, dy) => {
            assert(b.subrange(1, 9) =~= spec_u64_to_le_bytes(spec_i64_to_bits(dx)));
            assert(b.subrange(9, 17) =~= spec_u64_to_le_bytes(spec_i64_to_bits(dy)));
            lemma_i64_bits_roundtrip(dx);
            lemma_i64_bits_roundtrip(dy);
        },
        Event::MouseDelta(m) => {
            assert(b.subrange(1, 9) =~= spec_u64_to_le_bytes(m.dx_bits));
            assert(b.subrange(9, 17) =~= spec_u64_to_le_bytes(m.dy_bits));
        },
    }
}

/// Frames are unambiguous: distinct events never encode to the same bytes.
pub proof fn lemma_encode_injective(e1: Event, e2: Event)
    requires
        spec_encode(e1) == spec_encode(e2),
    ensures
        e1 == e2,
{
    lemma_decode_encode(e1);
    lemma_decode_encode(e2);
}

} // verus!
