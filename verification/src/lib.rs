//! Core logic of a remote input-forwarding session: a client captures local
//! keyboard and mouse input, frames it as self-contained binary events, and
//! forwards it over two per-class streams; a server admits a bounded number of
//! sessions, decodes the frames, and replays them in per-class order with a
//! failsafe modifier release when a stream ends.
//!
//! The OS input hook, the QUIC transport and the UI live outside this crate;
//! everything here is plain state and bytes, verified end to end.

use vstd::prelude::*;

pub mod admission;
pub mod capture;
pub mod codec;
pub mod event;
pub mod forwarder;
pub mod listener;
pub mod replay;
pub mod session;
pub mod startup;

verus! {

/// UDP port the server listens on by default.
pub const DEFAULT_PORT: u16 = 4433;

/// Keep-alive interval, in seconds, configured on the client's transport so
/// that idle capture pauses do not trip the transport-level timeout.
pub const KEEP_ALIVE_SECS: u64 = 5;

/// Default bound on concurrently admitted sessions.
pub const MAX_CONNECTIONS: usize = 16;

/// Per-read cap, in bytes, on a single inbound stream chunk.
pub const MAX_STREAM_DATA: usize = 64 * 1024;

} // verus!
