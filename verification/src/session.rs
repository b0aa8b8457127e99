//! Client-side session bookkeeping: the generation counter that guards
//! against stale connect results, and validation of the user's connect
//! input. The actual dialing, and parsing of the textual IP address, happen
//! outside; this module decides what is attempted and which attempt's
//! result may be used.

use vstd::prelude::*;

verus! {

/// Tags every connect attempt with the generation current at its start. A
/// reset or reconnect bumps the generation, so a result that arrives
/// afterwards is recognized as stale and discarded silently.
pub struct SessionTracker {
    pub generation: u64,
}

impl SessionTracker {
    /// Starts at generation zero.
    pub fn new() -> (t: SessionTracker)
        ensures
            t.generation == 0,
    {
        SessionTracker { generation: 0 }
    }

    /// A reset or reconnect: every attempt tagged before this call becomes
    /// stale. The counter wraps rather than ever failing.
    pub fn bump(&mut self)
        ensures
            final(self).generation == (if old(self).generation == u64::MAX {
                0u64
            } else {
                (old(self).generation + 1) as u64
            }),
    {
        self.generation = self.generation.wrapping_add(1);
    }

    /// The tag to give an attempt starting now.
    pub fn current(&self) -> (g: u64)
        ensures
            g == self.generation,
    {
        self.generation
    }

    /// May the result of an attempt tagged `marker` still be used? Exactly
    /// when no bump happened since the attempt started.
    pub fn is_current(&self, marker: u64) -> (r: bool)
        ensures
            r == (marker == self.generation),
    {
        marker == self.generation
    }
}

/// One established session's close state. The transport-level close and
/// drain happen outside; this records whether they were already requested,
/// making close idempotent: closing an already-closed session is a no-op.
pub struct SessionHandle {
    pub closed: bool,
}

impl SessionHandle {
    /// A freshly connected session.
    pub fn new() -> (s: SessionHandle)
        ensures
            !s.closed,
    {
        SessionHandle { closed: false }
    }

    /// Requests close. Returns whether this call actually closed the
    /// session — false means it was closed before, and the caller must not
    /// send a second close signal.
    pub fn close(&mut self) -> (was_open: bool)
        ensures
            final(self).closed,
            was_open == !old(self).closed,
    {
        let was_open = !self.closed;
        self.closed = true;
        was_open
    }
}

/// Why a connect request was refused before any dialing happened.
#[derive(Clone, Copy, PartialEq, Eq, Structural, Debug)]
pub enum ConnectInputError {
    /// The (trimmed) address field was empty.
    MissingIp,
    /// The (trimmed) port field was empty.
    MissingPort,
    /// The port field is not a decimal number between 0 and 65535.
    InvalidPort,
}

/// ASCII decimal digit.
pub open spec fn spec_is_digit(b: u8) -> bool {
    48 <= b <= 57
}

/// Every byte is a decimal digit.
pub open spec fn spec_all_digits(s: Seq<u8>) -> bool {
    forall|i: int| 0 <= i < s.len() ==> spec_is_digit(#[trigger] s[i])
}

/// Value of a string of decimal digits, most significant first.
pub open spec fn spec_digits_value(s: Seq<u8>) -> int
    decreases s.len(),
{
    if s.len() == 0 {
        0
    } else {
        spec_digits_value(s.drop_last()) * 10 + (s.last() - 48)
    }
}

/// The digit part of a port string: a single leading `+` is tolerated, as
/// in the standard library's unsigned parser.
pub open spec fn spec_port_digits(s: Seq<u8>) -> Seq<u8> {
    if s.len() > 0 && s[0] == 43 {
        s.drop_first()
    } else {
        s
    }
}

/// A well-formed port string: optional `+`, then at least one digit, value
/// at most 65535.
pub open spec fn spec_valid_port(s: Seq<u8>) -> bool {
    let d = spec_port_digits(s);
    d.len() > 0 && spec_all_digits(d) && spec_digits_value(d) <= 65535
}

proof fn lemma_digits_value_nonneg(s: Seq<u8>)
    requires
        spec_all_digits(s),
    ensures
        spec_digits_value(s) >= 0,
    decreases s.len(),
{
    if s.len() > 0 {
        assert(spec_is_digit(s[s.len() - 1]));
        lemma_digits_value_nonneg(s.drop_last());
    }
}

/// Appending digits never shrinks the value, so a prefix that is already
/// too large condemns the whole string.
proof fn lemma_digits_prefix_le(s: Seq<u8>, i: int)
    requires
        spec_all_digits(s),
        0 <= i <= s.len(),
    ensures
        spec_digits_value(s.take(i)) <= spec_digits_value(s),
    decreases s.len() - i,
{
    if i < s.len() {
        lemma_digits_prefix_le(s, i + 1);
        assert(s.take(i + 1).drop_last() =~= s.take(i));
        assert(spec_is_digit(s[i]));
        assert(forall|j: int| 0 <= j < i + 1 ==> spec_is_digit(#[trigger] s.take(i + 1)[j]));
        lemma_digits_value_nonneg(s.take(i));
        assert(spec_digits_value(s.take(i + 1)) == spec_digits_value(s.take(i)) * 10 + (s[i]
            - 48));
    } else {
        assert(s.take(i) =~= s);
    }
}

/// Parses a port number exactly as the connect form does: a decimal string
/// (optionally `+`-signed) whose value fits a 16-bit port.
pub fn parse_port(s: &[u8]) -> (r: Result<u16, ConnectInputError>)
    ensures
        match r {
            Ok(v) => spec_valid_port(s@) && v == spec_digits_value(spec_port_digits(s@)),
            Err(e) => !spec_valid_port(s@) && e == ConnectInputError::InvalidPort,
        },
{
    let n = s.len();
    let start: usize = if n > 0 && *vstd::slice::slice_index_get(s, 0) == 43u8 {
        1
    } else {
        0
    };
    let ghost d: Seq<u8> = spec_port_digits(s@);
    proof {
        assert(d =~= s@.subrange(start as int, n as int));
    }
    if start == n {
        return Err(ConnectInputError::InvalidPort);
    }
    let mut value: u32 = 0;
    let mut i: usize = start;
    while i < n
        invariant
            start <= i <= n,
            n == s@.len(),
            d == spec_port_digits(s@),
            d == s@.subrange(start as int, n as int),
            spec_all_digits(d.take(i - start)),
            value == spec_digits_value(d.take(i - start)),
            value <= 65535,
        decreases n - i,
    {
        let b = *vstd::slice::slice_index_get(s, i);
        if b < 48u8 || b > 57u8 {
            assert(!spec_is_digit(d[i - start]));
            return Err(ConnectInputError::InvalidPort);
        }
        let digit: u32 = (b - 48u8) as u32;
        let next: u32 = value * 10 + digit;
        proof {
            assert(d.take(i + 1 - start).drop_last() =~= d.take(i - start));
        }
        if next > 65535u32 {
            proof {
                assert(d.take(i + 1 - start).last() == d[i - start]);
                assert(spec_digits_value(d.take(i + 1 - start)) == next);
                if spec_all_digits(d) {
                    lemma_digits_prefix_le(d, i + 1 - start);
                }
            }
            return Err(ConnectInputError::InvalidPort);
        }
        value = next;
        i = i + 1;
    }
    proof {
        assert(d.take(n - start) =~= d);
    }
    Ok(value as u16)
}

/// Validates the two text fields of the connect form, in the order the form
/// checks them: the address must be nonempty, then the port must be
/// nonempty, then the port must parse. The textual address itself is parsed
/// by the dialing layer. Both fields arrive already trimmed.
pub fn validate_connect_fields(ip: &[u8], port: &[u8]) -> (r: Result<u16, ConnectInputError>)
    ensures
        match r {
            Ok(v) => ip@.len() > 0 && port@.len() > 0 && spec_valid_port(port@) && v
                == spec_digits_value(spec_port_digits(port@)),
            Err(e) => match e {
                ConnectInputError::MissingIp => ip@.len() == 0,
                ConnectInputError::MissingPort => ip@.len() > 0 && port@.len() == 0,
                ConnectInputError::InvalidPort => ip@.len() > 0 && port@.len() > 0
                    && !spec_valid_port(port@),
            },
        },
{
    if ip.len() == 0 {
        return Err(ConnectInputError::MissingIp);
    }
    if port.len() == 0 {
        return Err(ConnectInputError::MissingPort);
    }
    parse_port(port)
}

} // verus!
