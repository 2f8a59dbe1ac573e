//! The failures that decoding a buffer can report.

use vstd::prelude::*;
use crate::header::PacketFrequency;

verus! {

/// Why a buffer could not be decoded.  Every variant is recoverable: the
/// caller decides whether to drop the packet or the circuit.
#[derive(Debug, Clone, Copy, PartialEq, Eq, Structural)]
pub enum DecodeError {
    /// The buffer ends before the fixed header fields that its flags and
    /// identifier bytes announce.
    TruncatedHeader,
    /// The acknowledgment count announces more entries than the buffer holds.
    TruncatedAckList,
    /// A zero byte stands at the end of a zerocoded body, with no count byte.
    DanglingZero,
    /// No payload type is known for this identifier and frequency class.
    UnknownMessage { id: u16, frequency: PacketFrequency },
    /// The body ends before the payload's fixed layout does.
    TruncatedField,
    /// A fixed-width field has the right place but not a valid content.
    InvalidField,
}

/// A mistake in how the caller set things up, as opposed to a bad buffer.
#[derive(Debug, Clone, Copy, PartialEq, Eq, Structural)]
pub enum ConfigError {
    /// A payload type is already registered for this identifier and
    /// frequency class.
    DuplicateMessage { id: u16, frequency: PacketFrequency },
    /// A reliable send with this sequence number is already in flight.
    DuplicateSequence { sequence_number: u32 },
}

} // verus!
