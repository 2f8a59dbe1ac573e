//! A packet is a header and a payload.  This module holds the contract that
//! every payload type meets, and the whole-message encoding and decoding.

use vstd::prelude::*;
use vstd::slice::{slice_subrange, slice_to_vec};
use std::sync::Arc;
use crate::client_update_data::{ClientUpdateData, EventSink};
use crate::error::DecodeError;
use crate::complete_agent_movement::lemma_complete_agent_movement_round_trip;
use crate::header::{lemma_parse_write, spec_parse, Header, HeaderView, PacketFrequency};
use crate::packet_types::{
    lemma_standard_dispatch, spec_dispatch, standard_table, PacketKind, PacketRegistry, PacketType,
};
use crate::reliability::ReliabilityCoordinator;
use crate::zerocode::{
    lemma_decode_encode, spec_zero_decode, spec_zero_encode, zero_decode, zero_encode,
};

verus! {

/// A coarse classification of messages, for routing and logging.  Dispatch
/// does not look at it.
#[derive(Debug, Clone, Copy, PartialEq, Eq, Structural)]
pub enum MessageType {
    Acknowledgment,
    Request,
    Event,
    Command,
    Error,
    Data,
    Outgoing,
}

/// What every payload type can do: be read from a body, be written back, say
/// what kind of message it is, and act when it is received.
///
/// The spec functions are the type's wire layout and its effect on receipt;
/// the executable functions are held to them.
pub trait PacketData: std::fmt::Debug + Send + Sync + 'static {
    /// The payload that `bytes` holds, or why it holds none.
    spec fn spec_from_bytes(bytes: Seq<u8>) -> Result<Self, DecodeError> where Self: Sized;

    /// The payload as it stands on the wire.
    spec fn spec_to_bytes(&self) -> Seq<u8>;

    /// The payload's classification.
    spec fn spec_message_type(&self) -> MessageType;

    /// The sequence numbers of the reliable sends that receiving this payload
    /// resolves.
    spec fn acknowledges(&self) -> Set<u32>;

    /// The events that receiving this payload appends for the application.
    spec fn emits(&self) -> Seq<ClientUpdateData>;

    /// Reads the payload from a body.
    fn from_bytes(bytes: &[u8]) -> (r: Result<Self, DecodeError>) where Self: Sized
        ensures
            r == Self::spec_from_bytes(bytes@),
    ;

    /// Writes the payload in its wire layout.
    fn to_bytes(&self) -> (bytes: Vec<u8>)
        ensures
            bytes@ == self.spec_to_bytes(),
    ;

    /// Runs after the payload was decoded: resolves the reliable sends it
    /// acknowledges and appends the events it stands for.  It touches nothing
    /// else: other sends stay in flight, and earlier events stay in place.
    fn on_receive(&self, queue: &mut ReliabilityCoordinator, update_stream: &mut EventSink)
        ensures
            final(queue).pending() == old(queue).pending().difference(self.acknowledges()),
            final(update_stream)@ == old(update_stream)@ + self.emits(),
    ;

    /// The payload's classification.
    fn message_type(&self) -> (kind: MessageType)
        ensures
            kind == self.spec_message_type(),
    ;
}

/// A header with its payload.  The payload sits behind a shared handle, so
/// that a handler may keep it while the decoder goes on.
#[derive(Debug, Clone, PartialEq, Eq)]
pub struct Packet {
    pub header: Header,
    pub body: Arc<PacketType>,
}

/// The body as the payload's decoder sees it: what follows the header,
/// expanded where the header says it is zerocoded.
pub open spec fn spec_plain_body(b: Seq<u8>, h: HeaderView) -> Option<Seq<u8>> {
    let raw = b.skip(h.size->Some_0 as int);
    if h.zerocoded {
        spec_zero_decode(raw)
    } else {
        Some(raw)
    }
}

/// The header that `b` starts with and the plain body behind it, or why
/// there is none.
pub open spec fn spec_frame(b: Seq<u8>) -> Result<(HeaderView, Seq<u8>), DecodeError> {
    match spec_parse(b) {
        Err(e) => Err(e),
        Ok(h) => match spec_plain_body(b, h) {
            None => Err(DecodeError::DanglingZero),
            Some(plain) => Ok((h, plain)),
        },
    }
}

/// The header and payload that the buffer `b` holds under the dispatch table
/// `table`, or why it holds none.
pub open spec fn spec_packet_decode_with(
    table: Map<(u16, PacketFrequency), PacketKind>,
    b: Seq<u8>,
) -> Result<(HeaderView, PacketType), DecodeError> {
    match spec_frame(b) {
        Err(e) => Err(e),
        Ok((h, plain)) => match spec_dispatch(table, h.id, h.frequency, plain) {
            Err(e) => Err(e),
            Ok(payload) => Ok((h, payload)),
        },
    }
}

/// The header and payload that the buffer `b` holds under the standard
/// catalogue, or why it holds none.
pub open spec fn spec_packet_decode(b: Seq<u8>) -> Result<(HeaderView, PacketType), DecodeError> {
    spec_packet_decode_with(standard_table(), b)
}

/// The buffer that carries `payload` under the header `h`: the header, then
/// the payload's bytes, zerocoded where the header says so.
pub open spec fn spec_packet_encode(h: HeaderView, payload: PacketType) -> Seq<u8> {
    h.spec_write() + if h.zerocoded {
        spec_zero_encode(payload.spec_to_bytes())
    } else {
        payload.spec_to_bytes()
    }
}

/// Reads the header of `bytes` and the body behind it, from the header's end
/// to the buffer's, expanded where the header says it is zerocoded.
pub fn read_frame(bytes: &[u8]) -> (r: Result<(Header, Vec<u8>), DecodeError>)
    ensures
        match r {
            Ok((header, plain)) => spec_frame(bytes@) == Ok::<(HeaderView, Seq<u8>), DecodeError>(
                (header@, plain@),
            ),
            Err(e) => spec_frame(bytes@) == Err::<(HeaderView, Seq<u8>), DecodeError>(e),
        },
        r matches Ok((header, _)) ==> header@.well_formed(),
{
    let header = match Header::try_from_bytes(bytes) {
        Ok(h) => h,
        Err(e) => {
            return Err(e);
        },
    };
    let offset = match header.size {
        Some(n) => n,
        None => bytes.len(),
    };
    let body = slice_subrange(bytes, offset, bytes.len());
    if header.zerocoded {
        match zero_decode(body) {
            Ok(plain) => Ok((header, plain)),
            Err(e) => Err(e),
        }
    } else {
        Ok((header, slice_to_vec(body)))
    }
}

impl Packet {
    /// Decodes a whole message under the standard catalogue: the header,
    /// then the body from the header's end, expanded where the header says it
    /// is zerocoded, then the payload that the identifier and frequency class
    /// name.
    pub fn from_bytes(bytes: &[u8]) -> (r: Result<Packet, DecodeError>)
        ensures
            match r {
                Ok(p) => spec_packet_decode(bytes@) == Ok::<(HeaderView, PacketType), DecodeError>(
                    (p.header@, *p.body),
                ),
                Err(e) => spec_packet_decode(bytes@) == Err::<(HeaderView, PacketType), DecodeError>(
                    e,
                ),
            },
            r matches Ok(p) ==> p.header@.well_formed(),
    {
        let (header, plain) = match read_frame(bytes) {
            Ok(frame) => frame,
            Err(e) => {
                return Err(e);
            },
        };
        proof {
            lemma_standard_dispatch(header.id, header.frequency, plain@);
        }
        match PacketType::from_id(header.id, header.frequency, plain.as_slice()) {
            Ok(payload) => Ok(Packet { header, body: payload.into_arc() }),
            Err(e) => Err(e),
        }
    }

    /// Decodes a whole message as `from_bytes` does, with the payload types
    /// that `registry` knows.
    pub fn from_bytes_with(registry: &PacketRegistry, bytes: &[u8]) -> (r: Result<
        Packet,
        DecodeError,
    >)
        ensures
            match r {
                Ok(p) => spec_packet_decode_with(registry@, bytes@) == Ok::<
                    (HeaderView, PacketType),
                    DecodeError,
                >((p.header@, *p.body)),
                Err(e) => spec_packet_decode_with(registry@, bytes@) == Err::<
                    (HeaderView, PacketType),
                    DecodeError,
                >(e),
            },
            r matches Ok(p) ==> p.header@.well_formed(),
    {
        let (header, plain) = match read_frame(bytes) {
            Ok(frame) => frame,
            Err(e) => {
                return Err(e);
            },
        };
        match registry.dispatch(header.id, header.frequency, plain.as_slice()) {
            Ok(payload) => Ok(Packet { header, body: payload.into_arc() }),
            Err(e) => Err(e),
        }
    }

    /// Encodes a whole message: the header, then the payload's bytes,
    /// zerocoded where the header's flag is set.
    pub fn to_bytes(&self) -> (bytes: Vec<u8>)
        requires
            self.header@.well_formed(),
        ensures
            bytes@ == spec_packet_encode(self.header@, *self.body),
    {
        let mut bytes = self.header.to_bytes();
        let payload = self.body.to_bytes();
        if self.header.zerocoded {
            let packed = zero_encode(payload.as_slice());
            bytes.extend_from_slice(packed.as_slice());
        } else {
            bytes.extend_from_slice(payload.as_slice());
        }
        bytes
    }
}

/// Decoding undoes encoding: where the header is well formed and the table
/// reads the payload back from its own bytes under the header's identifier
/// and frequency class, the encoded packet decodes to the same header, with
/// the body offset filled in, and the same payload.
pub proof fn lemma_packet_round_trip(
    table: Map<(u16, PacketFrequency), PacketKind>,
    h: HeaderView,
    payload: PacketType,
)
    requires
        h.well_formed(),
        spec_dispatch(table, h.id, h.frequency, payload.spec_to_bytes()) == Ok::<
            PacketType,
            DecodeError,
        >(payload),
    ensures
        spec_packet_decode_with(table, spec_packet_encode(h, payload)) == Ok::<
            (HeaderView, PacketType),
            DecodeError,
        >((h.with_size(h.spec_write().len()), payload)),
{
    let plain = payload.spec_to_bytes();
    let tail = if h.zerocoded {
        spec_zero_encode(plain)
    } else {
        plain
    };
    let b = h.spec_write() + tail;
    lemma_parse_write(h, tail);
    lemma_decode_encode(plain);
    assert(b.skip(h.spec_write().len() as int) =~= tail);
}

/// A packet made for a payload of the standard catalogue, under the
/// identifier and frequency class that the catalogue gives its kind, comes
/// back from its encoding.
pub proof fn lemma_standard_packet_round_trip(h: HeaderView, payload: PacketType)
    requires
        h.well_formed(),
        PacketType::catalogue(h.id, h.frequency) == Some(payload.spec_kind()),
    ensures
        spec_packet_decode(spec_packet_encode(h, payload)) == Ok::<
            (HeaderView, PacketType),
            DecodeError,
        >((h.with_size(h.spec_write().len()), payload)),
{
    match payload {
        PacketType::CompleteAgentMovement(data) => {
            lemma_complete_agent_movement_round_trip(data, Seq::empty());
        },
    }
    lemma_packet_round_trip(standard_table(), h, payload);
}

} // verus!
