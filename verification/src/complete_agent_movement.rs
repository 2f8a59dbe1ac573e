//! The message with which a client tells the simulator that its agent has
//! arrived: a circuit code and the session's and the agent's identifiers.
//!
//! The body is 36 bytes: the circuit code as a little-endian 32-bit number,
//! then the sixteen octets of the session identifier, then those of the
//! agent identifier.

use vstd::prelude::*;
use vstd::slice::slice_subrange;
use std::sync::Arc;
use crate::client_update_data::{ClientUpdateData, EventSink};
use crate::error::DecodeError;
use crate::header::{Header, HeaderView, PacketFrequency};
use crate::packet::{MessageType, Packet, PacketData};
use crate::packet_types::PacketType;
use crate::reliability::ReliabilityCoordinator;
use crate::unique_id::{lemma_unique_id_from_seq, UniqueId};
use crate::wire::{lemma_u32_le_round_trip, push_u32_le, read_u32_le, u32_from_le, u32_le_bytes};

verus! {

/// The identifier of this message within the Low frequency class.
pub const COMPLETE_AGENT_MOVEMENT_ID: u16 = 249;

/// The length of the body.
pub const COMPLETE_AGENT_MOVEMENT_LEN: usize = 36;

/// What the message carries.
#[derive(Debug, Clone, Copy, PartialEq, Eq)]
pub struct CompleteAgentMovementData {
    pub agent_id: UniqueId,
    pub session_id: UniqueId,
    pub circuit_code: u32,
}

impl Packet {
    /// A packet that carries `complete_agent_movement_data`, with a fresh
    /// header: no flag set, sequence number zero, no acknowledgments.
    pub fn new_complete_agent_movement(
        complete_agent_movement_data: CompleteAgentMovementData,
    ) -> (packet: Packet)
        ensures
            packet.header@ == (HeaderView {
                id: COMPLETE_AGENT_MOVEMENT_ID,
                frequency: PacketFrequency::Low,
                reliable: false,
                sequence_number: 0,
                appended_acks: false,
                zerocoded: false,
                resent: false,
                ack_list: None,
                size: None,
            }),
            packet.header@.well_formed(),
            *packet.body == PacketType::CompleteAgentMovement(complete_agent_movement_data),
    {
        Packet {
            header: Header {
                id: COMPLETE_AGENT_MOVEMENT_ID,
                frequency: PacketFrequency::Low,
                reliable: false,
                sequence_number: 0,
                appended_acks: false,
                zerocoded: false,
                resent: false,
                ack_list: None,
                size: None,
            },
            body: Arc::new(PacketType::CompleteAgentMovement(complete_agent_movement_data)),
        }
    }
}

impl PacketData for CompleteAgentMovementData {
    open spec fn spec_from_bytes(bytes: Seq<u8>) -> Result<Self, DecodeError> {
        if bytes.len() < COMPLETE_AGENT_MOVEMENT_LEN {
            Err(DecodeError::TruncatedField)
        } else {
            Ok(
                CompleteAgentMovementData {
                    circuit_code: u32_from_le(bytes[0], bytes[1], bytes[2], bytes[3]),
                    session_id: UniqueId::spec_from_seq(bytes.subrange(4, 20)),
                    agent_id: UniqueId::spec_from_seq(bytes.subrange(20, 36)),
                },
            )
        }
    }

    open spec fn spec_to_bytes(&self) -> Seq<u8> {
        u32_le_bytes(self.circuit_code) + self.session_id@ + self.agent_id@
    }

    open spec fn spec_message_type(&self) -> MessageType {
        MessageType::Outgoing
    }

    open spec fn acknowledges(&self) -> Set<u32> {
        Set::empty()
    }

    open spec fn emits(&self) -> Seq<ClientUpdateData> {
        Seq::empty()
    }

    /// Reads the three fields from the first 36 bytes of the body; what
    /// follows them is not looked at.  Fails on a shorter body.
    fn from_bytes(bytes: &[u8]) -> (r: Result<Self, DecodeError>) {
        if bytes.len() < COMPLETE_AGENT_MOVEMENT_LEN {
            return Err(DecodeError::TruncatedField);
        }
        let circuit_code = match read_u32_le(bytes, 0) {
            Some(n) => n,
            None => {
                return Err(DecodeError::TruncatedField);
            },
        };
        let session_id = match UniqueId::from_slice(slice_subrange(bytes, 4, 20)) {
            Ok(id) => id,
            Err(e) => {
                return Err(e);
            },
        };
        let agent_id = match UniqueId::from_slice(slice_subrange(bytes, 20, 36)) {
            Ok(id) => id,
            Err(e) => {
                return Err(e);
            },
        };
        Ok(CompleteAgentMovementData { agent_id, session_id, circuit_code })
    }

    fn to_bytes(&self) -> (bytes: Vec<u8>) {
        let mut bytes: Vec<u8> = Vec::with_capacity(COMPLETE_AGENT_MOVEMENT_LEN);
        push_u32_le(&mut bytes, self.circuit_code);
        bytes.extend_from_slice(self.session_id.as_bytes());
        bytes.extend_from_slice(self.agent_id.as_bytes());
        bytes
    }

    /// Nothing is defined yet for the receipt of this message: it resolves no
    /// send and appends no event.
    fn on_receive(&self, queue: &mut ReliabilityCoordinator, update_stream: &mut EventSink) {
        assert(queue.pending().difference(self.acknowledges()) =~= queue.pending());
        assert(update_stream@ + self.emits() =~= update_stream@);
    }

    fn message_type(&self) -> (kind: MessageType) {
        MessageType::Outgoing
    }
}

/// The layout reads back what it writes, and writes back what it reads from
/// a body of exactly 36 bytes.
pub proof fn lemma_complete_agent_movement_round_trip(
    data: CompleteAgentMovementData,
    body: Seq<u8>,
)
    ensures
        data.spec_to_bytes().len() == COMPLETE_AGENT_MOVEMENT_LEN,
        CompleteAgentMovementData::spec_from_bytes(data.spec_to_bytes()) == Ok::<
            CompleteAgentMovementData,
            DecodeError,
        >(data),
        body.len() == COMPLETE_AGENT_MOVEMENT_LEN ==> CompleteAgentMovementData::spec_from_bytes(
            body,
        ) is Ok && CompleteAgentMovementData::spec_from_bytes(body)->Ok_0.spec_to_bytes() == body,
{
    lemma_u32_le_round_trip(data.circuit_code, 0, 0, 0, 0);
    assert(UniqueId::spec_from_seq(data.session_id@).bytes =~= data.session_id.bytes);
    assert(UniqueId::spec_from_seq(data.agent_id@).bytes =~= data.agent_id.bytes);
    if body.len() == COMPLETE_AGENT_MOVEMENT_LEN {
        lemma_u32_le_round_trip(0, body[0], body[1], body[2], body[3]);
        lemma_unique_id_from_seq(body.subrange(4, 20));
        lemma_unique_id_from_seq(body.subrange(20, 36));
    }
}

} // verus!
