//! Which payload type an identifier and a frequency class name.
//!
//! The payload types are a closed set, `PacketType`.  The table that maps an
//! identifier and a frequency class to one of them is open: `PacketRegistry`
//! starts empty or with the standard catalogue, and takes further entries.

use vstd::prelude::*;
use std::sync::Arc;
use crate::client_update_data::{ClientUpdateData, EventSink};
use crate::complete_agent_movement::{CompleteAgentMovementData, COMPLETE_AGENT_MOVEMENT_ID};
use crate::error::{ConfigError, DecodeError};
use crate::header::PacketFrequency;
use crate::packet::{MessageType, PacketData};
use crate::reliability::ReliabilityCoordinator;

verus! {

/// Names a payload type, and with it the decoder that reads one from a body.
#[derive(Debug, Clone, Copy, PartialEq, Eq, Structural)]
pub enum PacketKind {
    CompleteAgentMovement,
}

/// A decoded payload of any known type.
#[derive(Debug, Clone, Copy, PartialEq, Eq)]
pub enum PacketType {
    CompleteAgentMovement(CompleteAgentMovementData),
}

impl PacketKind {
    /// The payload of this kind that `body` holds, or why it holds none.
    pub open spec fn spec_decode(self, body: Seq<u8>) -> Result<PacketType, DecodeError> {
        match self {
            PacketKind::CompleteAgentMovement => match CompleteAgentMovementData::spec_from_bytes(
                body,
            ) {
                Ok(data) => Ok(PacketType::CompleteAgentMovement(data)),
                Err(e) => Err(e),
            },
        }
    }

    /// Reads a payload of this kind from `body`.
    pub fn decode(self, body: &[u8]) -> (r: Result<PacketType, DecodeError>)
        ensures
            r == self.spec_decode(body@),
    {
        match self {
            PacketKind::CompleteAgentMovement => match CompleteAgentMovementData::from_bytes(body) {
                Ok(data) => Ok(PacketType::CompleteAgentMovement(data)),
                Err(e) => Err(e),
            },
        }
    }
}

impl PacketType {
    /// The standard catalogue: the kind that an identifier and a frequency
    /// class name, where they name one.
    pub open spec fn catalogue(id: u16, frequency: PacketFrequency) -> Option<PacketKind> {
        if id == COMPLETE_AGENT_MOVEMENT_ID && frequency == PacketFrequency::Low {
            Some(PacketKind::CompleteAgentMovement)
        } else {
            None
        }
    }

    /// What decoding `bytes` under the standard catalogue gives.
    pub open spec fn spec_from_id(id: u16, frequency: PacketFrequency, bytes: Seq<u8>) -> Result<
        PacketType,
        DecodeError,
    > {
        match Self::catalogue(id, frequency) {
            Some(kind) => kind.spec_decode(bytes),
            None => Err(DecodeError::UnknownMessage { id, frequency }),
        }
    }

    /// The payload's kind.
    pub open spec fn spec_kind(&self) -> PacketKind {
        match self {
            PacketType::CompleteAgentMovement(_) => PacketKind::CompleteAgentMovement,
        }
    }

    /// The payload as it stands on the wire.
    pub open spec fn spec_to_bytes(&self) -> Seq<u8> {
        match self {
            PacketType::CompleteAgentMovement(data) => data.spec_to_bytes(),
        }
    }

    /// The payload's classification.
    pub open spec fn spec_message_type(&self) -> MessageType {
        match self {
            PacketType::CompleteAgentMovement(data) => data.spec_message_type(),
        }
    }

    /// The reliable sends that receiving the payload resolves.
    pub open spec fn acknowledges(&self) -> Set<u32> {
        match self {
            PacketType::CompleteAgentMovement(data) => data.acknowledges(),
        }
    }

    /// The events that receiving the payload appends.
    pub open spec fn emits(&self) -> Seq<ClientUpdateData> {
        match self {
            PacketType::CompleteAgentMovement(data) => data.emits(),
        }
    }

    /// Decodes the payload that the standard catalogue names for this
    /// identifier and frequency class.  A pair that it does not name is an
    /// unknown message.
    pub fn from_id(id: u16, frequency: PacketFrequency, bytes: &[u8]) -> (r: Result<
        PacketType,
        DecodeError,
    >)
        ensures
            r == Self::spec_from_id(id, frequency, bytes@),
    {
        match frequency {
            PacketFrequency::Low => {
                if id == COMPLETE_AGENT_MOVEMENT_ID {
                    return PacketKind::CompleteAgentMovement.decode(bytes);
                }
            },
            _ => {},
        }
        Err(DecodeError::UnknownMessage { id, frequency })
    }

    /// The payload behind a shared handle.
    pub fn into_arc(self) -> (shared: Arc<PacketType>)
        ensures
            *shared == self,
    {
        Arc::new(self)
    }

    /// The payload's kind.
    pub fn kind(&self) -> (kind: PacketKind)
        ensures
            kind == self.spec_kind(),
    {
        match self {
            PacketType::CompleteAgentMovement(_) => PacketKind::CompleteAgentMovement,
        }
    }

    /// Writes the payload in its wire layout.
    pub fn to_bytes(&self) -> (bytes: Vec<u8>)
        ensures
            bytes@ == self.spec_to_bytes(),
    {
        match self {
            PacketType::CompleteAgentMovement(data) => data.to_bytes(),
        }
    }

    /// Runs the payload's receive hook.
    pub fn on_receive(&self, queue: &mut ReliabilityCoordinator, update_stream: &mut EventSink)
        ensures
            final(queue).pending() == old(queue).pending().difference(self.acknowledges()),
            final(update_stream)@ == old(update_stream)@ + self.emits(),
    {
        match self {
            PacketType::CompleteAgentMovement(data) => data.on_receive(queue, update_stream),
        }
    }

    /// The payload's classification.
    pub fn message_type(&self) -> (kind: MessageType)
        ensures
            kind == self.spec_message_type(),
    {
        match self {
            PacketType::CompleteAgentMovement(data) => data.message_type(),
        }
    }
}

/// One line of the dispatch table.
#[derive(Debug, Clone, Copy, PartialEq, Eq)]
pub struct RegistryEntry {
    pub id: u16,
    pub frequency: PacketFrequency,
    pub kind: PacketKind,
}

/// The kind that the first entry for this identifier and frequency class
/// names, where `entries` has one.
pub open spec fn spec_lookup(entries: Seq<RegistryEntry>, id: u16, frequency: PacketFrequency)
    -> Option<PacketKind>
    decreases entries.len(),
{
    if entries.len() == 0 {
        None
    } else {
        match spec_lookup(entries.drop_last(), id, frequency) {
            Some(kind) => Some(kind),
            None => if entries.last().id == id && entries.last().frequency == frequency {
                Some(entries.last().kind)
            } else {
                None
            },
        }
    }
}

/// The standard catalogue as a table.
pub open spec fn standard_table() -> Map<(u16, PacketFrequency), PacketKind> {
    Map::new(
        |key: (u16, PacketFrequency)| PacketType::catalogue(key.0, key.1) is Some,
        |key: (u16, PacketFrequency)| PacketType::catalogue(key.0, key.1)->Some_0,
    )
}

/// What dispatching `body` under `table` gives: the payload that the
/// registered kind reads from it, or an unknown message where the table has
/// no entry for the identifier and frequency class.
pub open spec fn spec_dispatch(
    table: Map<(u16, PacketFrequency), PacketKind>,
    id: u16,
    frequency: PacketFrequency,
    body: Seq<u8>,
) -> Result<PacketType, DecodeError> {
    if table.contains_key((id, frequency)) {
        table[(id, frequency)].spec_decode(body)
    } else {
        Err(DecodeError::UnknownMessage { id, frequency })
    }
}

/// A hit in a front part of the entries is the hit in all of them.
proof fn lemma_lookup_front(
    entries: Seq<RegistryEntry>,
    n: int,
    id: u16,
    frequency: PacketFrequency,
)
    requires
        0 <= n <= entries.len(),
        spec_lookup(entries.take(n), id, frequency) is Some,
    ensures
        spec_lookup(entries, id, frequency) == spec_lookup(entries.take(n), id, frequency),
    decreases entries.len() - n,
{
    if n < entries.len() {
        assert(entries.take(n + 1).drop_last() =~= entries.take(n));
        lemma_lookup_front(entries, n + 1, id, frequency);
    } else {
        assert(entries.take(n) =~= entries);
    }
}

/// The dispatch table: which kind of payload an identifier and a frequency
/// class name.  Each pair names at most one kind.
#[derive(Debug, Clone)]
pub struct PacketRegistry {
    entries: Vec<RegistryEntry>,
}

impl View for PacketRegistry {
    type V = Map<(u16, PacketFrequency), PacketKind>;

    closed spec fn view(&self) -> Map<(u16, PacketFrequency), PacketKind> {
        Map::new(
            |key: (u16, PacketFrequency)| spec_lookup(self.entries@, key.0, key.1) is Some,
            |key: (u16, PacketFrequency)| spec_lookup(self.entries@, key.0, key.1)->Some_0,
        )
    }
}

impl PacketRegistry {
    /// A table with no entry: every message is unknown to it.
    pub fn new() -> (registry: PacketRegistry)
        ensures
            registry@ == Map::<(u16, PacketFrequency), PacketKind>::empty(),
    {
        PacketRegistry { entries: Vec::new() }
    }

    /// The table of the standard catalogue.
    pub fn standard() -> (registry: PacketRegistry)
        ensures
            registry@ == standard_table(),
    {
        let mut entries: Vec<RegistryEntry> = Vec::new();
        entries.push(
            RegistryEntry {
                id: COMPLETE_AGENT_MOVEMENT_ID,
                frequency: PacketFrequency::Low,
                kind: PacketKind::CompleteAgentMovement,
            },
        );
        let registry = PacketRegistry { entries };
        proof {
            assert forall|key: (u16, PacketFrequency)|
                #[trigger] spec_lookup(registry.entries@, key.0, key.1) == PacketType::catalogue(
                    key.0,
                    key.1,
                ) by {
                reveal_with_fuel(spec_lookup, 2);
            }
        }
        registry
    }

    /// The kind registered for this identifier and frequency class.
    pub fn lookup(&self, id: u16, frequency: PacketFrequency) -> (found: Option<PacketKind>)
        ensures
            found is Some <==> self@.contains_key((id, frequency)),
            found matches Some(kind) ==> self@[(id, frequency)] == kind,
    {
        let mut i: usize = 0;
        while i < self.entries.len()
            invariant
                i <= self.entries.len(),
                spec_lookup(self.entries@.take(i as int), id, frequency) is None,
            decreases self.entries.len() - i,
        {
            let entry = self.entries[i];
            proof {
                assert(self.entries@.take(i + 1).drop_last() =~= self.entries@.take(i as int));
            }
            if entry.id == id && entry.frequency == frequency {
                proof {
                    lemma_lookup_front(self.entries@, i + 1, id, frequency);
                }
                return Some(entry.kind);
            }
            i += 1;
        }
        assert(self.entries@.take(i as int) =~= self.entries@);
        None
    }

    /// Adds an entry.  A pair that already names a kind is refused, and the
    /// table stays as it was.
    pub fn register(&mut self, id: u16, frequency: PacketFrequency, kind: PacketKind) -> (r: Result<
        (),
        ConfigError,
    >)
        ensures
            r is Ok <==> !old(self)@.contains_key((id, frequency)),
            r is Ok ==> final(self)@ == old(self)@.insert((id, frequency), kind),
            r matches Err(e) ==> e == (ConfigError::DuplicateMessage { id, frequency })
                && final(self)@ == old(self)@,
    {
        if self.lookup(id, frequency).is_some() {
            return Err(ConfigError::DuplicateMessage { id, frequency });
        }
        self.entries.push(RegistryEntry { id, frequency, kind });
        proof {
            assert(self.entries@.drop_last() =~= old(self).entries@);
        }
        Ok(())
    }

    /// Decodes `body` as the kind registered for this identifier and
    /// frequency class.  A pair without an entry is an unknown message; the
    /// table is not touched either way.
    pub fn dispatch(&self, id: u16, frequency: PacketFrequency, body: &[u8]) -> (r: Result<
        PacketType,
        DecodeError,
    >)
        ensures
            r == spec_dispatch(self@, id, frequency, body@),
    {
        match self.lookup(id, frequency) {
            Some(kind) => kind.decode(body),
            None => Err(DecodeError::UnknownMessage { id, frequency }),
        }
    }
}

/// Dispatch under the standard table is decoding under the standard
/// catalogue.
pub proof fn lemma_standard_dispatch(id: u16, frequency: PacketFrequency, body: Seq<u8>)
    ensures
        spec_dispatch(standard_table(), id, frequency, body) == PacketType::spec_from_id(
            id,
            frequency,
            body,
        ),
{
}

/// A pair without an entry is an unknown message, whatever the body; a pair
/// with an entry never is.
pub proof fn lemma_unknown_message(
    table: Map<(u16, PacketFrequency), PacketKind>,
    id: u16,
    frequency: PacketFrequency,
    body: Seq<u8>,
)
    ensures
        !table.contains_key((id, frequency)) ==> spec_dispatch(table, id, frequency, body) == Err::<
            PacketType,
            DecodeError,
        >(DecodeError::UnknownMessage { id, frequency }),
        table.contains_key((id, frequency)) ==> spec_dispatch(table, id, frequency, body) != Err::<
            PacketType,
            DecodeError,
        >(DecodeError::UnknownMessage { id, frequency }),
{
}

} // verus!
