//! The packet header: one flags byte, a little-endian sequence number, the
//! message identifier, and an optional list of acknowledged sequence numbers.
//!
//! The identifier's width tells the frequency class.  A High identifier is one
//! byte other than `0xFF`; a Medium one is `0xFF` and one byte other than
//! `0xFF`; a Low one is `0xFF 0xFF` and two bytes, most significant first.
//! Where the appended-acks flag is set, a count byte and that many
//! little-endian sequence numbers follow the identifier.  The body starts
//! right after.

use vstd::prelude::*;
use crate::error::DecodeError;
use crate::wire::{
    lemma_u16_be_round_trip, lemma_u32_le_round_trip, push_u32_le, read_u32_le, u16_be_bytes,
    u16_from_be, u32_from_le, u32_le_bytes,
};

verus! {

/// Flag bit: the body is zerocoded.
pub const FLAG_ZEROCODED: u8 = 0x80;

/// Flag bit: the receiver must acknowledge this packet.
pub const FLAG_RELIABLE: u8 = 0x40;

/// Flag bit: this packet was sent before.
pub const FLAG_RESENT: u8 = 0x20;

/// Flag bit: acknowledgments follow the identifier.
pub const FLAG_APPENDED_ACKS: u8 = 0x10;

/// The byte that announces a wider identifier.
pub const ID_ESCAPE: u8 = 0xFF;

/// The most acknowledgments one header can carry: the count is one byte.
pub const MAX_ACKS: usize = 255;

/// Frequency class of a message; it fixes how many bytes the identifier takes
/// on the wire.
#[derive(Debug, Clone, Copy, PartialEq, Eq, Structural)]
pub enum PacketFrequency {
    High,
    Medium,
    Low,
}

/// A packet header.  `size` is the offset at which the body starts; parsing
/// fills it in, and it means nothing in a header built for sending.
#[derive(Debug, PartialEq, Eq)]
pub struct Header {
    pub id: u16,
    pub frequency: PacketFrequency,
    pub reliable: bool,
    pub sequence_number: u32,
    pub appended_acks: bool,
    pub zerocoded: bool,
    pub resent: bool,
    pub ack_list: Option<Vec<u32>>,
    pub size: Option<usize>,
}

/// What a header holds, as plain mathematical values.
pub struct HeaderView {
    pub id: u16,
    pub frequency: PacketFrequency,
    pub reliable: bool,
    pub sequence_number: u32,
    pub appended_acks: bool,
    pub zerocoded: bool,
    pub resent: bool,
    pub ack_list: Option<Seq<u32>>,
    pub size: Option<nat>,
}

impl View for Header {
    type V = HeaderView;

    open spec fn view(&self) -> HeaderView {
        HeaderView {
            id: self.id,
            frequency: self.frequency,
            reliable: self.reliable,
            sequence_number: self.sequence_number,
            appended_acks: self.appended_acks,
            zerocoded: self.zerocoded,
            resent: self.resent,
            ack_list: match self.ack_list {
                Some(acks) => Some(acks@),
                None => None,
            },
            size: match self.size {
                Some(n) => Some(n as nat),
                None => None,
            },
        }
    }
}

/// The bytes of the acknowledged sequence numbers, in order.
pub open spec fn ack_bytes(acks: Seq<u32>) -> Seq<u8>
    decreases acks.len(),
{
    if acks.len() == 0 {
        Seq::empty()
    } else {
        ack_bytes(acks.drop_last()) + u32_le_bytes(acks.last())
    }
}

/// The identifier as it stands on the wire.
pub open spec fn id_bytes(frequency: PacketFrequency, id: u16) -> Seq<u8> {
    match frequency {
        PacketFrequency::High => seq![id as u8],
        PacketFrequency::Medium => seq![ID_ESCAPE, id as u8],
        PacketFrequency::Low => seq![ID_ESCAPE, ID_ESCAPE] + u16_be_bytes(id),
    }
}

/// One flag's bit, where the flag is set.
pub open spec fn flag_bit(set: bool, bit: u8) -> u8 {
    if set {
        bit
    } else {
        0
    }
}

impl HeaderView {
    /// A header that can be written: the identifier fits its class, the
    /// list of acknowledgments is there exactly when the flag announces it,
    /// and its length fits the count byte.
    pub open spec fn well_formed(self) -> bool {
        &&& self.frequency != PacketFrequency::Low ==> self.id < ID_ESCAPE
        &&& self.appended_acks <==> self.ack_list is Some
        &&& self.ack_list matches Some(acks) ==> acks.len() <= MAX_ACKS
    }

    /// The flags byte.
    pub open spec fn flags_byte(self) -> u8 {
        flag_bit(self.zerocoded, FLAG_ZEROCODED) | flag_bit(self.reliable, FLAG_RELIABLE)
            | flag_bit(self.resent, FLAG_RESENT) | flag_bit(
            self.appended_acks,
            FLAG_APPENDED_ACKS,
        )
    }

    /// The count byte and the acknowledgments, where the header carries any.
    pub open spec fn ack_section(self) -> Seq<u8> {
        match self.ack_list {
            Some(acks) => seq![acks.len() as u8] + ack_bytes(acks),
            None => Seq::empty(),
        }
    }

    /// The header as it stands on the wire.
    pub open spec fn spec_write(self) -> Seq<u8> {
        seq![self.flags_byte()] + u32_le_bytes(self.sequence_number) + id_bytes(
            self.frequency,
            self.id,
        ) + self.ack_section()
    }

    /// The same header with the body offset set to `offset`.
    pub open spec fn with_size(self, offset: nat) -> HeaderView {
        HeaderView { size: Some(offset), ..self }
    }
}

/// The offset just past the identifier of the header in `b`; `None` where
/// `b` ends before it.
pub open spec fn spec_id_end(b: Seq<u8>) -> Option<int> {
    if b.len() < 6 {
        None
    } else if b[5] != ID_ESCAPE {
        Some(6)
    } else if b.len() < 7 {
        None
    } else if b[6] != ID_ESCAPE {
        Some(7)
    } else if b.len() < 9 {
        None
    } else {
        Some(9)
    }
}

/// The frequency class that the identifier bytes of `b` tell.
pub open spec fn spec_frequency(b: Seq<u8>) -> PacketFrequency {
    if b[5] != ID_ESCAPE {
        PacketFrequency::High
    } else if b[6] != ID_ESCAPE {
        PacketFrequency::Medium
    } else {
        PacketFrequency::Low
    }
}

/// The identifier in `b`.
pub open spec fn spec_id(b: Seq<u8>) -> u16 {
    match spec_frequency(b) {
        PacketFrequency::High => b[5] as u16,
        PacketFrequency::Medium => b[6] as u16,
        PacketFrequency::Low => u16_from_be(b[7], b[8]),
    }
}

/// The `count` sequence numbers that stand in `b` from offset `start`.
pub open spec fn spec_acks(b: Seq<u8>, start: int, count: nat) -> Seq<u32> {
    Seq::new(
        count,
        |k: int|
            u32_from_le(
                b[start + 4 * k],
                b[start + 4 * k + 1],
                b[start + 4 * k + 2],
                b[start + 4 * k + 3],
            ),
    )
}

/// The header in `b` without its acknowledgments, with the body at `offset`.
pub open spec fn spec_fixed_fields(b: Seq<u8>, offset: nat) -> HeaderView {
    HeaderView {
        id: spec_id(b),
        frequency: spec_frequency(b),
        reliable: b[0] & FLAG_RELIABLE != 0,
        sequence_number: u32_from_le(b[1], b[2], b[3], b[4]),
        appended_acks: b[0] & FLAG_APPENDED_ACKS != 0,
        zerocoded: b[0] & FLAG_ZEROCODED != 0,
        resent: b[0] & FLAG_RESENT != 0,
        ack_list: None,
        size: Some(offset),
    }
}

/// The header that `b` starts with, or why there is none.
pub open spec fn spec_parse(b: Seq<u8>) -> Result<HeaderView, DecodeError> {
    match spec_id_end(b) {
        None => Err(DecodeError::TruncatedHeader),
        Some(id_end) => {
            if b[0] & FLAG_APPENDED_ACKS == 0 {
                Ok(spec_fixed_fields(b, id_end as nat))
            } else if b.len() <= id_end {
                Err(DecodeError::TruncatedHeader)
            } else {
                let count = b[id_end] as nat;
                let start = id_end + 1;
                if b.len() < start + 4 * count {
                    Err(DecodeError::TruncatedAckList)
                } else {
                    Ok(
                        HeaderView {
                            ack_list: Some(spec_acks(b, start, count)),
                            ..spec_fixed_fields(b, (start + 4 * count) as nat)
                        },
                    )
                }
            }
        },
    }
}

/// The acknowledgments take four bytes each, and the bytes of the `k`-th are
/// those of its sequence number.
pub proof fn lemma_ack_bytes_layout(acks: Seq<u32>)
    ensures
        ack_bytes(acks).len() == 4 * acks.len(),
        forall|k: int, j: int|
            0 <= k < acks.len() && 0 <= j < 4 ==> #[trigger] ack_bytes(acks)[4 * k + j]
                == u32_le_bytes(acks[k])[j],
    decreases acks.len(),
{
    if acks.len() > 0 {
        let front = acks.drop_last();
        lemma_ack_bytes_layout(front);
        assert forall|k: int, j: int| 0 <= k < acks.len() && 0 <= j < 4 implies #[trigger] ack_bytes(
            acks,
        )[4 * k + j] == u32_le_bytes(acks[k])[j] by {
            if k < front.len() {
                assert(ack_bytes(front)[4 * k + j] == u32_le_bytes(front[k])[j]);
            }
        }
    }
}

/// Each flag can be read back from the byte that the four flags make.
proof fn lemma_flag_bits(z: u8, r: u8, s: u8, a: u8)
    by (bit_vector)
    requires
        z == 0 || z == 0x80,
        r == 0 || r == 0x40,
        s == 0 || s == 0x20,
        a == 0 || a == 0x10,
    ensures
        ((z | r | s | a) & 0x80 != 0) == (z != 0),
        ((z | r | s | a) & 0x40 != 0) == (r != 0),
        ((z | r | s | a) & 0x20 != 0) == (s != 0),
        ((z | r | s | a) & 0x10 != 0) == (a != 0),
{
}

/// Parsing undoes writing: a buffer that starts with a well-formed header as
/// written, whatever follows it, parses to that header, every field but the
/// body offset as it was, and the body offset at the end of what was written.
pub proof fn lemma_parse_write(h: HeaderView, rest: Seq<u8>)
    requires
        h.well_formed(),
    ensures
        spec_parse(h.spec_write() + rest) == Ok::<HeaderView, DecodeError>(
            h.with_size(h.spec_write().len()),
        ),
        spec_parse(h.spec_write()) == Ok::<HeaderView, DecodeError>(
            h.with_size(h.spec_write().len()),
        ),
{
    lemma_parse_write_at(h, rest);
    lemma_parse_write_at(h, Seq::empty());
}

proof fn lemma_parse_write_at(h: HeaderView, rest: Seq<u8>)
    requires
        h.well_formed(),
    ensures
        spec_parse(h.spec_write() + rest) == Ok::<HeaderView, DecodeError>(
            h.with_size(h.spec_write().len()),
        ),
{
    let w = h.spec_write();
    let b = w + rest;
    let seq_bytes = u32_le_bytes(h.sequence_number);
    let idb = id_bytes(h.frequency, h.id);
    let id_end = 5 + idb.len();
    lemma_flag_bits(
        flag_bit(h.zerocoded, FLAG_ZEROCODED),
        flag_bit(h.reliable, FLAG_RELIABLE),
        flag_bit(h.resent, FLAG_RESENT),
        flag_bit(h.appended_acks, FLAG_APPENDED_ACKS),
    );
    lemma_u32_le_round_trip(h.sequence_number, 0, 0, 0, 0);
    lemma_u16_be_round_trip(h.id, 0, 0);
    assert(spec_id_end(b) == Some(id_end as int));
    assert(spec_frequency(b) == h.frequency && spec_id(b) == h.id);
    if let Some(acks) = h.ack_list {
        let count = acks.len();
        let start = id_end + 1;
        lemma_ack_bytes_layout(acks);
        assert forall|k: int, j: int| 0 <= k < count && 0 <= j < 4 implies b[start + 4 * k + j]
            == u32_le_bytes(acks[k])[j] by {
            assert(w[start + 4 * k + j] == ack_bytes(acks)[4 * k + j]);
        }
        assert forall|k: int| 0 <= k < count implies spec_acks(b, start as int, count)[k]
            == acks[k] by {
            lemma_u32_le_round_trip(acks[k], 0, 0, 0, 0);
        }
        assert(spec_acks(b, start as int, count) =~= acks);
    }
}

/// A header that was parsed can be written: it is well formed, and its body
/// offset lies within the buffer it was parsed from.
pub proof fn lemma_parsed_header(b: Seq<u8>)
    ensures
        spec_parse(b) matches Ok(h) ==> h.well_formed(),
        spec_parse(b) matches Ok(h) ==> h.size matches Some(offset) && offset <= b.len(),
{
}

impl Clone for Header {
    fn clone(&self) -> (copy: Header)
        ensures
            copy@ == self@,
    {
        Header {
            id: self.id,
            frequency: self.frequency,
            reliable: self.reliable,
            sequence_number: self.sequence_number,
            appended_acks: self.appended_acks,
            zerocoded: self.zerocoded,
            resent: self.resent,
            ack_list: match &self.ack_list {
                Some(acks) => Some(acks.clone()),
                None => None,
            },
            size: self.size,
        }
    }
}

impl Header {
    /// Whether this header can be written.
    pub fn is_well_formed(&self) -> (ok: bool)
        ensures
            ok == self@.well_formed(),
    {
        let id_fits = match self.frequency {
            PacketFrequency::Low => true,
            _ => self.id < 0xFF,
        };
        let acks_fit = match &self.ack_list {
            Some(acks) => self.appended_acks && acks.len() <= MAX_ACKS,
            None => !self.appended_acks,
        };
        id_fits && acks_fit
    }

    /// Reads the header that `bytes` starts with.  The result's `size` is the
    /// offset of the first body byte, which is never past the buffer's end.
    /// Fails where the buffer ends before the fixed fields that its flags and
    /// identifier announce, or before the last announced acknowledgment.
    pub fn try_from_bytes(bytes: &[u8]) -> (r: Result<Header, DecodeError>)
        ensures
            match r {
                Ok(h) => spec_parse(bytes@) == Ok::<HeaderView, DecodeError>(h@),
                Err(e) => spec_parse(bytes@) == Err::<HeaderView, DecodeError>(e),
            },
            r matches Ok(h) ==> h@.well_formed(),
            r matches Ok(h) ==> h.size matches Some(offset) && offset <= bytes.len(),
    {
        if bytes.len() < 6 {
            return Err(DecodeError::TruncatedHeader);
        }
        let flags = bytes[0];
        let sequence_number = match read_u32_le(bytes, 1) {
            Some(n) => n,
            None => {
                return Err(DecodeError::TruncatedHeader);
            },
        };
        let frequency: PacketFrequency;
        let id: u16;
        let id_end: usize;
        if bytes[5] != ID_ESCAPE {
            frequency = PacketFrequency::High;
            id = bytes[5] as u16;
            id_end = 6;
        } else if bytes.len() < 7 {
            return Err(DecodeError::TruncatedHeader);
        } else if bytes[6] != ID_ESCAPE {
            frequency = PacketFrequency::Medium;
            id = bytes[6] as u16;
            id_end = 7;
        } else if bytes.len() < 9 {
            return Err(DecodeError::TruncatedHeader);
        } else {
            frequency = PacketFrequency::Low;
            id = (bytes[7] as u16) * 256 + (bytes[8] as u16);
            id_end = 9;
        }
        let appended_acks = flags & FLAG_APPENDED_ACKS != 0;
        let mut header = Header {
            id,
            frequency,
            reliable: flags & FLAG_RELIABLE != 0,
            sequence_number,
            appended_acks,
            zerocoded: flags & FLAG_ZEROCODED != 0,
            resent: flags & FLAG_RESENT != 0,
            ack_list: None,
            size: Some(id_end),
        };
        if !appended_acks {
            return Ok(header);
        }
        if bytes.len() <= id_end {
            return Err(DecodeError::TruncatedHeader);
        }
        let count: usize = bytes[id_end] as usize;
        let start: usize = id_end + 1;
        if bytes.len() - start < 4 * count {
            return Err(DecodeError::TruncatedAckList);
        }
        let mut acks: Vec<u32> = Vec::new();
        let mut k: usize = 0;
        while k < count
            invariant
                k <= count <= 255,
                start + 4 * count <= bytes.len(),
                acks@ =~= spec_acks(bytes@, start as int, k as nat),
            decreases count - k,
        {
            match read_u32_le(bytes, start + 4 * k) {
                Some(n) => acks.push(n),
                None => {
                    return Err(DecodeError::TruncatedAckList);
                },
            }
            k += 1;
        }
        header.ack_list = Some(acks);
        header.size = Some(start + 4 * count);
        Ok(header)
    }

    /// Writes the header: flags, sequence number, identifier, and the
    /// acknowledgments where it carries any.  `size` is not written.
    pub fn to_bytes(&self) -> (bytes: Vec<u8>)
        requires
            self@.well_formed(),
        ensures
            bytes@ == self@.spec_write(),
    {
        let mut bytes: Vec<u8> = Vec::new();
        let z: u8 = if self.zerocoded { FLAG_ZEROCODED } else { 0 };
        let r: u8 = if self.reliable { FLAG_RELIABLE } else { 0 };
        let s: u8 = if self.resent { FLAG_RESENT } else { 0 };
        let a: u8 = if self.appended_acks { FLAG_APPENDED_ACKS } else { 0 };
        bytes.push(z | r | s | a);
        push_u32_le(&mut bytes, self.sequence_number);
        match self.frequency {
            PacketFrequency::High => {
                bytes.push(self.id as u8);
            },
            PacketFrequency::Medium => {
                bytes.push(ID_ESCAPE);
                bytes.push(self.id as u8);
            },
            PacketFrequency::Low => {
                bytes.push(ID_ESCAPE);
                bytes.push(ID_ESCAPE);
                bytes.push((self.id / 256) as u8);
                bytes.push((self.id % 256) as u8);
            },
        }
        let ghost fixed = seq![self@.flags_byte()] + u32_le_bytes(self.sequence_number) + id_bytes(
            self.frequency,
            self.id,
        );
        match &self.ack_list {
            Some(acks) => {
                let n = acks.len();
                bytes.push(n as u8);
                let mut k: usize = 0;
                assert(acks@.take(0) =~= Seq::<u32>::empty());
                while k < n
                    invariant
                        k <= n == acks.len(),
                        bytes@ =~= fixed + seq![n as u8] + ack_bytes(acks@.take(k as int)),
                    decreases n - k,
                {
                    push_u32_le(&mut bytes, acks[k]);
                    proof {
                        assert(acks@.take(k + 1).drop_last() =~= acks@.take(k as int));
                    }
                    k += 1;
                }
                assert(acks@.take(n as int) =~= acks@);
            },
            None => {},
        }
        bytes
    }
}

} // verus!
