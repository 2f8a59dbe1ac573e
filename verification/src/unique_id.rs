//! The 128-bit identifiers that name agents and sessions.

use vstd::prelude::*;
use crate::error::DecodeError;

verus! {

/// `uuid::Error`, the failure that `uuid::Uuid::from_slice` reports.
/// Carried through as it is.
#[verifier::external_type_specification]
#[verifier::external_body]
pub struct ExUuidError(uuid::Error);

/// A 128-bit identifier, held as its sixteen octets in wire order.
#[derive(Debug, Clone, Copy, PartialEq, Eq, Hash)]
pub struct UniqueId {
    pub bytes: [u8; 16],
}

impl View for UniqueId {
    type V = Seq<u8>;

    open spec fn view(&self) -> Seq<u8> {
        self.bytes@
    }
}

/// Has `uuid::Uuid::from_slice` read the identifier and hands back its
/// octets as `Uuid::as_bytes` gives them.  `from_slice` accepts a slice of
/// exactly sixteen bytes and no other, and keeps the bytes as they come.
#[verifier::external_body]
fn uuid_from_slice(bytes: &[u8]) -> (r: Result<UniqueId, uuid::Error>)
    ensures
        r is Ok <==> bytes@.len() == 16,
        r matches Ok(id) ==> id@ == bytes@,
{
    match uuid::Uuid::from_slice(bytes) {
        Ok(id) => Ok(UniqueId { bytes: *id.as_bytes() }),
        Err(e) => Err(e),
    }
}

impl UniqueId {
    /// The identifier whose octets are the first sixteen of `s`.
    pub open spec fn spec_from_seq(s: Seq<u8>) -> UniqueId {
        UniqueId {
            bytes: [
                s[0],
                s[1],
                s[2],
                s[3],
                s[4],
                s[5],
                s[6],
                s[7],
                s[8],
                s[9],
                s[10],
                s[11],
                s[12],
                s[13],
                s[14],
                s[15],
            ],
        }
    }

    /// Reads an identifier from exactly sixteen bytes.
    pub fn from_slice(bytes: &[u8]) -> (r: Result<UniqueId, DecodeError>)
        ensures
            match r {
                Ok(id) => bytes@.len() == 16 && id == Self::spec_from_seq(bytes@),
                Err(e) => bytes@.len() != 16 && e == DecodeError::InvalidField,
            },
    {
        match uuid_from_slice(bytes) {
            Ok(id) => {
                assert(id.bytes =~= Self::spec_from_seq(bytes@).bytes);
                Ok(id)
            },
            Err(_) => Err(DecodeError::InvalidField),
        }
    }

    /// The sixteen octets.
    pub fn as_bytes(&self) -> (b: &[u8; 16])
        ensures
            b@ == self@,
    {
        &self.bytes
    }
}

/// An identifier read from sixteen bytes has those bytes.
pub proof fn lemma_unique_id_from_seq(s: Seq<u8>)
    requires
        s.len() == 16,
    ensures
        UniqueId::spec_from_seq(s)@ == s,
{
}

} // verus!
