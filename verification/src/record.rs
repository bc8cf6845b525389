//! NTS-KE records and their wire format.
//!
//! A record is a critical bit and a fifteen bit record type, a sixteen bit body length, and the
//! body. All numbers are in network byte order.

use byteorder::{BigEndian, WriteBytesExt};
use vstd::prelude::*;

verus! {

/// The longest body that the sixteen bit length field of a record can announce.
pub const MAX_CONTENTS: usize = 65535;

/// The value of the critical bit in the first field of a record.
pub const CRITICAL_BIT: u16 = 32768;

/// The record types that a server response is made of.
#[derive(Clone, Copy, Debug, PartialEq, Eq, Structural)]
pub enum NtsKeType {
    EndOfMessage,
    NextProtocolNegotiation,
    AEADAlgorithmNegotiation,
    NewCookie,
    PortNegotiation,
}

impl NtsKeType {
    /// The number assigned to the record type.
    pub open spec fn number(self) -> u16 {
        match self {
            NtsKeType::EndOfMessage => 0,
            NtsKeType::NextProtocolNegotiation => 1,
            NtsKeType::AEADAlgorithmNegotiation => 4,
            NtsKeType::NewCookie => 5,
            NtsKeType::PortNegotiation => 7,
        }
    }

    pub(crate) fn to_number(self) -> (number: u16)
        ensures
            number == self.number(),
    {
        match self {
            NtsKeType::EndOfMessage => 0,
            NtsKeType::NextProtocolNegotiation => 1,
            NtsKeType::AEADAlgorithmNegotiation => 4,
            NtsKeType::NewCookie => 5,
            NtsKeType::PortNegotiation => 7,
        }
    }
}

/// One NTS-KE record.
#[derive(Clone, Debug)]
pub struct NtsKeRecord {
    pub critical: bool,
    pub record_type: NtsKeType,
    pub contents: Vec<u8>,
}

/// What a record says, apart from how its body is stored.
#[verifier::ext_equal]
pub struct RecordView {
    pub critical: bool,
    pub number: u16,
    pub contents: Seq<u8>,
}

impl View for NtsKeRecord {
    type V = RecordView;

    open spec fn view(&self) -> RecordView {
        RecordView {
            critical: self.critical,
            number: self.record_type.number(),
            contents: self.contents@,
        }
    }
}

impl RecordView {
    /// The record type fits in its fifteen bits and the body fits in its length field.
    pub open spec fn encodable(self) -> bool {
        &&& self.number < CRITICAL_BIT
        &&& self.contents.len() <= MAX_CONTENTS
    }

    /// The first field: the record type, with the critical bit above it.
    pub open spec fn type_field(self) -> u16 {
        if self.critical {
            (CRITICAL_BIT + self.number) as u16
        } else {
            self.number
        }
    }

    /// The record on the wire.
    pub open spec fn bytes(self) -> Seq<u8> {
        u16_bytes(self.type_field()) + u16_bytes(self.contents.len() as u16) + self.contents
    }
}

/// A sixteen bit number in network byte order.
pub open spec fn u16_bytes(n: u16) -> Seq<u8> {
    seq![(n / 256) as u8, (n % 256) as u8]
}

/// Appends `n` to `out` with `byteorder::WriteBytesExt::write_u16::<BigEndian>`.
///
/// Taken on trust: on a vector that call cannot fail, and it appends the more significant byte
/// of `n` and then the less significant one, leaving what was there in place.
#[verifier::external_body]
pub(crate) fn write_u16(out: &mut Vec<u8>, n: u16)
    ensures
        final(out)@ == old(out)@ + u16_bytes(n),
{
    out.write_u16::<BigEndian>(n).unwrap()
}

/// Serializes a record to the wire format.
pub fn serialize_record(rec: &NtsKeRecord) -> (out: Vec<u8>)
    requires
        rec.contents@.len() <= MAX_CONTENTS,
    ensures
        out@ == rec@.bytes(),
{
    let mut out: Vec<u8> = Vec::new();
    let number: u16 = rec.record_type.to_number();
    let type_field: u16 = if rec.critical {
        CRITICAL_BIT + number
    } else {
        number
    };
    write_u16(&mut out, type_field);
    write_u16(&mut out, rec.contents.len() as u16);
    out.extend_from_slice(rec.contents.as_slice());
    assert(out@ =~= rec@.bytes());
    out
}

} // verus!
