//! The public output record: the 54 bytes that a validation discloses.
//!
//! | offset | length | field                                   |
//! |--------|--------|-----------------------------------------|
//! | 0      | 32     | commitment                              |
//! | 32     | 1      | validity: 0 is false, anything else true |
//! | 33     | 8      | first parent's identifier, little-endian |
//! | 41     | 8      | second parent's identifier, little-endian |
//! | 49     | 4      | child generation, little-endian          |
//! | 53     | 1      | mutation count                           |
use crate::buffer::{read_array, write_array};
use crate::commitment::COMMITMENT_BYTES;
use crate::endian::{
    le_bytes, le_value, lemma_le_bytes_len, lemma_le_bytes_of_value, lemma_le_value_bound,
    lemma_le_value_of_bytes, lemma_pow256_values, u32_from_le, u32_to_le, u64_from_le, u64_to_le,
};
use crate::error::DecodeError;
use vstd::prelude::*;

verus! {

/// Length in bytes of an encoded public output record.
pub const RECORD_BYTES: usize = 54;

/// Everything a validation discloses. The traits and their deviations are
/// not part of it.
#[derive(Debug, Clone, Copy, PartialEq, Eq)]
pub struct PublicOutputRecord {
    pub commitment: [u8; 32],
    pub is_valid: bool,
    pub parent_a_id: u64,
    pub parent_b_id: u64,
    pub child_generation: u32,
    pub mutation_count: u8,
}

/// Mathematical model of a public output record.
pub struct RecordView {
    pub commitment: Seq<u8>,
    pub is_valid: bool,
    pub parent_a_id: u64,
    pub parent_b_id: u64,
    pub child_generation: u32,
    pub mutation_count: u8,
}

impl RecordView {
    /// A model of an actual record has a commitment of exactly 32 bytes.
    pub open spec fn well_formed(self) -> bool {
        self.commitment.len() == COMMITMENT_BYTES
    }
}

impl View for PublicOutputRecord {
    type V = RecordView;

    open spec fn view(&self) -> RecordView {
        RecordView {
            commitment: self.commitment@,
            is_valid: self.is_valid,
            parent_a_id: self.parent_a_id,
            parent_b_id: self.parent_b_id,
            child_generation: self.child_generation,
            mutation_count: self.mutation_count,
        }
    }
}

/// The byte that stands for a validity flag on the wire.
pub open spec fn validity_byte(is_valid: bool) -> u8 {
    if is_valid {
        1
    } else {
        0
    }
}

/// The encoding of a record: its fields in layout order.
pub open spec fn encode_record(r: RecordView) -> Seq<u8> {
    r.commitment + seq![validity_byte(r.is_valid)] + le_bytes(r.parent_a_id as nat, 8) + le_bytes(
        r.parent_b_id as nat,
        8,
    ) + le_bytes(r.child_generation as nat, 4) + seq![r.mutation_count]
}

/// The record that a buffer denotes: none if it is shorter than a record,
/// else the one read off its first 54 bytes, whatever follows them.
pub open spec fn decode_record(bytes: Seq<u8>) -> Option<RecordView> {
    if bytes.len() < RECORD_BYTES {
        None
    } else {
        Some(
            RecordView {
                commitment: bytes.subrange(0, 32),
                is_valid: bytes[32] != 0,
                parent_a_id: le_value(bytes.subrange(33, 41)) as u64,
                parent_b_id: le_value(bytes.subrange(41, 49)) as u64,
                child_generation: le_value(bytes.subrange(49, 53)) as u32,
                mutation_count: bytes[53],
            },
        )
    }
}

/// An encoded record is 54 bytes long.
pub proof fn lemma_record_length(r: RecordView)
    requires
        r.well_formed(),
    ensures
        encode_record(r).len() == RECORD_BYTES,
{
    lemma_le_bytes_len(r.parent_a_id as nat, 8);
    lemma_le_bytes_len(r.parent_b_id as nat, 8);
    lemma_le_bytes_len(r.child_generation as nat, 4);
}

/// Where each field of a record lies in its encoding.
proof fn lemma_record_fields(r: RecordView)
    requires
        r.well_formed(),
    ensures
        encode_record(r).len() == RECORD_BYTES,
        encode_record(r).subrange(0, 32) == r.commitment,
        encode_record(r)[32] == validity_byte(r.is_valid),
        encode_record(r).subrange(33, 41) == le_bytes(r.parent_a_id as nat, 8),
        encode_record(r).subrange(41, 49) == le_bytes(r.parent_b_id as nat, 8),
        encode_record(r).subrange(49, 53) == le_bytes(r.child_generation as nat, 4),
        encode_record(r)[53] == r.mutation_count,
{
    lemma_le_bytes_len(r.parent_a_id as nat, 8);
    lemma_le_bytes_len(r.parent_b_id as nat, 8);
    lemma_le_bytes_len(r.child_generation as nat, 4);
}

/// Decoding is the inverse of encoding: every record is recovered from its
/// own bytes.
pub proof fn lemma_decode_encode_record(r: RecordView)
    requires
        r.well_formed(),
    ensures
        decode_record(encode_record(r)) == Some(r),
{
    lemma_record_fields(r);
    lemma_pow256_values();
    lemma_le_value_of_bytes(r.parent_a_id as nat, 8);
    lemma_le_value_of_bytes(r.parent_b_id as nat, 8);
    lemma_le_value_of_bytes(r.child_generation as nat, 4);
}

/// Encoding is the inverse of decoding on the first 54 bytes of a buffer,
/// provided its validity byte is 0 or 1: any other nonzero byte is read as
/// true and written back as 1.
pub proof fn lemma_encode_decode_record(bytes: Seq<u8>)
    requires
        bytes.len() >= RECORD_BYTES,
        bytes[32] <= 1,
    ensures
        decode_record(bytes) matches Some(r) && r.well_formed() && encode_record(r)
            == bytes.subrange(0, RECORD_BYTES as int),
{
    lemma_pow256_values();
    lemma_le_value_bound(bytes.subrange(33, 41));
    lemma_le_value_bound(bytes.subrange(41, 49));
    lemma_le_value_bound(bytes.subrange(49, 53));
    lemma_le_bytes_of_value(bytes.subrange(33, 41));
    lemma_le_bytes_of_value(bytes.subrange(41, 49));
    lemma_le_bytes_of_value(bytes.subrange(49, 53));
}

/// Bytes that follow the 54 of a record do not change what is decoded.
pub proof fn lemma_decode_ignores_trailing(bytes: Seq<u8>, trailing: Seq<u8>)
    requires
        bytes.len() >= RECORD_BYTES,
    ensures
        decode_record(bytes + trailing) == decode_record(bytes),
{
    let longer = bytes + trailing;
    assert(longer.subrange(0, 32) =~= bytes.subrange(0, 32));
    assert(longer.subrange(33, 41) =~= bytes.subrange(33, 41));
    assert(longer.subrange(41, 49) =~= bytes.subrange(41, 49));
    assert(longer.subrange(49, 53) =~= bytes.subrange(49, 53));
}

impl PublicOutputRecord {
    /// Every record is modelled by a well-formed view.
    pub proof fn lemma_view_well_formed(self)
        ensures
            self@.well_formed(),
    {
    }

    /// Encodes the record as 54 bytes. A true validity flag is written as 1.
    pub fn to_bytes(&self) -> (bytes: [u8; 54])
        ensures
            bytes@ == encode_record(self@),
    {
        let flag: [u8; 1] = [
            if self.is_valid {
                1u8
            } else {
                0u8
            },
        ];
        let a_id: [u8; 8] = u64_to_le(self.parent_a_id);
        let b_id: [u8; 8] = u64_to_le(self.parent_b_id);
        let generation: [u8; 4] = u32_to_le(self.child_generation);
        let count: [u8; 1] = [self.mutation_count];
        let mut bytes: [u8; 54] = [0u8; 54];
        write_array(&mut bytes, 0, &self.commitment);
        write_array(&mut bytes, 32, &flag);
        write_array(&mut bytes, 33, &a_id);
        write_array(&mut bytes, 41, &b_id);
        write_array(&mut bytes, 49, &generation);
        write_array(&mut bytes, 53, &count);
        bytes
    }

    /// Decodes the record at the start of `bytes`. Fails exactly when `bytes`
    /// is shorter than a record; bytes beyond the record are ignored.
    pub fn from_bytes(bytes: &[u8]) -> (result: Result<PublicOutputRecord, DecodeError>)
        ensures
            result is Ok <==> bytes@.len() >= RECORD_BYTES,
            result matches Ok(record) ==> decode_record(bytes@) == Some(record@),
            result matches Err(e) ==> e == DecodeError::TruncatedOrMalformedRecord,
    {
        if bytes.len() < RECORD_BYTES {
            return Err(DecodeError::TruncatedOrMalformedRecord);
        }
        let commitment: [u8; 32] = read_array(bytes, 0);
        let a_id: [u8; 8] = read_array(bytes, 33);
        let b_id: [u8; 8] = read_array(bytes, 41);
        let generation: [u8; 4] = read_array(bytes, 49);
        Ok(
            PublicOutputRecord {
                commitment,
                is_valid: bytes[32] != 0,
                parent_a_id: u64_from_le(a_id),
                parent_b_id: u64_from_le(b_id),
                child_generation: u32_from_le(generation),
                mutation_count: bytes[53],
            },
        )
    }
}

} // verus!
