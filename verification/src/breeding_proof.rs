//! What the host keeps of a proved breeding: the proof artifact, the journal
//! as it came back, and the record decoded from the journal.
use crate::error::DecodeError;
use crate::hexadecimal::{commitment_hex, hex_text};
use crate::record::{decode_record, PublicOutputRecord, RecordView, RECORD_BYTES};
use vstd::prelude::*;

verus! {

/// A proved breeding. `seal` is the proof artifact, passed through unread;
/// `journal` holds the disclosed bytes; the other fields are the record that
/// the journal starts with.
#[derive(Debug, Clone, PartialEq, Eq)]
pub struct BreedingProof {
    pub seal: Vec<u8>,
    pub journal: Vec<u8>,
    pub child_commitment: [u8; 32],
    pub is_valid: bool,
    pub parent_a_id: u64,
    pub parent_b_id: u64,
    pub child_generation: u32,
    pub mutation_count: u8,
}

impl BreedingProof {
    /// The record that the fields of the proof spell out.
    pub open spec fn disclosed(&self) -> RecordView {
        RecordView {
            commitment: self.child_commitment@,
            is_valid: self.is_valid,
            parent_a_id: self.parent_a_id,
            parent_b_id: self.parent_b_id,
            child_generation: self.child_generation,
            mutation_count: self.mutation_count,
        }
    }

    /// Assembles a proof from what the proving backend returned. Fails
    /// exactly when the journal is shorter than a record; the seal is not
    /// looked at.
    pub fn from_backend_output(seal: Vec<u8>, journal: Vec<u8>) -> (result: Result<
        BreedingProof,
        DecodeError,
    >)
        ensures
            result is Ok <==> journal@.len() >= RECORD_BYTES,
            result matches Ok(proof) ==> proof.seal@ == seal@ && proof.journal@ == journal@
                && decode_record(journal@) == Some(proof.disclosed()),
            result matches Err(e) ==> e == DecodeError::TruncatedOrMalformedRecord,
    {
        match PublicOutputRecord::from_bytes(journal.as_slice()) {
            Ok(record) => Ok(
                BreedingProof {
                    seal,
                    journal,
                    child_commitment: record.commitment,
                    is_valid: record.is_valid,
                    parent_a_id: record.parent_a_id,
                    parent_b_id: record.parent_b_id,
                    child_generation: record.child_generation,
                    mutation_count: record.mutation_count,
                },
            ),
            Err(e) => Err(e),
        }
    }

    /// The disclosed record.
    pub fn record(&self) -> (record: PublicOutputRecord)
        ensures
            record@ == self.disclosed(),
    {
        PublicOutputRecord {
            commitment: self.child_commitment,
            is_valid: self.is_valid,
            parent_a_id: self.parent_a_id,
            parent_b_id: self.parent_b_id,
            child_generation: self.child_generation,
            mutation_count: self.mutation_count,
        }
    }

    /// The child's commitment as lowercase hexadecimal text.
    pub fn commitment_hex(&self) -> (text: String)
        ensures
            text@ == hex_text(self.child_commitment@),
            text@.len() == 64,
    {
        commitment_hex(&self.child_commitment)
    }
}

} // verus!
