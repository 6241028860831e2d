//! The validation pipeline: from the private inputs of a breeding to the
//! record that is disclosed about it.
use crate::breeding::{breeding_validity, verify_breeding, BreedingValidityResult};
use crate::commitment::{calculate_commitment, commitment_of};
use crate::dna::{TraitVector, NUM_TRAITS};
use crate::error::DecodeError;
use crate::inputs::{
    decode_private_inputs, PrivateInputs, PrivateInputsView, PRIVATE_INPUT_BYTES,
};
use crate::record::{
    decode_record, encode_record, lemma_decode_encode_record, PublicOutputRecord, RecordView,
};
use vstd::prelude::*;

verus! {

/// What is disclosed about the private inputs `v`: the commitment to the
/// child, the verdict on the breeding, the parent identifiers as they came
/// in, and the child's generation.
pub open spec fn public_output(v: PrivateInputsView) -> RecordView {
    let verdict = breeding_validity(v.parent_a, v.parent_b, v.child);
    RecordView {
        commitment: commitment_of(v.child.traits, v.child.generation),
        is_valid: verdict.is_valid,
        parent_a_id: v.parent_a_id,
        parent_b_id: v.parent_b_id,
        child_generation: v.child.generation,
        mutation_count: verdict.mutation_count,
    }
}

/// The bytes disclosed for a private input stream: none if the stream is not
/// well framed, else the encoded record of what it denotes.
pub open spec fn disclosed_bytes(private_input: Seq<u8>) -> Option<Seq<u8>> {
    match decode_private_inputs(private_input) {
        Some(v) => Some(encode_record(public_output(v))),
        None => None,
    }
}

/// Validates the breeding and commits to the child. An invalid breeding is
/// an ordinary outcome, reported in the record.
pub fn validate_and_commit(inputs: &PrivateInputs) -> (record: PublicOutputRecord)
    ensures
        record@ == public_output(inputs@),
        record.mutation_count <= NUM_TRAITS,
{
    let verdict: BreedingValidityResult = verify_breeding(
        &inputs.parent_a,
        &inputs.parent_b,
        &inputs.child,
    );
    let traits: [u8; 8] = inputs.child.to_traits();
    let commitment: [u8; 32] = calculate_commitment(&traits, inputs.child.generation);
    PublicOutputRecord {
        commitment,
        is_valid: verdict.is_valid,
        parent_a_id: inputs.parent_a_id,
        parent_b_id: inputs.parent_b_id,
        child_generation: inputs.child.generation,
        mutation_count: verdict.mutation_count,
    }
}

/// Runs the whole pipeline on a private input stream and returns the 54
/// bytes to disclose. Fails exactly when the stream is not 52 bytes long.
pub fn execute(private_input: &[u8]) -> (result: Result<[u8; 54], DecodeError>)
    ensures
        result is Ok <==> private_input@.len() == PRIVATE_INPUT_BYTES,
        result matches Ok(bytes) ==> disclosed_bytes(private_input@) == Some(bytes@),
        result matches Err(e) ==> e == DecodeError::TruncatedOrMalformedRecord,
{
    match PrivateInputs::from_bytes(private_input) {
        Ok(inputs) => Ok(validate_and_commit(&inputs).to_bytes()),
        Err(e) => Err(e),
    }
}

/// What is disclosed is a well-formed record that passes the parent
/// identifiers and the child's generation on unchanged.
pub proof fn lemma_public_output_shape(v: PrivateInputsView)
    requires
        v.well_formed(),
    ensures
        public_output(v).well_formed(),
        public_output(v).parent_a_id == v.parent_a_id,
        public_output(v).parent_b_id == v.parent_b_id,
        public_output(v).child_generation == v.child.generation,
{
}

/// The host reads back exactly what the pipeline disclosed: decoding the
/// encoded record of any private inputs gives that record.
pub proof fn lemma_host_reads_disclosed_record(v: PrivateInputsView)
    requires
        v.well_formed(),
    ensures
        decode_record(encode_record(public_output(v))) == Some(public_output(v)),
{
    lemma_decode_encode_record(public_output(v));
}

/// The validator is deterministic: two verdicts that both meet its contract
/// on the same genomes are the same verdict.
pub proof fn lemma_verdict_determined(
    a: TraitVector,
    b: TraitVector,
    c: TraitVector,
    first: BreedingValidityResult,
    second: BreedingValidityResult,
)
    requires
        first == breeding_validity(a, b, c),
        second == breeding_validity(a, b, c),
    ensures
        first == second,
{
}

/// The commitment is deterministic: two digests that both meet its contract
/// on the same traits and generation agree byte for byte.
pub proof fn lemma_commitment_determined(
    traits: Seq<u8>,
    generation: u32,
    first: [u8; 32],
    second: [u8; 32],
)
    requires
        first@ == commitment_of(traits, generation),
        second@ == commitment_of(traits, generation),
    ensures
        first == second,
{
}

/// The record encoder is deterministic: two buffers that both meet its
/// contract on the same record agree byte for byte.
pub proof fn lemma_record_bytes_determined(r: RecordView, first: [u8; 54], second: [u8; 54])
    requires
        first@ == encode_record(r),
        second@ == encode_record(r),
    ensures
        first == second,
{
}

/// The whole pipeline is deterministic: two runs on the same private input
/// stream that both meet its contract fail together or disclose the same
/// bytes.
pub proof fn lemma_execution_determined(
    private_input: Seq<u8>,
    first: Result<[u8; 54], DecodeError>,
    second: Result<[u8; 54], DecodeError>,
)
    requires
        first is Ok <==> private_input.len() == PRIVATE_INPUT_BYTES,
        first matches Ok(bytes) ==> disclosed_bytes(private_input) == Some(bytes@),
        first matches Err(e) ==> e == DecodeError::TruncatedOrMalformedRecord,
        second is Ok <==> private_input.len() == PRIVATE_INPUT_BYTES,
        second matches Ok(bytes) ==> disclosed_bytes(private_input) == Some(bytes@),
        second matches Err(e) ==> e == DecodeError::TruncatedOrMalformedRecord,
    ensures
        first == second,
{
    if first is Ok {
        assert(first->Ok_0 =~= second->Ok_0);
    }
}

} // verus!
