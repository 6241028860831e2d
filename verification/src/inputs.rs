//! The private input stream: what crosses into the executing side.
//!
//! The fields come in a fixed order, each with a fixed size: the first
//! parent's genome (12 bytes), the second parent's genome (12), the child's
//! genome (12), the first parent's identifier (8, little-endian) and the
//! second parent's identifier (8, little-endian): 52 bytes in all.
use crate::buffer::{read_array, write_array};
use crate::dna::{
    decode_trait_vector, encode_trait_vector, lemma_decode_encode, lemma_encode_decode,
    lemma_encoding_length, AgentDNA, TraitVector,
};
use crate::endian::{
    le_bytes, le_value, lemma_le_bytes_len, lemma_le_bytes_of_value, lemma_le_value_bound,
    lemma_le_value_of_bytes, lemma_pow256_values, u64_from_le, u64_to_le,
};
use crate::error::DecodeError;
use vstd::prelude::*;

verus! {

/// Length in bytes of the private input stream.
pub const PRIVATE_INPUT_BYTES: usize = 52;

/// The private inputs of one validation. The parent identifiers are opaque
/// tokens: nothing is read from them, they are only passed on.
#[derive(Debug, Clone, Copy, PartialEq, Eq)]
pub struct PrivateInputs {
    pub parent_a: AgentDNA,
    pub parent_b: AgentDNA,
    pub child: AgentDNA,
    pub parent_a_id: u64,
    pub parent_b_id: u64,
}

/// Mathematical model of the private inputs.
pub struct PrivateInputsView {
    pub parent_a: TraitVector,
    pub parent_b: TraitVector,
    pub child: TraitVector,
    pub parent_a_id: u64,
    pub parent_b_id: u64,
}

impl PrivateInputsView {
    /// The three genomes are well formed.
    pub open spec fn well_formed(self) -> bool {
        self.parent_a.well_formed() && self.parent_b.well_formed() && self.child.well_formed()
    }
}

impl View for PrivateInputs {
    type V = PrivateInputsView;

    open spec fn view(&self) -> PrivateInputsView {
        PrivateInputsView {
            parent_a: self.parent_a@,
            parent_b: self.parent_b@,
            child: self.child@,
            parent_a_id: self.parent_a_id,
            parent_b_id: self.parent_b_id,
        }
    }
}

/// The private input stream of `v`: its fields in their fixed order.
pub open spec fn encode_private_inputs(v: PrivateInputsView) -> Seq<u8> {
    encode_trait_vector(v.parent_a) + encode_trait_vector(v.parent_b) + encode_trait_vector(
        v.child,
    ) + le_bytes(v.parent_a_id as nat, 8) + le_bytes(v.parent_b_id as nat, 8)
}

/// The private inputs that a stream denotes: none unless it is exactly 52
/// bytes long, else the fields read off in their fixed order.
pub open spec fn decode_private_inputs(bytes: Seq<u8>) -> Option<PrivateInputsView> {
    if bytes.len() != PRIVATE_INPUT_BYTES {
        None
    } else {
        Some(
            PrivateInputsView {
                parent_a: decode_trait_vector(bytes.subrange(0, 12)),
                parent_b: decode_trait_vector(bytes.subrange(12, 24)),
                child: decode_trait_vector(bytes.subrange(24, 36)),
                parent_a_id: le_value(bytes.subrange(36, 44)) as u64,
                parent_b_id: le_value(bytes.subrange(44, 52)) as u64,
            },
        )
    }
}

/// Where each field of the private inputs lies in their stream.
proof fn lemma_private_input_fields(v: PrivateInputsView)
    requires
        v.well_formed(),
    ensures
        encode_private_inputs(v).len() == PRIVATE_INPUT_BYTES,
        encode_private_inputs(v).subrange(0, 12) == encode_trait_vector(v.parent_a),
        encode_private_inputs(v).subrange(12, 24) == encode_trait_vector(v.parent_b),
        encode_private_inputs(v).subrange(24, 36) == encode_trait_vector(v.child),
        encode_private_inputs(v).subrange(36, 44) == le_bytes(v.parent_a_id as nat, 8),
        encode_private_inputs(v).subrange(44, 52) == le_bytes(v.parent_b_id as nat, 8),
{
    lemma_encoding_length(v.parent_a);
    lemma_encoding_length(v.parent_b);
    lemma_encoding_length(v.child);
    lemma_le_bytes_len(v.parent_a_id as nat, 8);
    lemma_le_bytes_len(v.parent_b_id as nat, 8);
}

/// The private input stream is 52 bytes long.
pub proof fn lemma_private_input_length(v: PrivateInputsView)
    requires
        v.well_formed(),
    ensures
        encode_private_inputs(v).len() == PRIVATE_INPUT_BYTES,
{
    lemma_private_input_fields(v);
}

/// What the host writes is what the executing side reads: the private inputs
/// are recovered from their own stream.
pub proof fn lemma_decode_encode_private_inputs(v: PrivateInputsView)
    requires
        v.well_formed(),
    ensures
        decode_private_inputs(encode_private_inputs(v)) == Some(v),
{
    lemma_private_input_fields(v);
    lemma_decode_encode(v.parent_a);
    lemma_decode_encode(v.parent_b);
    lemma_decode_encode(v.child);
    lemma_pow256_values();
    lemma_le_value_of_bytes(v.parent_a_id as nat, 8);
    lemma_le_value_of_bytes(v.parent_b_id as nat, 8);
}

/// Every stream of 52 bytes is the stream of the private inputs it denotes.
pub proof fn lemma_encode_decode_private_inputs(bytes: Seq<u8>)
    requires
        bytes.len() == PRIVATE_INPUT_BYTES,
    ensures
        decode_private_inputs(bytes) matches Some(v) && v.well_formed() && encode_private_inputs(v)
            == bytes,
{
    lemma_encode_decode(bytes.subrange(0, 12));
    lemma_encode_decode(bytes.subrange(12, 24));
    lemma_encode_decode(bytes.subrange(24, 36));
    lemma_pow256_values();
    lemma_le_value_bound(bytes.subrange(36, 44));
    lemma_le_value_bound(bytes.subrange(44, 52));
    lemma_le_bytes_of_value(bytes.subrange(36, 44));
    lemma_le_bytes_of_value(bytes.subrange(44, 52));
}

impl PrivateInputs {
    /// The private inputs are modelled by a well-formed view.
    pub proof fn lemma_view_well_formed(self)
        ensures
            self@.well_formed(),
    {
    }

    /// Writes the private input stream: the 52 bytes handed to the executing
    /// side.
    pub fn to_bytes(&self) -> (bytes: [u8; 52])
        ensures
            bytes@ == encode_private_inputs(self@),
    {
        let parent_a: [u8; 12] = self.parent_a.to_bytes();
        let parent_b: [u8; 12] = self.parent_b.to_bytes();
        let child: [u8; 12] = self.child.to_bytes();
        let a_id: [u8; 8] = u64_to_le(self.parent_a_id);
        let b_id: [u8; 8] = u64_to_le(self.parent_b_id);
        let mut bytes: [u8; 52] = [0u8; 52];
        write_array(&mut bytes, 0, &parent_a);
        write_array(&mut bytes, 12, &parent_b);
        write_array(&mut bytes, 24, &child);
        write_array(&mut bytes, 36, &a_id);
        write_array(&mut bytes, 44, &b_id);
        bytes
    }

    /// Reads the private inputs off their stream. Fails exactly when the
    /// stream is not 52 bytes long: with a field missing or bytes left over
    /// the fields cannot be told apart.
    pub fn from_bytes(bytes: &[u8]) -> (result: Result<PrivateInputs, DecodeError>)
        ensures
            result is Ok <==> bytes@.len() == PRIVATE_INPUT_BYTES,
            result matches Ok(inputs) ==> decode_private_inputs(bytes@) == Some(inputs@),
            result matches Err(e) ==> e == DecodeError::TruncatedOrMalformedRecord,
    {
        if bytes.len() != PRIVATE_INPUT_BYTES {
            return Err(DecodeError::TruncatedOrMalformedRecord);
        }
        let parent_a: [u8; 12] = read_array(bytes, 0);
        let parent_b: [u8; 12] = read_array(bytes, 12);
        let child: [u8; 12] = read_array(bytes, 24);
        let a_id: [u8; 8] = read_array(bytes, 36);
        let b_id: [u8; 8] = read_array(bytes, 44);
        Ok(
            PrivateInputs {
                parent_a: AgentDNA::from_bytes(&parent_a),
                parent_b: AgentDNA::from_bytes(&parent_b),
                child: AgentDNA::from_bytes(&child),
                parent_a_id: u64_from_le(a_id),
                parent_b_id: u64_from_le(b_id),
            },
        )
    }
}

} // verus!
