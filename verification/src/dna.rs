//! An agent's genome and its fixed twelve-byte encoding.
use crate::endian::{
    le_bytes, le_value, lemma_le_bytes_len, lemma_le_bytes_of_value, lemma_le_value_bound,
    lemma_le_value_of_bytes, lemma_pow256_values, u32_from_le, u32_to_le,
};
use vstd::prelude::*;

verus! {

/// Number of traits in a genome.
pub const NUM_TRAITS: usize = 8;

/// Length in bytes of an encoded genome.
pub const DNA_BYTES: usize = 12;

/// The genome of one agent: eight traits in the fixed order social,
/// technical, creativity, analysis, trading, empathy, teaching, leadership,
/// and the number of breeding steps that led to it.
///
/// A trait is meant to lie between 0 and 100, but any byte is representable
/// and the encoding accepts it; only breeding validation looks at the range.
#[derive(Debug, Clone, Copy, PartialEq, Eq)]
pub struct AgentDNA {
    pub traits: [u8; NUM_TRAITS],
    pub generation: u32,
}

/// Mathematical model of a genome.
pub struct TraitVector {
    pub traits: Seq<u8>,
    pub generation: u32,
}

impl TraitVector {
    /// A model of an actual genome has exactly eight traits.
    pub open spec fn well_formed(self) -> bool {
        self.traits.len() == NUM_TRAITS
    }
}

impl View for AgentDNA {
    type V = TraitVector;

    open spec fn view(&self) -> TraitVector {
        TraitVector { traits: self.traits@, generation: self.generation }
    }
}

/// The encoding of a genome: its traits in order, then the generation as
/// four little-endian bytes.
pub open spec fn encode_trait_vector(v: TraitVector) -> Seq<u8> {
    v.traits + le_bytes(v.generation as nat, 4)
}

/// The genome that twelve bytes denote. No range is checked: every buffer
/// denotes some genome.
pub open spec fn decode_trait_vector(bytes: Seq<u8>) -> TraitVector {
    TraitVector {
        traits: bytes.subrange(0, NUM_TRAITS as int),
        generation: le_value(bytes.subrange(NUM_TRAITS as int, DNA_BYTES as int)) as u32,
    }
}

/// An encoded genome is twelve bytes long.
pub proof fn lemma_encoding_length(v: TraitVector)
    requires
        v.well_formed(),
    ensures
        encode_trait_vector(v).len() == DNA_BYTES,
{
    lemma_le_bytes_len(v.generation as nat, 4);
}

/// Decoding is the inverse of encoding: every genome is recovered from its
/// own bytes.
pub proof fn lemma_decode_encode(v: TraitVector)
    requires
        v.well_formed(),
    ensures
        decode_trait_vector(encode_trait_vector(v)) == v,
{
    let bytes = encode_trait_vector(v);
    let tail = le_bytes(v.generation as nat, 4);
    lemma_le_bytes_len(v.generation as nat, 4);
    lemma_pow256_values();
    lemma_le_value_of_bytes(v.generation as nat, 4);
    assert(bytes.subrange(0, NUM_TRAITS as int) =~= v.traits);
    assert(bytes.subrange(NUM_TRAITS as int, DNA_BYTES as int) =~= tail);
}

/// Encoding is the inverse of decoding: every twelve-byte buffer is
/// recovered from the genome it denotes.
pub proof fn lemma_encode_decode(bytes: Seq<u8>)
    requires
        bytes.len() == DNA_BYTES,
    ensures
        decode_trait_vector(bytes).well_formed(),
        encode_trait_vector(decode_trait_vector(bytes)) == bytes,
{
    let tail = bytes.subrange(NUM_TRAITS as int, DNA_BYTES as int);
    lemma_le_value_bound(tail);
    lemma_pow256_values();
    lemma_le_bytes_of_value(tail);
}

impl AgentDNA {
    /// Every genome is modelled by a well-formed trait vector.
    pub proof fn lemma_view_well_formed(self)
        ensures
            self@.well_formed(),
    {
    }

    /// Encodes the genome as twelve bytes.
    pub fn to_bytes(&self) -> (bytes: [u8; 12])
        ensures
            bytes@ == encode_trait_vector(self@),
    {
        let g: [u8; 4] = u32_to_le(self.generation);
        [
            self.traits[0],
            self.traits[1],
            self.traits[2],
            self.traits[3],
            self.traits[4],
            self.traits[5],
            self.traits[6],
            self.traits[7],
            g[0],
            g[1],
            g[2],
            g[3],
        ]
    }

    /// Decodes twelve bytes into the genome they denote.
    pub fn from_bytes(bytes: &[u8; 12]) -> (dna: Self)
        ensures
            dna@ == decode_trait_vector(bytes@),
    {
        let traits: [u8; NUM_TRAITS] = [
            bytes[0],
            bytes[1],
            bytes[2],
            bytes[3],
            bytes[4],
            bytes[5],
            bytes[6],
            bytes[7],
        ];
        let tail: [u8; 4] = [bytes[8], bytes[9], bytes[10], bytes[11]];
        let generation: u32 = u32_from_le(tail);
        proof {
            assert(traits@ =~= bytes@.subrange(0, NUM_TRAITS as int));
            assert(tail@ =~= bytes@.subrange(NUM_TRAITS as int, DNA_BYTES as int));
        }
        AgentDNA { traits, generation }
    }

    /// The eight traits, in their fixed order.
    pub fn to_traits(&self) -> (traits: [u8; 8])
        ensures
            traits@ == self@.traits,
    {
        self.traits
    }
}

} // verus!
