//! The commitment: a deterministic 32-byte digest of a child genome.
//!
//! The digest is a simple position-dependent mixing, not a cryptographic
//! hash. What it offers is that equal genomes give equal digests and
//! different genomes give different ones.
use crate::dna::NUM_TRAITS;
use vstd::prelude::*;

verus! {

/// Length in bytes of a commitment.
pub const COMMITMENT_BYTES: usize = 32;

/// The low byte of `generation` shifted right by `4 * i` bits: the window of
/// the generation counter that is mixed into trait `i`.
pub open spec fn generation_window(generation: u32, i: int) -> u8 {
    ((generation >> ((4 * i) as u32)) % 256) as u8
}

/// Byte `k` of the commitment to `traits` and `generation`. With `i` the
/// trait index `k % 8`, the four blocks of eight bytes hold the trait itself,
/// the trait plus `13 * i`, the trait times `i + 7`, both modulo 256, and the
/// trait xor-ed with window `i` of the generation.
pub open spec fn commitment_byte(traits: Seq<u8>, generation: u32, k: int) -> u8 {
    let i = k % 8;
    let t = traits[i];
    if k < 8 {
        t
    } else if k < 16 {
        ((t + 13 * i) % 256) as u8
    } else if k < 24 {
        ((t * (i + 7)) % 256) as u8
    } else {
        t ^ generation_window(generation, i)
    }
}

/// The commitment to `traits` and `generation`.
pub open spec fn commitment_of(traits: Seq<u8>, generation: u32) -> Seq<u8> {
    Seq::new(COMMITMENT_BYTES as nat, |k: int| commitment_byte(traits, generation, k))
}

/// Computes the commitment to a child's traits and generation.
pub fn calculate_commitment(traits: &[u8; 8], generation: u32) -> (commitment: [u8; 32])
    ensures
        commitment@ == commitment_of(traits@, generation),
{
    let mut commitment: [u8; 32] = [0u8; 32];
    let mut i: usize = 0;
    while i < NUM_TRAITS
        invariant
            i <= NUM_TRAITS,
            forall|k: int|
                0 <= k < COMMITMENT_BYTES && k % 8 < i ==> commitment@[k] == commitment_byte(
                    traits@,
                    generation,
                    k,
                ),
        decreases NUM_TRAITS - i,
    {
        let t: u8 = traits[i];
        let position: u8 = i as u8;
        let shift: u32 = 4 * (i as u32);
        let shifted: u32 = generation >> shift;
        let window: u8 = (shifted & 0xff) as u8;
        assert(shifted & 0xff == shifted % 256) by (bit_vector);
        assert(t as nat * (position + 7) as nat == t * (i + 7)) by (nonlinear_arith)
            requires
                position == i,
        ;
        commitment[i] = t;
        commitment[i + 8] = t.wrapping_add(position * 13);
        commitment[i + 16] = t.wrapping_mul(position + 7);
        commitment[i + 24] = t ^ window;
        i = i + 1;
    }
    commitment
}

/// A commitment is 32 bytes long and starts with the traits themselves.
pub proof fn lemma_commitment_shape(traits: Seq<u8>, generation: u32)
    requires
        traits.len() == NUM_TRAITS,
    ensures
        commitment_of(traits, generation).len() == COMMITMENT_BYTES,
        commitment_of(traits, generation).subrange(0, NUM_TRAITS as int) == traits,
{
}

/// The four windows at the even positions cover the generation counter: two
/// counters that agree on them are equal.
proof fn lemma_windows_determine_generation(g: u32, h: u32)
    requires
        generation_window(g, 0) == generation_window(h, 0),
        generation_window(g, 2) == generation_window(h, 2),
        generation_window(g, 4) == generation_window(h, 4),
        generation_window(g, 6) == generation_window(h, 6),
    ensures
        g == h,
{
    assert(g == h) by (bit_vector)
        requires
            (g >> 0u32) % 256 == (h >> 0u32) % 256,
            (g >> 8u32) % 256 == (h >> 8u32) % 256,
            (g >> 16u32) % 256 == (h >> 16u32) % 256,
            (g >> 24u32) % 256 == (h >> 24u32) % 256,
    ;
}

/// Xor with a fixed byte loses nothing.
proof fn lemma_xor_cancels(t: u8, v: u8, w: u8)
    requires
        t ^ v == t ^ w,
    ensures
        v == w,
{
    assert(v == w) by (bit_vector)
        requires
            t ^ v == t ^ w,
    ;
}

/// The commitment depends on every trait and on the whole generation
/// counter: genomes with equal commitments are equal, so changing any input
/// byte changes the digest.
pub proof fn lemma_commitment_injective(
    traits: Seq<u8>,
    generation: u32,
    other_traits: Seq<u8>,
    other_generation: u32,
)
    requires
        traits.len() == NUM_TRAITS,
        other_traits.len() == NUM_TRAITS,
        commitment_of(traits, generation) == commitment_of(other_traits, other_generation),
    ensures
        traits == other_traits,
        generation == other_generation,
{
    let d = commitment_of(traits, generation);
    let e = commitment_of(other_traits, other_generation);
    assert forall|i: int| 0 <= i < NUM_TRAITS implies traits[i] == other_traits[i] by {
        assert(d[i] == commitment_byte(traits, generation, i));
        assert(e[i] == commitment_byte(other_traits, other_generation, i));
    }
    assert forall|i: int| 0 <= i < NUM_TRAITS implies generation_window(generation, i)
        == generation_window(other_generation, i) by {
        assert(d[i + 24] == commitment_byte(traits, generation, i + 24));
        assert(e[i + 24] == commitment_byte(other_traits, other_generation, i + 24));
        lemma_xor_cancels(
            traits[i],
            generation_window(generation, i),
            generation_window(other_generation, i),
        );
    }
    lemma_windows_determine_generation(generation, other_generation);
}

} // verus!
