//! Breeding verification for trait-vector genomes.
//!
//! A child genome is accepted as the offspring of two parents when each of its
//! traits lies inside a bounded window around the parents' average and its
//! generation counter is one past the older parent's. The verdict is
//! disclosed, together with a digest of the child and two parent
//! identifiers, as a fixed-layout byte record; the traits themselves never
//! leave the private input.
//!
//! The modules, leaf first: [`endian`] encodes integers, [`dna`] genomes,
//! [`breeding`] holds the rule, [`commitment`] the digest, [`record`] the
//! disclosed record, [`inputs`] the private input stream, [`pipeline`] runs
//! all of it on the executing side, and [`breeding_proof`] is what the host
//! keeps of the result.
pub mod breeding;
pub mod breeding_proof;
mod buffer;
pub mod commitment;
pub mod dna;
pub mod endian;
pub mod error;
pub mod hexadecimal;
pub mod inputs;
pub mod pipeline;
pub mod record;

pub use crate::breeding::{verify_breeding, BreedingValidityResult};
pub use crate::breeding_proof::BreedingProof;
pub use crate::commitment::calculate_commitment;
pub use crate::dna::AgentDNA;
pub use crate::error::DecodeError;
pub use crate::inputs::PrivateInputs;
pub use crate::record::PublicOutputRecord;
