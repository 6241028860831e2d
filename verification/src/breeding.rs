//! The breeding rule: when a child genome is a legitimate combination of two
//! parent genomes, and how many of its traits mutated noticeably.
use crate::dna::{AgentDNA, TraitVector, NUM_TRAITS};
use vstd::prelude::*;

verus! {

/// Largest distance a child trait may lie from the parents' average.
pub const MAX_MUTATION: i16 = 15;

/// Largest value of a trait.
pub const MAX_TRAIT: i16 = 100;

/// A deviation from the parents' average above this counts as a mutation.
pub const MUTATION_THRESHOLD: i16 = 5;

/// Outcome of validating one breeding.
#[derive(Debug, Clone, Copy, PartialEq, Eq)]
pub struct BreedingValidityResult {
    /// Every trait lies in its window and the generation is the expected one.
    pub is_valid: bool,
    /// Number of traits that deviate from the parents' average by more than
    /// the mutation threshold, whether or not the breeding is valid.
    pub mutation_count: u8,
}

/// The parents' average of one trait, rounded down.
pub open spec fn parental_average(a: u8, b: u8) -> int {
    (a + b) / 2
}

/// Smallest child trait that the parents `a` and `b` allow.
pub open spec fn min_expected(a: u8, b: u8) -> int {
    let low = parental_average(a, b) - MAX_MUTATION;
    if low > 0 {
        low
    } else {
        0
    }
}

/// Largest child trait that the parents `a` and `b` allow.
pub open spec fn max_expected(a: u8, b: u8) -> int {
    let high = parental_average(a, b) + MAX_MUTATION;
    if high < MAX_TRAIT {
        high
    } else {
        MAX_TRAIT as int
    }
}

/// The child trait `c` lies in the window that the parents `a` and `b` allow.
pub open spec fn trait_within_window(a: u8, b: u8, c: u8) -> bool {
    min_expected(a, b) <= c <= max_expected(a, b)
}

/// The child trait `c` deviates from the average of `a` and `b` by more than
/// the mutation threshold, in either direction.
pub open spec fn is_significant_mutation(a: u8, b: u8, c: u8) -> bool {
    let deviation = c - parental_average(a, b);
    deviation > MUTATION_THRESHOLD || deviation < -MUTATION_THRESHOLD
}

/// Trait `i` of the child lies in the window of trait `i` of the parents.
pub open spec fn trait_ok_at(a: Seq<u8>, b: Seq<u8>, c: Seq<u8>, i: int) -> bool {
    trait_within_window(a[i], b[i], c[i])
}

/// Every trait of the child lies in its window.
pub open spec fn all_traits_within_window(a: Seq<u8>, b: Seq<u8>, c: Seq<u8>) -> bool {
    forall|i: int| 0 <= i < NUM_TRAITS ==> #[trigger] trait_ok_at(a, b, c, i)
}

/// Number of significant mutations among the first `n` traits.
pub open spec fn significant_mutations(a: Seq<u8>, b: Seq<u8>, c: Seq<u8>, n: nat) -> nat
    decreases n,
{
    if n == 0 {
        0
    } else {
        let here: nat = if is_significant_mutation(a[n - 1], b[n - 1], c[n - 1]) {
            1
        } else {
            0
        };
        significant_mutations(a, b, c, (n - 1) as nat) + here
    }
}

/// The generation a child of parents of generations `a` and `b` must have:
/// one past the older parent's.
pub open spec fn expected_generation(a: u32, b: u32) -> int {
    if a >= b {
        a + 1
    } else {
        b + 1
    }
}

/// The verdict on a child `c` of the parents `a` and `b`.
///
/// A child of a parent whose generation is the largest 32-bit number has no
/// valid generation: the expected one does not fit the counter.
pub open spec fn breeding_validity(
    a: TraitVector,
    b: TraitVector,
    c: TraitVector,
) -> BreedingValidityResult {
    BreedingValidityResult {
        is_valid: all_traits_within_window(a.traits, b.traits, c.traits) && c.generation
            == expected_generation(a.generation, b.generation),
        mutation_count: significant_mutations(a.traits, b.traits, c.traits, NUM_TRAITS as nat) as u8,
    }
}

/// At most `n` of the first `n` traits mutated.
pub proof fn lemma_mutation_count_bound(a: Seq<u8>, b: Seq<u8>, c: Seq<u8>, n: nat)
    ensures
        significant_mutations(a, b, c, n) <= n,
    decreases n,
{
    if n > 0 {
        lemma_mutation_count_bound(a, b, c, (n - 1) as nat);
    }
}

/// Whether the child trait `c` lies in the window around the average of the
/// parent traits `a` and `b`.
pub fn trait_in_window(a: u8, b: u8, c: u8) -> (ok: bool)
    ensures
        ok == trait_within_window(a, b, c),
{
    let avg: i16 = (a as i16 + b as i16) / 2;
    let low: i16 = avg - MAX_MUTATION;
    let high: i16 = avg + MAX_MUTATION;
    let min_allowed: i16 = if low > 0 {
        low
    } else {
        0
    };
    let max_allowed: i16 = if high < MAX_TRAIT {
        high
    } else {
        MAX_TRAIT
    };
    let child: i16 = c as i16;
    min_allowed <= child && child <= max_allowed
}

/// Whether the child trait `c` deviates from the average of the parent traits
/// `a` and `b` by more than the mutation threshold.
pub fn trait_mutated(a: u8, b: u8, c: u8) -> (mutated: bool)
    ensures
        mutated == is_significant_mutation(a, b, c),
{
    let avg: i16 = (a as i16 + b as i16) / 2;
    let deviation: i16 = c as i16 - avg;
    deviation > MUTATION_THRESHOLD || deviation < -MUTATION_THRESHOLD
}

/// Decides whether `child` is a valid offspring of `parent_a` and `parent_b`
/// and counts its significant mutations.
///
/// All eight traits are examined whatever the earlier ones gave, so the
/// mutation count is that of the whole genome also for an invalid child.
pub fn verify_breeding(parent_a: &AgentDNA, parent_b: &AgentDNA, child: &AgentDNA) -> (result:
    BreedingValidityResult)
    ensures
        result == breeding_validity(parent_a@, parent_b@, child@),
        result.mutation_count <= NUM_TRAITS,
{
    let mut is_valid: bool = true;
    let mut mutation_count: u8 = 0;
    let mut i: usize = 0;
    while i < NUM_TRAITS
        invariant
            i <= NUM_TRAITS,
            is_valid == (forall|j: int|
                0 <= j < i ==> #[trigger] trait_ok_at(
                    parent_a@.traits,
                    parent_b@.traits,
                    child@.traits,
                    j,
                )),
            mutation_count == significant_mutations(
                parent_a@.traits,
                parent_b@.traits,
                child@.traits,
                i as nat,
            ),
            mutation_count <= i,
        decreases NUM_TRAITS - i,
    {
        let a: u8 = parent_a.traits[i];
        let b: u8 = parent_b.traits[i];
        let c: u8 = child.traits[i];
        if !trait_in_window(a, b, c) {
            is_valid = false;
            assert(!trait_ok_at(parent_a@.traits, parent_b@.traits, child@.traits, i as int));
        }
        if trait_mutated(a, b, c) {
            mutation_count = mutation_count + 1;
        }
        i = i + 1;
    }
    let older: u32 = if parent_a.generation >= parent_b.generation {
        parent_a.generation
    } else {
        parent_b.generation
    };
    if older == u32::MAX || child.generation != older + 1 {
        is_valid = false;
    }
    BreedingValidityResult { is_valid, mutation_count }
}

/// The window of a trait does not depend on the order of the parents.
pub proof fn lemma_window_symmetric(a: u8, b: u8, c: u8)
    ensures
        parental_average(a, b) == parental_average(b, a),
        min_expected(a, b) == min_expected(b, a),
        max_expected(a, b) == max_expected(b, a),
        trait_within_window(a, b, c) == trait_within_window(b, a, c),
        is_significant_mutation(a, b, c) == is_significant_mutation(b, a, c),
{
}

/// The mutation count does not depend on the order of the parents.
proof fn lemma_mutations_symmetric(a: Seq<u8>, b: Seq<u8>, c: Seq<u8>, n: nat)
    ensures
        significant_mutations(a, b, c, n) == significant_mutations(b, a, c, n),
    decreases n,
{
    if n > 0 {
        lemma_mutations_symmetric(a, b, c, (n - 1) as nat);
    }
}

/// Swapping the two parents leaves the verdict unchanged.
pub proof fn lemma_parents_commute(a: TraitVector, b: TraitVector, c: TraitVector)
    ensures
        breeding_validity(a, b, c) == breeding_validity(b, a, c),
{
    lemma_mutations_symmetric(a.traits, b.traits, c.traits, NUM_TRAITS as nat);
    assert forall|i: int| 0 <= i < NUM_TRAITS implies trait_ok_at(a.traits, b.traits, c.traits, i)
        == trait_ok_at(b.traits, a.traits, c.traits, i) by {}
}

/// Parents whose traits lie in the trait domain always leave a window: its
/// lower end is not above its upper end.
pub proof fn lemma_window_of_domain_parents(a: u8, b: u8)
    requires
        a <= MAX_TRAIT,
        b <= MAX_TRAIT,
    ensures
        min_expected(a, b) <= max_expected(a, b),
{
}

/// A child trait exactly at either end of the window is inside it, also
/// where that end was clamped to the trait domain. Parents so far above the
/// domain that they leave no window are excluded.
pub proof fn lemma_window_ends_are_inside(a: u8, b: u8, c: u8)
    requires
        min_expected(a, b) <= max_expected(a, b),
        c == min_expected(a, b) || c == max_expected(a, b),
    ensures
        trait_within_window(a, b, c),
{
}

/// A child trait one unit below the lower end or one unit above the upper end
/// of the window is outside it, also where that end was clamped to the trait
/// domain.
pub proof fn lemma_beyond_window_ends_is_outside(a: u8, b: u8, c: u8)
    requires
        c == min_expected(a, b) - 1 || c == max_expected(a, b) + 1,
    ensures
        !trait_within_window(a, b, c),
{
}

/// A child trait above the trait domain is outside every window, whatever
/// the parents are: the upper end is never above the domain.
pub proof fn lemma_child_above_domain_is_outside(a: u8, b: u8, c: u8)
    requires
        c > MAX_TRAIT,
    ensures
        !trait_within_window(a, b, c),
{
}

/// A single trait outside its window makes the breeding invalid, whatever
/// the other traits and the generations are.
pub proof fn lemma_trait_outside_window_invalidates(
    a: TraitVector,
    b: TraitVector,
    c: TraitVector,
    i: int,
)
    requires
        0 <= i < NUM_TRAITS,
        !trait_within_window(a.traits[i], b.traits[i], c.traits[i]),
    ensures
        !breeding_validity(a, b, c).is_valid,
{
    assert(!trait_ok_at(a.traits, b.traits, c.traits, i));
}

/// A breeding is valid exactly when every trait is inside its window and the
/// child's generation is the expected one.
pub proof fn lemma_valid_iff(a: TraitVector, b: TraitVector, c: TraitVector)
    ensures
        breeding_validity(a, b, c).is_valid <==> ((forall|i: int|
            0 <= i < NUM_TRAITS ==> trait_within_window(
                #[trigger] a.traits[i],
                b.traits[i],
                c.traits[i],
            )) && c.generation == expected_generation(a.generation, b.generation)),
{
    if forall|i: int|
        0 <= i < NUM_TRAITS ==> trait_within_window(
            #[trigger] a.traits[i],
            b.traits[i],
            c.traits[i],
        ) {
        assert forall|i: int| 0 <= i < NUM_TRAITS implies #[trigger] trait_ok_at(
            a.traits,
            b.traits,
            c.traits,
            i,
        ) by {}
    }
    if all_traits_within_window(a.traits, b.traits, c.traits) {
        assert forall|i: int| 0 <= i < NUM_TRAITS implies trait_within_window(
            #[trigger] a.traits[i],
            b.traits[i],
            c.traits[i],
        ) by {
            assert(trait_ok_at(a.traits, b.traits, c.traits, i));
        }
    }
}

/// A child all of whose traits sit exactly at an end of their windows, and
/// whose generation is the expected one, is valid.
pub proof fn lemma_child_at_window_ends_is_valid(a: TraitVector, b: TraitVector, c: TraitVector)
    requires
        forall|i: int|
            0 <= i < NUM_TRAITS ==> min_expected(#[trigger] a.traits[i], b.traits[i])
                <= max_expected(a.traits[i], b.traits[i]),
        forall|i: int|
            0 <= i < NUM_TRAITS ==> (#[trigger] c.traits[i]) == min_expected(
                a.traits[i],
                b.traits[i],
            ) || c.traits[i] == max_expected(a.traits[i], b.traits[i]),
        c.generation == expected_generation(a.generation, b.generation),
    ensures
        breeding_validity(a, b, c).is_valid,
{
    assert forall|i: int| 0 <= i < NUM_TRAITS implies #[trigger] trait_ok_at(
        a.traits,
        b.traits,
        c.traits,
        i,
    ) by {}
}

/// A child whose generation is not one past the older parent's is invalid,
/// whatever its traits are.
pub proof fn lemma_wrong_generation_invalidates(a: TraitVector, b: TraitVector, c: TraitVector)
    requires
        c.generation != expected_generation(a.generation, b.generation),
    ensures
        !breeding_validity(a, b, c).is_valid,
{
}

/// The mutation count is a function of the traits alone: two breedings with
/// the same traits have the same count, whatever their generations are and
/// whether or not either is valid.
pub proof fn lemma_mutation_count_ignores_generation(
    a: TraitVector,
    b: TraitVector,
    c: TraitVector,
    a2: TraitVector,
    b2: TraitVector,
    c2: TraitVector,
)
    requires
        a2.traits == a.traits,
        b2.traits == b.traits,
        c2.traits == c.traits,
    ensures
        breeding_validity(a2, b2, c2).mutation_count == breeding_validity(a, b, c).mutation_count,
{
}

/// The mutation count of a verdict lies between zero and eight.
pub proof fn lemma_mutation_count_in_range(a: TraitVector, b: TraitVector, c: TraitVector)
    ensures
        breeding_validity(a, b, c).mutation_count == significant_mutations(
            a.traits,
            b.traits,
            c.traits,
            NUM_TRAITS as nat,
        ),
        breeding_validity(a, b, c).mutation_count <= NUM_TRAITS,
{
    lemma_mutation_count_bound(a.traits, b.traits, c.traits, NUM_TRAITS as nat);
}

} // verus!
