//! The QuantPerm state envelope of `quantom_value`, seen through the five
//! numbers it holds, and the calls that read and evolve it.
//!
//! The functions here are trusted: Verus believes their contracts, which
//! restate what the crate's source does to those numbers.
use vstd::prelude::*;
use quantom_value::QuantPerm;

verus! {

#[verifier::external_type_specification]
#[verifier::external_body]
pub struct ExQuantPerm(quantom_value::QuantPerm);

/// The numbers a QuantPerm holds, in this order: the dimension of its PERM,
/// the retained mass E, the activation count, the current dimension and
/// the structural value Σ.
pub uninterp spec fn manifold_state(m: QuantPerm) -> (u128, u128, u64, u64, u128);

/// What a transition under a seed makes of a state (dimension, activation
/// count, retained mass, Σ): the destination dimension, the new Σ, and the
/// resistance τ of the post-transition field.
pub uninterp spec fn transition_outcome(
    seed: Seq<u8>,
    dimension: u64,
    activations: u64,
    retained_mass: u128,
    structural_value: u128,
) -> (u64, u128, u128);

/// Dimension of the PERM a manifold was built on.
pub open spec fn perm_dimension(m: QuantPerm) -> u128 {
    manifold_state(m).0
}

/// Retained mass E.
pub open spec fn retained_mass(m: QuantPerm) -> u128 {
    manifold_state(m).1
}

/// Number of transitions made.
pub open spec fn activations(m: QuantPerm) -> u64 {
    manifold_state(m).2
}

/// Current dimension.
pub open spec fn dimension(m: QuantPerm) -> u64 {
    manifold_state(m).3
}

/// Structural value Σ.
pub open spec fn structural_value(m: QuantPerm) -> u128 {
    manifold_state(m).4
}

/// Product of two values, held at `u128::MAX` when it would not fit.
pub open spec fn saturating_mul(a: u128, b: u128) -> u128 {
    if a * b > u128::MAX {
        u128::MAX
    } else {
        (a * b) as u128
    }
}

/// The value of a byte string read least significant byte first.
pub open spec fn le_value(b: Seq<u8>) -> nat
    decreases b.len(),
{
    if b.len() == 0 {
        0
    } else {
        b[0] as nat + 256 * le_value(b.drop_first())
    }
}

/// The projection C of 32 mirror bytes into `u128`: the exclusive or of its
/// two little-endian halves.
pub open spec fn mirror_projection(mirror: Seq<u8>) -> u128 {
    (le_value(mirror.take(16)) as u128) ^ (le_value(mirror.skip(16)) as u128)
}

/// `x` is the integer square root of `n`.
pub open spec fn is_floor_sqrt(n: u128, x: u128) -> bool {
    x * x <= n && n < (x + 1) * (x + 1)
}

/// The largest `x` with `x * x <= n`.
pub open spec fn integer_sqrt(n: u128) -> u128 {
    choose|x: u128| #[trigger] is_floor_sqrt(n, x)
}

/// An arc of `d` steps of the 64-bit circle, mapped to `[0, 180]`.
pub open spec fn arc_to_180(d: u64) -> u128 {
    ((d as int) * 180 / (u64::MAX as int)) as u128
}

/// `QuantPerm::calculate_work`: (τ, Δ, gross work) for a move between two
/// dimensions, where τ = ⌊√(E² + C²)⌋ (saturating), Δ is the sum of the
/// clockwise and counter-clockwise arcs each mapped to `[0, 180]`, and the
/// gross work is τ × Δ (saturating).
pub open spec fn quantperm_work(retained_mass: u128, mirror: Seq<u8>, from: u64, to: u64) -> (u128, u128, u128) {
    let c = mirror_projection(mirror);
    let tau = integer_sqrt(
        saturating_mul(retained_mass, retained_mass).saturating_add(saturating_mul(c, c)),
    );
    let diff: u64 = if to >= from {
        (to - from) as u64
    } else {
        (from - to) as u64
    };
    let delta = arc_to_180(diff).saturating_add(arc_to_180((u64::MAX - diff) as u64));
    (tau, delta, saturating_mul(tau, delta))
}

/// `QuantPerm::set_initial_dimension_from_perm`: the current dimension
/// becomes the PERM's dimension truncated to 64 bits; nothing else changes.
#[verifier::external_body]
pub(crate) fn set_initial_dimension_from_perm(m: &mut QuantPerm)
    ensures
        manifold_state(*final(m)) == (
            perm_dimension(*old(m)),
            retained_mass(*old(m)),
            activations(*old(m)),
            perm_dimension(*old(m)) as u64,
            structural_value(*old(m)),
        ),
{
    m.set_initial_dimension_from_perm()
}

/// `QuantPerm::retain`: the retained mass grows by `mass`, saturating;
/// nothing else changes.
#[verifier::external_body]
pub(crate) fn retain(m: &mut QuantPerm, mass: u128)
    ensures
        manifold_state(*final(m)) == (
            perm_dimension(*old(m)),
            retained_mass(*old(m)).saturating_add(mass),
            activations(*old(m)),
            dimension(*old(m)),
            structural_value(*old(m)),
        ),
{
    m.retain(mass)
}

/// `QuantPerm::transition(Some(seed))`, returning the τ of the emitted
/// gravity receipt. The PERM and the retained mass stay; the activation
/// count grows by one; the dimension and Σ become what the transition
/// outcome names, Σ never decreasing. The count must have room to grow:
/// the crate adds to it without a check.
#[verifier::external_body]
pub(crate) fn transition(m: &mut QuantPerm, seed: &[u8; 32]) -> (tau: u128)
    requires
        activations(*old(m)) < u64::MAX,
    ensures
        ({
            let outcome = transition_outcome(
                seed@,
                dimension(*old(m)),
                activations(*old(m)),
                retained_mass(*old(m)),
                structural_value(*old(m)),
            );
            &&& manifold_state(*final(m)) == (
                perm_dimension(*old(m)),
                retained_mass(*old(m)),
                (activations(*old(m)) + 1) as u64,
                outcome.0,
                outcome.1,
            )
            &&& tau == outcome.2
            &&& outcome.1 >= structural_value(*old(m))
        }),
{
    m.transition(Some(seed)).tau
}

/// `QuantPerm::calculate_work`, a pure function of its arguments.
#[verifier::external_body]
pub(crate) fn calculate_work(retained_mass: u128, mirror: &[u8; 32], from: u64, to: u64) -> (r: (u128, u128, u128))
    ensures
        r == quantperm_work(retained_mass, mirror@, from, to),
{
    QuantPerm::calculate_work(retained_mass, mirror, from, to)
}

/// `QuantPerm::structural_value`: Σ.
#[verifier::external_body]
pub(crate) fn get_structural_value(m: &QuantPerm) -> (r: u128)
    ensures
        r == structural_value(*m),
{
    m.structural_value()
}

/// `QuantPerm::dimension`: the current dimension.
#[verifier::external_body]
pub(crate) fn get_dimension(m: &QuantPerm) -> (r: u64)
    ensures
        r == dimension(*m),
{
    m.dimension()
}

/// `QuantPerm::retained_mass`: E.
#[verifier::external_body]
pub(crate) fn get_retained_mass(m: &QuantPerm) -> (r: u128)
    ensures
        r == retained_mass(*m),
{
    m.retained_mass()
}

/// `QuantPerm::activations`: the number of transitions made.
#[verifier::external_body]
pub(crate) fn get_activations(m: &QuantPerm) -> (r: u64)
    ensures
        r == activations(*m),
{
    m.activations()
}

} // verus!
