//! Quantum identity: the deterministic anchor of protocol behaviour, its
//! seed, and the economic safety valves read from a coordinate's
//! observation.
use vstd::prelude::*;
use crate::config::{require_seed, seed_from_hex, BalanceProof, SeedError};
use vstd::string::StringSliceAdditionalSpecFns;

verus! {

/// The shareable truth of a coordinate, as an observer reports it.
#[derive(Debug, Clone, Copy, PartialEq, Eq, Structural)]
pub struct DimensionObservation {
    /// Angular coordinate.
    pub dimension: u64,
    /// Σ: stored work, the credit of the coordinate.
    pub structural_value: u128,
    /// Number of transitions the coordinate has made.
    pub activations: u64,
}

/// Density = Σ / activations, undefined before the first activation.
pub open spec fn spec_density(obs: DimensionObservation) -> Option<u128> {
    if obs.activations == 0 {
        None
    } else {
        Some((obs.structural_value / (obs.activations as u128)) as u128)
    }
}

/// The smaller of two values.
pub open spec fn min_u128(a: u128, b: u128) -> u128 {
    if a <= b {
        a
    } else {
        b
    }
}

/// LockedDebt = min(Density, τ), undefined with the density.
pub open spec fn spec_locked_debt(obs: DimensionObservation, tau: u128) -> Option<u128> {
    match spec_density(obs) {
        Some(d) => Some(min_u128(d, tau)),
        None => None,
    }
}

/// Density shares Σ out over the activations: density times activations
/// never exceeds Σ, and one unit more of density would.
pub proof fn law_density_shares_structural_value(obs: DimensionObservation)
    requires
        obs.activations > 0,
    ensures
        spec_density(obs) is Some,
        spec_density(obs)->Some_0 * obs.activations <= obs.structural_value,
        obs.structural_value < (spec_density(obs)->Some_0 + 1) * obs.activations,
{
    let a = obs.activations as int;
    let s = obs.structural_value as int;
    let d = s / a;
    assert(d * a <= s && s < (d + 1) * a) by (nonlinear_arith)
        requires
            a > 0,
            s >= 0,
            d == s / a,
    ;
}

/// Locked debt is the smaller of the density and τ: it exceeds neither, and
/// it is one of them. It exists exactly when the density does.
pub proof fn law_locked_debt_is_min(obs: DimensionObservation, tau: u128)
    ensures
        spec_locked_debt(obs, tau) is Some <==> obs.activations != 0,
        spec_locked_debt(obs, tau) matches Some(l) ==> {
            &&& l <= tau
            &&& l <= spec_density(obs)->Some_0
            &&& (l == tau || l == spec_density(obs)->Some_0)
        },
{
}

/// The maximum lendable value, Σ, is never below the density.
pub proof fn law_density_within_lendable(obs: DimensionObservation)
    ensures
        spec_density(obs) matches Some(d) ==> d <= obs.structural_value,
{
    if obs.activations > 0 {
        let a = obs.activations as int;
        let s = obs.structural_value as int;
        assert(s / a <= s) by (nonlinear_arith)
            requires
                a > 0,
                s >= 0,
        ;
    }
}

/// Quantum identity — the deterministic anchor for all protocol behaviour.
#[derive(Debug, Clone, Copy)]
pub struct QuantumId;

/// A structural slice that is economically locked under quantum identity.
#[derive(Debug, Clone, Copy)]
pub struct LockedStructure {
    pub dimension: u64,
    pub structural_value: u128,
}

impl QuantumId {
    /// The quantum identity.
    pub fn new() -> (r: Self)
        ensures
            r == QuantumId,
    {
        QuantumId
    }

    /// The quantum seed: the deterministic substrate of all transitions,
    /// decoded from the configured hexadecimal text of the protocol seed,
    /// which must be a usable seed (see `Config::check_seed_text`).
    pub fn quantum_seed<P: BalanceProof>(&self, proof: P, seed_hex: &str) -> (r: [u8; 32])
        requires
            seed_from_hex(seed_hex.spec_bytes()) is Ok,
        ensures
            seed_from_hex(seed_hex.spec_bytes()) == Ok::<Seq<u8>, SeedError>(r@),
    {
        require_seed(proof, seed_hex)
    }

    /// Density = Σ / activations; `None` before the first activation.
    pub fn density(&self, obs: &DimensionObservation) -> (r: Option<u128>)
        ensures
            r == spec_density(*obs),
    {
        if obs.activations == 0 {
            None
        } else {
            Some(obs.structural_value / (obs.activations as u128))
        }
    }

    /// LockedDebt = min(Density, τ), with τ supplied by the observer layer.
    pub fn locked_debt(&self, obs: &DimensionObservation, tau: u128) -> (r: Option<u128>)
        ensures
            r == spec_locked_debt(*obs, tau),
    {
        match self.density(obs) {
            Some(density) => Some(if density <= tau { density } else { tau }),
            None => None,
        }
    }

    /// The maximum lendable quantum value is Σ itself.
    pub fn max_lendable(&self, obs: &DimensionObservation) -> (r: Option<u128>)
        ensures
            r == Some(obs.structural_value),
    {
        Some(obs.structural_value)
    }
}

} // verus!
