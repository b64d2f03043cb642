//! The tunable coefficients of the four attractor families, and each
//! family's fixed display scale factor. All values are micro-units.

use vstd::prelude::*;
use crate::particle::SystemType;

verus! {

/// Coefficients of all four families, held simultaneously; micro-units.
///
/// `beta` belongs to the Lorenz family but is also read by the Aizawa
/// equations, exactly as the equations in `kinetics` state.
#[derive(Clone, Copy, PartialEq, Eq, Structural, Debug)]
pub struct SystemParameters {
    // Lorenz
    pub sigma: i64,
    pub rho: i64,
    pub beta: i64,
    // Rossler
    pub a: i64,
    pub b: i64,
    pub c: i64,
    // Aizawa
    pub alpha: i64,
    pub gamma: i64,
    pub delta: i64,
    pub epsilon: i64,
    // Chen-Lee
    pub p: i64,
    pub q: i64,
    pub r: i64,
}

/// Literature-standard defaults, in micro-units (`beta` is 8/3 rounded to
/// the nearest micro-unit).
pub open spec fn spec_default_parameters() -> SystemParameters {
    SystemParameters {
        sigma: 10_000_000,
        rho: 28_000_000,
        beta: 2_666_667,
        a: 200_000,
        b: 200_000,
        c: 5_700_000,
        alpha: 950_000,
        gamma: 600_000,
        delta: 3_500_000,
        epsilon: 250_000,
        p: 5_000_000,
        q: -10_000_000i64,
        r: -380_000i64,
    }
}

impl SystemParameters {
    /// The parameter set every simulation starts from.
    pub fn new() -> (ps: SystemParameters)
        ensures
            ps == spec_default_parameters(),
    {
        SystemParameters {
            sigma: 10_000_000,
            rho: 28_000_000,
            beta: 2_666_667,
            a: 200_000,
            b: 200_000,
            c: 5_700_000,
            alpha: 950_000,
            gamma: 600_000,
            delta: 3_500_000,
            epsilon: 250_000,
            p: 5_000_000,
            q: -10_000_000,
            r: -380_000,
        }
    }
}

/// Display scale factor of each family, in micro-units per simulation unit
/// of screen distance.
pub open spec fn spec_scale_factor(system_type: SystemType) -> i64 {
    match system_type {
        SystemType::Lorenz => 10_000_000,
        SystemType::Rossler => 30_000_000,
        SystemType::Aizawa => 100_000_000,
        SystemType::ChenLee => 30_000_000,
    }
}

/// The fixed display scale factor of the given family.
pub fn get_scale_factor(system_type: SystemType) -> (sf: i64)
    ensures
        sf == spec_scale_factor(system_type),
{
    match system_type {
        SystemType::Lorenz => 10_000_000,
        SystemType::Rossler => 30_000_000,
        SystemType::Aizawa => 100_000_000,
        SystemType::ChenLee => 30_000_000,
    }
}

} // verus!
