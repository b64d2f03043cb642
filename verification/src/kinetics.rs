//! The mathematical heart: the instantaneous derivative of each attractor
//! family, as a pure function of (family, state, parameter set).
//!
//! Each equation is the classical one, carried out in saturating fixed-point
//! arithmetic over micro-units; the executable functions return exactly the
//! value of their specification on every input.

use vstd::prelude::*;
use crate::fixed::{
    fix_add, fix_sub, fix_mul, fix_neg, fix_div3, add_fix, sub_fix, mul_fix, neg_fix, div3_fix,
    SCALE,
};
use crate::particle::SystemType;
use crate::system_parameters::SystemParameters;

verus! {

/// Lorenz: dx = sigma (y - x); dy = x (rho - z) - y; dz = x y - beta z.
pub open spec fn spec_lorenz_derivative(ps: SystemParameters, x: int, y: int, z: int) -> (
    int,
    int,
    int,
) {
    (
        fix_mul(ps.sigma as int, fix_sub(y, x)),
        fix_sub(fix_mul(x, fix_sub(ps.rho as int, z)), y),
        fix_sub(fix_mul(x, y), fix_mul(ps.beta as int, z)),
    )
}

/// Rossler: dx = -y - z; dy = x + a y; dz = b + z (x - c).
pub open spec fn spec_rossler_derivative(ps: SystemParameters, x: int, y: int, z: int) -> (
    int,
    int,
    int,
) {
    (
        fix_sub(fix_neg(y), z),
        fix_add(x, fix_mul(ps.a as int, y)),
        fix_add(ps.b as int, fix_mul(z, fix_sub(x, ps.c as int))),
    )
}

/// Aizawa: dx = (z - gamma) x - delta y; dy = delta x + (z - gamma) y;
/// dz = alpha + beta z - z^3 / 3 - (x^2 + y^2)(1 + epsilon z) + delta z x^3.
pub open spec fn spec_aizawa_derivative(ps: SystemParameters, x: int, y: int, z: int) -> (
    int,
    int,
    int,
) {
    let zg = fix_sub(z, ps.gamma as int);
    let cube = fix_mul(fix_mul(z, z), z);
    let sum_sq = fix_add(fix_mul(x, x), fix_mul(y, y));
    let one_eps = fix_add(SCALE as int, fix_mul(ps.epsilon as int, z));
    let dzx3 = fix_mul(fix_mul(fix_mul(fix_mul(ps.delta as int, z), x), x), x);
    (
        fix_sub(fix_mul(zg, x), fix_mul(ps.delta as int, y)),
        fix_add(fix_mul(ps.delta as int, x), fix_mul(zg, y)),
        fix_add(
            fix_sub(
                fix_sub(fix_add(ps.alpha as int, fix_mul(ps.beta as int, z)), fix_div3(cube)),
                fix_mul(sum_sq, one_eps),
            ),
            dzx3,
        ),
    )
}

/// Chen-Lee: dx = p x - y z; dy = q y + x z; dz = r z + x y / 3.
pub open spec fn spec_chen_lee_derivative(ps: SystemParameters, x: int, y: int, z: int) -> (
    int,
    int,
    int,
) {
    (
        fix_sub(fix_mul(ps.p as int, x), fix_mul(y, z)),
        fix_add(fix_mul(ps.q as int, y), fix_mul(x, z)),
        fix_add(fix_mul(ps.r as int, z), fix_div3(fix_mul(x, y))),
    )
}

/// The derivative of the active family at the given state.
pub open spec fn spec_derivative(
    system_type: SystemType,
    ps: SystemParameters,
    x: int,
    y: int,
    z: int,
) -> (int, int, int) {
    match system_type {
        SystemType::Lorenz => spec_lorenz_derivative(ps, x, y, z),
        SystemType::Rossler => spec_rossler_derivative(ps, x, y, z),
        SystemType::Aizawa => spec_aizawa_derivative(ps, x, y, z),
        SystemType::ChenLee => spec_chen_lee_derivative(ps, x, y, z),
    }
}

/// Evaluate the active family's derivative; pure, side-effect free, and
/// equal to the closed-form equations above on every input.
pub fn derivative(system_type: SystemType, ps: &SystemParameters, x: i64, y: i64, z: i64) -> (d: (
    i64,
    i64,
    i64,
))
    ensures
        (d.0 as int, d.1 as int, d.2 as int) == spec_derivative(
            system_type,
            *ps,
            x as int,
            y as int,
            z as int,
        ),
{
    match system_type {
        SystemType::Lorenz => {
            let dx = mul_fix(ps.sigma, sub_fix(y, x));
            let dy = sub_fix(mul_fix(x, sub_fix(ps.rho, z)), y);
            let dz = sub_fix(mul_fix(x, y), mul_fix(ps.beta, z));
            (dx, dy, dz)
        },
        SystemType::Rossler => {
            let dx = sub_fix(neg_fix(y), z);
            let dy = add_fix(x, mul_fix(ps.a, y));
            let dz = add_fix(ps.b, mul_fix(z, sub_fix(x, ps.c)));
            (dx, dy, dz)
        },
        SystemType::Aizawa => {
            let zg = sub_fix(z, ps.gamma);
            let cube = mul_fix(mul_fix(z, z), z);
            let sum_sq = add_fix(mul_fix(x, x), mul_fix(y, y));
            let one_eps = add_fix(SCALE, mul_fix(ps.epsilon, z));
            let dzx3 = mul_fix(mul_fix(mul_fix(mul_fix(ps.delta, z), x), x), x);
            let dx = sub_fix(mul_fix(zg, x), mul_fix(ps.delta, y));
            let dy = add_fix(mul_fix(ps.delta, x), mul_fix(zg, y));
            let dz = add_fix(
                sub_fix(
                    sub_fix(add_fix(ps.alpha, mul_fix(ps.beta, z)), div3_fix(cube)),
                    mul_fix(sum_sq, one_eps),
                ),
                dzx3,
            );
            (dx, dy, dz)
        },
        SystemType::ChenLee => {
            let dx = sub_fix(mul_fix(ps.p, x), mul_fix(y, z));
            let dy = add_fix(mul_fix(ps.q, y), mul_fix(x, z));
            let dz = add_fix(mul_fix(ps.r, z), div3_fix(mul_fix(x, y)));
            (dx, dy, dz)
        },
    }
}

} // verus!
