//! Exact derivative values of each family, in micro-units.

use entropicrust::fixed::FIX_MAX;
use entropicrust::kinetics::derivative;
use entropicrust::particle::SystemType;
use entropicrust::system_parameters::SystemParameters;

#[test]
fn lorenz_derivative_matches_formula() {
    let ps = SystemParameters::new();
    // state (1, 1, 20): dx = 10*(1-1) = 0; dy = 1*(28-20)-1 = 7;
    // dz = 1*1 - (8/3)*20 = -52.33334 with beta = 2.666667.
    let d = derivative(SystemType::Lorenz, &ps, 1_000_000, 1_000_000, 20_000_000);
    assert_eq!(d, (0, 7_000_000, -52_333_340));
}

#[test]
fn rossler_derivative_matches_formula() {
    let ps = SystemParameters::new();
    // state (1, 2, 3): dx = -2-3 = -5; dy = 1 + 0.2*2 = 1.4;
    // dz = 0.2 + 3*(1-5.7) = -13.9.
    let d = derivative(SystemType::Rossler, &ps, 1_000_000, 2_000_000, 3_000_000);
    assert_eq!(d, (-5_000_000, 1_400_000, -13_900_000));
}

#[test]
fn aizawa_derivative_at_origin() {
    let ps = SystemParameters::new();
    // At the origin every term but alpha vanishes.
    let d = derivative(SystemType::Aizawa, &ps, 0, 0, 0);
    assert_eq!(d, (0, 0, 950_000));
}

#[test]
fn aizawa_derivative_matches_formula() {
    let ps = SystemParameters::new();
    // state (1, 0, 1): dx = (1-0.6)*1 - 3.5*0 = 0.4;
    // dy = 3.5*1 + (1-0.6)*0 = 3.5;
    // dz = 0.95 + 2.666667*1 - 1/3 - (1+0)*(1+0.25) + 3.5*1*1 = 5.533334.
    let d = derivative(SystemType::Aizawa, &ps, 1_000_000, 0, 1_000_000);
    assert_eq!(d, (400_000, 3_500_000, 5_533_334));
}

#[test]
fn chen_lee_derivative_matches_formula() {
    let ps = SystemParameters::new();
    // state (3, 2, 1): dx = 5*3 - 2*1 = 13; dy = -10*2 + 3*1 = -17;
    // dz = -0.38*1 + 3*2/3 = 1.62.
    let d = derivative(SystemType::ChenLee, &ps, 3_000_000, 2_000_000, 1_000_000);
    assert_eq!(d, (13_000_000, -17_000_000, 1_620_000));
}

#[test]
fn derivative_saturates_instead_of_overflowing() {
    let ps = SystemParameters::new();
    // sigma * (y - x) with y at the range bound exceeds it tenfold and is
    // clamped to the bound.
    let d = derivative(SystemType::Lorenz, &ps, 0, FIX_MAX, 0);
    assert_eq!(d.0, FIX_MAX);
    let d = derivative(SystemType::Lorenz, &ps, 0, -FIX_MAX, 0);
    assert_eq!(d.0, -FIX_MAX);
}

#[test]
fn derivative_is_pure() {
    let ps = SystemParameters::new();
    let a = derivative(SystemType::Aizawa, &ps, 123_456, -654_321, 42_000);
    let b = derivative(SystemType::Aizawa, &ps, 123_456, -654_321, 42_000);
    assert_eq!(a, b);
}
