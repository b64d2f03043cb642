//! The symbolic key identities the simulation reacts to.

use vstd::prelude::*;

verus! {

/// One key press, as a symbolic identity independent of any windowing
/// layer. Keys that only concern the surrounding program (such as the one
/// that terminates it) are handled there and never reach the simulation.
#[derive(Clone, Copy, PartialEq, Eq, Structural, Debug)]
pub enum InputKey {
    /// Switch to the Lorenz family.
    Key1,
    /// Switch to the Rossler family.
    Key2,
    /// Switch to the Aizawa family.
    Key3,
    /// Switch to the Chen-Lee family.
    Key4,
    /// Raise the family's first coefficient.
    Q,
    /// Lower the family's first coefficient.
    A,
    /// Raise the family's second coefficient.
    W,
    /// Lower the family's second coefficient.
    S,
    /// Raise the family's third coefficient.
    E,
    /// Lower the family's third coefficient.
    D,
    /// Raise epsilon on Aizawa; reseed on every other family.
    R,
    /// Lower epsilon on Aizawa; reseed on every other family.
    F,
    /// Reseed unconditionally.
    Back,
    /// Raise the time scale by one step.
    Z,
    /// Lower the time scale by one step.
    X,
    /// Raise the particle count by one step and reseed.
    C,
    /// Lower the particle count by one step and reseed.
    V,
    /// Toggle trail rendering.
    T,
    /// Toggle the UI overlay.
    H,
}

} // verus!
