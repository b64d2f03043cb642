//! Fixed-point simulation core for an interactive visualizer of chaotic
//! attractors (Lorenz, Rossler, Aizawa, Chen-Lee).
//!
//! All quantities are carried as `i64` micro-units: one simulation unit is
//! `fixed::SCALE` micro-units. Every arithmetic step saturates at
//! `fixed::FIX_MAX`, so the whole simulation is total and free of panics.

pub mod fixed;
pub mod kinetics;
pub mod main_state;
pub mod input;
pub mod particle;
mod rng;
pub mod system_parameters;
