//! The simulation state: defaults, ticking, reseeding, clamps, key mapping.

use entropicrust::input::InputKey;
use entropicrust::main_state::MainState;
use entropicrust::particle::{Particle, SystemType};

fn assert_in_box(s: &MainState) {
    let ((xl, xh), (yl, yh), (zl, zh)) = match s.system_type {
        SystemType::Lorenz => ((-1_000_000, 1_000_000), (-1_000_000, 1_000_000), (15_000_000, 25_000_000)),
        SystemType::Rossler | SystemType::ChenLee => {
            ((-1_000_000, 1_000_000), (-1_000_000, 1_000_000), (-1_000_000, 1_000_000))
        },
        SystemType::Aizawa => ((-100_000, 100_000), (-100_000, 100_000), (-100_000, 100_000)),
    };
    for p in &s.particles {
        assert!(xl <= p.x && p.x < xh);
        assert!(yl <= p.y && p.y < yh);
        assert!(zl <= p.z && p.z < zh);
        assert!(p.trail.is_empty());
    }
}

#[test]
fn new_simulation_has_documented_defaults() {
    let s = MainState::new();
    assert_eq!(s.system_type, SystemType::Lorenz);
    assert_eq!(s.dt, 10_000);
    assert_eq!(s.time_scale, 1_000_000);
    assert_eq!(s.particle_count, 50);
    assert!(s.show_ui);
    assert!(s.trail_enabled);
    assert_eq!(s.particles.len(), 50);
    assert_in_box(&s);
    let ps = s.parameters;
    assert_eq!(
        (ps.sigma, ps.rho, ps.beta),
        (10_000_000, 28_000_000, 2_666_667)
    );
    assert_eq!((ps.a, ps.b, ps.c), (200_000, 200_000, 5_700_000));
    assert_eq!(
        (ps.alpha, ps.gamma, ps.delta, ps.epsilon),
        (950_000, 600_000, 3_500_000, 250_000)
    );
    assert_eq!((ps.p, ps.q, ps.r), (5_000_000, -10_000_000, -380_000));
}

#[test]
fn one_lorenz_tick_from_known_state() {
    // One particle at (1, 1, 20), defaults, dt = 0.01, time scale 1:
    // derivative (0, 7, -52.33334), so the new state is
    // (1, 1.07, 19.476667), within a tenth of a micro-unit of the
    // real-valued 19.476666...
    let mut s = MainState::new();
    s.particles = vec![Particle::new(1_000_000, 1_000_000, 20_000_000)];
    s.update_particles();
    let p = &s.particles[0];
    assert_eq!((p.x, p.y, p.z), (1_000_000, 1_070_000, 19_476_667));
    assert!((p.x as f64 / 1e6 - 1.0).abs() < 1e-4);
    assert!((p.y as f64 / 1e6 - 1.07).abs() < 1e-4);
    assert!((p.z as f64 / 1e6 - 19.4767).abs() < 1e-4);
    // The tick pushed the new screen position (duplicated: first insert).
    assert_eq!(p.trail.len(), 2);
    assert_eq!(p.trail[0].x, 410_000_000);
    assert_eq!(p.trail[0].y, 310_700_000);
}

#[test]
fn oversized_particle_count_clamps_and_reseeds() {
    let mut s = MainState::new();
    s.set_particle_count(203);
    assert_eq!(s.particle_count, 200);
    assert_eq!(s.particles.len(), 200);
    assert_in_box(&s);
}

#[test]
fn undersized_particle_count_clamps_and_reseeds() {
    let mut s = MainState::new();
    s.set_particle_count(1);
    assert_eq!(s.particle_count, 5);
    assert_eq!(s.particles.len(), 5);
    assert_in_box(&s);
}

#[test]
fn unchanged_particle_count_does_not_reseed() {
    let mut s = MainState::new();
    s.update_particles();
    let before: Vec<(i64, i64, i64)> = s.particles.iter().map(|p| (p.x, p.y, p.z)).collect();
    s.set_particle_count(50);
    let after: Vec<(i64, i64, i64)> = s.particles.iter().map(|p| (p.x, p.y, p.z)).collect();
    assert_eq!(before, after);
    assert_eq!(s.particles[0].trail.len(), 2);
}

#[test]
fn ten_time_scale_raises_clamp_partway() {
    let mut s = MainState::new();
    for _ in 0..10 {
        s.key_down_event(InputKey::Z);
    }
    assert_eq!(s.time_scale, 2_000_000);
}

#[test]
fn time_scale_stays_clamped_under_arbitrary_presses() {
    let mut s = MainState::new();
    for _ in 0..100 {
        s.key_down_event(InputKey::Z);
        assert!((100_000..=5_000_000).contains(&s.time_scale));
    }
    assert_eq!(s.time_scale, 5_000_000);
    for _ in 0..100 {
        s.key_down_event(InputKey::X);
        assert!((100_000..=5_000_000).contains(&s.time_scale));
    }
    assert_eq!(s.time_scale, 100_000);
    s.set_time_scale(99_000_000);
    assert_eq!(s.time_scale, 5_000_000);
    s.set_time_scale(-99_000_000);
    assert_eq!(s.time_scale, 100_000);
}

#[test]
fn particle_count_stays_clamped_under_arbitrary_presses() {
    let mut s = MainState::new();
    for _ in 0..50 {
        s.key_down_event(InputKey::C);
        assert!((5..=200).contains(&s.particle_count));
        assert_eq!(s.particles.len(), s.particle_count);
    }
    assert_eq!(s.particle_count, 200);
    for _ in 0..50 {
        s.key_down_event(InputKey::V);
        assert!((5..=200).contains(&s.particle_count));
        assert_eq!(s.particles.len(), s.particle_count);
    }
    assert_eq!(s.particle_count, 5);
    s.set_particle_count(7);
    assert_eq!(s.particle_count, 7);
    s.key_down_event(InputKey::V);
    assert_eq!(s.particle_count, 5);
}

#[test]
fn switching_to_the_active_variant_is_a_no_op() {
    let mut s = MainState::new();
    s.update_particles();
    s.update_particles();
    let before: Vec<(i64, i64, i64, usize)> =
        s.particles.iter().map(|p| (p.x, p.y, p.z, p.trail.len())).collect();
    let colors: Vec<_> = s.particles.iter().map(|p| p.color).collect();
    s.switch_variant(SystemType::Lorenz);
    s.key_down_event(InputKey::Key1);
    let after: Vec<(i64, i64, i64, usize)> =
        s.particles.iter().map(|p| (p.x, p.y, p.z, p.trail.len())).collect();
    let colors_after: Vec<_> = s.particles.iter().map(|p| p.color).collect();
    assert_eq!(before, after);
    assert_eq!(colors, colors_after);
    assert_eq!(s.system_type, SystemType::Lorenz);
}

#[test]
fn switching_variants_discards_old_trails() {
    let mut s = MainState::new();
    for _ in 0..5 {
        s.update_particles();
    }
    assert!(s.particles.iter().all(|p| p.trail.len() == 6));
    s.switch_variant(SystemType::Rossler);
    assert_eq!(s.system_type, SystemType::Rossler);
    assert_eq!(s.particles.len(), s.particle_count);
    assert_in_box(&s);
    for _ in 0..3 {
        s.update_particles();
    }
    s.switch_variant(SystemType::Lorenz);
    assert_eq!(s.system_type, SystemType::Lorenz);
    assert_eq!(s.particles.len(), s.particle_count);
    assert_in_box(&s);
}

#[test]
fn reseed_produces_exactly_the_target_in_every_box() {
    let mut s = MainState::new();
    s.set_particle_count(37);
    for variant in [
        SystemType::Rossler,
        SystemType::Aizawa,
        SystemType::ChenLee,
        SystemType::Lorenz,
    ] {
        s.switch_variant(variant);
        assert_eq!(s.particles.len(), 37);
        assert_in_box(&s);
    }
}

#[test]
fn coefficient_keys_follow_the_mapping() {
    let mut s = MainState::new();
    // Lorenz: Q/A move sigma by 0.1, W/S rho by 0.1, E/D beta by 0.01.
    s.key_down_event(InputKey::Q);
    assert_eq!(s.parameters.sigma, 10_100_000);
    s.key_down_event(InputKey::A);
    s.key_down_event(InputKey::A);
    assert_eq!(s.parameters.sigma, 9_900_000);
    s.key_down_event(InputKey::W);
    assert_eq!(s.parameters.rho, 28_100_000);
    s.key_down_event(InputKey::S);
    s.key_down_event(InputKey::S);
    assert_eq!(s.parameters.rho, 27_900_000);
    s.key_down_event(InputKey::E);
    assert_eq!(s.parameters.beta, 2_676_667);
    s.key_down_event(InputKey::D);
    s.key_down_event(InputKey::D);
    assert_eq!(s.parameters.beta, 2_656_667);
    // Rossler: the first two pairs move by 0.01 instead.
    s.switch_variant(SystemType::Rossler);
    s.key_down_event(InputKey::Q);
    assert_eq!(s.parameters.a, 210_000);
    s.key_down_event(InputKey::S);
    assert_eq!(s.parameters.b, 190_000);
    s.key_down_event(InputKey::D);
    assert_eq!(s.parameters.c, 5_690_000);
    // Chen-Lee: p and q move by 0.1, r by 0.01.
    s.switch_variant(SystemType::ChenLee);
    s.key_down_event(InputKey::Q);
    assert_eq!(s.parameters.p, 5_100_000);
    s.key_down_event(InputKey::S);
    assert_eq!(s.parameters.q, -10_100_000);
    s.key_down_event(InputKey::E);
    assert_eq!(s.parameters.r, -370_000);
    // Lorenz coefficients were left alone throughout.
    assert_eq!(s.parameters.sigma, 9_900_000);
}

#[test]
fn r_and_f_tune_epsilon_only_on_aizawa() {
    let mut s = MainState::new();
    s.switch_variant(SystemType::Aizawa);
    s.update_particles();
    assert!(s.particles.iter().all(|p| p.trail.len() == 2));
    s.key_down_event(InputKey::R);
    assert_eq!(s.parameters.epsilon, 260_000);
    s.key_down_event(InputKey::F);
    s.key_down_event(InputKey::F);
    assert_eq!(s.parameters.epsilon, 240_000);
    // On Aizawa neither key reseeds.
    assert!(s.particles.iter().all(|p| p.trail.len() == 2));
    // On any other family they reseed instead.
    s.switch_variant(SystemType::Lorenz);
    s.update_particles();
    s.key_down_event(InputKey::R);
    assert!(s.particles.iter().all(|p| p.trail.is_empty()));
    assert_eq!(s.parameters.epsilon, 240_000);
}

#[test]
fn backspace_reseeds_unconditionally() {
    let mut s = MainState::new();
    s.update_particles();
    s.key_down_event(InputKey::Back);
    assert_eq!(s.particles.len(), 50);
    assert_in_box(&s);
}

#[test]
fn toggles_flip_their_flag_and_nothing_else() {
    let mut s = MainState::new();
    s.update_particles();
    let before: Vec<(i64, i64, i64)> = s.particles.iter().map(|p| (p.x, p.y, p.z)).collect();
    s.key_down_event(InputKey::T);
    assert!(!s.trail_enabled);
    assert!(s.show_ui);
    s.key_down_event(InputKey::H);
    assert!(!s.show_ui);
    s.key_down_event(InputKey::T);
    assert!(s.trail_enabled);
    let after: Vec<(i64, i64, i64)> = s.particles.iter().map(|p| (p.x, p.y, p.z)).collect();
    assert_eq!(before, after);
}
