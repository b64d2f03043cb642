//! The owning aggregate of the whole simulation: the particle collection,
//! the active family, the parameter set, and the simulation controls, with
//! one tick of forward-Euler advancement and the reseeding rules.

use vstd::prelude::*;
use crate::fixed::{fix_add, fix_mul, add_fix, mul_fix};
use crate::kinetics::{derivative, spec_derivative};
use crate::particle::{
    color_in_range, push_trail, spec_screen_pos, Particle, ParticleView, ScreenPoint, SystemType,
    MAX_TRAIL_LENGTH,
};
use crate::rng::random_in;
use crate::system_parameters::{spec_default_parameters, SystemParameters};
use crate::input::InputKey;

verus! {

/// Canvas width in micro-units of pixels.
pub const SCREEN_WIDTH: i64 = 800_000_000;

/// Canvas height in micro-units of pixels.
pub const SCREEN_HEIGHT: i64 = 600_000_000;

/// Horizontal screen origin offset: half the canvas width.
pub const CENTER_X: i64 = 400_000_000;

/// Vertical screen origin offset: half the canvas height.
pub const CENTER_Y: i64 = 300_000_000;

/// Base integration step, micro-units (one hundredth of a unit).
pub const DEFAULT_DT: i64 = 10_000;

/// Default time-scale multiplier, micro-units (one).
pub const DEFAULT_TIME_SCALE: i64 = 1_000_000;

/// Number of particles a fresh simulation seeds.
pub const DEFAULT_PARTICLE_COUNT: usize = 50;

/// Lower clamp of the time-scale multiplier, micro-units.
pub const MIN_TIME_SCALE: i64 = 100_000;

/// Upper clamp of the time-scale multiplier, micro-units.
pub const MAX_TIME_SCALE: i64 = 5_000_000;

/// Step of one time-scale adjustment, micro-units.
pub const TIME_SCALE_STEP: i64 = 100_000;

/// Lower clamp of the particle-count target.
pub const MIN_PARTICLES: usize = 5;

/// Upper clamp of the particle-count target.
pub const MAX_PARTICLES: usize = 200;

/// Step of one particle-count adjustment.
pub const PARTICLE_COUNT_STEP: usize = 5;

/// Delta of a major coefficient adjustment, micro-units.
pub const MAJOR_STEP: i64 = 100_000;

/// Delta of a minor coefficient adjustment, micro-units.
pub const MINOR_STEP: i64 = 10_000;

/// The simulation state: single owner of the particles, the active family,
/// the coefficients and the controls.
pub struct MainState {
    pub particles: Vec<Particle>,
    pub system_type: SystemType,
    pub parameters: SystemParameters,
    pub dt: i64,
    pub show_ui: bool,
    pub trail_enabled: bool,
    pub time_scale: i64,
    pub particle_count: usize,
}

/// The mathematical image of the particle collection.
pub open spec fn particle_views(s: MainState) -> Seq<ParticleView> {
    s.particles@.map_values(|p: Particle| p@)
}

/// The control fields agree between the two states.
pub open spec fn controls_eq(pre: MainState, post: MainState) -> bool {
    &&& post.dt == pre.dt
    &&& post.show_ui == pre.show_ui
    &&& post.trail_enabled == pre.trail_enabled
    &&& post.time_scale == pre.time_scale
    &&& post.particle_count == pre.particle_count
}

/// Nothing observable changed: same family, coefficients, controls, and
/// particle collection (identities and trails included).
pub open spec fn same_state(pre: MainState, post: MainState) -> bool {
    &&& post.system_type == pre.system_type
    &&& post.parameters == pre.parameters
    &&& controls_eq(pre, post)
    &&& particle_views(post) == particle_views(pre)
}

/// The half-open initial-condition sampling box of each family, micro-units:
/// `((x_lo, x_hi), (y_lo, y_hi), (z_lo, z_hi))`.
pub open spec fn spec_init_box(system_type: SystemType) -> ((i64, i64), (i64, i64), (i64, i64)) {
    match system_type {
        SystemType::Lorenz => (
            (-1_000_000i64, 1_000_000i64),
            (-1_000_000i64, 1_000_000i64),
            (15_000_000i64, 25_000_000i64),
        ),
        SystemType::Rossler => (
            (-1_000_000i64, 1_000_000i64),
            (-1_000_000i64, 1_000_000i64),
            (-1_000_000i64, 1_000_000i64),
        ),
        SystemType::Aizawa => (
            (-100_000i64, 100_000i64),
            (-100_000i64, 100_000i64),
            (-100_000i64, 100_000i64),
        ),
        SystemType::ChenLee => (
            (-1_000_000i64, 1_000_000i64),
            (-1_000_000i64, 1_000_000i64),
            (-1_000_000i64, 1_000_000i64),
        ),
    }
}

/// The particle lies inside the family's initial-condition box.
pub open spec fn in_init_box(system_type: SystemType, pv: ParticleView) -> bool {
    let b = spec_init_box(system_type);
    &&& b.0.0 <= pv.x < b.0.1
    &&& b.1.0 <= pv.y < b.1.1
    &&& b.2.0 <= pv.z < b.2.1
}

/// The particle collection is exactly what a reseed leaves behind: one
/// particle per unit of the count target, each inside the active family's
/// box, with an empty trail and an in-range color.
pub open spec fn freshly_seeded(s: MainState) -> bool {
    &&& particle_views(s).len() == s.particle_count
    &&& forall|i: int|
        0 <= i < particle_views(s).len() ==> {
            let pv = #[trigger] particle_views(s)[i];
            &&& in_init_box(s.system_type, pv)
            &&& pv.trail.len() == 0
            &&& color_in_range(pv.color)
        }
}

/// No trail exceeds its capacity.
pub open spec fn trails_bounded(s: MainState) -> bool {
    forall|i: int|
        0 <= i < particle_views(s).len() ==> (#[trigger] particle_views(s)[i]).trail.len()
            <= MAX_TRAIL_LENGTH
}

/// The documented invariant of the simulation state: both clamped controls
/// sit inside their ranges and no trail exceeds its capacity.
pub open spec fn wf(s: MainState) -> bool {
    &&& MIN_TIME_SCALE <= s.time_scale <= MAX_TIME_SCALE
    &&& MIN_PARTICLES <= s.particle_count <= MAX_PARTICLES
    &&& trails_bounded(s)
}

/// An unchanged particle collection keeps its trails bounded.
pub proof fn lemma_trails_bounded_eq(pre: MainState, post: MainState)
    requires
        trails_bounded(pre),
        particle_views(post) == particle_views(pre),
    ensures
        trails_bounded(post),
{
    assert forall|i: int|
        0 <= i < particle_views(post).len() implies (#[trigger] particle_views(
        post,
    )[i]).trail.len() <= MAX_TRAIL_LENGTH by {
        assert(particle_views(post)[i] == particle_views(pre)[i]);
    }
}

/// A freshly seeded collection has empty, hence bounded, trails.
pub proof fn lemma_trails_bounded_fresh(s: MainState)
    requires
        freshly_seeded(s),
    ensures
        trails_bounded(s),
{
    assert forall|i: int|
        0 <= i < particle_views(s).len() implies (#[trigger] particle_views(s)[i]).trail.len()
            <= MAX_TRAIL_LENGTH by {
        assert(particle_views(s)[i].trail.len() == 0);
    }
}

/// The elapsed intent of one tick: base step times time scale.
pub open spec fn spec_effective_dt(s: MainState) -> int {
    fix_mul(s.dt as int, s.time_scale as int)
}

/// One forward-Euler step of a single particle: evaluate the derivative,
/// advance the state by `derivative * dt_eff`, and push the new screen
/// position onto the trail. The color never changes.
pub open spec fn spec_euler_step(
    system_type: SystemType,
    ps: SystemParameters,
    dt_eff: int,
    pv: ParticleView,
) -> ParticleView {
    let d = spec_derivative(system_type, ps, pv.x as int, pv.y as int, pv.z as int);
    let nx = fix_add(pv.x as int, fix_mul(d.0, dt_eff));
    let ny = fix_add(pv.y as int, fix_mul(d.1, dt_eff));
    let nz = fix_add(pv.z as int, fix_mul(d.2, dt_eff));
    ParticleView {
        x: nx as i64,
        y: ny as i64,
        z: nz as i64,
        trail: push_trail(pv.trail, spec_screen_pos(system_type, nx, ny)),
        color: pv.color,
    }
}

/// Clamp a particle-count target into its range.
pub open spec fn spec_clamp_count(n: int) -> int {
    if n < MIN_PARTICLES as int {
        MIN_PARTICLES as int
    } else if n > MAX_PARTICLES as int {
        MAX_PARTICLES as int
    } else {
        n
    }
}

/// Clamp a time-scale value into its range.
pub open spec fn spec_clamp_time_scale(v: int) -> int {
    if v < MIN_TIME_SCALE as int {
        MIN_TIME_SCALE as int
    } else if v > MAX_TIME_SCALE as int {
        MAX_TIME_SCALE as int
    } else {
        v
    }
}

/// Delta of the family's first tunable coefficient (sigma, a, alpha, p).
pub open spec fn spec_first_step(system_type: SystemType) -> i64 {
    match system_type {
        SystemType::Lorenz => MAJOR_STEP,
        SystemType::Rossler => MINOR_STEP,
        SystemType::Aizawa => MINOR_STEP,
        SystemType::ChenLee => MAJOR_STEP,
    }
}

/// Delta of the family's second tunable coefficient (rho, b, gamma, q).
pub open spec fn spec_second_step(system_type: SystemType) -> i64 {
    match system_type {
        SystemType::Lorenz => MAJOR_STEP,
        SystemType::Rossler => MINOR_STEP,
        SystemType::Aizawa => MINOR_STEP,
        SystemType::ChenLee => MAJOR_STEP,
    }
}

/// The family's first coefficient moved one step up or down; every other
/// coefficient kept.
pub open spec fn spec_adjust_first(
    system_type: SystemType,
    ps: SystemParameters,
    up: bool,
) -> SystemParameters {
    let d: int = if up {
        spec_first_step(system_type) as int
    } else {
        -(spec_first_step(system_type) as int)
    };
    match system_type {
        SystemType::Lorenz => SystemParameters { sigma: fix_add(ps.sigma as int, d) as i64, ..ps },
        SystemType::Rossler => SystemParameters { a: fix_add(ps.a as int, d) as i64, ..ps },
        SystemType::Aizawa => SystemParameters { alpha: fix_add(ps.alpha as int, d) as i64, ..ps },
        SystemType::ChenLee => SystemParameters { p: fix_add(ps.p as int, d) as i64, ..ps },
    }
}

/// The family's second coefficient moved one step up or down.
pub open spec fn spec_adjust_second(
    system_type: SystemType,
    ps: SystemParameters,
    up: bool,
) -> SystemParameters {
    let d: int = if up {
        spec_second_step(system_type) as int
    } else {
        -(spec_second_step(system_type) as int)
    };
    match system_type {
        SystemType::Lorenz => SystemParameters { rho: fix_add(ps.rho as int, d) as i64, ..ps },
        SystemType::Rossler => SystemParameters { b: fix_add(ps.b as int, d) as i64, ..ps },
        SystemType::Aizawa => SystemParameters { gamma: fix_add(ps.gamma as int, d) as i64, ..ps },
        SystemType::ChenLee => SystemParameters { q: fix_add(ps.q as int, d) as i64, ..ps },
    }
}

/// The family's third coefficient (beta, c, delta, r) moved one minor step.
pub open spec fn spec_adjust_third(
    system_type: SystemType,
    ps: SystemParameters,
    up: bool,
) -> SystemParameters {
    let d: int = if up {
        MINOR_STEP as int
    } else {
        -(MINOR_STEP as int)
    };
    match system_type {
        SystemType::Lorenz => SystemParameters { beta: fix_add(ps.beta as int, d) as i64, ..ps },
        SystemType::Rossler => SystemParameters { c: fix_add(ps.c as int, d) as i64, ..ps },
        SystemType::Aizawa => SystemParameters { delta: fix_add(ps.delta as int, d) as i64, ..ps },
        SystemType::ChenLee => SystemParameters { r: fix_add(ps.r as int, d) as i64, ..ps },
    }
}

/// Epsilon (Aizawa only) moved one minor step.
pub open spec fn spec_adjust_epsilon(ps: SystemParameters, up: bool) -> SystemParameters {
    let d: int = if up {
        MINOR_STEP as int
    } else {
        -(MINOR_STEP as int)
    };
    SystemParameters { epsilon: fix_add(ps.epsilon as int, d) as i64, ..ps }
}

/// Only the coefficients changed, to exactly `ps`.
pub open spec fn params_only(pre: MainState, post: MainState, ps: SystemParameters) -> bool {
    &&& post.system_type == pre.system_type
    &&& post.parameters == ps
    &&& controls_eq(pre, post)
    &&& particle_views(post) == particle_views(pre)
}

/// A reseed under unchanged configuration.
pub open spec fn reseed_effect(pre: MainState, post: MainState) -> bool {
    &&& post.system_type == pre.system_type
    &&& post.parameters == pre.parameters
    &&& controls_eq(pre, post)
    &&& freshly_seeded(post)
}

/// A switch to `target`: a no-op when already active, otherwise the family
/// changes and the collection is reseeded; coefficients and controls stay.
pub open spec fn switch_effect(pre: MainState, post: MainState, target: SystemType) -> bool {
    if pre.system_type == target {
        same_state(pre, post)
    } else {
        &&& post.system_type == target
        &&& post.parameters == pre.parameters
        &&& controls_eq(pre, post)
        &&& freshly_seeded(post)
    }
}

/// Only the time scale changed, to exactly `v`.
pub open spec fn time_scale_only(pre: MainState, post: MainState, v: int) -> bool {
    &&& post.time_scale as int == v
    &&& post.system_type == pre.system_type
    &&& post.parameters == pre.parameters
    &&& post.dt == pre.dt
    &&& post.show_ui == pre.show_ui
    &&& post.trail_enabled == pre.trail_enabled
    &&& post.particle_count == pre.particle_count
    &&& particle_views(post) == particle_views(pre)
}

/// The particle-count target moved to exactly `n` and the collection was
/// reseeded; everything else stays.
pub open spec fn count_reseed_effect(pre: MainState, post: MainState, n: int) -> bool {
    &&& post.particle_count as int == n
    &&& post.system_type == pre.system_type
    &&& post.parameters == pre.parameters
    &&& post.dt == pre.dt
    &&& post.show_ui == pre.show_ui
    &&& post.trail_enabled == pre.trail_enabled
    &&& post.time_scale == pre.time_scale
    &&& freshly_seeded(post)
}

/// The exact effect of one key press, reproducing the keyboard mapping:
/// digits switch the family, three letter pairs tune its coefficients,
/// R/F tune epsilon on Aizawa and reseed elsewhere, Back reseeds, Z/X step
/// the clamped time scale, C/V step the clamped particle count and reseed,
/// T/H flip the two display toggles.
pub open spec fn key_effect(pre: MainState, post: MainState, key: InputKey) -> bool {
    match key {
        InputKey::Key1 => switch_effect(pre, post, SystemType::Lorenz),
        InputKey::Key2 => switch_effect(pre, post, SystemType::Rossler),
        InputKey::Key3 => switch_effect(pre, post, SystemType::Aizawa),
        InputKey::Key4 => switch_effect(pre, post, SystemType::ChenLee),
        InputKey::Q => params_only(pre, post, spec_adjust_first(pre.system_type, pre.parameters, true)),
        InputKey::A => params_only(pre, post, spec_adjust_first(pre.system_type, pre.parameters, false)),
        InputKey::W => params_only(pre, post, spec_adjust_second(pre.system_type, pre.parameters, true)),
        InputKey::S => params_only(pre, post, spec_adjust_second(pre.system_type, pre.parameters, false)),
        InputKey::E => params_only(pre, post, spec_adjust_third(pre.system_type, pre.parameters, true)),
        InputKey::D => params_only(pre, post, spec_adjust_third(pre.system_type, pre.parameters, false)),
        InputKey::R => if pre.system_type == SystemType::Aizawa {
            params_only(pre, post, spec_adjust_epsilon(pre.parameters, true))
        } else {
            reseed_effect(pre, post)
        },
        InputKey::F => if pre.system_type == SystemType::Aizawa {
            params_only(pre, post, spec_adjust_epsilon(pre.parameters, false))
        } else {
            reseed_effect(pre, post)
        },
        InputKey::Back => reseed_effect(pre, post),
        InputKey::Z => time_scale_only(
            pre,
            post,
            if pre.time_scale + TIME_SCALE_STEP > MAX_TIME_SCALE {
                MAX_TIME_SCALE as int
            } else {
                pre.time_scale + TIME_SCALE_STEP
            },
        ),
        InputKey::X => time_scale_only(
            pre,
            post,
            if pre.time_scale - TIME_SCALE_STEP < MIN_TIME_SCALE {
                MIN_TIME_SCALE as int
            } else {
                pre.time_scale - TIME_SCALE_STEP
            },
        ),
        InputKey::C => count_reseed_effect(
            pre,
            post,
            if pre.particle_count + PARTICLE_COUNT_STEP > MAX_PARTICLES {
                MAX_PARTICLES as int
            } else {
                pre.particle_count + PARTICLE_COUNT_STEP
            },
        ),
        InputKey::V => count_reseed_effect(
            pre,
            post,
            if pre.particle_count < MIN_PARTICLES + PARTICLE_COUNT_STEP {
                MIN_PARTICLES as int
            } else {
                pre.particle_count - PARTICLE_COUNT_STEP
            },
        ),
        InputKey::T => {
            &&& post.trail_enabled == !pre.trail_enabled
            &&& post.show_ui == pre.show_ui
            &&& post.system_type == pre.system_type
            &&& post.parameters == pre.parameters
            &&& post.dt == pre.dt
            &&& post.time_scale == pre.time_scale
            &&& post.particle_count == pre.particle_count
            &&& particle_views(post) == particle_views(pre)
        },
        InputKey::H => {
            &&& post.show_ui == !pre.show_ui
            &&& post.trail_enabled == pre.trail_enabled
            &&& post.system_type == pre.system_type
            &&& post.parameters == pre.parameters
            &&& post.dt == pre.dt
            &&& post.time_scale == pre.time_scale
            &&& post.particle_count == pre.particle_count
            &&& particle_views(post) == particle_views(pre)
        },
    }
}

impl MainState {
    /// A fresh simulation: Lorenz family, default coefficients and
    /// controls, and a freshly seeded particle collection.
    pub fn new() -> (s: MainState)
        ensures
            s.system_type == SystemType::Lorenz,
            s.parameters == spec_default_parameters(),
            s.dt == DEFAULT_DT,
            s.time_scale == DEFAULT_TIME_SCALE,
            s.particle_count == DEFAULT_PARTICLE_COUNT,
            s.show_ui,
            s.trail_enabled,
            freshly_seeded(s),
            wf(s),
    {
        let mut s = MainState {
            particles: Vec::new(),
            system_type: SystemType::Lorenz,
            parameters: SystemParameters::new(),
            dt: DEFAULT_DT,
            show_ui: true,
            trail_enabled: true,
            time_scale: DEFAULT_TIME_SCALE,
            particle_count: DEFAULT_PARTICLE_COUNT,
        };
        s.initialize_particles();
        s
    }

    /// Clear the particle collection and repopulate it with `particle_count`
    /// fresh particles, each drawn from the active family's box.
    pub fn initialize_particles(&mut self)
        ensures
            final(self).system_type == old(self).system_type,
            final(self).parameters == old(self).parameters,
            controls_eq(*old(self), *final(self)),
            freshly_seeded(*final(self)),
            wf(*old(self)) ==> wf(*final(self)),
    {
        self.particles.clear();
        let bounds = init_box(self.system_type);
        let target = self.particle_count;
        let mut i: usize = 0;
        while i < target
            invariant
                i <= target,
                target == self.particle_count,
                self.system_type == old(self).system_type,
                self.parameters == old(self).parameters,
                controls_eq(*old(self), *self),
                bounds == spec_init_box(self.system_type),
                self.particles@.len() == i as int,
                forall|j: int|
                    0 <= j < self.particles@.len() ==> {
                        let pv = (#[trigger] self.particles@[j])@;
                        &&& in_init_box(self.system_type, pv)
                        &&& pv.trail.len() == 0
                        &&& color_in_range(pv.color)
                    },
            decreases target - i,
        {
            let x = random_in(bounds.0.0, bounds.0.1);
            let y = random_in(bounds.1.0, bounds.1.1);
            let z = random_in(bounds.2.0, bounds.2.1);
            self.particles.push(Particle::new(x, y, z));
            i += 1;
        }
    }

    /// Advance every particle independently by one forward-Euler step with
    /// the effective step `dt * time_scale`.
    pub fn update_particles(&mut self)
        ensures
            final(self).system_type == old(self).system_type,
            final(self).parameters == old(self).parameters,
            controls_eq(*old(self), *final(self)),
            particle_views(*final(self)).len() == particle_views(*old(self)).len(),
            forall|i: int|
                0 <= i < particle_views(*old(self)).len() ==> particle_views(*final(self))[i]
                    == spec_euler_step(
                    old(self).system_type,
                    old(self).parameters,
                    spec_effective_dt(*old(self)),
                    particle_views(*old(self))[i],
                ),
            wf(*old(self)) ==> wf(*final(self)),
    {
        let dt_eff = mul_fix(self.dt, self.time_scale);
        let n = self.particles.len();
        let mut i: usize = 0;
        while i < n
            invariant
                i <= n,
                n == self.particles@.len(),
                self.particles@.len() == old(self).particles@.len(),
                self.system_type == old(self).system_type,
                self.parameters == old(self).parameters,
                controls_eq(*old(self), *self),
                dt_eff as int == spec_effective_dt(*old(self)),
                forall|j: int|
                    0 <= j < i as int ==> (#[trigger] self.particles@[j])@ == spec_euler_step(
                        old(self).system_type,
                        old(self).parameters,
                        spec_effective_dt(*old(self)),
                        old(self).particles@[j]@,
                    ),
                forall|j: int|
                    i as int <= j < n as int ==> #[trigger] self.particles@[j] == old(
                        self,
                    ).particles@[j],
            decreases n - i,
        {
            let x = self.particles[i].x;
            let y = self.particles[i].y;
            let z = self.particles[i].z;
            let d = derivative(self.system_type, &self.parameters, x, y, z);
            let nx = add_fix(x, mul_fix(d.0, dt_eff));
            let ny = add_fix(y, mul_fix(d.1, dt_eff));
            let nz = add_fix(z, mul_fix(d.2, dt_eff));
            let sf = crate::system_parameters::get_scale_factor(self.system_type);
            let sp = ScreenPoint {
                x: add_fix(CENTER_X, mul_fix(nx, sf)),
                y: add_fix(CENTER_Y, mul_fix(ny, sf)),
            };
            let p = &mut self.particles[i];
            p.update(nx, ny, nz, sp);
            i += 1;
        }
        proof {
            if wf(*old(self)) {
                assert forall|k: int|
                    0 <= k < particle_views(*self).len() implies (#[trigger] particle_views(
                    *self,
                )[k]).trail.len() <= MAX_TRAIL_LENGTH by {
                    let pv_old = particle_views(*old(self))[k];
                    assert(pv_old.trail.len() <= MAX_TRAIL_LENGTH);
                    assert(particle_views(*self)[k] == spec_euler_step(
                        old(self).system_type,
                        old(self).parameters,
                        spec_effective_dt(*old(self)),
                        pv_old,
                    ));
                }
            }
        }
    }
    /// Set the active family: a no-op when already active, otherwise the
    /// collection is reseeded for the new family.
    pub fn switch_variant(&mut self, target: SystemType)
        ensures
            switch_effect(*old(self), *final(self), target),
            wf(*old(self)) ==> wf(*final(self)),
    {
        if self.system_type != target {
            self.system_type = target;
            self.initialize_particles();
        }
        proof {
            if wf(*old(self)) {
                if particle_views(*self) == particle_views(*old(self)) {
                    lemma_trails_bounded_eq(*old(self), *self);
                }
                if freshly_seeded(*self) {
                    lemma_trails_bounded_fresh(*self);
                }
            }
        }
    }

    /// Set the particle-count target, clamped into its range; when the
    /// clamped value differs from the current one, reseed.
    pub fn set_particle_count(&mut self, n: usize)
        ensures
            final(self).particle_count as int == spec_clamp_count(n as int),
            spec_clamp_count(n as int) == old(self).particle_count as int ==> same_state(
                *old(self),
                *final(self),
            ),
            spec_clamp_count(n as int) != old(self).particle_count as int ==> count_reseed_effect(
                *old(self),
                *final(self),
                spec_clamp_count(n as int),
            ),
            wf(*old(self)) ==> wf(*final(self)),
    {
        let clamped = if n < MIN_PARTICLES {
            MIN_PARTICLES
        } else if n > MAX_PARTICLES {
            MAX_PARTICLES
        } else {
            n
        };
        if clamped != self.particle_count {
            self.particle_count = clamped;
            self.initialize_particles();
        }
        proof {
            if wf(*old(self)) {
                if particle_views(*self) == particle_views(*old(self)) {
                    lemma_trails_bounded_eq(*old(self), *self);
                }
                if freshly_seeded(*self) {
                    lemma_trails_bounded_fresh(*self);
                }
            }
        }
    }

    /// Add `delta` to the time scale and clamp it into its range. Only the
    /// time scale changes.
    pub fn set_time_scale(&mut self, delta: i64)
        ensures
            time_scale_only(
                *old(self),
                *final(self),
                spec_clamp_time_scale(old(self).time_scale + delta),
            ),
            wf(*old(self)) ==> wf(*final(self)),
    {
        let t = add_fix(self.time_scale, delta);
        self.time_scale = if t < MIN_TIME_SCALE {
            MIN_TIME_SCALE
        } else if t > MAX_TIME_SCALE {
            MAX_TIME_SCALE
        } else {
            t
        };
        proof {
            if wf(*old(self)) {
                lemma_trails_bounded_eq(*old(self), *self);
            }
        }
    }

    /// Move the family's first coefficient one step.
    fn adjust_first(&mut self, up: bool)
        ensures
            params_only(
                *old(self),
                *final(self),
                spec_adjust_first(old(self).system_type, old(self).parameters, up),
            ),
    {
        let step = match self.system_type {
            SystemType::Lorenz => MAJOR_STEP,
            SystemType::Rossler => MINOR_STEP,
            SystemType::Aizawa => MINOR_STEP,
            SystemType::ChenLee => MAJOR_STEP,
        };
        let d = if up {
            step
        } else {
            -step
        };
        match self.system_type {
            SystemType::Lorenz => self.parameters.sigma = add_fix(self.parameters.sigma, d),
            SystemType::Rossler => self.parameters.a = add_fix(self.parameters.a, d),
            SystemType::Aizawa => self.parameters.alpha = add_fix(self.parameters.alpha, d),
            SystemType::ChenLee => self.parameters.p = add_fix(self.parameters.p, d),
        }
    }

    /// Move the family's second coefficient one step.
    fn adjust_second(&mut self, up: bool)
        ensures
            params_only(
                *old(self),
                *final(self),
                spec_adjust_second(old(self).system_type, old(self).parameters, up),
            ),
    {
        let step = match self.system_type {
            SystemType::Lorenz => MAJOR_STEP,
            SystemType::Rossler => MINOR_STEP,
            SystemType::Aizawa => MINOR_STEP,
            SystemType::ChenLee => MAJOR_STEP,
        };
        let d = if up {
            step
        } else {
            -step
        };
        match self.system_type {
            SystemType::Lorenz => self.parameters.rho = add_fix(self.parameters.rho, d),
            SystemType::Rossler => self.parameters.b = add_fix(self.parameters.b, d),
            SystemType::Aizawa => self.parameters.gamma = add_fix(self.parameters.gamma, d),
            SystemType::ChenLee => self.parameters.q = add_fix(self.parameters.q, d),
        }
    }

    /// Move the family's third coefficient one minor step.
    fn adjust_third(&mut self, up: bool)
        ensures
            params_only(
                *old(self),
                *final(self),
                spec_adjust_third(old(self).system_type, old(self).parameters, up),
            ),
    {
        let d = if up {
            MINOR_STEP
        } else {
            -MINOR_STEP
        };
        match self.system_type {
            SystemType::Lorenz => self.parameters.beta = add_fix(self.parameters.beta, d),
            SystemType::Rossler => self.parameters.c = add_fix(self.parameters.c, d),
            SystemType::Aizawa => self.parameters.delta = add_fix(self.parameters.delta, d),
            SystemType::ChenLee => self.parameters.r = add_fix(self.parameters.r, d),
        }
    }

    /// Move epsilon one minor step (meaningful on Aizawa).
    fn adjust_epsilon(&mut self, up: bool)
        ensures
            params_only(
                *old(self),
                *final(self),
                spec_adjust_epsilon(old(self).parameters, up),
            ),
    {
        let d = if up {
            MINOR_STEP
        } else {
            -MINOR_STEP
        };
        self.parameters.epsilon = add_fix(self.parameters.epsilon, d);
    }

    /// React to one key press with exactly the documented keyboard mapping;
    /// the documented invariant of the state is preserved by every key.
    pub fn key_down_event(&mut self, key: InputKey)
        ensures
            key_effect(*old(self), *final(self), key),
            wf(*old(self)) ==> wf(*final(self)),
    {
        match key {
            InputKey::Key1 => self.switch_variant(SystemType::Lorenz),
            InputKey::Key2 => self.switch_variant(SystemType::Rossler),
            InputKey::Key3 => self.switch_variant(SystemType::Aizawa),
            InputKey::Key4 => self.switch_variant(SystemType::ChenLee),
            InputKey::Q => self.adjust_first(true),
            InputKey::A => self.adjust_first(false),
            InputKey::W => self.adjust_second(true),
            InputKey::S => self.adjust_second(false),
            InputKey::E => self.adjust_third(true),
            InputKey::D => self.adjust_third(false),
            InputKey::R => {
                if self.system_type == SystemType::Aizawa {
                    self.adjust_epsilon(true);
                } else {
                    self.initialize_particles();
                }
            },
            InputKey::F => {
                if self.system_type == SystemType::Aizawa {
                    self.adjust_epsilon(false);
                } else {
                    self.initialize_particles();
                }
            },
            InputKey::Back => self.initialize_particles(),
            InputKey::Z => {
                self.time_scale = if self.time_scale > MAX_TIME_SCALE - TIME_SCALE_STEP {
                    MAX_TIME_SCALE
                } else {
                    self.time_scale + TIME_SCALE_STEP
                };
            },
            InputKey::X => {
                self.time_scale = if self.time_scale < MIN_TIME_SCALE + TIME_SCALE_STEP {
                    MIN_TIME_SCALE
                } else {
                    self.time_scale - TIME_SCALE_STEP
                };
            },
            InputKey::C => {
                self.particle_count = if self.particle_count > MAX_PARTICLES - PARTICLE_COUNT_STEP {
                    MAX_PARTICLES
                } else {
                    self.particle_count + PARTICLE_COUNT_STEP
                };
                self.initialize_particles();
            },
            InputKey::V => {
                self.particle_count = if self.particle_count < MIN_PARTICLES + PARTICLE_COUNT_STEP {
                    MIN_PARTICLES
                } else {
                    self.particle_count - PARTICLE_COUNT_STEP
                };
                self.initialize_particles();
            },
            InputKey::T => self.trail_enabled = !self.trail_enabled,
            InputKey::H => self.show_ui = !self.show_ui,
        }
        proof {
            if wf(*old(self)) {
                if particle_views(*self) == particle_views(*old(self)) {
                    lemma_trails_bounded_eq(*old(self), *self);
                }
                if freshly_seeded(*self) {
                    lemma_trails_bounded_fresh(*self);
                }
            }
        }
    }
}

/// The half-open sampling bounds of the family, each lower bound strictly
/// below its upper bound.
fn init_box(system_type: SystemType) -> (b: ((i64, i64), (i64, i64), (i64, i64)))
    ensures
        b == spec_init_box(system_type),
        b.0.0 < b.0.1,
        b.1.0 < b.1.1,
        b.2.0 < b.2.1,
{
    match system_type {
        SystemType::Lorenz => (
            (-1_000_000i64, 1_000_000i64),
            (-1_000_000i64, 1_000_000i64),
            (15_000_000i64, 25_000_000i64),
        ),
        SystemType::Rossler => (
            (-1_000_000i64, 1_000_000i64),
            (-1_000_000i64, 1_000_000i64),
            (-1_000_000i64, 1_000_000i64),
        ),
        SystemType::Aizawa => (
            (-100_000i64, 100_000i64),
            (-100_000i64, 100_000i64),
            (-100_000i64, 100_000i64),
        ),
        SystemType::ChenLee => (
            (-1_000_000i64, 1_000_000i64),
            (-1_000_000i64, 1_000_000i64),
            (-1_000_000i64, 1_000_000i64),
        ),
    }
}

} // verus!
