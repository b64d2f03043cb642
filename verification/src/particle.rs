//! A single simulated point: its position, its color, and the bounded trail
//! of its recent screen positions.

use vstd::prelude::*;
use std::collections::VecDeque;
use crate::fixed::{fix_add, fix_mul, add_fix, mul_fix};
use crate::system_parameters::{get_scale_factor, spec_scale_factor};
use crate::main_state::{CENTER_X, CENTER_Y};
use crate::rng::random_in;

verus! {

/// Upper bound on the number of stored trail points.
pub const MAX_TRAIL_LENGTH: usize = 100;

/// Lower bound (inclusive) of a freshly drawn color channel, micro-units.
pub const COLOR_MIN: i64 = 500_000;

/// Upper bound (exclusive) of a freshly drawn color channel, micro-units.
pub const COLOR_MAX: i64 = 1_000_000;

/// The four supported attractor families.
#[derive(Clone, Copy, PartialEq, Eq, Structural, Debug)]
pub enum SystemType {
    Lorenz,
    Rossler,
    Aizawa,
    ChenLee,
}

/// A display coordinate in micro-units of pixels.
#[derive(Clone, Copy, PartialEq, Eq, Structural, Debug)]
pub struct ScreenPoint {
    pub x: i64,
    pub y: i64,
}

/// An RGB color; channels in micro-units, alpha fixed at one.
#[derive(Clone, Copy, PartialEq, Eq, Structural, Debug)]
pub struct Color {
    pub r: i64,
    pub g: i64,
    pub b: i64,
}

/// Every channel lies in the sampling range of a fresh particle color.
pub open spec fn color_in_range(c: Color) -> bool {
    &&& COLOR_MIN <= c.r < COLOR_MAX
    &&& COLOR_MIN <= c.g < COLOR_MAX
    &&& COLOR_MIN <= c.b < COLOR_MAX
}

/// One point of the simulation with its bounded FIFO trail of screen
/// positions (oldest discarded first) and a color fixed at construction.
pub struct Particle {
    pub x: i64,
    pub y: i64,
    pub z: i64,
    pub trail: VecDeque<ScreenPoint>,
    pub color: Color,
}

/// The mathematical image of a particle.
pub struct ParticleView {
    pub x: i64,
    pub y: i64,
    pub z: i64,
    pub trail: Seq<ScreenPoint>,
    pub color: Color,
}

impl View for Particle {
    type V = ParticleView;

    open spec fn view(&self) -> ParticleView {
        ParticleView { x: self.x, y: self.y, z: self.z, trail: self.trail@, color: self.color }
    }
}

/// One trail insertion: at capacity the oldest point is evicted first, then
/// the point is appended; the very first insertion appends the point twice,
/// so a one-update trail can already be drawn as a line.
pub open spec fn push_trail(t: Seq<ScreenPoint>, p: ScreenPoint) -> Seq<ScreenPoint> {
    let shifted = if t.len() >= MAX_TRAIL_LENGTH {
        t.subrange(1, t.len() as int)
    } else {
        t
    };
    if shifted.len() == 0 {
        shifted.push(p).push(p)
    } else {
        shifted.push(p)
    }
}

/// Length law of one insertion: the first insertion yields two points, and
/// afterwards the length grows by one until it is pinned at the capacity.
pub proof fn lemma_push_trail_len(t: Seq<ScreenPoint>, p: ScreenPoint)
    ensures
        push_trail(t, p).len() == if t.len() == 0 {
            2int
        } else if t.len() >= MAX_TRAIL_LENGTH {
            t.len() as int
        } else {
            t.len() as int + 1
        },
{
}

/// The trail left behind by inserting `points` in order into an initially
/// empty trail.
pub open spec fn trail_after(points: Seq<ScreenPoint>) -> Seq<ScreenPoint>
    decreases points.len(),
{
    if points.len() == 0 {
        Seq::empty()
    } else {
        push_trail(trail_after(points.drop_last()), points.last())
    }
}

/// Length law of repeated insertion: after `k >= 1` insertions the trail
/// holds `k + 1` points (the first one was duplicated) until the capacity
/// pins it at `MAX_TRAIL_LENGTH`.
pub proof fn lemma_trail_length(points: Seq<ScreenPoint>)
    ensures
        trail_after(points).len() == if points.len() == 0 {
            0int
        } else if points.len() as int + 1 <= MAX_TRAIL_LENGTH {
            points.len() as int + 1
        } else {
            MAX_TRAIL_LENGTH as int
        },
    decreases points.len(),
{
    if points.len() > 0 {
        lemma_trail_length(points.drop_last());
    }
}

/// Contents law of repeated insertion: below the capacity the trail is the
/// inserted sequence with its first point duplicated in front; at or above
/// it, the trail holds exactly the most recent `MAX_TRAIL_LENGTH` points
/// (the initial duplicate having been evicted).
pub proof fn lemma_trail_contents(points: Seq<ScreenPoint>)
    requires
        points.len() >= 1,
    ensures
        points.len() as int + 1 <= MAX_TRAIL_LENGTH ==> trail_after(points) == seq![points[0]]
            + points,
        points.len() as int + 1 > MAX_TRAIL_LENGTH ==> trail_after(points) == points.subrange(
            points.len() - MAX_TRAIL_LENGTH,
            points.len() as int,
        ),
    decreases points.len(),
{
    lemma_trail_length(points.drop_last());
    if points.len() == 1 {
        assert(trail_after(points) =~= seq![points[0]] + points);
    } else {
        lemma_trail_contents(points.drop_last());
        let prev = trail_after(points.drop_last());
        if points.len() as int + 1 <= MAX_TRAIL_LENGTH {
            assert(trail_after(points) =~= seq![points[0]] + points);
        } else if points.len() as int == MAX_TRAIL_LENGTH {
            assert(prev == seq![points[0]] + points.drop_last());
            assert(trail_after(points) =~= points.subrange(
                points.len() - MAX_TRAIL_LENGTH,
                points.len() as int,
            ));
        } else {
            assert(trail_after(points) =~= points.subrange(
                points.len() - MAX_TRAIL_LENGTH,
                points.len() as int,
            ));
        }
    }
}

/// The screen position a state `(x, y)` maps to under the family's fixed
/// scale factor, offset to the screen center.
pub open spec fn spec_screen_pos(system_type: SystemType, x: int, y: int) -> ScreenPoint {
    ScreenPoint {
        x: fix_add(CENTER_X as int, fix_mul(x, spec_scale_factor(system_type) as int)) as i64,
        y: fix_add(CENTER_Y as int, fix_mul(y, spec_scale_factor(system_type) as int)) as i64,
    }
}

impl Particle {
    /// A fresh particle at the given position, with an empty trail and a
    /// color whose channels are drawn from the fixed sampling range.
    pub fn new(x: i64, y: i64, z: i64) -> (p: Particle)
        ensures
            p@.x == x,
            p@.y == y,
            p@.z == z,
            p@.trail.len() == 0,
            color_in_range(p@.color),
    {
        let color = Color {
            r: random_in(COLOR_MIN, COLOR_MAX),
            g: random_in(COLOR_MIN, COLOR_MAX),
            b: random_in(COLOR_MIN, COLOR_MAX),
        };
        Particle { x, y, z, trail: VecDeque::with_capacity(MAX_TRAIL_LENGTH), color }
    }

    /// Append the screen position to the trail under the eviction policy of
    /// `push_trail`, then overwrite the state with the new one.
    pub fn update(&mut self, new_x: i64, new_y: i64, new_z: i64, screen_pos: ScreenPoint)
        ensures
            final(self)@.x == new_x,
            final(self)@.y == new_y,
            final(self)@.z == new_z,
            final(self)@.color == old(self)@.color,
            final(self)@.trail == push_trail(old(self)@.trail, screen_pos),
    {
        if self.trail.len() >= MAX_TRAIL_LENGTH {
            self.trail.pop_front();
        }
        if self.trail.len() == 0 {
            self.trail.push_back(screen_pos);
        }
        self.trail.push_back(screen_pos);
        self.x = new_x;
        self.y = new_y;
        self.z = new_z;
    }

    /// The display coordinate of the current state under the family's scale
    /// factor, independent of the cached trail.
    pub fn get_screen_pos(&self, system_type: SystemType) -> (sp: ScreenPoint)
        ensures
            sp == spec_screen_pos(system_type, self.x as int, self.y as int),
    {
        let sf = get_scale_factor(system_type);
        ScreenPoint {
            x: add_fix(CENTER_X, mul_fix(self.x, sf)),
            y: add_fix(CENTER_Y, mul_fix(self.y, sf)),
        }
    }
}

} // verus!
