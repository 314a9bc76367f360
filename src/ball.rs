//! A ball, and what one time step does to it.

use crate::geometry::{Table, Vector2D};
use vstd::prelude::*;

verus! {

/// Whether `v` fits in an `i64`.
pub open spec fn fits_i64(v: int) -> bool {
    i64::MIN <= v <= i64::MAX
}

/// Position and velocity on one axis after the wall checks of that axis,
/// given the position reached by moving and the velocity before the step.
///
/// The low wall is checked first: a surface below `0` puts the center at
/// `radius` and reverses the velocity. The high wall is checked next, on what
/// the first check left: a surface beyond `limit` puts the center at
/// `limit - radius` and reverses the velocity again. Each check reverses the
/// velocity without changing its magnitude.
pub open spec fn axis_bounce(p: int, v: int, radius: int, limit: int) -> (int, int) {
    let hits_low = p - radius < 0;
    let p1 = if hits_low { radius } else { p };
    let v1 = if hits_low { -v } else { v };
    if p1 + radius > limit {
        (limit - radius, -v1)
    } else {
        (p1, v1)
    }
}

/// The ball after one step of `dt` time units on `table`, with `dt > 0`:
/// each axis moves by `velocity * dt` and then bounces off that axis' walls.
pub open spec fn ball_after(b: Ball, table: Table, dt: int) -> Ball {
    let x = axis_bounce(b.position.x + b.velocity.x * dt, b.velocity.x as int, b.radius as int, table.width as int);
    let y = axis_bounce(b.position.y + b.velocity.y * dt, b.velocity.y as int, b.radius as int, table.height as int);
    Ball {
        position: Vector2D { x: x.0 as i64, y: y.0 as i64 },
        velocity: Vector2D { x: x.1 as i64, y: y.1 as i64 },
        radius: b.radius,
    }
}

/// Whether every value that one step of `dt` computes for `b` fits in an
/// `i64`: the moved position, the reversed velocity and the far clamp.
pub open spec fn ball_step_fits(b: Ball, table: Table, dt: int) -> bool {
    &&& fits_i64(b.position.x + b.velocity.x * dt)
    &&& fits_i64(b.position.y + b.velocity.y * dt)
    &&& b.velocity.x != i64::MIN
    &&& b.velocity.y != i64::MIN
    &&& fits_i64(table.width - b.radius)
    &&& fits_i64(table.height - b.radius)
}

/// A round body with a position, a velocity and a radius.
#[derive(Clone, Copy, Debug, PartialEq, Eq)]
pub struct Ball {
    /// The center, in length units.
    pub position: Vector2D,
    /// The velocity, in length units per time unit.
    pub velocity: Vector2D,
    /// The radius, in length units; meant to be at least zero.
    pub radius: i64,
}

/// `|a * b| <= 2^126` for any two `i64` values.
proof fn lemma_i64_product_bound(a: int, b: int)
    requires
        fits_i64(a),
        fits_i64(b),
    ensures
        -0x4000_0000_0000_0000_0000_0000_0000_0000 <= a * b <= 0x4000_0000_0000_0000_0000_0000_0000_0000,
{
    let m: int = 0x8000_0000_0000_0000;
    let aa: int = if a < 0 { -a } else { a };
    let bb: int = if b < 0 { -b } else { b };
    assert(aa * bb <= m * m) by (nonlinear_arith)
        requires
            0 <= aa <= m,
            0 <= bb <= m,
    ;
    assert(a * b == aa * bb || a * b == -(aa * bb)) by (nonlinear_arith)
        requires
            aa == a || aa == -a,
            bb == b || bb == -b,
    ;
}

/// `p + v * dt` computed without overflow, as a wider integer.
fn moved_wide(p: i64, v: i64, dt: i64) -> (r: i128)
    ensures
        r == p + v * dt,
{
    proof {
        lemma_i64_product_bound(v as int, dt as int);
    }
    p as i128 + (v as i128) * (dt as i128)
}

/// One axis of a step: move, then check the low wall and then the high wall.
fn step_axis(p: i64, v: i64, radius: i64, limit: i64, dt: i64) -> (r: (i64, i64))
    requires
        fits_i64(p + v * dt),
        v != i64::MIN,
        fits_i64(limit - radius),
    ensures
        r.0 == axis_bounce(p + v * dt, v as int, radius as int, limit as int).0,
        r.1 == axis_bounce(p + v * dt, v as int, radius as int, limit as int).1,
{
    let mut pos: i64 = moved_wide(p, v, dt) as i64;
    let mut vel: i64 = v;
    if pos < radius {
        pos = radius;
        vel = -vel;
    }
    if pos > limit - radius {
        pos = limit - radius;
        vel = -vel;
    }
    (pos, vel)
}

impl Ball {
    /// Builds a ball at `(x, y)` moving with velocity `(vx, vy)`; the radius
    /// is stored as given.
    pub fn new(x: i64, y: i64, vx: i64, vy: i64, radius: i64) -> (r: Ball)
        ensures
            r.position == (Vector2D { x, y }),
            r.velocity == (Vector2D { x: vx, y: vy }),
            r.radius == radius,
    {
        Ball { position: Vector2D { x, y }, velocity: Vector2D { x: vx, y: vy }, radius }
    }

    /// The x coordinate of the center.
    pub fn x(&self) -> (r: i64)
        ensures
            r == self.position.x,
    {
        self.position.x
    }

    /// The y coordinate of the center.
    pub fn y(&self) -> (r: i64)
        ensures
            r == self.position.y,
    {
        self.position.y
    }

    /// The radius.
    pub fn radius(&self) -> (r: i64)
        ensures
            r == self.radius,
    {
        self.radius
    }

    /// Whether one step of `dt` can be computed for this ball on `table`
    /// within `i64`.
    pub(crate) fn step_fits(&self, table: &Table, dt: i64) -> (r: bool)
        ensures
            r == ball_step_fits(*self, *table, dt as int),
    {
        let mx = moved_wide(self.position.x, self.velocity.x, dt);
        let my = moved_wide(self.position.y, self.velocity.y, dt);
        let wx = table.width as i128 - self.radius as i128;
        let wy = table.height as i128 - self.radius as i128;
        let lo = i64::MIN as i128;
        let hi = i64::MAX as i128;
        lo <= mx && mx <= hi && lo <= my && my <= hi
            && self.velocity.x != i64::MIN && self.velocity.y != i64::MIN
            && lo <= wx && wx <= hi && lo <= wy && wy <= hi
    }

    /// This ball after one step of `dt` time units on `table`.
    pub(crate) fn stepped(&self, table: &Table, dt: i64) -> (r: Ball)
        requires
            ball_step_fits(*self, *table, dt as int),
        ensures
            r == ball_after(*self, *table, dt as int),
    {
        let (x, vx) = step_axis(self.position.x, self.velocity.x, self.radius, table.width, dt);
        let (y, vy) = step_axis(self.position.y, self.velocity.y, self.radius, table.height, dt);
        Ball { position: Vector2D { x, y }, velocity: Vector2D { x: vx, y: vy }, radius: self.radius }
    }
}

/// Builds a ball at `(x, y)` moving with velocity `(vx, vy)`; the radius is
/// stored as given.
pub fn new_ball(x: i64, y: i64, vx: i64, vy: i64, radius: i64) -> (r: Ball)
    ensures
        r.position == (Vector2D { x, y }),
        r.velocity == (Vector2D { x: vx, y: vy }),
        r.radius == radius,
{
    Ball::new(x, y, vx, vy, radius)
}

} // verus!
