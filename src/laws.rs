//! Properties of the step function, stated over its model and proved.

use crate::ball::{axis_bounce, ball_after, ball_step_fits, Ball};
use crate::game::{single_ball_fixture, state_after, GameStateView};
use crate::geometry::{Table, LENGTH_SCALE, SPEED_SCALE};
use vstd::prelude::*;

verus! {

/// On one axis, a ball whose surface stays between the walls after moving is
/// neither clamped nor reversed.
pub proof fn lemma_axis_inside(p: int, v: int, radius: int, limit: int)
    requires
        radius <= p <= limit - radius,
    ensures
        axis_bounce(p, v, radius, limit) == (p, v),
{
}

/// Free flight: when a step of `dt > 0` leaves the ball's surface within the
/// table on both axes, the ball ends at `position + velocity * dt` and keeps
/// its velocity and radius.
pub proof fn lemma_free_flight(b: Ball, table: Table, dt: int)
    requires
        dt > 0,
        ball_step_fits(b, table, dt),
        b.radius <= b.position.x + b.velocity.x * dt <= table.width - b.radius,
        b.radius <= b.position.y + b.velocity.y * dt <= table.height - b.radius,
    ensures
        ball_after(b, table, dt).position.x == b.position.x + b.velocity.x * dt,
        ball_after(b, table, dt).position.y == b.position.y + b.velocity.y * dt,
        ball_after(b, table, dt).velocity == b.velocity,
        ball_after(b, table, dt).radius == b.radius,
{
    lemma_axis_inside(b.position.x + b.velocity.x * dt, b.velocity.x as int, b.radius as int, table.width as int);
    lemma_axis_inside(b.position.y + b.velocity.y * dt, b.velocity.y as int, b.radius as int, table.height as int);
}

/// Free flight of the demonstration state: for any step `0 < dt` short
/// enough that its ball reaches no wall, the ball ends at
/// `position + velocity * dt` with its velocity unchanged.
pub proof fn lemma_fixture_free_flight(dt: int)
    requires
        dt > 0,
        (400 * LENGTH_SCALE) + (120 * SPEED_SCALE) * dt <= (790 * LENGTH_SCALE),
        (200 * LENGTH_SCALE) + (60 * SPEED_SCALE) * dt <= (390 * LENGTH_SCALE),
    ensures
        state_after(single_ball_fixture(), dt).balls.len() == 1,
        state_after(single_ball_fixture(), dt).table == single_ball_fixture().table,
        state_after(single_ball_fixture(), dt).balls[0].position.x == single_ball_fixture().balls[0].position.x
            + single_ball_fixture().balls[0].velocity.x * dt,
        state_after(single_ball_fixture(), dt).balls[0].position.y == single_ball_fixture().balls[0].position.y
            + single_ball_fixture().balls[0].velocity.y * dt,
        state_after(single_ball_fixture(), dt).balls[0].velocity == single_ball_fixture().balls[0].velocity,
{
    let b = single_ball_fixture().balls[0];
    assert(b.velocity.x * dt >= 0) by (nonlinear_arith)
        requires
            b.velocity.x >= 0,
            dt > 0,
    ;
    assert(b.velocity.y * dt >= 0) by (nonlinear_arith)
        requires
            b.velocity.y >= 0,
            dt > 0,
    ;
    lemma_free_flight(b, single_ball_fixture().table, dt);
}

/// Corners: on a table at least as wide and as high as the ball's diameter,
/// a step whose moved position passes a wall on each axis reverses both
/// velocity components in that one step.
pub proof fn lemma_corner_reverses_both(b: Ball, table: Table, dt: int)
    requires
        dt > 0,
        ball_step_fits(b, table, dt),
        2 * b.radius <= table.width,
        2 * b.radius <= table.height,
        b.position.x + b.velocity.x * dt < b.radius || b.position.x + b.velocity.x * dt > table.width - b.radius,
        b.position.y + b.velocity.y * dt < b.radius || b.position.y + b.velocity.y * dt > table.height - b.radius,
    ensures
        ball_after(b, table, dt).velocity.x == -b.velocity.x,
        ball_after(b, table, dt).velocity.y == -b.velocity.y,
{
}

/// On one axis, a ball that starts against a wall and moves away from it
/// without reaching the opposite wall is not reversed again.
pub proof fn lemma_axis_leaves_wall(p: int, v: int, radius: int, limit: int, dt: int)
    requires
        dt > 0,
        (p == radius && v >= 0 && p + v * dt <= limit - radius)
            || (p == limit - radius && v <= 0 && p + v * dt >= radius),
    ensures
        axis_bounce(p + v * dt, v, radius, limit) == (p + v * dt, v),
{
    if v >= 0 {
        assert(v * dt >= 0) by (nonlinear_arith)
            requires
                v >= 0,
                dt > 0,
        ;
    } else {
        assert(v * dt <= 0) by (nonlinear_arith)
            requires
                v <= 0,
                dt > 0,
        ;
    }
}

/// Rest against a wall: a ball whose center sits where a wall clamps it, and
/// whose velocity on that axis points away from the wall (or is zero), keeps
/// that velocity over a step that does not reach the opposite wall.
pub proof fn lemma_leaving_wall_keeps_velocity(b: Ball, table: Table, dt: int)
    requires
        dt > 0,
    ensures
        ((b.position.x == b.radius && b.velocity.x >= 0 && b.position.x + b.velocity.x * dt <= table.width - b.radius)
            || (b.position.x == table.width - b.radius && b.velocity.x <= 0 && b.position.x + b.velocity.x * dt
            >= b.radius)) ==> ball_after(b, table, dt).velocity.x == b.velocity.x,
        ((b.position.y == b.radius && b.velocity.y >= 0 && b.position.y + b.velocity.y * dt <= table.height - b.radius)
            || (b.position.y == table.height - b.radius && b.velocity.y <= 0 && b.position.y + b.velocity.y * dt
            >= b.radius)) ==> ball_after(b, table, dt).velocity.y == b.velocity.y,
{
    if (b.position.x == b.radius && b.velocity.x >= 0 && b.position.x + b.velocity.x * dt <= table.width - b.radius)
        || (b.position.x == table.width - b.radius && b.velocity.x <= 0 && b.position.x + b.velocity.x * dt
        >= b.radius) {
        lemma_axis_leaves_wall(b.position.x as int, b.velocity.x as int, b.radius as int, table.width as int, dt);
    }
    if (b.position.y == b.radius && b.velocity.y >= 0 && b.position.y + b.velocity.y * dt <= table.height - b.radius)
        || (b.position.y == table.height - b.radius && b.velocity.y <= 0 && b.position.y + b.velocity.y * dt
        >= b.radius) {
        lemma_axis_leaves_wall(b.position.y as int, b.velocity.y as int, b.radius as int, table.height as int, dt);
    }
}

/// Independence: a step keeps the number of balls and the table, and what
/// it does to a ball depends on that ball and the table alone, whatever
/// other balls share the state and wherever they are.
pub proof fn lemma_balls_independent(s1: GameStateView, s2: GameStateView, dt: int, i: int, j: int)
    requires
        s1.table == s2.table,
        0 <= i < s1.balls.len(),
        0 <= j < s2.balls.len(),
        s1.balls[i] == s2.balls[j],
    ensures
        state_after(s1, dt).balls.len() == s1.balls.len(),
        state_after(s1, dt).table == s1.table,
        state_after(s1, dt).balls[i] == state_after(s2, dt).balls[j],
{
}

} // verus!
