//! The simulation state and the step function that advances it.

use crate::ball::{ball_after, ball_step_fits, Ball};
use crate::geometry::{Table, Vector2D, LENGTH_SCALE, SPEED_SCALE};
use vstd::prelude::*;

verus! {

/// What a [`GameState`] holds: its balls, in order, and its table.
pub struct GameStateView {
    /// The balls, in the order in which they were given.
    pub balls: Seq<Ball>,
    /// The table.
    pub table: Table,
}

/// The state after one step of `dt` time units: nothing changes when
/// `dt <= 0`; otherwise every ball takes its own step on the table.
pub open spec fn state_after(s: GameStateView, dt: int) -> GameStateView {
    if dt <= 0 {
        s
    } else {
        GameStateView { balls: s.balls.map_values(|b: Ball| ball_after(b, s.table, dt)), table: s.table }
    }
}

/// Whether one step of `dt` can be computed within `i64` for every ball.
pub open spec fn step_fits(s: GameStateView, dt: int) -> bool {
    forall|i: int| 0 <= i < s.balls.len() ==> #[trigger] ball_step_fits(s.balls[i], s.table, dt)
}

/// All balls in play and the table they share. The set of balls is fixed
/// when the state is built; only [`tick`] changes them.
pub struct GameState {
    balls: Vec<Ball>,
    table: Table,
}

impl View for GameState {
    type V = GameStateView;

    closed spec fn view(&self) -> GameStateView {
        GameStateView { balls: self.balls@, table: self.table }
    }
}

impl GameState {
    /// Builds a state from its balls, in order, and its table.
    pub fn new(balls: Vec<Ball>, table: Table) -> (r: GameState)
        ensures
            r@.balls == balls@,
            r@.table == table,
    {
        GameState { balls, table }
    }

    /// The number of balls.
    pub fn balls_len(&self) -> (r: usize)
        ensures
            r == self@.balls.len(),
    {
        self.balls.len()
    }

    /// A copy of the ball at `index`; the caller keeps `index` in range.
    pub fn ball(&self, index: usize) -> (r: Ball)
        requires
            index < self@.balls.len(),
        ensures
            r == self@.balls[index as int],
    {
        self.balls[index]
    }

    /// The width of the table.
    pub fn table_width(&self) -> (r: i64)
        ensures
            r == self@.table.width,
    {
        self.table.width
    }

    /// The height of the table.
    pub fn table_height(&self) -> (r: i64)
        ensures
            r == self@.table.height,
    {
        self.table.height
    }

    /// Whether [`tick`] may be called with `dt` on this state: always when
    /// `dt <= 0`, else when every value of the step fits in an `i64`.
    pub fn can_tick(&self, dt: i64) -> (r: bool)
        ensures
            r == (dt > 0 ==> step_fits(self@, dt as int)),
    {
        if dt <= 0 {
            return true;
        }
        let n = self.balls.len();
        let mut i: usize = 0;
        while i < n
            invariant
                n == self.balls@.len(),
                0 <= i <= n,
                dt > 0,
                forall|j: int| 0 <= j < i ==> #[trigger] ball_step_fits(self.balls@[j], self.table, dt as int),
            decreases n - i,
        {
            if !self.balls[i].step_fits(&self.table, dt) {
                assert(!ball_step_fits(self@.balls[i as int], self@.table, dt as int));
                return false;
            }
            i += 1;
        }
        true
    }
}

/// The demonstration state: an 800 by 400 table with one ball of radius 10 at
/// its center, moving at 120 table units per second along x and 60 along y.
pub open spec fn single_ball_fixture() -> GameStateView {
    GameStateView {
        balls: seq![Ball {
            position: Vector2D { x: (400 * LENGTH_SCALE) as i64, y: (200 * LENGTH_SCALE) as i64 },
            velocity: Vector2D { x: (120 * SPEED_SCALE) as i64, y: (60 * SPEED_SCALE) as i64 },
            radius: (10 * LENGTH_SCALE) as i64,
        }],
        table: Table { width: (800 * LENGTH_SCALE) as i64, height: (400 * LENGTH_SCALE) as i64 },
    }
}

/// Builds the demonstration state, [`single_ball_fixture`].
pub fn new_game_state_single_ball() -> (r: GameState)
    ensures
        r@ == single_ball_fixture(),
{
    let table = Table { width: 800 * LENGTH_SCALE, height: 400 * LENGTH_SCALE };
    let ball = Ball {
        position: Vector2D { x: table.width / 2, y: table.height / 2 },
        velocity: Vector2D { x: 120 * SPEED_SCALE, y: 60 * SPEED_SCALE },
        radius: 10 * LENGTH_SCALE,
    };
    let mut balls: Vec<Ball> = Vec::new();
    balls.push(ball);
    proof {
        assert(balls@ =~= single_ball_fixture().balls);
    }
    GameState { balls, table }
}

/// Advances the simulation by `dt` time units.
///
/// When `dt <= 0` nothing changes. Otherwise each ball moves by its velocity
/// times `dt`, and then, on each axis, bounces off the low wall and then the
/// high wall: a ball whose surface passed a wall is put back against it and
/// its velocity on that axis reverses. Balls never affect one another.
pub fn tick(state: &mut GameState, dt: i64)
    requires
        dt > 0 ==> step_fits(old(state)@, dt as int),
    ensures
        final(state)@ == state_after(old(state)@, dt as int),
        dt <= 0 ==> final(state)@ == old(state)@,
{
    if dt <= 0 {
        return;
    }
    let table = state.table;
    let n = state.balls.len();
    let mut i: usize = 0;
    while i < n
        invariant
            n == state.balls@.len(),
            n == old(state).balls@.len(),
            0 <= i <= n,
            dt > 0,
            table == old(state).table,
            state.table == table,
            step_fits(old(state)@, dt as int),
            forall|j: int| 0 <= j < i ==> state.balls@[j] == ball_after(old(state).balls@[j], table, dt as int),
            forall|j: int| i <= j < n ==> state.balls@[j] == old(state).balls@[j],
        decreases n - i,
    {
        let b = state.balls[i];
        assert(ball_step_fits(old(state)@.balls[i as int], old(state)@.table, dt as int));
        let nb = b.stepped(&table, dt);
        state.balls.set(i, nb);
        i += 1;
    }
    proof {
        assert(state.balls@ =~= old(state).balls@.map_values(|b: Ball| ball_after(b, table, dt as int)));
    }
}

} // verus!
