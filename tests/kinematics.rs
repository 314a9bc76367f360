use pool_physics::{
    new_ball, new_game_state_single_ball, new_table, new_vector2d, tick, Ball, GameState, Table, Vector2D,
    LENGTH_SCALE, SPEED_SCALE, TIME_SCALE,
};

fn len(units: i64) -> i64 {
    units * LENGTH_SCALE
}

fn speed(units_per_second: i64) -> i64 {
    units_per_second * SPEED_SCALE
}

fn one_ball(table: Table, ball: Ball) -> GameState {
    GameState::new(vec![ball], table)
}

fn balls_of(state: &GameState) -> Vec<Ball> {
    (0..state.balls_len()).map(|i| state.ball(i)).collect()
}

#[test]
fn tick_moves_ball_when_dt_positive() {
    let mut state = new_game_state_single_ball();
    let initial_x = state.ball(0).position.x;
    let initial_y = state.ball(0).position.y;
    tick(&mut state, TIME_SCALE / 2);
    assert_ne!(state.ball(0).position.x, initial_x);
    assert_ne!(state.ball(0).position.y, initial_y);
}

#[test]
fn wall_bounce_inverts_velocity_x() {
    let table = Table { width: len(100), height: len(100) };
    let mut state = one_ball(
        table,
        Ball {
            position: Vector2D { x: len(95), y: len(50) },
            velocity: Vector2D { x: speed(50), y: speed(0) },
            radius: len(10),
        },
    );

    tick(&mut state, TIME_SCALE / 2);

    let ball = state.ball(0);
    assert!(ball.position.x <= table.width - ball.radius);
    assert!(ball.velocity.x < 0);
}

#[test]
fn wall_bounce_inverts_velocity_y() {
    let table = Table { width: len(100), height: len(100) };
    let mut state = one_ball(
        table,
        Ball {
            position: Vector2D { x: len(50), y: len(95) },
            velocity: Vector2D { x: speed(0), y: speed(50) },
            radius: len(10),
        },
    );

    tick(&mut state, TIME_SCALE / 2);

    let ball = state.ball(0);
    assert!(ball.position.y <= table.height - ball.radius);
    assert!(ball.velocity.y < 0);
}

#[test]
fn zero_and_negative_steps_change_nothing() {
    let table = Table::new(len(100), len(100));
    let balls = vec![
        Ball::new(len(95), len(50), speed(50), 0, len(10)),
        Ball::new(len(5), len(5), speed(-30), speed(-40), len(10)),
    ];
    for dt in [0, -1, -TIME_SCALE, i64::MIN] {
        let mut state = GameState::new(balls.clone(), table);
        assert!(state.can_tick(dt));
        tick(&mut state, dt);
        assert_eq!(balls_of(&state), balls);
        assert_eq!(state.table_width(), len(100));
        assert_eq!(state.table_height(), len(100));
    }
}

#[test]
fn fixture_moves_by_velocity_times_dt() {
    let mut state = new_game_state_single_ball();
    tick(&mut state, TIME_SCALE);
    let ball = state.ball(0);
    assert_eq!(ball.position, Vector2D { x: len(520), y: len(260) });
    assert_eq!(ball.velocity, Vector2D { x: speed(120), y: speed(60) });
    assert_eq!(ball.radius, len(10));

    let mut short = new_game_state_single_ball();
    tick(&mut short, 1);
    assert_eq!(short.ball(0).position, Vector2D { x: len(400) + speed(120), y: len(200) + speed(60) });
}

#[test]
fn fixture_layout() {
    let state = new_game_state_single_ball();
    assert_eq!(state.balls_len(), 1);
    assert_eq!(state.table_width(), len(800));
    assert_eq!(state.table_height(), len(400));
    let ball = state.ball(0);
    assert_eq!(ball.x(), len(400));
    assert_eq!(ball.y(), len(200));
    assert_eq!(ball.radius(), len(10));
    assert_eq!(ball.velocity, Vector2D { x: speed(120), y: speed(60) });
}

#[test]
fn right_wall_clamps_and_reverses_exactly() {
    let mut state = one_ball(Table::new(len(100), len(100)), Ball::new(len(95), len(50), speed(50), 0, len(10)));
    tick(&mut state, TIME_SCALE / 2);
    let ball = state.ball(0);
    assert_eq!(ball.position, Vector2D { x: len(90), y: len(50) });
    assert_eq!(ball.velocity, Vector2D { x: speed(-50), y: 0 });
}

#[test]
fn bottom_wall_clamps_and_reverses_exactly() {
    let mut state = one_ball(Table::new(len(100), len(100)), Ball::new(len(50), len(95), 0, speed(50), len(10)));
    tick(&mut state, TIME_SCALE / 2);
    let ball = state.ball(0);
    assert_eq!(ball.position, Vector2D { x: len(50), y: len(90) });
    assert_eq!(ball.velocity, Vector2D { x: 0, y: speed(-50) });
}

#[test]
fn left_and_top_walls_clamp_and_reverse() {
    let mut state = one_ball(Table::new(len(100), len(100)), Ball::new(len(5), len(50), speed(-50), 0, len(10)));
    tick(&mut state, TIME_SCALE / 2);
    assert_eq!(state.ball(0).position, Vector2D { x: len(10), y: len(50) });
    assert_eq!(state.ball(0).velocity, Vector2D { x: speed(50), y: 0 });

    let mut state = one_ball(Table::new(len(100), len(100)), Ball::new(len(50), len(5), 0, speed(-50), len(10)));
    tick(&mut state, TIME_SCALE / 2);
    assert_eq!(state.ball(0).position, Vector2D { x: len(50), y: len(10) });
    assert_eq!(state.ball(0).velocity, Vector2D { x: 0, y: speed(50) });
}

#[test]
fn corner_reverses_both_components_in_one_step() {
    let mut state = one_ball(Table::new(len(100), len(100)), Ball::new(len(95), len(95), speed(50), speed(50), len(10)));
    tick(&mut state, TIME_SCALE / 2);
    let ball = state.ball(0);
    assert_eq!(ball.position, Vector2D { x: len(90), y: len(90) });
    assert_eq!(ball.velocity, Vector2D { x: speed(-50), y: speed(-50) });
}

#[test]
fn ball_leaving_a_wall_is_not_reversed_again() {
    let table = Table::new(len(100), len(100));
    let mut state = one_ball(table, Ball::new(len(90), len(10), speed(-50), speed(50), len(10)));
    tick(&mut state, TIME_SCALE / 10);
    let ball = state.ball(0);
    assert_eq!(ball.position, Vector2D { x: len(85), y: len(15) });
    assert_eq!(ball.velocity, Vector2D { x: speed(-50), y: speed(50) });

    let mut resting = one_ball(table, Ball::new(len(10), len(90), 0, 0, len(10)));
    tick(&mut resting, TIME_SCALE);
    tick(&mut resting, TIME_SCALE);
    assert_eq!(resting.ball(0), Ball::new(len(10), len(90), 0, 0, len(10)));
}

#[test]
fn ball_pressing_into_a_wall_reverses_each_step() {
    let table = Table::new(len(100), len(100));
    let mut state = one_ball(table, Ball::new(len(90), len(50), speed(50), 0, len(10)));
    tick(&mut state, TIME_SCALE / 10);
    assert_eq!(state.ball(0).position.x, len(90));
    assert_eq!(state.ball(0).velocity.x, speed(-50));
}

#[test]
fn overlapping_balls_move_independently() {
    let table = Table::new(len(100), len(100));
    let a = Ball::new(len(50), len(50), speed(30), speed(-20), len(10));
    let b = Ball::new(len(52), len(51), speed(-40), speed(70), len(10));
    let c = Ball::new(len(95), len(95), speed(50), speed(50), len(10));

    let mut together = GameState::new(vec![a, b, c], table);
    tick(&mut together, TIME_SCALE / 2);

    for (i, ball) in [a, b, c].into_iter().enumerate() {
        let mut alone = one_ball(table, ball);
        tick(&mut alone, TIME_SCALE / 2);
        assert_eq!(together.ball(i), alone.ball(0));
    }
    assert_eq!(together.balls_len(), 3);
    assert_eq!(together.ball(0).position, Vector2D { x: len(65), y: len(40) });
}

#[test]
fn table_narrower_than_ball_ends_at_far_clamp() {
    // Low wall first, then high wall: the second check overrides the first.
    let mut state = one_ball(Table::new(10, 100), Ball::new(5, 50, 1, 0, 10));
    tick(&mut state, 1);
    let ball = state.ball(0);
    assert_eq!(ball.position.x, 0);
    assert_eq!(ball.velocity.x, 1);
}

#[test]
fn can_tick_reports_overflow() {
    let table = Table::new(len(100), len(100));
    let state = new_game_state_single_ball();
    assert!(state.can_tick(TIME_SCALE));
    let fast = one_ball(table, Ball::new(len(50), len(50), i64::MAX, 0, len(10)));
    assert!(!fast.can_tick(2));
    assert!(fast.can_tick(0));
    let extreme = one_ball(table, Ball::new(0, 0, i64::MIN, 0, 0));
    assert!(!extreme.can_tick(1));
    let empty = GameState::new(Vec::new(), table);
    assert!(empty.can_tick(i64::MAX));
}

#[test]
fn constructors_store_their_arguments() {
    assert_eq!(new_vector2d(3, -4), Vector2D { x: 3, y: -4 });
    assert_eq!(Vector2D::new(7, 8), Vector2D { x: 7, y: 8 });
    assert_eq!(new_table(5, 6), Table { width: 5, height: 6 });
    let ball = new_ball(1, 2, 3, 4, 5);
    assert_eq!(ball, Ball { position: Vector2D { x: 1, y: 2 }, velocity: Vector2D { x: 3, y: 4 }, radius: 5 });
    assert_eq!((ball.x(), ball.y(), ball.radius()), (1, 2, 5));
}
