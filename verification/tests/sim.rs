use pong_core::config::Config;
use pong_core::geometry::Vec2;
use pong_core::sim::{PlayerInput, Sim};

/// The arena used throughout: half-width 300, half-height 200, ball of
/// half-extent 5, paddles of half-extent 10 x 25 standing 20 in from the
/// side edges, gutters 20 thick, paddle speed 5, ball speed scale 1, serve
/// speed 2.
fn base_cfg() -> Config {
    Config {
        arena_half_width: 300,
        arena_half_height: 200,
        ball_half: 5,
        paddle_half_x: 10,
        paddle_half_y: 25,
        gutter_half_y: 10,
        paddle_inset: 20,
        paddle_speed: 5,
        ball_speed: 1,
        serve_speed: 2,
    }
}

#[test]
fn valid_configuration_is_accepted() {
    assert!(base_cfg().is_valid());
}

#[test]
fn non_positive_extent_is_rejected() {
    let mut cfg = base_cfg();
    cfg.ball_half = 0;
    assert!(!cfg.is_valid());
    let mut cfg = base_cfg();
    cfg.serve_speed = -1;
    assert!(!cfg.is_valid());
}

#[test]
fn oversized_extent_is_rejected() {
    let mut cfg = base_cfg();
    cfg.arena_half_width = 2_000_000;
    assert!(!cfg.is_valid());
}

#[test]
fn paddle_that_cannot_fit_between_gutters_is_rejected() {
    let mut cfg = base_cfg();
    cfg.paddle_half_y = 190;
    assert!(!cfg.is_valid());
}

#[test]
fn paddle_fast_enough_to_leap_the_clamp_is_rejected() {
    let mut cfg = base_cfg();
    cfg.paddle_speed = 25;
    assert!(!cfg.is_valid());
}

#[test]
fn fresh_simulation_state() {
    let s = Sim::new(base_cfg());
    assert_eq!(s.ball_position(), Vec2 { x: 0, y: 0 });
    assert_eq!(s.ball_vel, Vec2 { x: -2, y: 2 });
    assert_eq!(s.player_position(), Vec2 { x: -280, y: 0 });
    assert_eq!(s.opponent_position(), Vec2 { x: 280, y: 0 });
    assert_eq!(s.score(), (0, 0));
    assert_eq!(s.player_vy, 0);
    assert_eq!(s.opponent_vy, 0);
}

#[test]
fn velocity_is_invariant_while_the_ball_touches_nothing() {
    // From the center the ball needs scores of ticks to reach anything, so
    // across fifty quiet ticks integration alone runs: the velocity stays
    // exactly as served and the position advances by it each tick.
    let mut s = Sim::new(base_cfg());
    for i in 1..=50i64 {
        s.tick(PlayerInput::Neutral);
        assert_eq!(s.ball_vel, Vec2 { x: -2, y: 2 });
        assert_eq!(s.ball_position(), Vec2 { x: -2 * i, y: 2 * i });
    }
}

#[test]
fn paddles_stay_inside_the_legal_range_for_any_input_run() {
    // Legal vertical range of a paddle center: |y| <= 200 - 20 - 25 = 155.
    let mut s = Sim::new(base_cfg());
    let script = [
        PlayerInput::Up,
        PlayerInput::Up,
        PlayerInput::Down,
        PlayerInput::Neutral,
        PlayerInput::Up,
    ];
    for round in 0..120 {
        let dir = script[round % script.len()];
        s.tick(dir);
        assert!(s.player_position().y.abs() <= 155);
        assert!(s.opponent_position().y.abs() <= 155);
    }
}

#[test]
fn player_paddle_is_clamped_flush_against_the_top_gutter() {
    // Held Up long enough, the paddle is seated exactly at the top of its
    // legal range and stays there.
    let mut s = Sim::new(base_cfg());
    for _ in 0..40 {
        s.tick(PlayerInput::Up);
    }
    assert_eq!(s.player_position().y, 155);
    s.tick(PlayerInput::Up);
    assert_eq!(s.player_position().y, 155);
}

#[test]
fn ball_bounces_off_the_opponent_paddle() {
    // Opponent paddle of half-extent 5 x 25 centered at (250, 0); ball from
    // the center with velocity (2, 0).  The first tick that puts the ball's
    // box against the paddle's reports a Left face and flips the
    // horizontal velocity to -2, leaving the vertical one alone.
    let mut cfg = base_cfg();
    cfg.paddle_half_x = 5;
    cfg.paddle_inset = 50;
    assert!(cfg.is_valid());
    let mut s = Sim::new(cfg);
    assert_eq!(s.opponent_position(), Vec2 { x: 250, y: 0 });
    s.ball_pos = Vec2 { x: 0, y: 0 };
    s.ball_vel = Vec2 { x: 2, y: 0 };
    for _ in 0..119 {
        s.tick(PlayerInput::Neutral);
        assert_eq!(s.ball_vel, Vec2 { x: 2, y: 0 });
    }
    assert_eq!(s.ball_position().x, 238);
    s.tick(PlayerInput::Neutral);
    assert_eq!(s.ball_position().x, 240);
    assert_eq!(s.ball_vel, Vec2 { x: -2, y: 0 });
    // Already separated on the next tick: no repeated double-flip.
    s.tick(PlayerInput::Neutral);
    assert_eq!(s.ball_position().x, 238);
    assert_eq!(s.ball_vel, Vec2 { x: -2, y: 0 });
}

#[test]
fn ball_bounces_off_the_top_gutter() {
    // Gutter band spans y in [180, 200]; ball of half-extent 5 touches it
    // at y = 175 and its vertical velocity flips downward.
    let mut s = Sim::new(base_cfg());
    s.ball_pos = Vec2 { x: 0, y: 170 };
    s.ball_vel = Vec2 { x: 0, y: 2 };
    s.tick(PlayerInput::Neutral);
    assert_eq!(s.ball_position(), Vec2 { x: 0, y: 172 });
    assert_eq!(s.ball_vel, Vec2 { x: 0, y: 2 });
    s.tick(PlayerInput::Neutral);
    assert_eq!(s.ball_position(), Vec2 { x: 0, y: 174 });
    assert_eq!(s.ball_vel, Vec2 { x: 0, y: 2 });
    s.tick(PlayerInput::Neutral);
    assert_eq!(s.ball_position(), Vec2 { x: 0, y: 176 });
    assert_eq!(s.ball_vel, Vec2 { x: 0, y: -2 });
}

#[test]
fn ball_past_the_right_edge_scores_for_the_player() {
    // Arena half-width 300, ball of half-extent 5 at x = 297 moving right
    // at 2 per tick with no paddle in the way: no score while any part of
    // the ball remains at the edge, then the first tick that puts it
    // wholly past the edge credits the player and serves afresh.
    let mut s = Sim::new(base_cfg());
    s.ball_pos = Vec2 { x: 297, y: 0 };
    s.ball_vel = Vec2 { x: 2, y: 0 };
    for expected_x in [299, 301, 303, 305] {
        s.tick(PlayerInput::Neutral);
        assert_eq!(s.ball_position().x, expected_x);
        assert_eq!(s.score(), (0, 0));
    }
    s.tick(PlayerInput::Neutral);
    assert_eq!(s.score(), (1, 0));
    assert_eq!(s.ball_position(), Vec2 { x: 0, y: 0 });
    // The canonical serve: toward the side that conceded, at serve speed.
    assert_eq!(s.ball_vel, Vec2 { x: 2, y: 0 });
}

#[test]
fn ball_past_the_left_edge_scores_for_the_opponent() {
    let mut s = Sim::new(base_cfg());
    s.ball_pos = Vec2 { x: -305, y: 7 };
    s.ball_vel = Vec2 { x: -2, y: 0 };
    s.tick(PlayerInput::Neutral);
    assert_eq!(s.score(), (0, 1));
    assert_eq!(s.ball_position(), Vec2 { x: 0, y: 0 });
    assert_eq!(s.ball_vel, Vec2 { x: -2, y: 0 });
}

#[test]
fn exactly_one_score_counter_moves_per_scoring_tick() {
    let mut s = Sim::new(base_cfg());
    s.ball_pos = Vec2 { x: 305, y: 0 };
    s.ball_vel = Vec2 { x: 2, y: 0 };
    let (p0, o0) = s.score();
    s.tick(PlayerInput::Neutral);
    let (p1, o1) = s.score();
    assert!(p1 >= p0 && o1 >= o0);
    assert_eq!((p1 - p0) + (o1 - o0), 1);
    assert_eq!((p1, o1), (1, 0));
}

#[test]
fn score_is_monotone_across_a_long_run() {
    let mut s = Sim::new(base_cfg());
    let mut last = s.score();
    for _ in 0..2000 {
        s.tick(PlayerInput::Neutral);
        let now = s.score();
        assert!(now.0 >= last.0 && now.1 >= last.1);
        assert!((now.0 - last.0) + (now.1 - last.1) <= 1);
        last = now;
    }
}

#[test]
fn score_counter_saturates_at_its_maximum() {
    let mut s = Sim::new(base_cfg());
    s.score_player = u32::MAX;
    s.ball_pos = Vec2 { x: 305, y: 0 };
    s.ball_vel = Vec2 { x: 2, y: 0 };
    s.tick(PlayerInput::Neutral);
    assert_eq!(s.score(), (u32::MAX, 0));
}

#[test]
fn opponent_chases_the_ball_upward() {
    // Ball at (0, 50), opponent paddle at (250, 0): the tracking rule sets
    // the opponent's velocity to +paddle_speed.
    let mut cfg = base_cfg();
    cfg.paddle_inset = 50;
    let mut s = Sim::new(cfg);
    assert_eq!(s.opponent_position(), Vec2 { x: 250, y: 0 });
    s.ball_pos = Vec2 { x: 0, y: 50 };
    s.ball_vel = Vec2 { x: 0, y: 0 };
    s.tick(PlayerInput::Neutral);
    assert_eq!(s.opponent_vy, 5);
    assert_eq!(s.opponent_position().y, 5);
}

#[test]
fn opponent_chases_the_ball_downward() {
    let mut cfg = base_cfg();
    cfg.paddle_inset = 50;
    let mut s = Sim::new(cfg);
    s.ball_pos = Vec2 { x: 0, y: -50 };
    s.ball_vel = Vec2 { x: 0, y: 0 };
    s.tick(PlayerInput::Neutral);
    assert_eq!(s.opponent_vy, -5);
    assert_eq!(s.opponent_position().y, -5);
}

#[test]
fn opponent_level_with_the_ball_stands_still() {
    let mut s = Sim::new(base_cfg());
    s.ball_pos = Vec2 { x: 0, y: 0 };
    s.ball_vel = Vec2 { x: 0, y: 0 };
    s.tick(PlayerInput::Neutral);
    assert_eq!(s.opponent_vy, 0);
    assert_eq!(s.opponent_position().y, 0);
}

#[test]
fn player_input_maps_onto_paddle_velocity() {
    let mut s = Sim::new(base_cfg());
    s.tick(PlayerInput::Up);
    assert_eq!(s.player_vy, 5);
    assert_eq!(s.player_position().y, 5);
    s.tick(PlayerInput::Down);
    assert_eq!(s.player_vy, -5);
    assert_eq!(s.player_position().y, 0);
    s.tick(PlayerInput::Neutral);
    assert_eq!(s.player_vy, 0);
    assert_eq!(s.player_position().y, 0);
}
