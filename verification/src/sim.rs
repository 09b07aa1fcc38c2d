//! The simulation: state, tick pipeline, scoring.
//!
//! [`Sim`] holds the whole state of the game between ticks: the ball, the
//! two paddles, the score pair and the arena configuration.  [`Sim::tick`]
//! advances it by one fixed step in a fixed order: player input sets the
//! player paddle's velocity, the tracking rule sets the opponent's, the
//! ball and the paddles integrate their motion, the ball is resolved
//! against both paddles and both gutters, the paddles are clamped back
//! inside the arena, and finally a scoring exit is detected and answered by
//! bumping one counter and serving the ball afresh.

use vstd::prelude::*;
use crate::config::Config;
use crate::geometry::Side;
use crate::geometry::Vec2;
use crate::geometry::abs_i;
use crate::geometry::bounce;
use crate::geometry::bounce_spec;
use crate::geometry::collide_spec;
use crate::geometry::collide_with_side;
use crate::geometry::sat64;
use crate::geometry::sat_add;

verus! {

/// The player's directional request for one tick.
#[derive(Clone, Copy, Debug, PartialEq, Eq, Structural)]
pub enum PlayerInput {
    Up,
    Down,
    Neutral,
}

/// Which side is credited with a point when the ball leaves the arena.
#[derive(Clone, Copy, Debug, PartialEq, Eq, Structural)]
pub enum Scorer {
    Player,
    Opponent,
}

/// The whole state of the simulation between two ticks.
#[derive(Clone, Copy, Debug, PartialEq, Eq, Structural)]
pub struct Sim {
    /// The arena's fixed geometry and speeds.
    pub cfg: Config,
    /// Center of the ball.
    pub ball_pos: Vec2,
    /// Velocity of the ball, in grid units per tick before scaling by
    /// `cfg.ball_speed`.
    pub ball_vel: Vec2,
    /// Center of the player's paddle; its `x` never changes.
    pub player_pos: Vec2,
    /// Vertical velocity of the player's paddle.
    pub player_vy: i64,
    /// Center of the opponent's paddle; its `x` never changes.
    pub opponent_pos: Vec2,
    /// Vertical velocity of the opponent's paddle.
    pub opponent_vy: i64,
    /// Points credited to the player.
    pub score_player: u32,
    /// Points credited to the opponent.
    pub score_opponent: u32,
}

/// The player paddle's vertical velocity asked for by one tick of input.
pub open spec fn input_vy_spec(cfg: Config, dir: PlayerInput) -> i64 {
    match dir {
        PlayerInput::Up => cfg.paddle_speed,
        PlayerInput::Down => sat64(-cfg.paddle_speed),
        PlayerInput::Neutral => 0,
    }
}

/// The opponent paddle's vertical velocity under the deterministic tracking
/// rule: chase the ball at full paddle speed, stand still only when level
/// with it.
pub open spec fn track_vy_spec(cfg: Config, ball_y: i64, opponent_y: i64) -> i64 {
    if ball_y > opponent_y {
        cfg.paddle_speed
    } else if ball_y < opponent_y {
        sat64(-cfg.paddle_speed)
    } else {
        0
    }
}

/// One step of motion integration: the new position is the old one plus the
/// velocity scaled by `scale`, saturating at the ends of the `i64` range.
pub open spec fn advance_spec(p: Vec2, v: Vec2, scale: i64) -> Vec2 {
    Vec2 { x: sat64(p.x + v.x * scale), y: sat64(p.y + v.y * scale) }
}

/// The ball's velocity after it has been resolved against the player's
/// paddle, the opponent's paddle, the top gutter and the bottom gutter, in
/// that fixed order.
pub open spec fn collisions_spec(cfg: Config, bp: Vec2, player: Vec2, opponent: Vec2, v: Vec2) -> Vec2 {
    let v1 = bounce_spec(v, collide_spec(bp, cfg.ball_half_vec(), player, cfg.paddle_half()));
    let v2 = bounce_spec(v1, collide_spec(bp, cfg.ball_half_vec(), opponent, cfg.paddle_half()));
    let v3 = bounce_spec(
        v2,
        collide_spec(bp, cfg.ball_half_vec(), cfg.top_gutter_center(), cfg.gutter_half()),
    );
    bounce_spec(
        v3,
        collide_spec(bp, cfg.ball_half_vec(), cfg.bottom_gutter_center(), cfg.gutter_half()),
    )
}

/// One bounds test of a paddle against one gutter: a `Top` verdict seats
/// the paddle just above the gutter, a `Bottom` verdict just below it, and
/// any other verdict leaves the paddle alone.
pub open spec fn constrain_against_spec(cfg: Config, px: i64, py: i64, gutter_y: i64) -> i64 {
    match collide_spec(
        Vec2 { x: px, y: py },
        cfg.paddle_half(),
        Vec2 { x: 0, y: gutter_y },
        cfg.gutter_half(),
    ) {
        Some(Side::Top) => sat64(gutter_y + cfg.gutter_half_y + cfg.paddle_half_y),
        Some(Side::Bottom) => sat64(gutter_y - cfg.gutter_half_y - cfg.paddle_half_y),
        _ => py,
    }
}

/// A paddle's height after the bounds test against the top gutter and then
/// against the bottom gutter.
pub open spec fn constrain_spec(cfg: Config, px: i64, py: i64) -> i64 {
    let y1 = constrain_against_spec(cfg, px, py, sat64(cfg.top_gutter_y()));
    constrain_against_spec(cfg, px, y1, sat64(cfg.bottom_gutter_y()))
}

/// Scoring detection: the ball scores for the player once it lies wholly
/// past the arena's right edge, where the opponent stands guard, and for
/// the opponent once it lies wholly past the left edge.
pub open spec fn goal_spec(cfg: Config, bp: Vec2) -> Option<Scorer> {
    if bp.x - cfg.ball_half > cfg.arena_half_width {
        Some(Scorer::Player)
    } else if bp.x + cfg.ball_half < -cfg.arena_half_width {
        Some(Scorer::Opponent)
    } else {
        None
    }
}

/// The canonical serve after a point: the ball restarts at the center and
/// heads horizontally toward the side that just conceded, at the serve
/// speed on the horizontal axis alone.
pub open spec fn serve_vel_spec(cfg: Config, scorer: Scorer) -> Vec2 {
    match scorer {
        Scorer::Player => Vec2 { x: cfg.serve_speed, y: 0 },
        Scorer::Opponent => Vec2 { x: sat64(-cfg.serve_speed), y: 0 },
    }
}

/// A score counter after one point: one more, saturating at `u32::MAX`.
pub open spec fn bump_spec(s: u32) -> u32 {
    if s < u32::MAX {
        (s + 1) as u32
    } else {
        s
    }
}

/// How one tick takes the state `s` under input `dir` to the state `t`.
/// The conjunction pins every field of `t`.
pub open spec fn tick_rel(s: Sim, dir: PlayerInput, t: Sim) -> bool {
    let cfg = s.cfg;
    let pvy = input_vy_spec(cfg, dir);
    let ovy = track_vy_spec(cfg, s.ball_pos.y, s.opponent_pos.y);
    let bp = advance_spec(s.ball_pos, s.ball_vel, cfg.ball_speed);
    let py1 = sat64(s.player_pos.y + pvy);
    let oy1 = sat64(s.opponent_pos.y + ovy);
    let v1 = collisions_spec(
        cfg,
        bp,
        Vec2 { x: s.player_pos.x, y: py1 },
        Vec2 { x: s.opponent_pos.x, y: oy1 },
        s.ball_vel,
    );
    let py2 = constrain_spec(cfg, s.player_pos.x, py1);
    let oy2 = constrain_spec(cfg, s.opponent_pos.x, oy1);
    &&& t.cfg == cfg
    &&& t.player_vy == pvy
    &&& t.opponent_vy == ovy
    &&& t.player_pos == (Vec2 { x: s.player_pos.x, y: py2 })
    &&& t.opponent_pos == (Vec2 { x: s.opponent_pos.x, y: oy2 })
    &&& match goal_spec(cfg, bp) {
        None => {
            &&& t.ball_pos == bp
            &&& t.ball_vel == v1
            &&& t.score_player == s.score_player
            &&& t.score_opponent == s.score_opponent
        },
        Some(Scorer::Player) => {
            &&& t.ball_pos == (Vec2 { x: 0, y: 0 })
            &&& t.ball_vel == serve_vel_spec(cfg, Scorer::Player)
            &&& t.score_player == bump_spec(s.score_player)
            &&& t.score_opponent == s.score_opponent
        },
        Some(Scorer::Opponent) => {
            &&& t.ball_pos == (Vec2 { x: 0, y: 0 })
            &&& t.ball_vel == serve_vel_spec(cfg, Scorer::Opponent)
            &&& t.score_player == s.score_player
            &&& t.score_opponent == bump_spec(s.score_opponent)
        },
    }
}

impl Sim {
    /// The invariant every reachable state keeps between ticks: the
    /// configuration is well formed, the ball's velocity components are
    /// bounded by the serve speed, the ball has not left the arena further
    /// than a scoring exit allows, the paddles stand at their fixed
    /// horizontal posts within the arena's legal vertical range, and the
    /// paddle velocities are bounded by the paddle speed.
    pub open spec fn wf(self) -> bool {
        &&& self.cfg.valid()
        &&& abs_i(self.ball_vel.x as int) <= self.cfg.serve_speed
        &&& abs_i(self.ball_vel.y as int) <= self.cfg.serve_speed
        &&& abs_i(self.ball_pos.x as int) <= self.cfg.arena_half_width + self.cfg.ball_half
        &&& self.player_pos.x == self.cfg.player_x()
        &&& self.opponent_pos.x == self.cfg.opponent_x()
        &&& abs_i(self.player_pos.y as int) <= self.cfg.paddle_y_bound()
        &&& abs_i(self.opponent_pos.y as int) <= self.cfg.paddle_y_bound()
        &&& abs_i(self.player_vy as int) <= self.cfg.paddle_speed
        &&& abs_i(self.opponent_vy as int) <= self.cfg.paddle_speed
    }

    /// A fresh simulation: the ball at the center drifting toward the
    /// player's side, both paddles at rest at mid-height on their posts,
    /// and the score at nil all.
    pub fn new(cfg: Config) -> (s: Sim)
        requires
            cfg.valid(),
        ensures
            s.wf(),
            s.cfg == cfg,
            s.ball_pos == (Vec2 { x: 0, y: 0 }),
            s.ball_vel.x == -cfg.serve_speed,
            s.ball_vel.y == cfg.serve_speed,
            s.player_pos.x == cfg.player_x(),
            s.player_pos.y == 0,
            s.opponent_pos.x == cfg.opponent_x(),
            s.opponent_pos.y == 0,
            s.player_vy == 0,
            s.opponent_vy == 0,
            s.score_player == 0,
            s.score_opponent == 0,
    {
        Sim {
            cfg,
            ball_pos: Vec2 { x: 0, y: 0 },
            ball_vel: Vec2 { x: -cfg.serve_speed, y: cfg.serve_speed },
            player_pos: Vec2 { x: -cfg.arena_half_width + cfg.paddle_inset, y: 0 },
            player_vy: 0,
            opponent_pos: Vec2 { x: cfg.arena_half_width - cfg.paddle_inset, y: 0 },
            opponent_vy: 0,
            score_player: 0,
            score_opponent: 0,
        }
    }

    /// Map the tick's input onto the player paddle's velocity: full paddle
    /// speed up or down, or standstill.
    pub fn handle_player_input(&mut self, dir: PlayerInput)
        requires
            old(self).cfg.valid(),
        ensures
            *final(self) == (Sim { player_vy: input_vy_spec(old(self).cfg, dir), ..*old(self) }),
    {
        match dir {
            PlayerInput::Up => {
                self.player_vy = self.cfg.paddle_speed;
            },
            PlayerInput::Down => {
                self.player_vy = -self.cfg.paddle_speed;
            },
            PlayerInput::Neutral => {
                self.player_vy = 0;
            },
        }
    }

    /// Drive the opponent paddle by the tracking rule: chase the ball's
    /// height at full paddle speed, stand still only when exactly level.
    pub fn move_ai(&mut self)
        requires
            old(self).cfg.valid(),
        ensures
            *final(self) == (Sim {
                opponent_vy: track_vy_spec(
                    old(self).cfg,
                    old(self).ball_pos.y,
                    old(self).opponent_pos.y,
                ),
                ..*old(self)
            }),
    {
        let vy: i64 = if self.ball_pos.y > self.opponent_pos.y {
            self.cfg.paddle_speed
        } else if self.ball_pos.y < self.opponent_pos.y {
            -self.cfg.paddle_speed
        } else {
            0
        };
        self.opponent_vy = vy;
    }

    /// Integrate the ball's motion: one step of its velocity scaled by the
    /// ball speed.
    pub fn move_ball(&mut self)
        requires
            old(self).cfg.valid(),
            abs_i(old(self).ball_vel.x as int) <= old(self).cfg.serve_speed,
            abs_i(old(self).ball_vel.y as int) <= old(self).cfg.serve_speed,
        ensures
            *final(self) == (Sim {
                ball_pos: advance_spec(old(self).ball_pos, old(self).ball_vel, old(self).cfg.ball_speed),
                ..*old(self)
            }),
    {
        proof {
            let vx = self.ball_vel.x as int;
            let vy = self.ball_vel.y as int;
            let bs = self.cfg.ball_speed as int;
            assert(-1_000_000_000_000 <= vx * bs <= 1_000_000_000_000) by (nonlinear_arith)
                requires
                    -1_000_000 <= vx <= 1_000_000,
                    0 <= bs <= 1_000_000,
            ;
            assert(-1_000_000_000_000 <= vy * bs <= 1_000_000_000_000) by (nonlinear_arith)
                requires
                    -1_000_000 <= vy <= 1_000_000,
                    0 <= bs <= 1_000_000,
            ;
        }
        let dx = self.ball_vel.x * self.cfg.ball_speed;
        let dy = self.ball_vel.y * self.cfg.ball_speed;
        self.ball_pos = Vec2 {
            x: sat_add(self.ball_pos.x, dx),
            y: sat_add(self.ball_pos.y, dy),
        };
    }

    /// Integrate the paddles' motion: each moves by its own velocity, which
    /// already carries the paddle speed.
    pub fn move_paddles(&mut self)
        ensures
            *final(self) == (Sim {
                player_pos: Vec2 {
                    x: old(self).player_pos.x,
                    y: sat64(old(self).player_pos.y + old(self).player_vy),
                },
                opponent_pos: Vec2 {
                    x: old(self).opponent_pos.x,
                    y: sat64(old(self).opponent_pos.y + old(self).opponent_vy),
                },
                ..*old(self)
            }),
    {
        let py = sat_add(self.player_pos.y, self.player_vy);
        self.player_pos = Vec2 { x: self.player_pos.x, y: py };
        let oy = sat_add(self.opponent_pos.y, self.opponent_vy);
        self.opponent_pos = Vec2 { x: self.opponent_pos.x, y: oy };
    }

    /// Resolve the ball against both paddles and both gutters, in that
    /// fixed order.  Each resolution reflects one velocity axis and leaves
    /// both components' magnitudes as they were; positions are untouched,
    /// so a reflection is the entire response and the ball may overlap an
    /// obstacle for a tick.
    pub fn handle_collisions(&mut self)
        requires
            old(self).cfg.valid(),
            abs_i(old(self).ball_vel.x as int) <= old(self).cfg.serve_speed,
            abs_i(old(self).ball_vel.y as int) <= old(self).cfg.serve_speed,
            abs_i(old(self).player_pos.x as int) <= old(self).cfg.arena_half_width,
            abs_i(old(self).opponent_pos.x as int) <= old(self).cfg.arena_half_width,
            abs_i(old(self).player_pos.y as int) <= 3 * crate::config::EXTENT_LIMIT,
            abs_i(old(self).opponent_pos.y as int) <= 3 * crate::config::EXTENT_LIMIT,
        ensures
            *final(self) == (Sim {
                ball_vel: collisions_spec(
                    old(self).cfg,
                    old(self).ball_pos,
                    old(self).player_pos,
                    old(self).opponent_pos,
                    old(self).ball_vel,
                ),
                ..*old(self)
            }),
            abs_i(final(self).ball_vel.x as int) == abs_i(old(self).ball_vel.x as int),
            abs_i(final(self).ball_vel.y as int) == abs_i(old(self).ball_vel.y as int),
    {
        let bp = self.ball_pos;
        let bh = Vec2 { x: self.cfg.ball_half, y: self.cfg.ball_half };
        let ph = Vec2 { x: self.cfg.paddle_half_x, y: self.cfg.paddle_half_y };
        let gh = Vec2 { x: self.cfg.arena_half_width, y: self.cfg.gutter_half_y };
        let top = Vec2 { x: 0, y: self.cfg.arena_half_height - self.cfg.gutter_half_y };
        let bottom = Vec2 { x: 0, y: -self.cfg.arena_half_height + self.cfg.gutter_half_y };
        let c1 = collide_with_side(bp, bh, self.player_pos, ph);
        self.ball_vel = bounce(self.ball_vel, c1);
        let c2 = collide_with_side(bp, bh, self.opponent_pos, ph);
        self.ball_vel = bounce(self.ball_vel, c2);
        let c3 = collide_with_side(bp, bh, top, gh);
        self.ball_vel = bounce(self.ball_vel, c3);
        let c4 = collide_with_side(bp, bh, bottom, gh);
        self.ball_vel = bounce(self.ball_vel, c4);
    }

    /// Clamp both paddles back between the gutters: each is tested against
    /// the top gutter and then the bottom one, and a verdict seats it flush
    /// against the gutter it struck.
    pub fn constrain_paddle_position(&mut self)
        requires
            old(self).cfg.valid(),
        ensures
            *final(self) == (Sim {
                player_pos: Vec2 {
                    x: old(self).player_pos.x,
                    y: constrain_spec(old(self).cfg, old(self).player_pos.x, old(self).player_pos.y),
                },
                opponent_pos: Vec2 {
                    x: old(self).opponent_pos.x,
                    y: constrain_spec(
                        old(self).cfg,
                        old(self).opponent_pos.x,
                        old(self).opponent_pos.y,
                    ),
                },
                ..*old(self)
            }),
    {
        let top_y = self.cfg.arena_half_height - self.cfg.gutter_half_y;
        let bottom_y = -self.cfg.arena_half_height + self.cfg.gutter_half_y;
        let py1 = constrain_against(&self.cfg, self.player_pos.x, self.player_pos.y, top_y);
        let py2 = constrain_against(&self.cfg, self.player_pos.x, py1, bottom_y);
        self.player_pos = Vec2 { x: self.player_pos.x, y: py2 };
        let oy1 = constrain_against(&self.cfg, self.opponent_pos.x, self.opponent_pos.y, top_y);
        let oy2 = constrain_against(&self.cfg, self.opponent_pos.x, oy1, bottom_y);
        self.opponent_pos = Vec2 { x: self.opponent_pos.x, y: oy2 };
    }

    /// Scoring detection on the current ball position.
    pub fn detect_goal(&self) -> (r: Option<Scorer>)
        requires
            self.cfg.valid(),
        ensures
            r == goal_spec(self.cfg, self.ball_pos),
    {
        if self.ball_pos.x > self.cfg.arena_half_width + self.cfg.ball_half {
            Some(Scorer::Player)
        } else if self.ball_pos.x < -self.cfg.arena_half_width - self.cfg.ball_half {
            Some(Scorer::Opponent)
        } else {
            None
        }
    }

    /// Credit one point to the scorer.  The counter saturates at
    /// `u32::MAX`; it is never decremented and never reset for the session.
    pub fn update_score(&mut self, scorer: Scorer)
        ensures
            *final(self) == (match scorer {
                Scorer::Player => Sim { score_player: bump_spec(old(self).score_player), ..*old(self) },
                Scorer::Opponent => Sim {
                    score_opponent: bump_spec(old(self).score_opponent),
                    ..*old(self)
                },
            }),
    {
        match scorer {
            Scorer::Player => {
                if self.score_player < u32::MAX {
                    self.score_player = self.score_player + 1;
                }
            },
            Scorer::Opponent => {
                if self.score_opponent < u32::MAX {
                    self.score_opponent = self.score_opponent + 1;
                }
            },
        }
    }

    /// Advance the simulation by one fixed step, in the fixed order: map
    /// the input onto the player paddle's velocity, drive the opponent's by
    /// the tracking rule, integrate the ball and then the paddles, resolve
    /// the ball against both paddles and both gutters, clamp the paddles
    /// back inside the arena, and finally detect a scoring exit of the
    /// already-bounced ball and answer it by crediting the point and
    /// serving afresh.
    ///
    /// Besides relating the new state to the old one exactly, the contract
    /// states the session's standing guarantees: the paddles end every tick
    /// inside the arena's legal vertical range, and the score pair never
    /// decreases, with at most one side credited per tick.
    #[verifier::rlimit(60)]
    pub fn tick(&mut self, dir: PlayerInput)
        requires
            old(self).wf(),
        ensures
            final(self).wf(),
            tick_rel(*old(self), dir, *final(self)),
            final(self).cfg == old(self).cfg,
            abs_i(final(self).player_pos.y as int) <= old(self).cfg.paddle_y_bound(),
            abs_i(final(self).opponent_pos.y as int) <= old(self).cfg.paddle_y_bound(),
            final(self).score_player >= old(self).score_player,
            final(self).score_opponent >= old(self).score_opponent,
            final(self).score_player + final(self).score_opponent <= old(self).score_player
                + old(self).score_opponent + 1,
            final(self).score_player > old(self).score_player ==> final(self).score_opponent
                == old(self).score_opponent,
            final(self).score_opponent > old(self).score_opponent ==> final(self).score_player
                == old(self).score_player,
    {
        let ghost s0 = *self;
        self.handle_player_input(dir);
        self.move_ai();
        self.move_ball();
        self.move_paddles();
        self.handle_collisions();
        proof {
            lemma_constrain_bounds(s0.cfg, self.player_pos.x, self.player_pos.y);
            lemma_constrain_bounds(s0.cfg, self.opponent_pos.x, self.opponent_pos.y);
        }
        self.constrain_paddle_position();
        let goal = self.detect_goal();
        match goal {
            Some(sc) => {
                self.update_score(sc);
                self.reset_ball(sc);
            },
            None => {},
        }
    }

    /// Put the ball back at the center and serve it toward the side that
    /// just conceded the point.
    pub fn reset_ball(&mut self, scorer: Scorer)
        requires
            old(self).cfg.valid(),
        ensures
            *final(self) == (Sim {
                ball_pos: Vec2 { x: 0, y: 0 },
                ball_vel: serve_vel_spec(old(self).cfg, scorer),
                ..*old(self)
            }),
    {
        self.ball_pos = Vec2 { x: 0, y: 0 };
        match scorer {
            Scorer::Player => {
                self.ball_vel = Vec2 { x: self.cfg.serve_speed, y: 0 };
            },
            Scorer::Opponent => {
                self.ball_vel = Vec2 { x: -self.cfg.serve_speed, y: 0 };
            },
        }
    }

    /// Where the ball stands, for rendering.
    pub fn ball_position(&self) -> (r: Vec2)
        ensures
            r == self.ball_pos,
    {
        self.ball_pos
    }

    /// Where the player's paddle stands, for rendering.
    pub fn player_position(&self) -> (r: Vec2)
        ensures
            r == self.player_pos,
    {
        self.player_pos
    }

    /// Where the opponent's paddle stands, for rendering.
    pub fn opponent_position(&self) -> (r: Vec2)
        ensures
            r == self.opponent_pos,
    {
        self.opponent_pos
    }

    /// The score pair, player first, for display.
    pub fn score(&self) -> (r: (u32, u32))
        ensures
            r.0 == self.score_player,
            r.1 == self.score_opponent,
    {
        (self.score_player, self.score_opponent)
    }
}

/// A tick in which the ball touches nothing: at its integrated position it
/// overlaps neither paddle nor either gutter, and it has not left the
/// arena.  Such a tick neither reflects the ball's velocity nor serves
/// afresh.
pub open spec fn quiet_tick(s: Sim, dir: PlayerInput) -> bool {
    let cfg = s.cfg;
    let bp = advance_spec(s.ball_pos, s.ball_vel, cfg.ball_speed);
    let py1 = sat64(s.player_pos.y + input_vy_spec(cfg, dir));
    let oy1 = sat64(s.opponent_pos.y + track_vy_spec(cfg, s.ball_pos.y, s.opponent_pos.y));
    &&& collide_spec(bp, cfg.ball_half_vec(), Vec2 { x: s.player_pos.x, y: py1 }, cfg.paddle_half())
        is None
    &&& collide_spec(
        bp,
        cfg.ball_half_vec(),
        Vec2 { x: s.opponent_pos.x, y: oy1 },
        cfg.paddle_half(),
    ) is None
    &&& collide_spec(bp, cfg.ball_half_vec(), cfg.top_gutter_center(), cfg.gutter_half()) is None
    &&& collide_spec(bp, cfg.ball_half_vec(), cfg.bottom_gutter_center(), cfg.gutter_half())
        is None
    &&& goal_spec(cfg, bp) is None
}

/// Law: a tick in which the ball touches nothing leaves its velocity — and
/// so its speed — exactly as it was: integration is exact, with no damping
/// and no gain.
pub proof fn lemma_quiet_tick_preserves_velocity(s: Sim, dir: PlayerInput, t: Sim)
    requires
        tick_rel(s, dir, t),
        quiet_tick(s, dir),
    ensures
        t.ball_vel == s.ball_vel,
{
}

/// Law: the ball's velocity is invariant across any number of consecutive
/// ticks in which it touches nothing.  `states` is the run of states and
/// `dirs` the inputs, each tick relating one state to the next.
pub proof fn lemma_quiet_ticks_preserve_velocity(states: Seq<Sim>, dirs: Seq<PlayerInput>)
    requires
        states.len() == dirs.len() + 1,
        forall|i: int|
            0 <= i < dirs.len() ==> tick_rel(states[i], #[trigger] dirs[i], states[i + 1]),
        forall|i: int| 0 <= i < dirs.len() ==> quiet_tick(states[i], #[trigger] dirs[i]),
    ensures
        states[states.len() - 1].ball_vel == states[0].ball_vel,
    decreases dirs.len(),
{
    if dirs.len() > 0 {
        lemma_quiet_tick_preserves_velocity(states[0], dirs[0], states[1]);
        let states2 = states.subrange(1, states.len() as int);
        let dirs2 = dirs.subrange(1, dirs.len() as int);
        assert forall|i: int| 0 <= i < dirs2.len() implies tick_rel(
            states2[i],
            #[trigger] dirs2[i],
            states2[i + 1],
        ) && quiet_tick(states2[i], dirs2[i]) by {
            assert(states2[i] == states[i + 1]);
            assert(dirs2[i] == dirs[i + 1]);
            assert(states2[i + 1] == states[i + 2]);
        }
        lemma_quiet_ticks_preserve_velocity(states2, dirs2);
        assert(states2[states2.len() - 1] == states[states.len() - 1]);
        assert(states2[0] == states[1]);
    }
}

/// Law: the bounds test keeps every paddle inside the arena's legal
/// vertical range.  A paddle that starts a tick inside the range and moves
/// at most one tick of paddle speed ends the bounds test with its center
/// within `paddle_y_bound` of the arena's middle.
pub proof fn lemma_constrain_bounds(cfg: Config, px: i64, py: i64)
    requires
        cfg.valid(),
        -cfg.arena_half_width <= px <= cfg.arena_half_width,
        abs_i(py as int) <= cfg.paddle_y_bound() + cfg.paddle_speed,
    ensures
        abs_i(constrain_spec(cfg, px, py) as int) <= cfg.paddle_y_bound(),
{
    let b = cfg.paddle_y_bound();
    let h = cfg.arena_half_height as int;
    let gh = cfg.gutter_half_y as int;
    let ph = cfg.paddle_half_y as int;
    let gt = sat64(cfg.top_gutter_y());
    let gb = sat64(cfg.bottom_gutter_y());
    assert(gt == h - gh);
    assert(gb == -h + gh);
    // Against the top gutter the paddle's center always lies below the
    // gutter's center, so any verdict is `Bottom` and seats the paddle at
    // the upper end of the legal range.
    let y1 = constrain_against_spec(cfg, px, py, gt);
    assert(py < h - 2 * gh);
    assert(crate::geometry::offset_x(Vec2 { x: px, y: py }, Vec2 { x: 0, y: gt }, cfg.gutter_half())
        == 0);
    assert(y1 == if py >= b {
        sat64(gt - gh - ph)
    } else {
        py as i64
    });
    assert(sat64(gt - gh - ph) == b);
    assert(-(b + cfg.paddle_speed) <= y1 <= b);
    // Against the bottom gutter the center always lies above the gutter's
    // center, so any verdict is `Top` and seats the paddle at the lower end
    // of the legal range.
    let y2 = constrain_against_spec(cfg, px, y1, gb);
    assert(y1 > -h + 2 * gh);
    assert(crate::geometry::offset_x(Vec2 { x: px, y: y1 }, Vec2 { x: 0, y: gb }, cfg.gutter_half())
        == 0);
    assert(y2 == if y1 <= -b {
        sat64(gb + gh + ph)
    } else {
        y1
    });
    assert(sat64(gb + gh + ph) == -b);
    assert(-b <= y2 <= b);
}

/// Exec counterpart of [`constrain_against_spec`]: one bounds test of a
/// paddle against one gutter.
pub fn constrain_against(cfg: &Config, px: i64, py: i64, gutter_y: i64) -> (r: i64)
    requires
        cfg.valid(),
        -crate::config::EXTENT_LIMIT <= gutter_y <= crate::config::EXTENT_LIMIT,
    ensures
        r == constrain_against_spec(*cfg, px, py, gutter_y),
{
    let ph = Vec2 { x: cfg.paddle_half_x, y: cfg.paddle_half_y };
    let gh = Vec2 { x: cfg.arena_half_width, y: cfg.gutter_half_y };
    match collide_with_side(Vec2 { x: px, y: py }, ph, Vec2 { x: 0, y: gutter_y }, gh) {
        Some(Side::Top) => gutter_y + cfg.gutter_half_y + cfg.paddle_half_y,
        Some(Side::Bottom) => gutter_y - cfg.gutter_half_y - cfg.paddle_half_y,
        _ => py,
    }
}

} // verus!
