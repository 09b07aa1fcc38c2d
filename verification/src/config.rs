//! The arena's fixed geometry and speeds.
//!
//! Every extent and speed is supplied once at setup and never re-derived.
//! A configuration must pass [`Config::is_valid`] before a simulation is
//! built from it: running with malformed geometry (a zero extent, a paddle
//! that cannot fit between the gutters, a paddle fast enough to leap past
//! the clamp that keeps it inside the arena) would produce undefined
//! collision results, so the host fails fast instead.

use vstd::prelude::*;
use crate::geometry::Vec2;
use crate::geometry::sat64;

verus! {

/// Upper bound on every extent and speed of a configuration, so that all
/// the arithmetic of a tick stays far inside the `i64` range.
pub const EXTENT_LIMIT: i64 = 1_000_000;

/// The arena: a rectangular play field centered at the origin, bounded
/// above and below by two gutters that span its full width, and open at the
/// left and the right edges where the ball can leave and score.
#[derive(Clone, Copy, Debug, PartialEq, Eq, Structural)]
pub struct Config {
    /// Half the width of the play field.
    pub arena_half_width: i64,
    /// Half the height of the play field.
    pub arena_half_height: i64,
    /// Half-extent of the ball's bounding box on each axis.
    pub ball_half: i64,
    /// Half the width of each paddle.
    pub paddle_half_x: i64,
    /// Half the height of each paddle.
    pub paddle_half_y: i64,
    /// Half the thickness of each gutter.  The gutters lie flush with the
    /// top and the bottom edge of the arena.
    pub gutter_half_y: i64,
    /// Distance from a side edge of the arena to the center of the paddle
    /// guarding that side.
    pub paddle_inset: i64,
    /// Vertical distance a paddle covers per tick while it moves.
    pub paddle_speed: i64,
    /// Scale applied to the ball's velocity each tick of integration.
    pub ball_speed: i64,
    /// Magnitude of each ball velocity component at spawn and at a serve.
    /// The ball's velocity components never exceed it afterwards.
    pub serve_speed: i64,
}

impl Config {
    /// A well-formed configuration: every extent and speed is positive and
    /// within [`EXTENT_LIMIT`]; the paddles fit between the gutters; the
    /// paddles sit inside the arena; and one tick of paddle motion is
    /// smaller than a paddle's half-height, so a paddle can never leap deep
    /// enough into a gutter to defeat the clamp that holds it inside.
    pub open spec fn valid(self) -> bool {
        &&& 1 <= self.arena_half_width <= EXTENT_LIMIT
        &&& 1 <= self.arena_half_height <= EXTENT_LIMIT
        &&& 1 <= self.ball_half <= EXTENT_LIMIT
        &&& 1 <= self.paddle_half_x <= EXTENT_LIMIT
        &&& 1 <= self.paddle_half_y <= EXTENT_LIMIT
        &&& 1 <= self.gutter_half_y <= EXTENT_LIMIT
        &&& 1 <= self.paddle_inset <= EXTENT_LIMIT
        &&& 1 <= self.paddle_speed <= EXTENT_LIMIT
        &&& 1 <= self.ball_speed <= EXTENT_LIMIT
        &&& 1 <= self.serve_speed <= EXTENT_LIMIT
        &&& self.arena_half_height >= 2 * self.gutter_half_y + self.paddle_half_y
        &&& self.paddle_speed < self.paddle_half_y
        &&& self.paddle_inset <= self.arena_half_width
    }

    /// Whether this configuration is well formed.  The host checks this
    /// once at setup and refuses to build a simulation otherwise.
    pub fn is_valid(&self) -> (r: bool)
        ensures
            r == self.valid(),
    {
        1 <= self.arena_half_width && self.arena_half_width <= EXTENT_LIMIT
            && 1 <= self.arena_half_height && self.arena_half_height <= EXTENT_LIMIT
            && 1 <= self.ball_half && self.ball_half <= EXTENT_LIMIT
            && 1 <= self.paddle_half_x && self.paddle_half_x <= EXTENT_LIMIT
            && 1 <= self.paddle_half_y && self.paddle_half_y <= EXTENT_LIMIT
            && 1 <= self.gutter_half_y && self.gutter_half_y <= EXTENT_LIMIT
            && 1 <= self.paddle_inset && self.paddle_inset <= EXTENT_LIMIT
            && 1 <= self.paddle_speed && self.paddle_speed <= EXTENT_LIMIT
            && 1 <= self.ball_speed && self.ball_speed <= EXTENT_LIMIT
            && 1 <= self.serve_speed && self.serve_speed <= EXTENT_LIMIT
            && self.arena_half_height >= 2 * self.gutter_half_y + self.paddle_half_y
            && self.paddle_speed < self.paddle_half_y
            && self.paddle_inset <= self.arena_half_width
    }

    /// Center height of the top gutter, flush with the arena's top edge.
    pub open spec fn top_gutter_y(self) -> int {
        self.arena_half_height - self.gutter_half_y
    }

    /// Center height of the bottom gutter, flush with the arena's bottom
    /// edge.
    pub open spec fn bottom_gutter_y(self) -> int {
        -self.arena_half_height + self.gutter_half_y
    }

    /// Center of the top gutter.
    pub open spec fn top_gutter_center(self) -> Vec2 {
        Vec2 { x: 0, y: sat64(self.top_gutter_y()) }
    }

    /// Center of the bottom gutter.
    pub open spec fn bottom_gutter_center(self) -> Vec2 {
        Vec2 { x: 0, y: sat64(self.bottom_gutter_y()) }
    }

    /// Half-extent of a gutter: each gutter spans the arena's full width.
    pub open spec fn gutter_half(self) -> Vec2 {
        Vec2 { x: self.arena_half_width, y: self.gutter_half_y }
    }

    /// Half-extent of a paddle.
    pub open spec fn paddle_half(self) -> Vec2 {
        Vec2 { x: self.paddle_half_x, y: self.paddle_half_y }
    }

    /// Half-extent of the ball's bounding box.
    pub open spec fn ball_half_vec(self) -> Vec2 {
        Vec2 { x: self.ball_half, y: self.ball_half }
    }

    /// Fixed horizontal position of the player's paddle, guarding the left
    /// edge.
    pub open spec fn player_x(self) -> int {
        -self.arena_half_width + self.paddle_inset
    }

    /// Fixed horizontal position of the opponent's paddle, guarding the
    /// right edge.
    pub open spec fn opponent_x(self) -> int {
        self.arena_half_width - self.paddle_inset
    }

    /// Largest height a paddle's center may legally reach: at this height
    /// the paddle touches a gutter.  The legal vertical range of a paddle
    /// is the symmetric interval bounded by this value.
    pub open spec fn paddle_y_bound(self) -> int {
        self.arena_half_height - 2 * self.gutter_half_y - self.paddle_half_y
    }
}

} // verus!
