//! Simulation core of a two-paddle ball game.
//!
//! The library advances the physical state of a small fixed arena one tick at
//! a time: it integrates the motion of a ball and two paddles, detects and
//! resolves axis-aligned collisions between the ball and the paddles or the
//! two gutters that bound the arena, keeps the paddles inside the arena,
//! detects when the ball leaves the field on the left or the right, and
//! drives the score and the ball reset that follow.
//!
//! All coordinates are integers on the arena's grid, with the origin at the
//! center of the play field.  The host that renders the arena and polls the
//! keyboard lives outside this crate; it feeds a [`sim::PlayerInput`] into
//! [`sim::Sim::tick`] once per fixed step and reads the positions and the
//! score back out.

pub mod config;
pub mod geometry;
pub mod sim;
