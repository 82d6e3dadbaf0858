//! The brick-breaking game: a paddle at the bottom of the screen, a ball that
//! bounces off walls, paddle and bricks, and a wall of bricks to clear.
//!
//! Speeds are in pixels per second, lengths in length units.

use vstd::prelude::*;
use crate::units::UNIT;

pub mod paddle;
pub mod ball;
pub mod bricks;
pub mod game;




verus! {

pub const PADDLE_WIDTH: i64 = 120 * UNIT;

pub const PADDLE_HEIGHT: i64 = 20 * UNIT;

/// Distance from the paddle's top edge to the bottom of the screen.
pub const PADDLE_LIFT: i64 = 40 * UNIT;

pub const PADDLE_SPEED: i64 = 500;

/// Side of the ball's bounding square.
pub const BALL_SIZE: i64 = 16 * UNIT;

pub const BALL_SPEED: i64 = 400;

/// Distance from the ball's starting position to the bottom of the screen.
pub const BALL_LIFT: i64 = 100 * UNIT;

/// Horizontal speed, in pixels per second, that the paddle gives the ball
/// for each pixel between their centers.
pub const STEER_GAIN: i64 = 6;

pub const BRICK_ROWS: usize = 6;

pub const BRICK_COLS: usize = 10;

pub const BRICK_WIDTH: i64 = 60 * UNIT;

pub const BRICK_HEIGHT: i64 = 30 * UNIT;

pub const BRICK_PADDING: i64 = 8 * UNIT;

pub const BRICK_OFFSET_TOP: i64 = 60 * UNIT;

pub const BRICK_OFFSET_LEFT: i64 = 32 * UNIT;

} // verus!
