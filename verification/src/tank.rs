//! The two-player tank duel: tanks that turn, drive and fire, bullets that
//! fly until they leave the screen, and hits that send a tank back to where
//! it started.
//!
//! Tanks and bullets move by a fixed number of pixels per frame; only the
//! cooldown between shots counts time.

use vstd::prelude::*;
use crate::units::UNIT;

pub mod controls;
pub mod bullet;
pub mod vehicle;
pub mod arena;



verus! {

pub const TANK_WIDTH: i64 = 40 * UNIT;

pub const TANK_HEIGHT: i64 = 60 * UNIT;

pub const BULLET_WIDTH: i64 = 8 * UNIT;

pub const BULLET_HEIGHT: i64 = 16 * UNIT;

/// Pixels a bullet flies per frame.
pub const BULLET_SPEED: u64 = 8;

/// Pixels a tank drives per frame.
pub const TANK_SPEED: i64 = 3;

/// Degrees a tank turns per frame.
pub const ROT_SPEED: i32 = 3;

/// Microseconds a tank waits after a shot before it can fire again.
pub const FIRE_COOLDOWN: u64 = 500_000;

/// Pixels from a tank's center to where its bullets appear: half the tank's
/// length plus half a bullet's.
pub const MUZZLE_OFFSET: u64 = 38;

/// Pixels from a tank's center to the tip of its barrel.
pub const BARREL_LENGTH: u64 = 40;

/// A bullet hits a tank when their centers are closer than this: half the
/// tank's width plus half the bullet's.
pub const HIT_RADIUS: i64 = 24 * UNIT;

} // verus!
