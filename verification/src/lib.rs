//! Rules of two small arcade games, stated and proved over integers.
//!
//! Lengths are measured in millionths of a pixel and time in microseconds, so
//! a speed in pixels per second is also a number of length units per
//! microsecond and a frame's displacement is an exact product. Values that
//! leave the range of `i64` stick at its ends, which keeps every rule total.
//!
//! * [`units`]: the fixed-point scale and the saturating helpers.
//! * [`geometry`]: points, rectangles, the screen and headings.
//! * [`breakout`]: paddle, ball, brick wall and the frame update of the
//!   brick-breaking game.
//! * [`tank`]: tanks, bullets and the frame update of the two-player duel.
//!
//! Reading keys, measuring frame time, evaluating sines and drawing are left
//! to the caller, who hands the rules plain values once per frame.

pub mod units;
pub mod geometry;
pub mod breakout;
pub mod tank;
