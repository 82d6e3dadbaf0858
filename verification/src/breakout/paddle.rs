//! The paddle: it slides along the bottom of the screen and never leaves it.

use vstd::prelude::*;
use crate::units::{clamp, clamped};
use crate::geometry::{Rect, Screen};
use crate::breakout::{PADDLE_HEIGHT, PADDLE_LIFT, PADDLE_SPEED, PADDLE_WIDTH};

verus! {

/// The paddle, by the x coordinate of its left edge.
#[derive(Clone, Copy, Debug, PartialEq, Eq, Structural)]
pub struct Paddle {
    pub x: i64,
}

impl Paddle {
    /// The paddle lies wholly on the screen.
    pub open spec fn on_screen(self, screen: Screen) -> bool {
        0 <= self.x <= screen.right() - PADDLE_WIDTH
    }

    /// Where the held keys would carry the left edge in `dt` microseconds if
    /// the screen had no end: `left` subtracts the distance, `right` adds it.
    pub open spec fn pushed(self, left: bool, right: bool, dt: u64) -> int {
        self.x - (if left { PADDLE_SPEED * dt } else { 0 }) + (if right {
            PADDLE_SPEED * dt
        } else {
            0
        })
    }

    /// The paddle after one frame: pushed, then clamped onto the screen.
    pub open spec fn moved(self, left: bool, right: bool, screen: Screen, dt: u64) -> Paddle {
        Paddle {
            x: clamped(self.pushed(left, right, dt), 0, screen.right() - PADDLE_WIDTH) as i64,
        }
    }

    /// The paddle's bounding box.
    pub open spec fn rect(self, screen: Screen) -> Rect {
        Rect {
            x: self.x,
            y: (screen.bottom() - PADDLE_LIFT) as i64,
            w: PADDLE_WIDTH,
            h: PADDLE_HEIGHT,
        }
    }

    /// The starting paddle, centered on the screen.
    pub open spec fn start(screen: Screen) -> Paddle {
        Paddle { x: (screen.right() / 2 - PADDLE_WIDTH / 2) as i64 }
    }

    /// A paddle centered on the screen.
    pub fn centered(screen: Screen) -> (p: Paddle)
        ensures
            p == Paddle::start(screen),
            p.x == screen.right() / 2 - PADDLE_WIDTH / 2,
    {
        Paddle { x: screen.right_edge() / 2 - PADDLE_WIDTH / 2 }
    }

    /// Moves the paddle for one frame of `dt` microseconds and clamps it to
    /// the screen. It never ends left of the screen, and ends wholly on it
    /// whenever the screen is at least as wide as the paddle.
    pub fn update(&mut self, left: bool, right: bool, screen: Screen, dt: u64)
        ensures
            *final(self) == old(self).moved(left, right, screen, dt),
            final(self).x == clamped(
                old(self).pushed(left, right, dt),
                0,
                screen.right() - PADDLE_WIDTH,
            ),
            final(self).x >= 0,
            screen.right() >= PADDLE_WIDTH ==> final(self).on_screen(screen),
    {
        assert(0 <= PADDLE_SPEED * dt <= 500 * 0xffff_ffff_ffff_ffff) by (nonlinear_arith)
            requires
                PADDLE_SPEED == 500,
                0 <= dt <= 0xffff_ffff_ffff_ffff,
        ;
        let travel: i128 = PADDLE_SPEED as i128 * dt as i128;
        let mut target: i128 = self.x as i128;
        if left {
            target = target - travel;
        }
        if right {
            target = target + travel;
        }
        self.x = clamp(target, 0, screen.right_edge() - PADDLE_WIDTH);
    }

    /// The paddle's bounding box on the given screen.
    pub fn bounds(&self, screen: Screen) -> (r: Rect)
        ensures
            r == self.rect(screen),
    {
        Rect {
            x: self.x,
            y: screen.bottom_edge() - PADDLE_LIFT,
            w: PADDLE_WIDTH,
            h: PADDLE_HEIGHT,
        }
    }
}

} // verus!
