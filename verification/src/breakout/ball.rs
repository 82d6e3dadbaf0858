//! The ball: free flight, and reflection off the walls and the paddle.

use vstd::prelude::*;
use crate::units::{displace, displaced, quotient_toward_zero, reflect, reflected, UNIT};
use crate::geometry::{Rect, Screen, Vec2};
use crate::breakout::{BALL_LIFT, BALL_SIZE, BALL_SPEED, PADDLE_WIDTH, STEER_GAIN};
use crate::breakout::paddle::Paddle;

verus! {

/// The ball: the top-left corner of its bounding square, and its velocity in
/// pixels per second.
#[derive(Clone, Copy, Debug, PartialEq, Eq, Structural)]
pub struct Ball {
    pub pos: Vec2,
    pub vel: Vec2,
}

impl Ball {
    /// The ball's bounding box.
    pub open spec fn rect(self) -> Rect {
        Rect { x: self.pos.x, y: self.pos.y, w: BALL_SIZE, h: BALL_SIZE }
    }

    /// The ball as a game starts: above the middle of the bottom edge,
    /// heading up and to the right.
    pub open spec fn start(screen: Screen) -> Ball {
        Ball {
            pos: Vec2 { x: (screen.right() / 2) as i64, y: (screen.bottom() - BALL_LIFT) as i64 },
            vel: Vec2 { x: BALL_SPEED, y: (-BALL_SPEED) as i64 },
        }
    }

    /// The ball after `dt` microseconds of free flight.
    pub open spec fn advanced(self, dt: u64) -> Ball {
        Ball {
            pos: Vec2 {
                x: displaced(self.pos.x as int, self.vel.x as int, dt as int) as i64,
                y: displaced(self.pos.y as int, self.vel.y as int, dt as int) as i64,
            },
            vel: self.vel,
        }
    }

    /// The ball touches or has passed the left or the right wall.
    pub open spec fn at_side_wall(self, screen: Screen) -> bool {
        self.pos.x <= 0 || self.pos.x + BALL_SIZE >= screen.right()
    }

    /// The ball touches or has passed the top of the screen.
    pub open spec fn at_ceiling(self) -> bool {
        self.pos.y <= 0
    }

    /// The ball lies strictly between the side walls.
    pub open spec fn between_walls(self, screen: Screen) -> bool {
        0 < self.pos.x && self.pos.x + BALL_SIZE < screen.right()
    }

    /// The ball after the walls had their say: at a side wall the horizontal
    /// velocity changes sign, at the ceiling the vertical one does.
    pub open spec fn bounced_off_walls(self, screen: Screen) -> Ball {
        Ball {
            pos: self.pos,
            vel: Vec2 {
                x: if self.at_side_wall(screen) {
                    reflected(self.vel.x as int) as i64
                } else {
                    self.vel.x
                },
                y: if self.at_ceiling() {
                    reflected(self.vel.y as int) as i64
                } else {
                    self.vel.y
                },
            },
        }
    }

    /// The ball is coming down onto the paddle: their boxes overlap and the
    /// ball moves downward.
    pub open spec fn strikes_paddle(self, paddle: Paddle, screen: Screen) -> bool {
        paddle.rect(screen).touches(self.rect()) && self.vel.y > 0
    }

    /// Signed distance from the paddle's center to the ball's center.
    pub open spec fn paddle_offset(self, paddle: Paddle) -> int {
        (self.pos.x + BALL_SIZE / 2) - (paddle.x + PADDLE_WIDTH / 2)
    }

    /// The horizontal velocity that a paddle hit at the given offset gives
    /// the ball: `STEER_GAIN` pixels per second for each pixel of offset,
    /// rounded toward zero.
    pub open spec fn steered(offset: int) -> int {
        quotient_toward_zero(offset * STEER_GAIN, UNIT as int)
    }

    /// The ball after the paddle had its say: a striking ball is sent back
    /// up, steered by where it hit; any other ball is left alone.
    pub open spec fn bounced_off_paddle(self, paddle: Paddle, screen: Screen) -> Ball {
        if self.strikes_paddle(paddle, screen) {
            Ball {
                pos: self.pos,
                vel: Vec2 {
                    x: Ball::steered(self.paddle_offset(paddle)) as i64,
                    y: reflected(self.vel.y as int) as i64,
                },
            }
        } else {
            self
        }
    }

    /// The ball sent back vertically by a brick.
    pub open spec fn bounced_off_brick(self) -> Ball {
        Ball {
            pos: self.pos,
            vel: Vec2 { x: self.vel.x, y: reflected(self.vel.y as int) as i64 },
        }
    }

    /// The ball has fallen below the bottom of the screen.
    pub open spec fn lost(self, screen: Screen) -> bool {
        self.pos.y > screen.bottom()
    }

    /// A ball in its starting position.
    pub fn launch(screen: Screen) -> (b: Ball)
        ensures
            b == Ball::start(screen),
            b.pos.x == screen.right() / 2,
            b.pos.y == screen.bottom() - BALL_LIFT,
            b.vel.x == BALL_SPEED,
            b.vel.y == -BALL_SPEED,
    {
        Ball {
            pos: Vec2 { x: screen.right_edge() / 2, y: screen.bottom_edge() - BALL_LIFT },
            vel: Vec2 { x: BALL_SPEED, y: -BALL_SPEED },
        }
    }

    /// The ball's bounding box.
    pub fn bounds(&self) -> (r: Rect)
        ensures
            r == self.rect(),
    {
        Rect { x: self.pos.x, y: self.pos.y, w: BALL_SIZE, h: BALL_SIZE }
    }

    /// Moves the ball along its velocity for `dt` microseconds.
    pub fn advance(&mut self, dt: u64)
        ensures
            *final(self) == old(self).advanced(dt),
            final(self).pos.x == displaced(old(self).pos.x as int, old(self).vel.x as int, dt as int),
            final(self).pos.y == displaced(old(self).pos.y as int, old(self).vel.y as int, dt as int),
    {
        self.pos.x = displace(self.pos.x, self.vel.x, dt);
        self.pos.y = displace(self.pos.y, self.vel.y, dt);
    }

    /// Reflects the ball off the side walls and the ceiling. Returns whether
    /// the horizontal velocity was flipped.
    pub fn bounce_off_walls(&mut self, screen: Screen) -> (flipped: bool)
        ensures
            *final(self) == old(self).bounced_off_walls(screen),
            flipped == old(self).at_side_wall(screen),
            flipped ==> final(self).vel.x == reflected(old(self).vel.x as int),
            !flipped ==> final(self).vel.x == old(self).vel.x,
            old(self).at_ceiling() ==> final(self).vel.y == reflected(old(self).vel.y as int),
            !old(self).at_ceiling() ==> final(self).vel.y == old(self).vel.y,
    {
        let at_side: bool = self.pos.x <= 0 || self.pos.x as i128 + BALL_SIZE as i128
            >= screen.right_edge() as i128;
        if at_side {
            self.vel.x = reflect(self.vel.x);
        }
        if self.pos.y <= 0 {
            self.vel.y = reflect(self.vel.y);
        }
        at_side
    }

    /// Reflects the ball off the paddle if it strikes it. Returns whether it
    /// did. After a hit the ball moves upward, and no faster sideways than
    /// the widest possible offset allows.
    pub fn bounce_off_paddle(&mut self, paddle: &Paddle, screen: Screen) -> (hit: bool)
        ensures
            *final(self) == old(self).bounced_off_paddle(*paddle, screen),
            hit == old(self).strikes_paddle(*paddle, screen),
            hit ==> final(self).vel.y < 0,
            hit ==> final(self).vel.x == Ball::steered(old(self).paddle_offset(*paddle)),
            hit ==> -408 <= final(self).vel.x <= 408,
    {
        let paddle_box: Rect = paddle.bounds(screen);
        let ball_box: Rect = self.bounds();
        if paddle_box.overlaps(&ball_box) && self.vel.y > 0 {
            let offset: i128 = (self.pos.x as i128 + (BALL_SIZE / 2) as i128) - (paddle.x as i128
                + (PADDLE_WIDTH / 2) as i128);
            let scaled: i128 = offset * STEER_GAIN as i128;
            self.vel.y = reflect(self.vel.y);
            self.vel.x = (scaled / UNIT as i128) as i64;
            true
        } else {
            false
        }
    }

    /// Reflects the ball vertically off a brick it has knocked out.
    pub fn bounce_off_brick(&mut self)
        ensures
            *final(self) == old(self).bounced_off_brick(),
            final(self).pos == old(self).pos,
            final(self).vel.x == old(self).vel.x,
            final(self).vel.y == reflected(old(self).vel.y as int),
    {
        self.vel.y = reflect(self.vel.y);
    }

    /// Whether the ball has fallen below the bottom of the screen.
    pub fn is_lost(&self, screen: Screen) -> (r: bool)
        ensures
            r == self.lost(screen),
    {
        self.pos.y > screen.bottom_edge()
    }
}

} // verus!
