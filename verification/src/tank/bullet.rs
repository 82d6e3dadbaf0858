//! Bullets: they fly straight and vanish once they leave the screen.

use vstd::prelude::*;
use crate::units::{saturate, saturated};
use crate::geometry::{Heading, Rect, Screen, Vec2};
use crate::tank::{BULLET_HEIGHT, BULLET_SPEED, BULLET_WIDTH};

verus! {

/// A bullet: its center, the rotation and heading it was fired at, and the
/// index of the tank that fired it.
#[derive(Clone, Copy, Debug, PartialEq, Eq, Structural)]
pub struct Bullet {
    pub pos: Vec2,
    pub rot: i32,
    pub heading: Heading,
    pub owner: usize,
}

impl Bullet {
    /// The bullet one frame later: `BULLET_SPEED` pixels further along its
    /// heading.
    pub open spec fn moved(self) -> Bullet {
        Bullet { pos: self.heading.carried(self.pos, BULLET_SPEED as int), ..self }
    }

    /// The bullet's center lies outside the screen. The edges themselves are
    /// still on it.
    pub open spec fn offscreen(self, screen: Screen) -> bool {
        self.pos.x < 0 || self.pos.x > screen.right() || self.pos.y < 0 || self.pos.y
            > screen.bottom()
    }

    /// The box of the bullet before it is turned about its corner: centered
    /// on the bullet, each corner coordinate saturated.
    pub open spec fn rect(self) -> Rect {
        Rect {
            x: saturated(self.pos.x - BULLET_WIDTH / 2) as i64,
            y: saturated(self.pos.y - BULLET_HEIGHT / 2) as i64,
            w: BULLET_WIDTH,
            h: BULLET_HEIGHT,
        }
    }

    /// Advances the bullet by one frame.
    pub fn update(&mut self)
        ensures
            *final(self) == old(self).moved(),
            final(self).pos == old(self).heading.carried(old(self).pos, BULLET_SPEED as int),
    {
        self.pos = self.heading.carry(self.pos, BULLET_SPEED);
    }

    /// Whether the bullet has left the screen.
    pub fn is_offscreen(&self, screen: Screen) -> (r: bool)
        ensures
            r == self.offscreen(screen),
    {
        self.pos.x < 0 || self.pos.x > screen.right_edge() || self.pos.y < 0 || self.pos.y
            > screen.bottom_edge()
    }

    /// The bullet's box; see [`Bullet::rect`].
    pub fn body(&self) -> (r: Rect)
        ensures
            r == self.rect(),
    {
        Rect {
            x: saturate(self.pos.x as i128 - (BULLET_WIDTH / 2) as i128),
            y: saturate(self.pos.y as i128 - (BULLET_HEIGHT / 2) as i128),
            w: BULLET_WIDTH,
            h: BULLET_HEIGHT,
        }
    }
}

} // verus!
