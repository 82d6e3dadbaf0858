//! A tank: turning, driving, cooling down, firing, and being hit.

use vstd::prelude::*;
use crate::units::{clamp, clamped, saturate, saturated, UNIT};
use crate::geometry::{Heading, Rect, Screen, Vec2};
use crate::tank::{
    BARREL_LENGTH, FIRE_COOLDOWN, HIT_RADIUS, MUZZLE_OFFSET, ROT_SPEED, TANK_HEIGHT, TANK_SPEED,
    TANK_WIDTH,
};
use crate::tank::bullet::Bullet;
use crate::tank::controls::{Controls, TankInput};

verus! {

/// The paint of a tank.
#[derive(Clone, Copy, Debug, PartialEq, Eq, Structural)]
pub enum Color {
    Green,
    Red,
}

/// A tank: its center, its rotation in degrees clockwise from "up", its
/// paint, its driver's keys, and the microseconds left until it may fire
/// again. The rotation is counted on and on: a full turn to the right adds
/// 360, one to the left takes 360 away.
#[derive(Clone, Copy, Debug, PartialEq, Eq, Structural)]
pub struct Tank {
    pub pos: Vec2,
    pub rot: i32,
    pub color: Color,
    pub controls: Controls,
    pub cooldown: u64,
}

/// Where the tank of the given index starts, and returns to when hit: the
/// first tank on the left, every other on the right.
pub open spec fn spawn_point(index: int) -> Vec2 {
    if index == 0 {
        Vec2 { x: (150 * UNIT) as i64, y: (450 * UNIT) as i64 }
    } else {
        Vec2 { x: (570 * UNIT) as i64, y: (450 * UNIT) as i64 }
    }
}

/// The square of the distance between two points.
pub open spec fn distance_squared(a: Vec2, b: Vec2) -> int {
    (a.x - b.x) * (a.x - b.x) + (a.y - b.y) * (a.y - b.y)
}

impl Tank {
    /// Degrees turned in a frame: `ROT_SPEED` to the left for `left`, as
    /// many to the right for `right`; both keys together cancel.
    pub open spec fn turn(left: bool, right: bool) -> int {
        (if right { ROT_SPEED as int } else { 0 }) - (if left { ROT_SPEED as int } else { 0 })
    }

    /// The rotation after one frame's turn: the old one plus the degrees
    /// turned. It is not wrapped at a full turn; only at the ends of `i32`
    /// does it stop.
    pub open spec fn turned_by(rot: i32, left: bool, right: bool) -> int {
        clamped(rot + Tank::turn(left, right), i32::MIN as int, i32::MAX as int)
    }

    /// The tank's center keeps half the tank's size clear of each edge of
    /// the screen.
    pub open spec fn within_margins(self, screen: Screen) -> bool {
        &&& TANK_WIDTH / 2 <= self.pos.x <= screen.right() - TANK_WIDTH / 2
        &&& TANK_HEIGHT / 2 <= self.pos.y <= screen.bottom() - TANK_HEIGHT / 2
    }

    /// Pixels driven forward in a frame: `TANK_SPEED` for `up`, as many back
    /// for `down`.
    pub open spec fn drive(up: bool, down: bool) -> int {
        (if up { TANK_SPEED as int } else { 0 }) - (if down { TANK_SPEED as int } else { 0 })
    }

    /// The center after one frame's drive along `heading`, clamped so that
    /// half the tank's size stays clear of each edge of the screen.
    pub open spec fn driven(self, input: TankInput, screen: Screen) -> Vec2 {
        Vec2 {
            x: clamped(
                self.pos.x + input.heading.dx * Tank::drive(input.up, input.down),
                TANK_WIDTH / 2,
                screen.right() - TANK_WIDTH / 2,
            ) as i64,
            y: clamped(
                self.pos.y + input.heading.dy * Tank::drive(input.up, input.down),
                TANK_HEIGHT / 2,
                screen.bottom() - TANK_HEIGHT / 2,
            ) as i64,
        }
    }

    /// The cooldown after `dt` microseconds: it runs down to zero and stays
    /// there.
    pub open spec fn cooled(cooldown: u64, dt: u64) -> u64 {
        if cooldown > dt {
            (cooldown - dt) as u64
        } else {
            0
        }
    }

    /// The tank after one frame of `dt` microseconds: turned, driven,
    /// clamped to the screen and cooled down.
    pub open spec fn updated(self, input: TankInput, screen: Screen, dt: u64) -> Tank {
        Tank {
            pos: self.driven(input, screen),
            rot: Tank::turned_by(self.rot, input.left, input.right) as i32,
            cooldown: Tank::cooled(self.cooldown, dt),
            ..self
        }
    }

    /// The tank fires: the fire key went down and the cooldown has run out.
    pub open spec fn fires(self, input: TankInput) -> bool {
        input.fire && self.cooldown == 0
    }

    /// The bullet that the tank fires along `heading`: it appears
    /// `MUZZLE_OFFSET` pixels ahead of the tank's center and carries the
    /// tank's rotation and index.
    pub open spec fn shot(self, heading: Heading, owner: usize) -> Bullet {
        Bullet {
            pos: heading.carried(self.pos, MUZZLE_OFFSET as int),
            rot: self.rot,
            heading,
            owner,
        }
    }

    /// The tank after the fire key had its say: a tank that fires must wait
    /// `FIRE_COOLDOWN` again.
    pub open spec fn after_fire(self, input: TankInput) -> Tank {
        if self.fires(input) {
            Tank { cooldown: FIRE_COOLDOWN, ..self }
        } else {
            self
        }
    }

    /// The bullet hits this tank, which has the given index: another tank
    /// fired it, and its center is closer to the tank's than `HIT_RADIUS`.
    pub open spec fn hit_by(self, index: int, bullet: Bullet) -> bool {
        bullet.owner != index && distance_squared(self.pos, bullet.pos) < HIT_RADIUS * HIT_RADIUS
    }

    /// The tank back where the tank of the given index starts.
    pub open spec fn respawned(self, index: int) -> Tank {
        Tank { pos: spawn_point(index), ..self }
    }

    /// The tank of the given index as a duel begins: at its spawn point and
    /// ready to fire, the first one green, facing up and driven with W, A, S
    /// and D, every other red, facing down and driven with the arrow keys.
    pub open spec fn start(index: int) -> Tank {
        Tank {
            pos: spawn_point(index),
            rot: if index == 0 { 0 } else { 180 },
            color: if index == 0 { Color::Green } else { Color::Red },
            controls: if index == 0 { Controls::wasd() } else { Controls::arrows() },
            cooldown: 0,
        }
    }

    /// The box of the tank before it is turned about its corner: centered on
    /// the tank, each corner coordinate saturated.
    pub open spec fn rect(self) -> Rect {
        Rect {
            x: saturated(self.pos.x - TANK_WIDTH / 2) as i64,
            y: saturated(self.pos.y - TANK_HEIGHT / 2) as i64,
            w: TANK_WIDTH,
            h: TANK_HEIGHT,
        }
    }

    /// The tank of the given index as a duel begins; see [`Tank::start`].
    pub fn new(index: usize) -> (tank: Tank)
        ensures
            tank == Tank::start(index as int),
    {
        if index == 0 {
            Tank {
                pos: Vec2 { x: 150 * UNIT, y: 450 * UNIT },
                rot: 0,
                color: Color::Green,
                controls: Controls::first_player(),
                cooldown: 0,
            }
        } else {
            Tank {
                pos: Vec2 { x: 570 * UNIT, y: 450 * UNIT },
                rot: 180,
                color: Color::Red,
                controls: Controls::second_player(),
                cooldown: 0,
            }
        }
    }

    /// The rotation this tank has after a frame in which the turn keys are
    /// held as given: `ROT_SPEED` less for `left`, as many more for `right`,
    /// not wrapped at a full turn. Only a rotation within `ROT_SPEED` of an
    /// end of `i32` stops at that end.
    pub fn turned(&self, left: bool, right: bool) -> (rot: i32)
        ensures
            rot == Tank::turned_by(self.rot, left, right),
            left == right ==> rot == self.rot,
            i32::MIN + ROT_SPEED <= self.rot <= i32::MAX - ROT_SPEED ==> rot == self.rot - (if left {
                ROT_SPEED as int
            } else {
                0
            }) + (if right { ROT_SPEED as int } else { 0 }),
    {
        let mut angle: i64 = self.rot as i64;
        if left {
            angle = angle - ROT_SPEED as i64;
        }
        if right {
            angle = angle + ROT_SPEED as i64;
        }
        clamp(angle as i128, i32::MIN as i64, i32::MAX as i64) as i32
    }

    /// Plays one frame of `dt` microseconds for this tank: it turns, drives
    /// along `input.heading`, is clamped to the screen, and cools down.
    ///
    /// Beyond the exact next tank, the contract spells out that paint and
    /// keys are kept, that the rotation changes by the turn keys alone and
    /// stays as it is when none or both are held, that a tank within its
    /// margins stays where it is when no or both drive keys are held, and
    /// that on a screen that can hold the tank, the tank ends within it.
    pub fn update(&mut self, input: &TankInput, screen: Screen, dt: u64)
        ensures
            *final(self) == old(self).updated(*input, screen, dt),
            final(self).color == old(self).color,
            final(self).controls == old(self).controls,
            final(self).rot == Tank::turned_by(old(self).rot, input.left, input.right),
            input.left == input.right ==> final(self).rot == old(self).rot,
            i32::MIN + ROT_SPEED <= old(self).rot <= i32::MAX - ROT_SPEED ==> final(self).rot
                == old(self).rot - (if input.left { ROT_SPEED as int } else { 0 }) + (if input.right {
                ROT_SPEED as int
            } else {
                0
            }),
            input.up == input.down && old(self).within_margins(screen) ==> final(self).pos
                == old(self).pos,
            final(self).pos.x >= TANK_WIDTH / 2,
            final(self).pos.y >= TANK_HEIGHT / 2,
            screen.right() >= TANK_WIDTH ==> final(self).pos.x <= screen.right() - TANK_WIDTH / 2,
            screen.bottom() >= TANK_HEIGHT ==> final(self).pos.y <= screen.bottom() - TANK_HEIGHT
                / 2,
            final(self).cooldown <= old(self).cooldown,
    {
        self.rot = self.turned(input.left, input.right);
        let mut steps: i128 = 0;
        if input.up {
            steps = steps + TANK_SPEED as i128;
        }
        if input.down {
            steps = steps - TANK_SPEED as i128;
        }
        assert(-3 * 0x8000_0000 <= input.heading.dx * steps <= 3 * 0x8000_0000 && -3 * 0x8000_0000
            <= input.heading.dy * steps <= 3 * 0x8000_0000) by (nonlinear_arith)
            requires
                -3 <= steps <= 3,
                -0x8000_0000 <= input.heading.dx < 0x8000_0000,
                -0x8000_0000 <= input.heading.dy < 0x8000_0000,
        ;
        let x: i128 = self.pos.x as i128 + input.heading.dx as i128 * steps;
        let y: i128 = self.pos.y as i128 + input.heading.dy as i128 * steps;
        self.pos.x = clamp(x, TANK_WIDTH / 2, screen.right_edge() - TANK_WIDTH / 2);
        self.pos.y = clamp(y, TANK_HEIGHT / 2, screen.bottom_edge() - TANK_HEIGHT / 2);
        self.cooldown = if self.cooldown > dt { self.cooldown - dt } else { 0 };
    }

    /// Fires if the fire key went down and the cooldown has run out. Returns
    /// the new bullet, owned by `owner`, and starts the cooldown; otherwise
    /// returns `None` and leaves the tank as it is.
    pub fn fire(&mut self, input: &TankInput, owner: usize) -> (shot: Option<Bullet>)
        ensures
            *final(self) == old(self).after_fire(*input),
            shot == (if old(self).fires(*input) {
                Some(old(self).shot(input.heading, owner))
            } else {
                None
            }),
            shot is Some <==> input.fire && old(self).cooldown == 0,
            shot is Some ==> final(self).cooldown == FIRE_COOLDOWN,
    {
        if input.fire && self.cooldown == 0 {
            let bullet = Bullet {
                pos: input.heading.carry(self.pos, MUZZLE_OFFSET),
                rot: self.rot,
                heading: input.heading,
                owner,
            };
            self.cooldown = FIRE_COOLDOWN;
            Some(bullet)
        } else {
            None
        }
    }

    /// Whether the bullet hits this tank, which has the given index.
    pub fn is_hit_by(&self, index: usize, bullet: &Bullet) -> (r: bool)
        ensures
            r == self.hit_by(index as int, *bullet),
    {
        if bullet.owner == index {
            return false;
        }
        let dx: i128 = self.pos.x as i128 - bullet.pos.x as i128;
        let dy: i128 = self.pos.y as i128 - bullet.pos.y as i128;
        let ax: i128 = if dx < 0 { -dx } else { dx };
        let ay: i128 = if dy < 0 { -dy } else { dy };
        let reach: i128 = HIT_RADIUS as i128;
        assert(ax * ax == dx * dx && ay * ay == dy * dy) by (nonlinear_arith)
            requires
                ax == dx || ax == -dx,
                ay == dy || ay == -dy,
        ;
        if ax >= reach || ay >= reach {
            assert(ax * ax + ay * ay >= reach * reach) by (nonlinear_arith)
                requires
                    ax >= 0,
                    ay >= 0,
                    reach >= 0,
                    ax >= reach || ay >= reach,
            ;
            return false;
        }
        assert(ax * ax < reach * reach && ay * ay < reach * reach && ax * ax >= 0 && ay * ay >= 0
            && reach * reach == 576_000_000_000_000) by (nonlinear_arith)
            requires
                0 <= ax < reach,
                0 <= ay < reach,
                reach == 24_000_000,
        ;
        ax * ax + ay * ay < reach * reach
    }

    /// Sends the tank back to where the tank of the given index starts.
    pub fn respawn(&mut self, index: usize)
        ensures
            *final(self) == old(self).respawned(index as int),
            final(self).pos == spawn_point(index as int),
    {
        self.pos = if index == 0 {
            Vec2 { x: 150 * UNIT, y: 450 * UNIT }
        } else {
            Vec2 { x: 570 * UNIT, y: 450 * UNIT }
        };
    }

    /// The tank's box; see [`Tank::rect`].
    pub fn body(&self) -> (r: Rect)
        ensures
            r == self.rect(),
    {
        Rect {
            x: saturate(self.pos.x as i128 - (TANK_WIDTH / 2) as i128),
            y: saturate(self.pos.y as i128 - (TANK_HEIGHT / 2) as i128),
            w: TANK_WIDTH,
            h: TANK_HEIGHT,
        }
    }

    /// The tip of the barrel: `BARREL_LENGTH` pixels from the tank's center
    /// along `heading`.
    pub fn barrel_end(&self, heading: Heading) -> (tip: Vec2)
        ensures
            tip == heading.carried(self.pos, BARREL_LENGTH as int),
    {
        heading.carry(self.pos, BARREL_LENGTH)
    }
}

} // verus!
