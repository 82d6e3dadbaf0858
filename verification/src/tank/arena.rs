//! The duel as a whole: its state and the update of one frame.

use vstd::prelude::*;
use crate::geometry::Screen;
use crate::tank::bullet::Bullet;
use crate::tank::controls::TankInput;
use crate::tank::vehicle::Tank;

verus! {

/// The whole state of a duel: the tanks, and the bullets in flight in the
/// order in which they were fired.
#[derive(Debug, PartialEq, Eq)]
pub struct Arena {
    pub tanks: Vec<Tank>,
    pub bullets: Vec<Bullet>,
}

/// The mathematical model of an [`Arena`].
pub struct ArenaState {
    pub tanks: Seq<Tank>,
    pub bullets: Seq<Bullet>,
}

impl View for Arena {
    type V = ArenaState;

    open spec fn view(&self) -> ArenaState {
        ArenaState { tanks: self.tanks@, bullets: self.bullets@ }
    }
}

/// The input of tank `i`. A tank for which none was given idles.
pub open spec fn input_of(inputs: Seq<TankInput>, i: int) -> TankInput {
    if 0 <= i < inputs.len() {
        inputs[i]
    } else {
        TankInput::none()
    }
}

/// One frame of flight, as a map over bullets.
pub open spec fn flight() -> spec_fn(Bullet) -> Bullet {
    |b: Bullet| b.moved()
}

/// Being on the screen, as a test on bullets.
pub open spec fn on_screen(screen: Screen) -> spec_fn(Bullet) -> bool {
    |b: Bullet| !b.offscreen(screen)
}

impl ArenaState {
    /// A duel as it begins: two tanks at their spawn points, no bullet.
    pub open spec fn start() -> ArenaState {
        ArenaState { tanks: seq![Tank::start(0), Tank::start(1)], bullets: Seq::empty() }
    }

    /// Tank `i` after its own frame, before the fire key is looked at.
    pub open spec fn steered(self, inputs: Seq<TankInput>, screen: Screen, dt: u64, i: int) -> Tank {
        self.tanks[i].updated(input_of(inputs, i), screen, dt)
    }

    /// The bullets that the first `n` tanks fire in this frame, in the order
    /// of the tanks.
    pub open spec fn shots(self, inputs: Seq<TankInput>, screen: Screen, dt: u64, n: int) -> Seq<
        Bullet,
    >
        decreases n,
    {
        if n <= 0 {
            Seq::empty()
        } else {
            let earlier = self.shots(inputs, screen, dt, n - 1);
            let tank = self.steered(inputs, screen, dt, n - 1);
            let input = input_of(inputs, n - 1);
            if tank.fires(input) {
                earlier.push(tank.shot(input.heading, (n - 1) as usize))
            } else {
                earlier
            }
        }
    }

    /// The state once every tank has played its frame and fired if it could:
    /// the new bullets join the others at the end.
    pub open spec fn driven(self, inputs: Seq<TankInput>, screen: Screen, dt: u64) -> ArenaState {
        ArenaState {
            tanks: Seq::new(
                self.tanks.len(),
                |i: int| self.steered(inputs, screen, dt, i).after_fire(input_of(inputs, i)),
            ),
            bullets: self.bullets + self.shots(inputs, screen, dt, self.tanks.len() as int),
        }
    }

    /// The state once every bullet has flown for a frame and those that left
    /// the screen are gone. The others keep their order.
    pub open spec fn flown(self, screen: Screen) -> ArenaState {
        ArenaState {
            tanks: self.tanks,
            bullets: self.bullets.map_values(flight()).filter(on_screen(screen)),
        }
    }

    /// Some bullet in flight hits tank `i`.
    pub open spec fn struck(self, i: int) -> bool {
        exists|j: int| 0 <= j < self.bullets.len() && self.tanks[i].hit_by(i, #[trigger] self.bullets[j])
    }

    /// The state once every tank that a bullet hits is back at its spawn
    /// point. Each tank is tested where it stood; the bullets fly on.
    pub open spec fn resolved(self) -> ArenaState {
        ArenaState {
            tanks: Seq::new(
                self.tanks.len(),
                |i: int|
                    if self.struck(i) {
                        self.tanks[i].respawned(i)
                    } else {
                        self.tanks[i]
                    },
            ),
            bullets: self.bullets,
        }
    }

    /// The state after one frame: tanks first, then bullets, then hits.
    pub open spec fn advanced(self, inputs: Seq<TankInput>, screen: Screen, dt: u64) -> ArenaState {
        self.driven(inputs, screen, dt).flown(screen).resolved()
    }
}

/// A tank that is sent back twice is where it is after being sent back
/// once, so it does not matter how many bullets hit it in a frame; and
/// settling the hits again right away changes nothing.
pub proof fn lemma_hits_settle_once(state: ArenaState)
    ensures
        forall|tank: Tank, index: int| #[trigger]
            tank.respawned(index).respawned(index) == tank.respawned(index),
        state.resolved().resolved() == state.resolved(),
{
    let once = state.resolved();
    let twice = once.resolved();
    assert forall|i: int| 0 <= i < state.tanks.len() implies twice.tanks[i] == once.tanks[i] by {
        if !state.struck(i) {
            assert(once.tanks[i] == state.tanks[i]);
            if once.struck(i) {
                let j = choose|j: int|
                    0 <= j < once.bullets.len() && once.tanks[i].hit_by(
                        i,
                        #[trigger] once.bullets[j],
                    );
                assert(state.tanks[i].hit_by(i, state.bullets[j]));
            }
        }
    }
    assert(twice.tanks =~= once.tanks);
}

impl Arena {
    /// A new duel.
    pub fn new() -> (arena: Arena)
        ensures
            arena@ == ArenaState::start(),
    {
        let mut tanks: Vec<Tank> = Vec::new();
        tanks.push(Tank::new(0));
        tanks.push(Tank::new(1));
        let arena = Arena { tanks, bullets: Vec::new() };
        assert(arena@.tanks =~= ArenaState::start().tanks);
        assert(arena@.bullets =~= ArenaState::start().bullets);
        arena
    }

    /// Lets every tank play its frame of `dt` microseconds with its input,
    /// and fire if its fire key went down and its cooldown has run out.
    /// `inputs[i]` belongs to tank `i`.
    pub fn drive_tanks(&mut self, inputs: &Vec<TankInput>, screen: Screen, dt: u64)
        ensures
            final(self)@ == old(self)@.driven(inputs@, screen, dt),
    {
        let n: usize = self.tanks.len();
        let mut i: usize = 0;
        while i < n
            invariant
                i <= n,
                n == self.tanks@.len(),
                n == old(self).tanks@.len(),
                forall|k: int|
                    0 <= k < i ==> #[trigger] self.tanks@[k] == old(self)@.steered(
                        inputs@,
                        screen,
                        dt,
                        k,
                    ).after_fire(input_of(inputs@, k)),
                forall|k: int| i <= k < n ==> #[trigger] self.tanks@[k] == old(self).tanks@[k],
                self.bullets@ == old(self).bullets@ + old(self)@.shots(
                    inputs@,
                    screen,
                    dt,
                    i as int,
                ),
            decreases n - i,
        {
            let input: TankInput = if i < inputs.len() { inputs[i] } else { TankInput::idle() };
            let mut tank: Tank = self.tanks[i];
            tank.update(&input, screen, dt);
            let shot = tank.fire(&input, i);
            self.tanks.set(i, tank);
            if let Some(bullet) = shot {
                self.bullets.push(bullet);
            }
            assert(self.bullets@ =~= old(self).bullets@ + old(self)@.shots(
                inputs@,
                screen,
                dt,
                i + 1,
            ));
            i += 1;
        }
        assert(self@.tanks =~= old(self)@.driven(inputs@, screen, dt).tanks);
    }

    /// Lets every bullet fly for a frame and drops those that have left the
    /// screen. The bullets that stay keep their order.
    pub fn fly_bullets(&mut self, screen: Screen)
        ensures
            final(self)@ == old(self)@.flown(screen),
            forall|j: int|
                0 <= j < final(self).bullets@.len() ==> !(#[trigger] final(self).bullets@[j]).offscreen(
                    screen,
                ),
            final(self).bullets@.len() <= old(self).bullets@.len(),
    {
        let ghost before = self.bullets@;
        let mut kept: Vec<Bullet> = Vec::new();
        let mut i: usize = 0;
        while i < self.bullets.len()
            invariant
                i <= self.bullets.len(),
                self.bullets@ == before,
                self.tanks@ == old(self).tanks@,
                kept@ == before.take(i as int).map_values(flight()).filter(on_screen(screen)),
            decreases self.bullets.len() - i,
        {
            let mut bullet: Bullet = self.bullets[i];
            bullet.update();
            proof {
                let flown = before.take(i as int).map_values(flight());
                assert(before.take(i + 1).map_values(flight()) =~= flown.push(bullet));
                flown.lemma_filter_push(bullet, on_screen(screen));
            }
            if !bullet.is_offscreen(screen) {
                kept.push(bullet);
            }
            i += 1;
        }
        proof {
            assert(before.take(i as int) =~= before);
            let flown = before.map_values(flight());
            flown.lemma_filter_len(on_screen(screen));
            assert forall|j: int| 0 <= j < kept@.len() implies !(#[trigger] kept@[j]).offscreen(
                screen,
            ) by {
                flown.lemma_filter_pred(on_screen(screen), j);
            }
        }
        self.bullets = kept;
    }

    /// Sends every tank that a bullet of another tank hits back to its spawn
    /// point. Each tank is tested against every bullet where it stood as
    /// the call began, so several hits on a tank count as one. The bullets
    /// are left in flight.
    #[verifier::loop_isolation(false)]
    pub fn resolve_hits(&mut self)
        ensures
            final(self)@ == old(self)@.resolved(),
            final(self).bullets@ == old(self).bullets@,
            final(self).tanks@.len() == old(self).tanks@.len(),
    {
        let n: usize = self.tanks.len();
        let mut i: usize = 0;
        while i < n
            invariant
                i <= n,
                n == self.tanks@.len(),
                n == old(self).tanks@.len(),
                self.bullets@ == old(self).bullets@,
                forall|k: int|
                    0 <= k < i ==> #[trigger] self.tanks@[k] == (if old(self)@.struck(k) {
                        old(self).tanks@[k].respawned(k)
                    } else {
                        old(self).tanks@[k]
                    }),
                forall|k: int| i <= k < n ==> #[trigger] self.tanks@[k] == old(self).tanks@[k],
            decreases n - i,
        {
            let tank: Tank = self.tanks[i];
            let mut hit: bool = false;
            let mut j: usize = 0;
            while j < self.bullets.len()
                invariant
                    j <= self.bullets.len(),
                    hit <==> exists|m: int|
                        0 <= m < j && tank.hit_by(i as int, #[trigger] self.bullets@[m]),
                decreases self.bullets.len() - j,
            {
                if tank.is_hit_by(i, &self.bullets[j]) {
                    hit = true;
                }
                j += 1;
            }
            proof {
                let state = old(self)@;
                assert(state.bullets == self.bullets@);
                assert(state.tanks[i as int] == tank);
                if hit {
                    let m = choose|m: int|
                        0 <= m < j && tank.hit_by(i as int, #[trigger] self.bullets@[m]);
                    assert(state.tanks[i as int].hit_by(i as int, state.bullets[m]));
                }
                assert(hit == state.struck(i as int));
            }
            if hit {
                let mut back: Tank = tank;
                back.respawn(i);
                self.tanks.set(i, back);
            }
            i += 1;
        }
        assert(self@.tanks =~= old(self)@.resolved().tanks);
    }

    /// Plays one frame of `dt` microseconds: the tanks drive and fire with
    /// their inputs, the bullets fly and those off the screen are dropped,
    /// and every tank that is hit returns to its spawn point.
    pub fn update(&mut self, inputs: &Vec<TankInput>, screen: Screen, dt: u64)
        ensures
            final(self)@ == old(self)@.advanced(inputs@, screen, dt),
            final(self).tanks@.len() == old(self).tanks@.len(),
            forall|j: int|
                0 <= j < final(self).bullets@.len() ==> !(#[trigger] final(self).bullets@[j]).offscreen(
                    screen,
                ),
    {
        self.drive_tanks(inputs, screen, dt);
        self.fly_bullets(screen);
        self.resolve_hits();
    }
}

} // verus!
