//! The game as a whole: its state, the update of one frame, the restart, and
//! what holds of every game.

use vstd::prelude::*;
use crate::geometry::Screen;
use crate::units::{reflected, saturated, UNIT};
use crate::breakout::{BALL_SIZE, PADDLE_WIDTH};
use crate::breakout::ball::Ball;
use crate::breakout::bricks::{
    after_strike, all_dead, cleared, create_bricks, first_struck, full_wall, strike_first, Brick,
};
use crate::breakout::paddle::Paddle;

verus! {

/// What the player holds down during a frame.
#[derive(Clone, Copy, Debug, PartialEq, Eq, Structural)]
pub struct PaddleInput {
    pub left: bool,
    pub right: bool,
}

/// Everything that reaches the game during one frame: the held keys,
/// whether the restart key went down, the size of the screen, and the
/// microseconds that the frame took.
#[derive(Clone, Copy, Debug, PartialEq, Eq, Structural)]
pub struct Frame {
    pub input: PaddleInput,
    pub restart: bool,
    pub screen: Screen,
    pub dt: u64,
}

/// The whole state of a game. While `game_over` or `win` is set the ball and
/// the bricks are frozen; only the paddle still moves.
#[derive(Debug, PartialEq, Eq)]
pub struct Game {
    pub paddle: Paddle,
    pub ball: Ball,
    pub bricks: Vec<Brick>,
    pub game_over: bool,
    pub win: bool,
}

/// The mathematical model of a [`Game`]: the same state, with the wall as a
/// sequence.
pub struct GameState {
    pub paddle: Paddle,
    pub ball: Ball,
    pub bricks: Seq<Brick>,
    pub game_over: bool,
    pub win: bool,
}

impl View for Game {
    type V = GameState;

    open spec fn view(&self) -> GameState {
        GameState {
            paddle: self.paddle,
            ball: self.ball,
            bricks: self.bricks@,
            game_over: self.game_over,
            win: self.win,
        }
    }
}

impl GameState {
    /// A game as it starts: paddle centered, ball launched, wall complete,
    /// neither flag set.
    pub open spec fn start(screen: Screen) -> GameState {
        GameState {
            paddle: Paddle::start(screen),
            ball: Ball::start(screen),
            bricks: full_wall(),
            game_over: false,
            win: false,
        }
    }

    /// The ball is in play: the game is neither lost nor won.
    pub open spec fn playing(self) -> bool {
        !self.game_over && !self.win
    }

    /// The won flag says what the wall says: it is set exactly when no brick
    /// stands.
    pub open spec fn consistent(self) -> bool {
        self.win <==> cleared(self.bricks)
    }

    /// The ball of a game in play after one frame, before the bricks had
    /// their say: flown for `dt`, then reflected off the walls, then off the
    /// paddle where the paddle has just moved to.
    pub open spec fn ball_in_flight(self, input: PaddleInput, screen: Screen, dt: u64) -> Ball {
        self.ball.advanced(dt).bounced_off_walls(screen).bounced_off_paddle(
            self.paddle.moved(input.left, input.right, screen, dt),
            screen,
        )
    }

    /// The state after one frame of `dt` microseconds.
    ///
    /// The paddle always moves. While the game is in play the ball flies and
    /// is reflected, the first brick in its way is knocked out and sends it
    /// back vertically, the game is lost once the ball is below the screen,
    /// and won once no brick stands.
    pub open spec fn advanced(self, input: PaddleInput, screen: Screen, dt: u64) -> GameState {
        let paddle = self.paddle.moved(input.left, input.right, screen, dt);
        if self.playing() {
            let flying = self.ball_in_flight(input, screen, dt);
            let bricks = after_strike(self.bricks, flying.rect());
            let ball = if first_struck(self.bricks, flying.rect()).is_some() {
                flying.bounced_off_brick()
            } else {
                flying
            };
            GameState {
                paddle,
                ball,
                bricks,
                game_over: ball.lost(screen),
                win: cleared(bricks),
            }
        } else {
            GameState { paddle, ..self }
        }
    }

    /// The state after the restart key had its say: a finished game starts
    /// afresh when the key was pressed, anything else stays as it is.
    pub open spec fn restarted(self, pressed: bool, screen: Screen) -> GameState {
        if pressed && !self.playing() {
            GameState::start(screen)
        } else {
            self
        }
    }

    /// The state after a whole frame: the update, then the restart key.
    pub open spec fn stepped(self, frame: Frame) -> GameState {
        self.advanced(frame.input, frame.screen, frame.dt).restarted(frame.restart, frame.screen)
    }

    /// The frame ends with the game starting afresh: the restart key went
    /// down and the update left the game over or won.
    pub open spec fn resets_in(self, frame: Frame) -> bool {
        frame.restart && !self.advanced(frame.input, frame.screen, frame.dt).playing()
    }

    /// The state after the given frames, played one after the other.
    pub open spec fn played(self, frames: Seq<Frame>) -> GameState
        decreases frames.len(),
    {
        if frames.len() == 0 {
            self
        } else {
            self.played(frames.drop_last()).stepped(frames.last())
        }
    }

    /// Some frame of the run ends with the game starting afresh.
    pub open spec fn reset_during(self, frames: Seq<Frame>) -> bool
        decreases frames.len(),
    {
        if frames.len() == 0 {
            false
        } else {
            self.reset_during(frames.drop_last()) || self.played(frames.drop_last()).resets_in(
                frames.last(),
            )
        }
    }
}

impl Game {
    /// A new game on the given screen.
    pub fn new(screen: Screen) -> (game: Game)
        ensures
            game@ == GameState::start(screen),
            game@.playing(),
            game@.consistent(),
    {
        let game = Game {
            paddle: Paddle::centered(screen),
            ball: Ball::launch(screen),
            bricks: create_bricks(),
            game_over: false,
            win: false,
        };
        proof {
            lemma_full_wall_stands();
        }
        game
    }

    /// Plays one frame of `dt` microseconds, up to the restart key.
    ///
    /// Beyond the exact next state, the contract spells out what every frame
    /// keeps: the paddle stays on a screen that can hold it, the wall keeps
    /// its bricks in place, a brick that was out stays out, at most one brick
    /// goes out, after a frame in play the won flag is set exactly when no
    /// brick stands, and a finished game stays frozen.
    pub fn update(&mut self, input: PaddleInput, screen: Screen, dt: u64)
        ensures
            final(self)@ == old(self)@.advanced(input, screen, dt),
            final(self).paddle.x >= 0,
            screen.right() >= PADDLE_WIDTH ==> final(self).paddle.on_screen(screen),
            final(self).bricks@.len() == old(self).bricks@.len(),
            forall|i: int|
                0 <= i < old(self).bricks@.len() ==> (#[trigger] final(self).bricks@[i]).rect
                    == old(self).bricks@[i].rect,
            forall|i: int|
                0 <= i < old(self).bricks@.len() && !old(self).bricks@[i].alive ==> !(
                #[trigger] final(self).bricks@[i]).alive,
            forall|i: int, j: int|
                0 <= i < old(self).bricks@.len() && 0 <= j < old(self).bricks@.len() && old(
                    self,
                ).bricks@[i].alive && !(#[trigger] final(self).bricks@[i]).alive && old(
                    self,
                ).bricks@[j].alive && !(#[trigger] final(self).bricks@[j]).alive ==> i == j,
            old(self)@.playing() ==> (final(self).win <==> cleared(final(self).bricks@)),
            old(self)@.consistent() ==> final(self)@.consistent(),
            !old(self)@.playing() ==> ({
                &&& final(self).ball == old(self).ball
                &&& final(self).bricks@ == old(self).bricks@
                &&& final(self).game_over == old(self).game_over
                &&& final(self).win == old(self).win
            }),
    {
        self.paddle.update(input.left, input.right, screen, dt);
        if !self.game_over && !self.win {
            self.ball.advance(dt);
            self.ball.bounce_off_walls(screen);
            self.ball.bounce_off_paddle(&self.paddle, screen);
            let ball_box = self.ball.bounds();
            let hit = strike_first(&mut self.bricks, ball_box);
            if hit.is_some() {
                self.ball.bounce_off_brick();
            }
            if self.ball.is_lost(screen) {
                self.game_over = true;
            }
            if all_dead(&self.bricks) {
                self.win = true;
            }
        }
        proof {
            lemma_wall_only_loses_bricks(old(self)@, input, screen, dt);
        }
    }

    /// Plays a whole frame at once: the update, then the restart key.
    /// Returns whether the game started afresh. A caller that draws the
    /// finished game before it starts afresh calls [`Game::update`] and
    /// [`Game::restart`] itself, with its drawing between them.
    pub fn step(&mut self, frame: Frame) -> (reset: bool)
        ensures
            final(self)@ == old(self)@.stepped(frame),
            reset == old(self)@.resets_in(frame),
            reset ==> final(self)@ == GameState::start(frame.screen),
            old(self)@.consistent() ==> final(self)@.consistent(),
    {
        self.update(frame.input, frame.screen, frame.dt);
        self.restart(frame.restart, frame.screen)
    }

    /// Ends a frame: starts the game afresh if `pressed` and the game is
    /// over or won. Returns whether it did; otherwise nothing changes.
    pub fn restart(&mut self, pressed: bool, screen: Screen) -> (done: bool)
        ensures
            final(self)@ == old(self)@.restarted(pressed, screen),
            done == (pressed && !old(self)@.playing()),
            done ==> final(self)@ == GameState::start(screen),
            !done ==> final(self)@ == old(self)@,
            old(self)@.consistent() ==> final(self)@.consistent(),
    {
        if pressed && (self.game_over || self.win) {
            *self = Game::new(screen);
            true
        } else {
            false
        }
    }
}

/// In a fresh wall every brick stands, so the wall is not cleared and a
/// game that starts is not won.
pub proof fn lemma_full_wall_stands()
    ensures
        full_wall().len() == 60,
        forall|i: int| 0 <= i < 60 ==> (#[trigger] full_wall()[i]).alive,
        !cleared(full_wall()),
        forall|screen: Screen| (#[trigger] GameState::start(screen)).consistent(),
{
    assert(full_wall()[0].alive);
}

/// After every frame the paddle's left edge is on the screen, and the whole
/// paddle is wherever the screen is wide enough to hold it.
pub proof fn lemma_paddle_stays_on_screen(
    state: GameState,
    input: PaddleInput,
    screen: Screen,
    dt: u64,
)
    ensures
        state.advanced(input, screen, dt).paddle.x >= 0,
        screen.right() >= PADDLE_WIDTH ==> state.advanced(input, screen, dt).paddle.on_screen(
            screen,
        ),
{
}

/// A ball that a frame carries from between the side walls to beyond one of
/// them has its horizontal velocity flipped exactly once by that frame, and
/// is left where it flew to: the position is not brought back. This holds
/// unless the ball comes down on the paddle in the same frame, for the
/// paddle then decides the horizontal velocity; and it is stated of balls
/// whose new position fits `i64` and whose velocity has a negation.
pub proof fn lemma_side_wall_flips_once(
    state: GameState,
    input: PaddleInput,
    screen: Screen,
    dt: u64,
)
    requires
        state.playing(),
        0 <= state.ball.pos.x <= screen.right() - BALL_SIZE,
        state.ball.pos.x + state.ball.vel.x * dt < 0 || state.ball.pos.x + state.ball.vel.x * dt
            > screen.right() - BALL_SIZE,
        !state.ball.advanced(dt).bounced_off_walls(screen).strikes_paddle(
            state.paddle.moved(input.left, input.right, screen, dt),
            screen,
        ),
        i64::MIN <= state.ball.pos.x + state.ball.vel.x * dt <= i64::MAX,
        state.ball.vel.x > i64::MIN,
    ensures
        state.advanced(input, screen, dt).ball.vel.x == -state.ball.vel.x,
        state.advanced(input, screen, dt).ball.pos.x == state.ball.pos.x + state.ball.vel.x * dt,
{
    lemma_side_wall_flips_at_any_speed(state, input, screen, dt);
}

/// The same at the ends of `i64`: whatever the speed and the length of the
/// frame, a ball carried from between the side walls to beyond one of them
/// has its horizontal velocity reflected once and is left where it flew to,
/// both saturated.
pub proof fn lemma_side_wall_flips_at_any_speed(
    state: GameState,
    input: PaddleInput,
    screen: Screen,
    dt: u64,
)
    requires
        state.playing(),
        0 <= state.ball.pos.x <= screen.right() - BALL_SIZE,
        state.ball.pos.x + state.ball.vel.x * dt < 0 || state.ball.pos.x + state.ball.vel.x * dt
            > screen.right() - BALL_SIZE,
        !state.ball.advanced(dt).bounced_off_walls(screen).strikes_paddle(
            state.paddle.moved(input.left, input.right, screen, dt),
            screen,
        ),
    ensures
        state.advanced(input, screen, dt).ball.vel.x == reflected(state.ball.vel.x as int),
        state.advanced(input, screen, dt).ball.pos.x == saturated(
            state.ball.pos.x + state.ball.vel.x * dt,
        ),
{
    assert(0 <= screen.right() <= 0xffff_ffff * 1_000_000) by (nonlinear_arith)
        requires
            screen.right() == screen.width * UNIT,
            UNIT == 1_000_000,
            0 <= screen.width <= 0xffff_ffff,
    ;
    assert(state.ball.advanced(dt).at_side_wall(screen));
}

/// A frame never changes how fast the ball moves up or down, only which
/// way: each reflection off the ceiling, the paddle or a brick flips the
/// sign of the vertical velocity and nothing else touches it.
pub proof fn lemma_vertical_speed_is_kept(
    state: GameState,
    input: PaddleInput,
    screen: Screen,
    dt: u64,
)
    requires
        state.ball.vel.y > i64::MIN,
    ensures
        state.advanced(input, screen, dt).ball.vel.y == state.ball.vel.y || state.advanced(
            input,
            screen,
            dt,
        ).ball.vel.y == -state.ball.vel.y,
{
}

/// A game that is over or won stays so, with ball and wall frozen, for as
/// many frames as are played; only a restart ends it.
pub proof fn lemma_finished_game_is_frozen(
    state: GameState,
    input: PaddleInput,
    screen: Screen,
    dt: u64,
)
    requires
        !state.playing(),
    ensures
        ({
            let next = state.advanced(input, screen, dt);
            &&& next.ball == state.ball
            &&& next.bricks == state.bricks
            &&& next.game_over == state.game_over
            &&& next.win == state.win
            &&& !next.playing()
        }),
        state.restarted(false, screen) == state,
        state.restarted(true, screen) == GameState::start(screen),
{
}

/// The won flag follows the wall. After a frame in play it is set exactly
/// when no brick stands; a frame and a restart both keep a state consistent,
/// so in a game that began with [`GameState::start`] the flag is never set
/// while a brick stands.
pub proof fn lemma_win_iff_wall_cleared(
    state: GameState,
    input: PaddleInput,
    pressed: bool,
    screen: Screen,
    dt: u64,
)
    ensures
        GameState::start(screen).consistent(),
        state.playing() ==> (state.advanced(input, screen, dt).win <==> cleared(
            state.advanced(input, screen, dt).bricks,
        )),
        state.consistent() ==> state.advanced(input, screen, dt).consistent(),
        state.consistent() ==> state.restarted(pressed, screen).consistent(),
{
    lemma_full_wall_stands();
}

/// However a game is played from its start, and however often it is
/// restarted, the won flag is set exactly when no brick stands. In
/// particular it is never set while a brick stands.
pub proof fn lemma_played_game_is_consistent(screen: Screen, frames: Seq<Frame>)
    ensures
        GameState::start(screen).played(frames).consistent(),
        GameState::start(screen).played(frames).win ==> cleared(
            GameState::start(screen).played(frames).bricks,
        ),
    decreases frames.len(),
{
    lemma_full_wall_stands();
    if frames.len() > 0 {
        lemma_played_game_is_consistent(screen, frames.drop_last());
        let before = GameState::start(screen).played(frames.drop_last());
        let frame = frames.last();
        lemma_win_iff_wall_cleared(before, frame.input, frame.restart, frame.screen, frame.dt);
        lemma_win_iff_wall_cleared(
            before.advanced(frame.input, frame.screen, frame.dt),
            frame.input,
            frame.restart,
            frame.screen,
            frame.dt,
        );
    }
}

/// A brick that is out stays out, in its place, for as long as the game is
/// not started afresh, however many frames are played.
pub proof fn lemma_dead_brick_stays_dead(state: GameState, frames: Seq<Frame>, i: int)
    requires
        0 <= i < state.bricks.len(),
        !state.bricks[i].alive,
        !state.reset_during(frames),
    ensures
        state.played(frames).bricks.len() == state.bricks.len(),
        state.played(frames).bricks[i].rect == state.bricks[i].rect,
        !state.played(frames).bricks[i].alive,
    decreases frames.len(),
{
    if frames.len() > 0 {
        lemma_dead_brick_stays_dead(state, frames.drop_last(), i);
        let before = state.played(frames.drop_last());
        let frame = frames.last();
        lemma_wall_only_loses_bricks(before, frame.input, frame.screen, frame.dt);
    }
}

/// A frame only ever takes bricks out of the wall: the wall keeps its length
/// and every brick its place, a brick that was out before the frame is out
/// after it, and at most one brick goes out.
pub proof fn lemma_wall_only_loses_bricks(
    state: GameState,
    input: PaddleInput,
    screen: Screen,
    dt: u64,
)
    ensures
        ({
            let next = state.advanced(input, screen, dt);
            &&& next.bricks.len() == state.bricks.len()
            &&& forall|i: int|
                0 <= i < state.bricks.len() ==> (#[trigger] next.bricks[i]).rect
                    == state.bricks[i].rect
            &&& forall|i: int|
                0 <= i < state.bricks.len() && !state.bricks[i].alive ==> !(
                #[trigger] next.bricks[i]).alive
            &&& forall|i: int, j: int|
                0 <= i < state.bricks.len() && 0 <= j < state.bricks.len() && state.bricks[i].alive
                    && !(#[trigger] next.bricks[i]).alive && state.bricks[j].alive && !(
                #[trigger] next.bricks[j]).alive ==> i == j
        }),
{
}

} // verus!
