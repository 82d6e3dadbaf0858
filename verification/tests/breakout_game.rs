use arcade::breakout::ball::Ball;
use arcade::breakout::bricks::create_bricks;
use arcade::breakout::game::{Frame, Game, PaddleInput};
use arcade::breakout::paddle::Paddle;
use arcade::geometry::{Screen, Vec2};
use arcade::units::UNIT;

const FIELD: Screen = Screen { width: 720, height: 900 };

const IDLE: PaddleInput = PaddleInput { left: false, right: false };

const FRAME: u64 = 16_667;

fn units(pixels: i64) -> i64 {
    pixels * UNIT
}

fn ball(x: i64, y: i64, vx: i64, vy: i64) -> Ball {
    Ball { pos: Vec2 { x: units(x), y: units(y) }, vel: Vec2 { x: vx, y: vy } }
}

fn standing(game: &Game) -> usize {
    game.bricks.iter().filter(|b| b.alive).count()
}

#[test]
fn new_game_is_set_up() {
    let game = Game::new(FIELD);
    assert_eq!(game.paddle, Paddle { x: units(300) });
    assert_eq!(game.ball, ball(360, 800, 400, -400));
    assert_eq!(game.bricks, create_bricks());
    assert_eq!(standing(&game), 60);
    assert!(!game.game_over);
    assert!(!game.win);
}

#[test]
fn first_frame_moves_ball_and_paddle() {
    let mut game = Game::new(FIELD);
    game.update(PaddleInput { left: false, right: true }, FIELD, FRAME);
    assert_eq!(game.paddle.x, 308_333_500);
    assert_eq!(game.ball.pos, Vec2 { x: 366_666_800, y: 793_333_200 });
    assert_eq!(game.ball.vel, Vec2 { x: 400, y: -400 });
    assert_eq!(standing(&game), 60);
    assert!(!game.game_over);
    assert!(!game.win);
}

#[test]
fn frame_of_no_time_changes_nothing_in_flight() {
    let mut game = Game::new(FIELD);
    game.update(PaddleInput { left: true, right: false }, FIELD, 0);
    assert_eq!(game, Game::new(FIELD));
}

#[test]
fn ball_pushed_through_the_right_wall_is_flipped_once() {
    let mut game = Game::new(FIELD);
    game.ball = ball(700, 500, 400, -400);
    game.update(IDLE, FIELD, 20_000);
    assert_eq!(game.ball.pos, Vec2 { x: units(708), y: units(492) });
    assert_eq!(game.ball.vel, Vec2 { x: -400, y: -400 });
    game.update(IDLE, FIELD, 20_000);
    assert_eq!(game.ball.pos, Vec2 { x: units(700), y: units(484) });
    assert_eq!(game.ball.vel, Vec2 { x: -400, y: -400 });
}

#[test]
fn ball_pushed_through_the_left_wall_is_flipped_once() {
    let mut game = Game::new(FIELD);
    game.ball = ball(3, 500, -400, 400);
    game.update(IDLE, FIELD, 10_000);
    assert_eq!(game.ball.pos, Vec2 { x: units(-1), y: units(504) });
    assert_eq!(game.ball.vel, Vec2 { x: 400, y: 400 });
    game.update(IDLE, FIELD, 10_000);
    assert_eq!(game.ball.pos, Vec2 { x: units(3), y: units(508) });
    assert_eq!(game.ball.vel, Vec2 { x: 400, y: 400 });
}

#[test]
fn ball_pushed_through_the_ceiling_comes_down() {
    let mut game = Game::new(FIELD);
    for brick in game.bricks.iter_mut() {
        brick.alive = false;
    }
    game.bricks[59].alive = true;
    game.ball = ball(300, 2, 400, -400);
    game.update(IDLE, FIELD, 10_000);
    assert_eq!(game.ball.pos, Vec2 { x: units(304), y: units(-2) });
    assert_eq!(game.ball.vel, Vec2 { x: 400, y: 400 });
}

#[test]
fn paddle_hit_in_a_frame_steers_the_ball() {
    let mut game = Game::new(FIELD);
    game.paddle = Paddle { x: units(300) };
    game.ball = ball(304, 846, 400, 400);
    game.update(IDLE, FIELD, 10_000);
    assert_eq!(game.ball.pos, Vec2 { x: units(308), y: units(850) });
    assert_eq!(game.ball.vel, Vec2 { x: (316 - 360) * 6, y: -400 });
    assert_eq!(game.ball.vel.x, -264);
}

#[test]
fn ball_carried_onto_the_paddle_from_310_820() {
    let mut game = Game::new(FIELD);
    game.paddle = Paddle { x: units(300) };
    game.ball = ball(310, 820, -40, 800);
    assert_eq!(
        game.paddle.bounds(FIELD),
        arcade::geometry::Rect { x: units(300), y: units(860), w: units(120), h: units(20) }
    );
    assert_eq!(game.ball.bounds().w, units(16));
    game.update(IDLE, FIELD, 50_000);
    assert_eq!(game.ball.pos, Vec2 { x: units(308), y: units(860) });
    assert_eq!(game.ball.vel.y, -800);
    assert_eq!(game.ball.vel.x, (316 - 360) * 6);
    assert_eq!(game.ball.vel.x, -264);
}

#[test]
fn paddle_is_moved_before_the_ball_meets_it() {
    let mut game = Game::new(FIELD);
    game.paddle = Paddle { x: units(300) };
    game.ball = ball(304, 846, 400, 400);
    game.update(PaddleInput { left: false, right: true }, FIELD, 10_000);
    assert_eq!(game.paddle.x, units(305));
    assert_eq!(game.ball.vel, Vec2 { x: (316 - 365) * 6, y: -400 });
}

#[test]
fn paddle_overrides_the_wall_when_both_are_hit() {
    let mut game = Game::new(FIELD);
    game.paddle = Paddle { x: 0 };
    game.ball = ball(2, 846, -400, 400);
    game.update(IDLE, FIELD, 10_000);
    assert_eq!(game.ball.pos, Vec2 { x: units(-2), y: units(850) });
    assert_eq!(game.ball.vel, Vec2 { x: (6 - 60) * 6, y: -400 });
}

#[test]
fn brick_hit_knocks_it_out_and_turns_the_ball() {
    let mut game = Game::new(FIELD);
    game.ball = ball(110, 300, 0, -400);
    game.update(IDLE, FIELD, 50_000);
    assert_eq!(game.ball.pos, Vec2 { x: units(110), y: units(280) });
    assert_eq!(game.ball.vel, Vec2 { x: 0, y: 400 });
    assert!(!game.bricks[51].alive);
    assert_eq!(standing(&game), 59);
    assert!(!game.win);
    assert!(!game.game_over);
}

#[test]
fn only_one_brick_goes_per_frame() {
    let mut game = Game::new(FIELD);
    game.ball = ball(90, 100, 0, -400);
    game.update(IDLE, FIELD, 30_000);
    assert_eq!(game.ball.pos, Vec2 { x: units(90), y: units(88) });
    assert_eq!(standing(&game), 59);
    assert!(!game.bricks[0].alive);
    assert!(game.bricks[1].alive);
    assert!(game.bricks[10].alive);
    assert!(game.bricks[11].alive);
}

#[test]
fn dead_bricks_stay_dead_over_many_frames() {
    let mut game = Game::new(FIELD);
    let mut dead = vec![false; 60];
    let mut left = true;
    for frame in 0..4000 {
        if frame % 50 == 0 {
            left = !left;
        }
        let before = game.bricks.clone();
        game.update(PaddleInput { left, right: !left }, FIELD, FRAME);
        assert_eq!(game.bricks.len(), 60);
        let mut newly = 0;
        for i in 0..60 {
            assert_eq!(game.bricks[i].rect, before[i].rect);
            if dead[i] {
                assert!(!game.bricks[i].alive);
            }
            if before[i].alive && !game.bricks[i].alive {
                newly += 1;
                dead[i] = true;
            }
        }
        assert!(newly <= 1);
        assert_eq!(game.win, game.bricks.iter().all(|b| !b.alive));
        assert!(game.paddle.x >= 0 && game.paddle.x <= units(600));
    }
    assert!(dead.iter().any(|d| *d));
}

#[test]
fn win_is_set_when_the_last_brick_goes() {
    let mut game = Game::new(FIELD);
    for brick in game.bricks.iter_mut() {
        brick.alive = false;
    }
    game.bricks[51].alive = true;
    game.ball = ball(110, 300, 0, -400);
    game.update(IDLE, FIELD, 10_000);
    assert!(!game.win);
    assert_eq!(standing(&game), 1);
    game.update(IDLE, FIELD, 40_000);
    assert!(game.win);
    assert!(!game.game_over);
    assert_eq!(standing(&game), 0);
    assert_eq!(game.ball.vel, Vec2 { x: 0, y: 400 });
}

#[test]
fn win_is_not_set_while_a_brick_stands() {
    let mut game = Game::new(FIELD);
    for brick in game.bricks.iter_mut() {
        brick.alive = false;
    }
    game.bricks[0].alive = true;
    game.bricks[59].alive = true;
    game.ball = ball(40, 110, 0, -400);
    game.update(IDLE, FIELD, 50_000);
    assert_eq!(standing(&game), 1);
    assert!(!game.bricks[0].alive);
    assert_eq!(game.ball.vel, Vec2 { x: 0, y: 400 });
    assert!(!game.win);
}

#[test]
fn game_is_lost_when_the_ball_falls_out() {
    let mut game = Game::new(FIELD);
    game.ball = ball(100, 899, 0, 400);
    game.update(IDLE, FIELD, 2_500);
    assert_eq!(game.ball.pos.y, units(900));
    assert!(!game.game_over);
    game.update(IDLE, FIELD, 2_500);
    assert_eq!(game.ball.pos.y, units(901));
    assert!(game.game_over);
    assert!(!game.win);
}

#[test]
fn lost_game_is_frozen_but_for_the_paddle() {
    let mut game = Game::new(FIELD);
    game.ball = ball(100, 899, 0, 400);
    game.update(IDLE, FIELD, 5_000);
    assert!(game.game_over);
    let frozen_ball = game.ball;
    let frozen_bricks = game.bricks.clone();
    game.update(PaddleInput { left: true, right: false }, FIELD, 10_000);
    assert_eq!(game.ball, frozen_ball);
    assert_eq!(game.bricks, frozen_bricks);
    assert!(game.game_over);
    assert!(!game.win);
    assert_eq!(game.paddle.x, units(295));
}

#[test]
fn won_game_is_frozen_but_for_the_paddle() {
    let mut game = Game::new(FIELD);
    for brick in game.bricks.iter_mut() {
        brick.alive = false;
    }
    game.update(IDLE, FIELD, 10_000);
    assert!(game.win);
    let frozen_ball = game.ball;
    game.update(PaddleInput { left: false, right: true }, FIELD, 10_000);
    assert_eq!(game.ball, frozen_ball);
    assert!(game.win);
    assert!(!game.game_over);
    assert_eq!(game.paddle.x, units(305));
}

#[test]
fn game_can_be_lost_and_won_in_one_frame() {
    let mut game = Game::new(FIELD);
    for brick in game.bricks.iter_mut() {
        brick.alive = false;
    }
    game.ball = ball(100, 900, 0, 400);
    game.update(IDLE, FIELD, 10_000);
    assert!(game.game_over);
    assert!(game.win);
}

#[test]
fn restart_after_game_over_restores_everything() {
    let mut game = Game::new(FIELD);
    game.ball = ball(110, 300, 0, -400);
    game.update(PaddleInput { left: true, right: false }, FIELD, 50_000);
    assert_eq!(standing(&game), 59);
    game.ball = ball(100, 899, 0, 400);
    game.update(PaddleInput { left: true, right: false }, FIELD, 50_000);
    assert!(game.game_over);
    assert!(game.restart(true, FIELD));
    assert_eq!(game.paddle.x, units(300));
    assert_eq!(game.ball.pos, Vec2 { x: units(720 / 2), y: units(900 - 100) });
    assert_eq!(game.ball.vel, Vec2 { x: 400, y: -400 });
    assert_eq!(game.bricks.len(), 60);
    assert!(game.bricks.iter().all(|b| b.alive));
    assert!(!game.game_over);
    assert!(!game.win);
    assert_eq!(game, Game::new(FIELD));
}

#[test]
fn restart_after_a_win_restores_everything() {
    let mut game = Game::new(FIELD);
    for brick in game.bricks.iter_mut() {
        brick.alive = false;
    }
    game.update(IDLE, FIELD, 10_000);
    assert!(game.win);
    let wide = Screen { width: 1000, height: 600 };
    assert!(game.restart(true, wide));
    assert_eq!(game, Game::new(wide));
    assert_eq!(game.paddle.x, units(440));
    assert_eq!(game.ball.pos, Vec2 { x: units(500), y: units(500) });
}

#[test]
fn restart_is_ignored_while_playing() {
    let mut game = Game::new(FIELD);
    game.update(IDLE, FIELD, FRAME);
    game.bricks[7].alive = false;
    let ball_before = game.ball;
    assert!(!game.restart(true, FIELD));
    assert_eq!(game.ball, ball_before);
    assert!(!game.bricks[7].alive);
    assert_eq!(standing(&game), 59);
}

#[test]
fn restart_needs_the_key() {
    let mut game = Game::new(FIELD);
    game.ball = ball(100, 899, 0, 400);
    game.update(IDLE, FIELD, 5_000);
    assert!(game.game_over);
    let ball_before = game.ball;
    assert!(!game.restart(false, FIELD));
    assert!(game.game_over);
    assert_eq!(game.ball, ball_before);
}

#[test]
fn whole_frame_updates_then_restarts() {
    let mut game = Game::new(FIELD);
    let press = Frame { input: IDLE, restart: true, screen: FIELD, dt: 10_000 };
    assert!(!game.step(press));
    assert_eq!(game.ball, ball(364, 796, 400, -400));
    game.ball = ball(100, 899, 0, 400);
    let quiet = Frame { input: IDLE, restart: false, screen: FIELD, dt: 5_000 };
    assert!(!game.step(quiet));
    assert!(game.game_over);
    assert!(game.step(press));
    assert_eq!(game, Game::new(FIELD));
}

#[test]
fn whole_frame_restarts_in_the_frame_the_game_ends() {
    let mut game = Game::new(FIELD);
    game.bricks[3].alive = false;
    game.ball = ball(100, 899, 0, 400);
    let press = Frame { input: IDLE, restart: true, screen: FIELD, dt: 5_000 };
    assert!(game.step(press));
    assert_eq!(game, Game::new(FIELD));
}

#[test]
fn ball_beyond_a_wall_is_not_brought_back() {
    let mut game = Game::new(FIELD);
    game.ball = ball(700, 500, 400, -400);
    game.update(IDLE, FIELD, 1_000_000);
    assert_eq!(game.ball.pos, Vec2 { x: units(1100), y: units(100) });
    assert_eq!(game.ball.vel, Vec2 { x: -400, y: -400 });
    let mut game = Game::new(FIELD);
    game.ball = ball(10, 500, -400, 400);
    game.update(IDLE, FIELD, 500_000);
    assert_eq!(game.ball.pos, Vec2 { x: units(-190), y: units(700) });
    assert_eq!(game.ball.vel, Vec2 { x: 400, y: 400 });
}
