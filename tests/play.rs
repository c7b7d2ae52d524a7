use voxel_pong::game::ball::{Ball, Spin, MAX_BALL_SLEEP_TIME, MIN_BALL_SLEEP_TIME};
use voxel_pong::game::ball_movement::{
    advance_ball, handle_ball_movement_and_score, update_game_state_and_reset, Outcome,
};
use voxel_pong::game::collision::{contains_side, Bounds, Collision, CollisionSide};
use voxel_pong::game::input::{handle_player_input, PlayerMovementTimestamps};
use voxel_pong::game::player::{Player, PlayerSite};
use voxel_pong::game::should_render;
use voxel_pong::game::state::{self, GameState};
use voxel_pong::input::TwoDimensional;

const CALM: Spin = Spin { y_roll: 9, y_up: true, z_roll: 9, z_up: true };

fn far_paddle_2() -> Player {
    let mut p = Player::player_2();
    p.inc_y(-100);
    p.inc_x(-100);
    p
}

#[test]
fn ball_stays_inside_the_grid() {
    let mut ball = Ball::new_with_x(-1);
    for _ in 0..40 {
        ball.apply_movement();
        let (x, y, z) = ball.position();
        assert!((1..=18).contains(&x));
        assert!((1..=18).contains(&y));
        assert!((1..=10).contains(&z));
    }
    assert_eq!(ball.position(), (1, 10, 6));
    let mut ball = Ball::new_with_x(100);
    ball.apply_movement();
    assert_eq!(ball.position(), (18, 10, 6));
}

#[test]
fn paddles_stay_on_their_face() {
    let mut p = Player::player_1();
    assert_eq!(p.full_position(), ((0, 1), 10, 6));
    p.inc_x(100);
    assert_eq!(p.full_position(), ((0, 1), 10, 9));
    p.inc_x(-100);
    assert_eq!(p.full_position(), ((0, 1), 10, 2));
    p.inc_y(i16::MAX);
    assert_eq!(p.full_position(), ((0, 1), 17, 2));
    p.inc_y(i16::MIN);
    assert_eq!(p.full_position(), ((0, 1), 2, 2));
    p.inc_y(3);
    assert_eq!(p.full_position(), ((0, 1), 5, 2));
    assert_eq!(Player::player_2().full_position(), ((19, 18), 10, 6));
    assert_eq!(PlayerSite::Right.get_x(), (19, 18));
}

#[test]
fn wall_reflection_flips_only_touched_axes() {
    let mut ball = Ball::default();
    let push_up = Spin { y_roll: 0, y_up: false, z_roll: 9, z_up: true };
    ball.change_direction_with((false, true, false), &push_up);
    assert_eq!(ball.direction(), (1, -1, 0));
    for _ in 0..9 {
        ball.apply_movement();
    }
    assert_eq!(ball.position(), (18, 1, 6));
    let sides = ball.collides(&Bounds);
    assert_eq!(sides, vec![CollisionSide::Right, CollisionSide::Top]);
    assert!(contains_side(&sides, CollisionSide::Top));
    assert!(!contains_side(&sides, CollisionSide::Left));
    ball.change_direction_with((false, true, false), &CALM);
    assert_eq!(ball.direction(), (1, 1, 0));
    ball.change_direction_with((true, false, true), &CALM);
    assert_eq!(ball.direction(), (-1, 1, 0));
    ball.change_direction_with((false, false, false), &Spin { y_roll: 0, y_up: true, z_roll: 0, z_up: true });
    assert_eq!(ball.direction(), (-1, 1, 0));
}

#[test]
fn spin_chance_depends_on_straightness() {
    let mut ball = Ball::default();
    let roll_five = Spin { y_roll: 5, y_up: true, z_roll: 5, z_up: false };
    ball.change_direction_with((true, false, false), &roll_five);
    assert_eq!(ball.direction(), (-1, 1, -1));
    let mut ball = Ball::default();
    ball.change_direction_with((false, true, false), &Spin { y_roll: 0, y_up: true, z_roll: 9, z_up: true });
    assert_eq!(ball.direction(), (1, 1, 0));
    ball.change_direction_with((false, false, true), &roll_five);
    assert_eq!(ball.direction(), (1, 1, 0));
    ball.change_direction_with((false, false, true), &Spin { y_roll: 9, y_up: true, z_roll: 3, z_up: false });
    assert_eq!(ball.direction(), (1, 1, -1));
}

#[test]
fn random_spin_keeps_reflection_and_unit_steps() {
    for _ in 0..200 {
        let s = Spin::draw();
        assert!(s.y_roll < 10 && s.z_roll < 10);
        let mut ball = Ball::default();
        ball.change_direction((true, false, false));
        let (dx, dy, dz) = ball.direction();
        assert_eq!(dx, -1);
        assert!((-1..=1).contains(&dy));
        assert!((-1..=1).contains(&dz));
    }
}

#[test]
fn speed_up_every_second_collision() {
    let mut ball = Ball::default();
    assert_eq!(ball.movement_intervall(), MAX_BALL_SLEEP_TIME);
    ball.handle_collision();
    assert_eq!(ball.movement_intervall(), 600);
    ball.handle_collision();
    assert_eq!(ball.movement_intervall(), 500);
    ball.handle_collision();
    ball.handle_collision();
    assert_eq!(ball.movement_intervall(), 434);
    let mut last = ball.movement_intervall();
    for _ in 0..100 {
        ball.handle_collision();
        let now = ball.movement_intervall();
        assert!(now <= last);
        assert!(now > MIN_BALL_SLEEP_TIME);
        last = now;
    }
    assert_eq!(last, MIN_BALL_SLEEP_TIME + 2);
}

#[test]
fn score_increments_one_counter() {
    let mut s = GameState::default();
    s.score(&state::Player::Player1);
    assert_eq!(s.points_of(&state::Player::Player1), 1);
    assert_eq!(s.points_of(&state::Player::Player2), 0);
    s.score(&state::Player::Player2);
    s.score(&state::Player::Player2);
    assert_eq!(s.points_of(&state::Player::Player1), 1);
    assert_eq!(s.points_of(&state::Player::Player2), 2);
    assert_eq!(s.fmt_score(), "1:2");
}

#[test]
fn winner_at_threshold() {
    let mut s = GameState::default();
    for _ in 0..5 {
        s.score(&state::Player::Player1);
    }
    for _ in 0..3 {
        s.score(&state::Player::Player2);
    }
    assert_eq!(s.winner(5), Some(state::Player::Player1));
    assert_eq!(s.winner(6), None);
    assert_eq!(s.fmt_score(), "5:3");
    let mut s = GameState::default();
    for _ in 0..4 {
        s.score(&state::Player::Player2);
    }
    assert_eq!(s.winner(5), None);
    s.score(&state::Player::Player2);
    assert_eq!(s.winner(5), Some(state::Player::Player2));
}

#[test]
fn score_text_and_names() {
    let mut s = GameState::default();
    assert_eq!(s.fmt_score(), "0:0");
    for _ in 0..120 {
        s.score(&state::Player::Player1);
    }
    for _ in 0..15 {
        s.score(&state::Player::Player2);
    }
    assert_eq!(s.fmt_score(), "120:15");
    assert_eq!(state::Player::Player1.to_string(), "Player 1");
    assert_eq!(state::Player::Player2.to_string(), "Player 2");
}

#[test]
fn paddle_collision_follows_the_footprint() {
    let mut ball = Ball::default();
    for _ in 0..7 {
        ball.apply_movement();
    }
    assert_eq!(ball.position(), (17, 10, 6));
    let paddle_2 = Player::player_2();
    assert!(ball.collides(&paddle_2));
    let mut shifted = Player::player_2();
    shifted.inc_y(2);
    assert!(ball.collides(&shifted));
    shifted.inc_y(1);
    assert!(!ball.collides(&shifted));
    assert!(!ball.collides(&Player::player_1()));
    let mut early = Ball::default();
    for _ in 0..5 {
        early.apply_movement();
    }
    assert_eq!(early.position(), (15, 10, 6));
    assert!(!early.collides(&paddle_2));
}

#[test]
fn paddle_hit_reverses_x_and_blocks_the_point() {
    let mut ball = Ball::default();
    for _ in 0..8 {
        ball.apply_movement();
    }
    assert_eq!(ball.position(), (18, 10, 6));
    let scored = advance_ball(&mut ball, &Player::player_1(), &Player::player_2(), &CALM);
    assert_eq!(scored, None);
    assert_eq!(ball.direction(), (-1, 0, 0));
    assert_eq!(ball.position(), (17, 10, 6));
}

#[test]
fn serve_goes_to_the_player_who_conceded() {
    let mut ball = Ball::new_with_x(-1);
    let mut left_paddle_away = Player::player_1();
    left_paddle_away.inc_y(-100);
    let paddle_2 = Player::player_2();
    let mut scored = None;
    for _ in 0..20 {
        scored = advance_ball(&mut ball, &left_paddle_away, &paddle_2, &CALM);
        if scored.is_some() {
            break;
        }
    }
    assert_eq!(scored, Some(state::Player::Player2));
    let mut s = GameState::default();
    match update_game_state_and_reset(&state::Player::Player2, &mut s, 5) {
        Outcome::Serve(a, b, ball) => {
            assert_eq!(ball.direction(), (-1, 0, 0));
            assert_eq!(ball.position(), (10, 10, 6));
            assert_eq!(a.full_position(), ((0, 1), 10, 6));
            assert_eq!(b.full_position(), ((19, 18), 10, 6));
        }
        Outcome::Won(_) => panic!("no winner yet"),
    }
    match update_game_state_and_reset(&state::Player::Player1, &mut s, 5) {
        Outcome::Serve(_, _, ball) => assert_eq!(ball.direction(), (1, 0, 0)),
        Outcome::Won(_) => panic!("no winner yet"),
    }
    assert_eq!(s.fmt_score(), "1:1");
}

#[test]
fn match_ends_at_winning_points() {
    let mut s = GameState::default();
    for _ in 0..2 {
        s.score(&state::Player::Player2);
    }
    match update_game_state_and_reset(&state::Player::Player2, &mut s, 3) {
        Outcome::Won(w) => assert_eq!(w, state::Player::Player2),
        Outcome::Serve(..) => panic!("player 2 has won"),
    }
}

#[test]
fn ball_from_centre_scores_for_player_1_at_right_wall() {
    let mut ball = Ball::default();
    assert_eq!(ball.position(), (10, 10, 6));
    assert_eq!(ball.direction(), (1, 0, 0));
    let paddle_1 = Player::player_1();
    let paddle_2 = far_paddle_2();
    for tick in 0..8 {
        assert_eq!(advance_ball(&mut ball, &paddle_1, &paddle_2, &CALM), None, "tick {tick}");
    }
    assert_eq!(ball.position(), (18, 10, 6));
    assert_eq!(ball.collides(&Bounds), vec![CollisionSide::Right]);
    assert_eq!(
        advance_ball(&mut ball, &paddle_1, &paddle_2, &CALM),
        Some(state::Player::Player1)
    );
}

#[test]
fn ball_moves_only_when_due() {
    let mut ball = Ball::default();
    let paddle_1 = Player::player_1();
    let paddle_2 = far_paddle_2();
    let mut last: u64 = 1000;
    assert_eq!(handle_ball_movement_and_score(&mut ball, &paddle_1, &paddle_2, &mut last, 1599), None);
    assert_eq!(last, 1000);
    assert_eq!(ball.position(), (10, 10, 6));
    assert_eq!(handle_ball_movement_and_score(&mut ball, &paddle_1, &paddle_2, &mut last, 500), None);
    assert_eq!(last, 1000);
    assert_eq!(handle_ball_movement_and_score(&mut ball, &paddle_1, &paddle_2, &mut last, 1600), None);
    assert_eq!(last, 1600);
    assert_eq!(ball.position(), (11, 10, 6));
}

#[test]
fn stick_moves_paddle_when_delay_has_passed() {
    let mut p = Player::player_1();
    let mut ts = PlayerMovementTimestamps::default();
    let movement = TwoDimensional { x: 1i16, y: -1i16 };
    let activation = TwoDimensional { x: Some(100u64), y: None };
    handle_player_input(&mut p, &mut ts, &movement, &activation, 50);
    assert_eq!(p.full_position(), ((0, 1), 10, 6));
    assert_eq!((ts.x, ts.y), (0, 0));
    handle_player_input(&mut p, &mut ts, &movement, &activation, 100);
    assert_eq!(p.full_position(), ((0, 1), 10, 7));
    assert_eq!((ts.x, ts.y), (100, 0));
    let activation = TwoDimensional { x: Some(100u64), y: Some(20u64) };
    handle_player_input(&mut p, &mut ts, &movement, &activation, 150);
    assert_eq!(p.full_position(), ((0, 1), 9, 7));
    assert_eq!((ts.x, ts.y), (100, 150));
}

#[test]
fn frames_render_ten_times_a_second() {
    assert!(!should_render(0, 99));
    assert!(should_render(0, 100));
    assert!(should_render(250, 400));
    assert!(!should_render(400, 250));
}
