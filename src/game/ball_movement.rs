use vstd::prelude::*;

use crate::color::Rgb;
use crate::game::ball::{
    after_collision,
    deflected,
    direction_ok,
    moved,
    Ball,
    Motion,
    Spin,
    BALL_PADDING,
    MAX_BALL_SLEEP_TIME,
};
use crate::game::collision::{
    contains_side,
    has_side,
    hits_paddle,
    touching_sides,
    Bounds,
    Collision,
    CollisionSide,
    lemma_touching_sides,
    touches,
};
use crate::game::player::{Player, PlayerSite};
use crate::game::state::{self, winner_of, GameState};
use crate::voxelbox::{DEEPTH, HEIGHT, WIDTH};

verus! {

/// Which axes reverse after a resolver pass: x when a paddle is hit, y when the
/// top or bottom wall is touched, z when the front or back wall is touched.
pub open spec fn collision_axes(sides: Seq<CollisionSide>, paddle_hit: bool) -> (bool, bool, bool) {
    (
        paddle_hit,
        has_side(sides, CollisionSide::Top) || has_side(sides, CollisionSide::Bottom),
        has_side(sides, CollisionSide::Front) || has_side(sides, CollisionSide::Back),
    )
}

/// Who scores in a tick: nobody when a paddle is hit; otherwise player 1 when
/// the ball touches the right face, player 2 when it touches the left one.
pub open spec fn scorer(sides: Seq<CollisionSide>, paddle_hit: bool) -> Option<state::Player> {
    if paddle_hit {
        None
    } else if has_side(sides, CollisionSide::Right) {
        Some(state::Player::Player1)
    } else if has_side(sides, CollisionSide::Left) {
        Some(state::Player::Player2)
    } else {
        None
    }
}

/// Whether a ball at `p` hits either paddle.
pub open spec fn hits_either(
    p: (u8, u8, u8),
    paddle_1: ((u8, u8), u8, u8),
    paddle_2: ((u8, u8), u8, u8),
) -> bool {
    hits_paddle(p, paddle_1) || hits_paddle(p, paddle_2)
}

/// The ball after one tick: resolve collisions, turn, count the collision, move.
pub open spec fn ball_tick(
    m: Motion,
    paddle_1: ((u8, u8), u8, u8),
    paddle_2: ((u8, u8), u8, u8),
    spin: Spin,
) -> Motion {
    let hit = hits_either(m.position, paddle_1, paddle_2);
    let sides = touching_sides(m.position);
    let turned = Motion {
        direction: deflected(m.direction, collision_axes(sides, hit), spin),
        ..m
    };
    let counted = if hit || sides.len() > 0 {
        after_collision(turned)
    } else {
        turned
    };
    Motion { position: moved(counted.position, counted.direction), ..counted }
}

/// Who scores when the ball ticks from `m`.
pub open spec fn tick_scorer(
    m: Motion,
    paddle_1: ((u8, u8), u8, u8),
    paddle_2: ((u8, u8), u8, u8),
) -> Option<state::Player> {
    scorer(touching_sides(m.position), hits_either(m.position, paddle_1, paddle_2))
}

/// Whether the ball is due to move at `now`, having last moved at `last_move`.
pub open spec fn movement_due(last_move: u64, now: u64, interval: u64) -> bool {
    last_move <= now && now - last_move >= interval
}

/// One tick of the ball with the spin draws given: collisions against both
/// paddles and the walls, the turn, the speed-up, the move, and who scores.
pub fn advance_ball(ball: &mut Ball, player_1: &Player, player_2: &Player, spin: &Spin) -> (r:
    Option<state::Player>)
    ensures
        final(ball)@ == ball_tick(
            old(ball)@,
            player_1.spec_full_position(),
            player_2.spec_full_position(),
            *spin,
        ),
        final(ball).spec_paint() == old(ball).spec_paint(),
        r == tick_scorer(old(ball)@, player_1.spec_full_position(), player_2.spec_full_position()),
{
    let p1_collision = ball.collides(player_1);
    let p2_collision = ball.collides(player_2);
    let colliding_sides = ball.collides(&Bounds);
    let hit = p1_collision || p2_collision;
    let top = contains_side(&colliding_sides, CollisionSide::Top);
    let bottom = contains_side(&colliding_sides, CollisionSide::Bottom);
    let front = contains_side(&colliding_sides, CollisionSide::Front);
    let back = contains_side(&colliding_sides, CollisionSide::Back);
    ball.change_direction_with((hit, top || bottom, front || back), spin);
    if colliding_sides.len() > 0 || hit {
        ball.handle_collision();
    }
    ball.apply_movement();
    if hit {
        None
    } else if contains_side(&colliding_sides, CollisionSide::Right) {
        Some(state::Player::Player1)
    } else if contains_side(&colliding_sides, CollisionSide::Left) {
        Some(state::Player::Player2)
    } else {
        None
    }
}

/// Moves the ball if its movement interval has passed since `last_move` (both
/// times in milliseconds), drawing the spin at random, and reports who scores.
pub fn handle_ball_movement_and_score(
    ball: &mut Ball,
    player_1: &Player,
    player_2: &Player,
    last_move: &mut u64,
    now: u64,
) -> (r: Option<state::Player>)
    ensures
        movement_due(*old(last_move), now, old(ball)@.movement_intervall) ==> {
            &&& *final(last_move) == now
            &&& exists|s: Spin|
                s.wf() && final(ball)@ == ball_tick(
                    old(ball)@,
                    player_1.spec_full_position(),
                    player_2.spec_full_position(),
                    s,
                )
            &&& r == tick_scorer(
                old(ball)@,
                player_1.spec_full_position(),
                player_2.spec_full_position(),
            )
        },
        !movement_due(*old(last_move), now, old(ball)@.movement_intervall) ==> {
            &&& *final(last_move) == *old(last_move)
            &&& final(ball)@ == old(ball)@
            &&& r is None
        },
        final(ball).spec_paint() == old(ball).spec_paint(),
{
    let interval = ball.movement_intervall();
    if *last_move <= now && now - *last_move >= interval {
        *last_move = now;
        let spin = Spin::draw();
        advance_ball(ball, player_1, player_2, &spin)
    } else {
        None
    }
}

/// Reflection: in one resolver pass x reverses exactly when a paddle is hit, and a
/// moving y or z part reverses exactly when the ball rests against one of the two
/// walls across that axis; every other moving part keeps its value.
pub proof fn lemma_reflection(p: (u8, u8, u8), d: (i8, i8, i8), paddle_hit: bool, spin: Spin)
    requires
        direction_ok(d),
    ensures
        ({
            let t = deflected(d, collision_axes(touching_sides(p), paddle_hit), spin);
            &&& t.0 == if paddle_hit {
                -d.0
            } else {
                d.0 as int
            }
            &&& d.1 != 0 ==> t.1 == if p.1 == BALL_PADDING || p.1 == HEIGHT - 1 - BALL_PADDING {
                -d.1
            } else {
                d.1 as int
            }
            &&& d.2 != 0 ==> t.2 == if p.2 == BALL_PADDING || p.2 == DEEPTH - 1 - BALL_PADDING {
                -d.2
            } else {
                d.2 as int
            }
        }),
{
    lemma_touching_sides(p);
    assert(has_side(touching_sides(p), CollisionSide::Top) == touches(p, CollisionSide::Top));
    assert(has_side(touching_sides(p), CollisionSide::Bottom) == touches(p, CollisionSide::Bottom));
    assert(has_side(touching_sides(p), CollisionSide::Front) == touches(p, CollisionSide::Front));
    assert(has_side(touching_sides(p), CollisionSide::Back) == touches(p, CollisionSide::Back));
}

/// The x direction of the serve after `scorer` scores: towards the player who
/// conceded.
pub open spec fn serve_direction(scorer: state::Player) -> i8 {
    match scorer {
        state::Player::Player1 => 1i8,
        state::Player::Player2 => -1i8,
    }
}

/// The serve goes towards the player who conceded: player 2 scores only when the
/// ball rests against player 1's (left) face, and the serve then heads to
/// negative x; player 1 scores only at the right face, and the serve heads to
/// positive x.
pub proof fn lemma_serve_toward_conceder(
    m: Motion,
    paddle_1: ((u8, u8), u8, u8),
    paddle_2: ((u8, u8), u8, u8),
)
    ensures
        tick_scorer(m, paddle_1, paddle_2) == Some(state::Player::Player2) ==> touches(
            m.position,
            CollisionSide::Left,
        ) && serve_direction(state::Player::Player2) < 0,
        tick_scorer(m, paddle_1, paddle_2) == Some(state::Player::Player1) ==> touches(
            m.position,
            CollisionSide::Right,
        ) && serve_direction(state::Player::Player1) > 0,
{
    lemma_touching_sides(m.position);
    assert(has_side(touching_sides(m.position), CollisionSide::Left) == touches(
        m.position,
        CollisionSide::Left,
    ));
    assert(has_side(touching_sides(m.position), CollisionSide::Right) == touches(
        m.position,
        CollisionSide::Right,
    ));
}

/// After a point that does not end the match, the serve heads towards the player
/// who conceded: towards player 1's face (negative x) when player 2 scored, and
/// towards player 2's face (positive x) when player 1 scored.
pub proof fn lemma_serve_after_point(
    before: GameState,
    after: GameState,
    scorer: state::Player,
    winning_points: u8,
)
    requires
        after.points(scorer) == before.points(scorer) + 1,
        forall|q: state::Player| q != scorer ==> after.points(q) == before.points(q),
        after.points(state::Player::Player1) < winning_points,
        after.points(state::Player::Player2) < winning_points,
    ensures
        winner_of(after, winning_points) is None,
        scorer == state::Player::Player2 ==> serve_direction(scorer) == -1,
        scorer == state::Player::Player1 ==> serve_direction(scorer) == 1,
{
}

/// What follows a point: a fresh serve, or the end of the match.
pub enum Outcome {
    Serve(Player, Player, Ball),
    Won(state::Player),
}

/// Whether `b` is a fresh ball served along x by `x`.
pub open spec fn is_serve(b: Ball, x: i8) -> bool {
    &&& b@ == (Motion {
        position: ((WIDTH / 2) as u8, (HEIGHT / 2) as u8, (DEEPTH / 2) as u8),
        direction: (x, 0, 0),
        collisions_since_speed_inc: 0,
        movement_intervall: MAX_BALL_SLEEP_TIME,
    })
    &&& b.spec_paint() == Rgb(219, 39, 119)
}

/// Gives `player` a point; then either the match is won, or both paddles and the
/// ball are reset, the ball served towards the player who conceded.
pub fn update_game_state_and_reset(
    player: &state::Player,
    state: &mut GameState,
    winning_points: u8,
) -> (r: Outcome)
    requires
        old(state).points(*player) < u8::MAX,
    ensures
        final(state).points(*player) == old(state).points(*player) + 1,
        forall|q: state::Player| q != *player ==> final(state).points(q) == old(state).points(q),
        winner_of(*final(state), winning_points) matches Some(w) ==> (r matches Outcome::Won(v)
            && v == w),
        winner_of(*final(state), winning_points) is None ==> (r matches Outcome::Serve(paddle_1, paddle_2, b)
            && paddle_1.is_paddle(
            Rgb(22, 163, 74),
            PlayerSite::Left,
            (HEIGHT / 2) as int,
            (DEEPTH / 2) as int,
        ) && paddle_2.is_paddle(
            Rgb(234, 179, 8),
            PlayerSite::Right,
            (HEIGHT / 2) as int,
            (DEEPTH / 2) as int,
        ) && is_serve(b, serve_direction(*player))),
{
    state.score(player);
    if let Some(winner) = state.winner(winning_points) {
        return Outcome::Won(winner);
    }
    let new_x: i8 = match player {
        state::Player::Player1 => 1,
        state::Player::Player2 => -1,
    };
    Outcome::Serve(Player::player_1(), Player::player_2(), Ball::new_with_x(new_x))
}

} // verus!
