pub mod pad;
pub mod player;
pub mod ball;
pub mod collision;
pub mod state;
pub mod ball_movement;
pub mod input;

use vstd::prelude::*;

use crate::color::Rgb;
use crate::voxelbox::{dark, painted, Draw, Voxelbox};
use ball::Ball;
use player::{paddle_picture, Player};

verus! {

/// Milliseconds between two rendered frames: ten frames a second.
pub const RENDER_FRAME_MS: u64 = 100;

/// Whether a frame is due at `now`, the last one having been rendered at
/// `last_render` (both in milliseconds).
pub open spec fn frame_due(last_render: u64, now: u64) -> bool {
    last_render <= now && now - last_render >= RENDER_FRAME_MS
}

/// Tests whether a frame is due at `now`.
pub fn should_render(last_render: u64, now: u64) -> (r: bool)
    ensures
        r == frame_due(last_render, now),
{
    last_render <= now && now - last_render >= RENDER_FRAME_MS
}

/// The picture of a frame: both paddles over a black grid, then the ball on top.
pub open spec fn scene(player_1: &Player, player_2: &Player, ball: &Ball) -> Seq<Rgb> {
    painted(
        paddle_picture(paddle_picture(dark(), player_1), player_2),
        ball.cells(),
        ball.spec_color(),
    )
}

/// Draws a frame into the display's buffer: clears it, draws both paddles, then
/// the ball.
pub fn render(vbox: &mut Voxelbox, player_1: &Player, player_2: &Player, ball: &Ball)
    requires
        old(vbox).wf(),
    ensures
        final(vbox).wf(),
        final(vbox)@ == scene(player_1, player_2, ball),
        final(vbox).spec_ip() == old(vbox).spec_ip(),
        final(vbox).spec_port() == old(vbox).spec_port(),
{
    vbox.reset_leds();
    let _ = player_1.draw_pad(vbox);
    let _ = player_2.draw_pad(vbox);
    vbox.draw(ball);
}

} // verus!
