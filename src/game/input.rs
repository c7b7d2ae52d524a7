use vstd::prelude::*;

use crate::game::player::{clamp, Player};
use crate::game::pad::PADDING;
use crate::input::{ActivationTimes, Movement};
use crate::voxelbox::{DEEPTH, HEIGHT};

verus! {

/// When each axis of a player's stick last moved the paddle, in milliseconds.
#[derive(Debug, Clone, Copy)]
pub struct PlayerMovementTimestamps {
    pub x: u64,
    pub y: u64,
}

impl Default for PlayerMovementTimestamps {
    /// Both axes last moved at the start of the clock.
    fn default() -> (t: Self)
        ensures
            t.x == 0 && t.y == 0,
    {
        PlayerMovementTimestamps { x: 0, y: 0 }
    }
}

/// Whether an axis that last moved at `last` repeats its step at `now`: the stick
/// is out of its dead zone and its delay has passed.
pub open spec fn axis_due(last: u64, now: u64, delay: Option<u64>) -> bool {
    delay matches Some(d) && last <= now && now - last >= d
}

fn axis_ready(last: u64, now: u64, delay: Option<u64>) -> (r: bool)
    ensures
        r == axis_due(last, now, delay),
{
    match delay {
        Some(d) => last <= now && now - last >= d,
        None => false,
    }
}

/// Moves a paddle as a stick asks: the x axis of the stick moves the paddle along
/// the depth axis, the y axis along the height axis, each only when it is due; an
/// axis that moves records `now`.
pub fn handle_player_input(
    player: &mut Player,
    timestamps: &mut PlayerMovementTimestamps,
    movement: &Movement,
    activation: &ActivationTimes,
    now: u64,
)
    ensures
        final(player).is_paddle(
            old(player).spec_paint(),
            old(player).spec_site(),
            if axis_due(old(timestamps).y, now, activation.y) {
                clamp(old(player).spec_height() + movement.y, PADDING as int, HEIGHT - 1 - PADDING)
            } else {
                old(player).spec_height() as int
            },
            if axis_due(old(timestamps).x, now, activation.x) {
                clamp(old(player).spec_depth() + movement.x, PADDING as int, DEEPTH - 1 - PADDING)
            } else {
                old(player).spec_depth() as int
            },
        ),
        final(timestamps).x == if axis_due(old(timestamps).x, now, activation.x) {
            now
        } else {
            old(timestamps).x
        },
        final(timestamps).y == if axis_due(old(timestamps).y, now, activation.y) {
            now
        } else {
            old(timestamps).y
        },
{
    if axis_ready(timestamps.x, now, activation.x) {
        player.inc_x(movement.x);
        timestamps.x = now;
    }
    if axis_ready(timestamps.y, now, activation.y) {
        player.inc_y(movement.y);
        timestamps.y = now;
    }
}

} // verus!
