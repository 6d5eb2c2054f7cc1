//! Input mapping: two held-key flags per paddle become a vertical
//! intent of plus one, minus one or zero — both keys held cancel out.

use vstd::prelude::*;
use crate::config::VEL_SCALE;
use crate::state::{InputSnapshot, Paddle, PaddleModel, SimModel, SimState};

verus! {

/// Vertical intent from a pair of held keys: up alone is `1`, down
/// alone is `-1`, neither or both is `0`.
pub open spec fn spec_intent(up: bool, down: bool) -> int {
    if up && !down {
        1
    } else if down && !up {
        -1
    } else {
        0
    }
}

/// The paddle velocity a pair of held keys commands.
pub open spec fn spec_input_velocity(up: bool, down: bool) -> int {
    VEL_SCALE * spec_intent(up, down)
}

/// The input phase of a tick: each paddle's velocity is overwritten by
/// what its keys command; nothing else changes.
pub open spec fn input_step(m: SimModel, input: InputSnapshot) -> SimModel {
    SimModel {
        left: PaddleModel { y: m.left.y, vy: spec_input_velocity(input.p1_up, input.p1_down) },
        right: PaddleModel { y: m.right.y, vy: spec_input_velocity(input.p2_up, input.p2_down) },
        ..m
    }
}

/// Maps one paddle's held keys to its velocity for this tick.
pub fn input_velocity(up: bool, down: bool) -> (v: i64)
    ensures
        v == spec_input_velocity(up, down),
{
    if up && !down {
        VEL_SCALE
    } else if down && !up {
        -VEL_SCALE
    } else {
        0
    }
}

/// Writes each paddle's velocity from the tick's input snapshot; no
/// other field of the state changes. Never fails.
pub fn apply_input(s: &mut SimState, input: InputSnapshot)
    ensures
        final(s)@ == input_step(old(s)@, input),
{
    s.left = Paddle { y: s.left.y, vy: input_velocity(input.p1_up, input.p1_down) };
    s.right = Paddle { y: s.right.y, vy: input_velocity(input.p2_up, input.p2_down) };
}

} // verus!
