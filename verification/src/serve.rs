//! The serve state machine: while the ball is pinned, a timer counts
//! the respawn delay down by each tick's elapsed time; when it runs
//! out, the ball launches horizontally toward the side it was pinned
//! to and the timer is discarded.

use vstd::prelude::*;
use crate::config::VEL_SCALE;
use crate::state::{Ball, BallMode, BallModel, ServeTimer, Side, SimModel, SimState, TimerModel};

verus! {

/// The horizontal launch velocity for a serve pinned to `side`:
/// toward the left goal for the left paddle, toward the right goal
/// for the right paddle.
pub open spec fn launch_vx(side: Side) -> int {
    match side {
        Side::Left => -VEL_SCALE as int,
        Side::Right => VEL_SCALE as int,
    }
}

/// The serve phase of a tick: with no timer nothing happens; with one,
/// the elapsed time is taken off, and the moment the remainder reaches
/// zero the ball is released — velocity set to the launch velocity,
/// mode back to free — and the timer is dropped. A timer fires at most
/// once: firing destroys it.
pub open spec fn serve_step(m: SimModel, dt_ms: int) -> SimModel {
    match m.timer {
        Some(t) => {
            if t.remaining_ms <= dt_ms {
                SimModel {
                    timer: None,
                    ball: BallModel {
                        vx: launch_vx(t.side),
                        vy: 0,
                        mode: BallMode::Free,
                        ..m.ball
                    },
                    ..m
                }
            } else {
                SimModel {
                    timer: Some(TimerModel { remaining_ms: t.remaining_ms - dt_ms, side: t.side }),
                    ..m
                }
            }
        },
        None => m,
    }
}

/// Advances the serve timer by this tick's elapsed milliseconds,
/// launching the ball when the delay has fully elapsed.
pub fn advance_serve(s: &mut SimState, dt_ms: u64)
    ensures
        final(s)@ == serve_step(old(s)@, dt_ms as int),
{
    match s.timer {
        Some(t) => {
            if t.remaining_ms <= dt_ms {
                let vx: i64 = match t.side {
                    Side::Left => -VEL_SCALE,
                    Side::Right => VEL_SCALE,
                };
                s.ball = Ball { vx, vy: 0, mode: BallMode::Free, ..s.ball };
                s.timer = None;
            } else {
                s.timer = Some(
                    ServeTimer { remaining_ms: t.remaining_ms - dt_ms, side: t.side },
                );
            }
        },
        None => {},
    }
}

} // verus!
