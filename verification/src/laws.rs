//! Laws that relate several phases of the simulation: wall reflection
//! is an involution, scoring is mutually exclusive, and one serve
//! timer launches the ball exactly once, whatever the tick
//! granularity.

use vstd::prelude::*;
use crate::collision::wall_step;
use crate::score::{crossed_left, crossed_right, score_step};
use crate::serve::launch_vx;
use crate::motion::paddle_motion_step;
use crate::sim::{lemma_tick_preserves_wf, spec_tick};
use crate::state::{BallMode, InputSnapshot, Side, SimModel, TimerModel};

verus! {

/// Wall collision is a pure reflection: one overlapping pass negates
/// the vertical velocity and touches nothing else, so a second
/// immediate pass gives the original state back — the sign flip is an
/// involution.
pub proof fn lemma_wall_reflection_involution(m: SimModel)
    ensures
        wall_step(wall_step(m)) == m,
{
    assert(wall_step(wall_step(m)) =~= m);
}

/// Scoring is mutually exclusive: on a validated field the ball can
/// never poke past both goal lines at once, so at most one counter
/// moves per tick — the crossed line's own, by exactly one point.
pub proof fn lemma_scoring_exclusive(m: SimModel)
    requires
        m.config.valid(),
    ensures
        !(crossed_left(m.config, m.ball) && crossed_right(m.config, m.ball)),
        m.ball.mode is Free && crossed_left(m.config, m.ball) ==> score_step(m).score.p2 == m.score.p2
            + 1 && score_step(m).score.p1 == m.score.p1,
        m.ball.mode is Free && crossed_right(m.config, m.ball) ==> score_step(m).score.p1
            == m.score.p1 + 1 && score_step(m).score.p2 == m.score.p2,
        !(m.ball.mode is Free && (crossed_left(m.config, m.ball) || crossed_right(m.config, m.ball)))
            ==> score_step(m).score == m.score,
{
}

/// After the motion phase, every bounded entity — both paddles —
/// stands inside its configured bounds, whatever held before, and the
/// clamp is non-destructive: only the position is corrected, the
/// velocity is left as it was.
pub proof fn lemma_motion_clamps_paddles(m: SimModel)
    requires
        m.config.valid(),
    ensures
        m.config.paddle_y_min() <= paddle_motion_step(m).left.y <= m.config.paddle_y_max(),
        m.config.paddle_y_min() <= paddle_motion_step(m).right.y <= m.config.paddle_y_max(),
        paddle_motion_step(m).left.vy == m.left.vy,
        paddle_motion_step(m).right.vy == m.right.vy,
{
}

/// A run of ticks, each with its input snapshot and its elapsed
/// milliseconds, applied in order.
pub open spec fn run_ticks(m: SimModel, ticks: Seq<(InputSnapshot, int)>) -> SimModel
    decreases ticks.len(),
{
    if ticks.len() == 0 {
        m
    } else {
        spec_tick(run_ticks(m, ticks.drop_last()), ticks.last().0, ticks.last().1)
    }
}

/// The elapsed time of a run of ticks.
pub open spec fn total_dt(ticks: Seq<(InputSnapshot, int)>) -> int
    decreases ticks.len(),
{
    if ticks.len() == 0 {
        0
    } else {
        total_dt(ticks.drop_last()) + ticks.last().1
    }
}

/// Whether the serve fires within the given tick: a live timer whose
/// remainder the tick's elapsed time uses up.
pub open spec fn serve_fires(m: SimModel, dt_ms: int) -> bool {
    m.timer matches Some(t) && t.remaining_ms <= dt_ms
}

/// How many ticks of a run fire a serve.
pub open spec fn launch_count(m: SimModel, ticks: Seq<(InputSnapshot, int)>) -> nat
    decreases ticks.len(),
{
    if ticks.len() == 0 {
        0
    } else {
        launch_count(m, ticks.drop_last()) + if serve_fires(
            run_ticks(m, ticks.drop_last()),
            ticks.last().1,
        ) {
            1nat
        } else {
            0nat
        }
    }
}

/// Every tick's elapsed time is non-negative.
pub open spec fn dts_non_negative(ticks: Seq<(InputSnapshot, int)>) -> bool {
    forall|i: int| 0 <= i < ticks.len() ==> ticks[i].1 >= 0
}

/// While a serve's delay has not fully elapsed, no tick fires it: the
/// timer survives the whole run with exactly the elapsed time taken
/// off, the ball stays pinned to the serving side, and the score does
/// not move.
pub proof fn lemma_serve_countdown(
    m: SimModel,
    ticks: Seq<(InputSnapshot, int)>,
    r: int,
    side: Side,
)
    requires
        m.wf(),
        m.timer == Some(TimerModel { remaining_ms: r, side }),
        dts_non_negative(ticks),
        total_dt(ticks) < r,
    ensures
        run_ticks(m, ticks).wf(),
        run_ticks(m, ticks).timer == Some(
            TimerModel { remaining_ms: r - total_dt(ticks), side },
        ),
        run_ticks(m, ticks).ball.mode == BallMode::TrackingPaddle(side),
        run_ticks(m, ticks).score == m.score,
        launch_count(m, ticks) == 0,
    decreases ticks.len(),
{
    if ticks.len() == 0 {
    } else {
        let prefix = ticks.drop_last();
        let (input, dt) = ticks.last();
        lemma_serve_countdown(m, prefix, r, side);
        lemma_tick_preserves_wf(run_ticks(m, prefix), input, dt);
    }
}

/// One serve timer launches the ball exactly once: the first tick
/// whose cumulative elapsed time reaches the delay — at whatever
/// granularity time advances — fires it, no tick before does, and the
/// firing tick leaves the ball free with the launch velocity toward
/// the pinned side and the timer destroyed, so the same timer can
/// never fire again.
pub proof fn lemma_serve_fires_once(
    m: SimModel,
    ticks: Seq<(InputSnapshot, int)>,
    r: int,
    side: Side,
    k: int,
)
    requires
        m.wf(),
        m.timer == Some(TimerModel { remaining_ms: r, side }),
        dts_non_negative(ticks),
        0 <= k < ticks.len(),
        total_dt(ticks.take(k)) < r,
        total_dt(ticks.take(k + 1)) >= r,
    ensures
        launch_count(m, ticks.take(k)) == 0,
        launch_count(m, ticks.take(k + 1)) == 1,
        run_ticks(m, ticks.take(k + 1)).timer is None,
        run_ticks(m, ticks.take(k + 1)).ball.mode == BallMode::Free,
        run_ticks(m, ticks.take(k + 1)).ball.vx == launch_vx(side),
        run_ticks(m, ticks.take(k + 1)).ball.vy == 0,
{
    let prefix = ticks.take(k);
    let step = ticks.take(k + 1);
    lemma_serve_countdown(m, prefix, r, side);
    let before = run_ticks(m, prefix);
    assert(step.drop_last() =~= prefix);
    lemma_tick_preserves_wf(before, ticks[k].0, ticks[k].1);
}

} // verus!
