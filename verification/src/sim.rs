//! One fixed-timestep tick: input, paddle motion, wall and paddle
//! collision, serve timing, scoring, and finally ball motion, in the
//! order that keeps paddle positions current before the ball reacts
//! and re-freezes a restarted rally before it could move again.

use vstd::prelude::*;
use crate::collision::{
    bounce_ball, lemma_bounce_vy_bounded, paddle_bounce_step, paddle_overlap, resolve_paddles,
    resolve_walls, wall_step,
};
use crate::input::{apply_input, input_step};
use crate::motion::{ball_motion_step, integrate_ball, integrate_paddle, paddle_motion_step};
use crate::score::{check_scoring, score_step};
use crate::serve::{advance_serve, serve_step};
use crate::state::{BallMode, InputSnapshot, SimModel, SimState};

verus! {

/// One whole tick over the model: the phases of the simulation in
/// their fixed order.
pub open spec fn spec_tick(m: SimModel, input: InputSnapshot, dt_ms: int) -> SimModel {
    ball_motion_step(
        score_step(
            serve_step(
                paddle_bounce_step(wall_step(paddle_motion_step(input_step(m, input)))),
                dt_ms,
            ),
        ),
    )
}

/// A tick preserves well-formedness: from any well-formed state, any
/// input and any elapsed time lead back to a well-formed state, with
/// the configuration untouched and neither counter decreased.
pub proof fn lemma_tick_preserves_wf(m: SimModel, input: InputSnapshot, dt_ms: int)
    requires
        m.wf(),
        0 <= dt_ms,
    ensures
        spec_tick(m, input, dt_ms).wf(),
        spec_tick(m, input, dt_ms).config == m.config,
        spec_tick(m, input, dt_ms).score.p1 >= m.score.p1,
        spec_tick(m, input, dt_ms).score.p2 >= m.score.p2,
{
    let c = m.config;
    let m1 = input_step(m, input);
    let m2 = paddle_motion_step(m1);
    let m3 = wall_step(m2);
    let m4 = paddle_bounce_step(m3);
    let m5 = serve_step(m4, dt_ms);
    let m6 = score_step(m5);
    let m7 = ball_motion_step(m6);
    if m3.ball.mode is Free {
        let halfsum = c.ball_half_h + c.paddle_half_h;
        if paddle_overlap(c, m3.ball, c.left_paddle_x(), m2.left.y) {
            lemma_bounce_vy_bounded(m3.ball.y - m2.left.y, halfsum);
        }
        let after_left = bounce_ball(c, m3.ball, c.left_paddle_x(), m2.left.y);
        if paddle_overlap(c, after_left, c.right_paddle_x(), m2.right.y) {
            lemma_bounce_vy_bounded(after_left.y - m2.right.y, halfsum);
        }
    }
}

impl SimState {
    /// Advances the simulation by one tick: the held keys drive the
    /// paddles, everything moves, collides, serves and scores in the
    /// fixed phase order, with `dt_ms` the elapsed time this tick.
    /// The state stays well-formed and the counters never go down.
    pub fn tick(&mut self, input: InputSnapshot, dt_ms: u64)
        requires
            old(self)@.wf(),
            old(self).score.p1 < u32::MAX,
            old(self).score.p2 < u32::MAX,
        ensures
            final(self)@ == spec_tick(old(self)@, input, dt_ms as int),
            final(self)@.wf(),
            final(self).config == old(self).config,
            final(self).score.p1 >= old(self).score.p1,
            final(self).score.p2 >= old(self).score.p2,
    {
        proof {
            lemma_tick_preserves_wf(old(self)@, input, dt_ms as int);
        }
        apply_input(self, input);
        let ghost m1 = input_step(old(self)@, input);
        let y_min: i64 = -self.config.half_height + self.config.paddle_half_h;
        let y_max: i64 = self.config.half_height - self.config.paddle_half_h;
        let ghost cm = self@.config;
        integrate_paddle(&mut self.left, y_min, y_max, Ghost(cm));
        integrate_paddle(&mut self.right, y_min, y_max, Ghost(cm));
        resolve_walls(self);
        resolve_paddles(self);
        advance_serve(self, dt_ms);
        check_scoring(self);
        integrate_ball(self);
    }
}

} // verus!
