use pong::config::{COORD_SCALE, VEL_SCALE};
use pong::{BallMode, InputSnapshot, Side, SimConfig, SimState};

fn px(n: i64) -> i64 {
    n * COORD_SCALE
}

fn standard_state() -> SimState {
    let c = SimConfig::new(px(800), px(600), px(40), px(200), px(40), px(40), 2000).unwrap();
    SimState::new(c)
}

fn no_keys() -> InputSnapshot {
    InputSnapshot { p1_up: false, p1_down: false, p2_up: false, p2_down: false }
}

#[test]
fn the_whole_delay_in_one_step_launches_leftward() {
    let mut s = standard_state();
    assert!(matches!(s.ball.mode, BallMode::TrackingPaddle(Side::Left)));
    s.tick(no_keys(), 2000);
    assert!(matches!(s.ball.mode, BallMode::Free));
    assert_eq!(s.ball.vx, -VEL_SCALE);
    assert_eq!(s.ball.vy, 0);
    assert!(s.timer.is_none());
}

#[test]
fn forty_small_steps_launch_exactly_once() {
    let mut s = standard_state();
    let mut launches = 0;
    for _ in 0..40 {
        let was_pinned = s.timer.is_some();
        s.tick(no_keys(), 50);
        if was_pinned && s.timer.is_none() {
            launches += 1;
        }
    }
    assert_eq!(launches, 1);
    assert!(matches!(s.ball.mode, BallMode::Free));
    assert_eq!(s.ball.vx, -VEL_SCALE);
    assert_eq!(s.ball.vy, 0);
}

#[test]
fn the_timer_survives_short_of_the_delay() {
    let mut s = standard_state();
    for _ in 0..39 {
        s.tick(no_keys(), 50);
        assert!(matches!(s.ball.mode, BallMode::TrackingPaddle(Side::Left)));
        assert_eq!(s.ball.vx, 0);
        assert_eq!(s.ball.vy, 0);
    }
    let timer = s.timer.expect("the delay has not elapsed yet");
    assert_eq!(timer.remaining_ms, 50);
}

#[test]
fn a_spent_timer_never_fires_again() {
    let mut s = standard_state();
    s.tick(no_keys(), 2000);
    assert!(s.timer.is_none());
    let vx_after_launch = s.ball.vx;
    // Further ticks with huge elapsed times change nothing about the
    // serve: the timer is gone until the next point.
    s.tick(no_keys(), 10_000);
    assert!(s.timer.is_none());
    assert!(matches!(s.ball.mode, BallMode::Free));
    assert_eq!(s.ball.vx, vx_after_launch);
}
