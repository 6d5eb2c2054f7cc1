use pong::config::{COORD_SCALE, VEL_SCALE};
use pong::input::input_velocity;
use pong::{InputSnapshot, SimConfig, SimState};

fn standard_state() -> SimState {
    let c = SimConfig::new(
        800 * COORD_SCALE,
        600 * COORD_SCALE,
        40 * COORD_SCALE,
        200 * COORD_SCALE,
        40 * COORD_SCALE,
        40 * COORD_SCALE,
        2000,
    )
    .unwrap();
    SimState::new(c)
}

#[test]
fn up_alone_drives_up() {
    assert_eq!(input_velocity(true, false), VEL_SCALE);
}

#[test]
fn down_alone_drives_down() {
    assert_eq!(input_velocity(false, true), -VEL_SCALE);
}

#[test]
fn neither_key_rests() {
    assert_eq!(input_velocity(false, false), 0);
}

#[test]
fn both_keys_cancel() {
    assert_eq!(input_velocity(true, true), 0);
}

#[test]
fn snapshot_drives_each_paddle_separately() {
    let mut s = standard_state();
    let input = InputSnapshot { p1_up: true, p1_down: false, p2_up: true, p2_down: true };
    s.tick(input, 16);
    assert_eq!(s.left.vy, VEL_SCALE);
    assert_eq!(s.right.vy, 0);
}
