use rollback_core::input::{encode, Input};
use rollback_core::sim::{
    checksum, step, FrameInputs, PlayerState, SimState, ARENA_HEIGHT, GRAVITY, JUMP_SPEED,
    MOVE_SPEED, START_X_P0, START_X_P1, START_Y,
};

fn no_input() -> FrameInputs {
    FrameInputs::none()
}

#[test]
fn initial_state_positions() {
    let s = SimState::initial();
    assert_eq!(s.p0.x, START_X_P0);
    assert_eq!(s.p1.x, START_X_P1);
    assert_eq!(s.p0.y, START_Y);
    assert_eq!(s.p1.y, START_Y);
    assert_eq!(s.p0.vx, 0);
    assert_eq!(s.p0.vy, 0);
}

#[test]
fn step_moves_left_and_right() {
    let s = SimState::initial();
    let left = FrameInputs { p0: encode(true, false, false, false), p1: Input::none() };
    let t = step(&s, &left);
    assert_eq!(t.p0.vx, -MOVE_SPEED);
    assert_eq!(t.p0.x, START_X_P0 - MOVE_SPEED);
    let right = FrameInputs { p0: encode(false, true, false, false), p1: Input::none() };
    let u = step(&s, &right);
    assert_eq!(u.p0.vx, MOVE_SPEED);
    assert_eq!(u.p0.x, START_X_P0 + MOVE_SPEED);
    // Left wins when both are held.
    let both = FrameInputs { p0: encode(true, true, false, false), p1: Input::none() };
    assert_eq!(step(&s, &both).p0.vx, -MOVE_SPEED);
}

#[test]
fn step_jump_launches_upward() {
    let s = SimState::initial();
    let jump = FrameInputs { p0: encode(false, false, true, false), p1: Input::none() };
    let t = step(&s, &jump);
    assert_eq!(t.p0.vy, JUMP_SPEED);
    assert_eq!(t.p0.y, START_Y + JUMP_SPEED);
    // The untouched player just falls under gravity.
    assert_eq!(t.p1.vy, -GRAVITY);
    assert_eq!(t.p1.y, START_Y - GRAVITY);
}

#[test]
fn step_floor_stops_fall() {
    let grounded = PlayerState { x: 100, y: 0, vx: 0, vy: 0 };
    let s = SimState { p0: grounded, p1: grounded };
    let t = step(&s, &no_input());
    // Gravity pulls, the floor clamps, landing cancels the fall.
    assert_eq!(t.p0.y, 0);
    assert_eq!(t.p0.vy, 0);
}

#[test]
fn step_wall_stops_movement() {
    let at_wall = PlayerState { x: 0, y: 300, vx: 0, vy: 0 };
    let s = SimState { p0: at_wall, p1: at_wall };
    let left = FrameInputs { p0: encode(true, false, false, false), p1: Input::none() };
    let t = step(&s, &left);
    assert_eq!(t.p0.x, 0);
}

#[test]
fn step_ceiling_clamps() {
    let high = PlayerState { x: 100, y: ARENA_HEIGHT, vx: 0, vy: 0 };
    let s = SimState { p0: high, p1: high };
    let jump = FrameInputs { p0: encode(false, false, true, false), p1: Input::none() };
    let t = step(&s, &jump);
    assert_eq!(t.p0.y, ARENA_HEIGHT);
}

#[test]
fn step_is_deterministic() {
    // The same snapshot stepped through the same inputs twice gives
    // bit-identical results.
    let s = SimState::initial();
    let inp = FrameInputs { p0: encode(true, false, true, false), p1: encode(false, true, false, true) };
    let mut a = s;
    let mut b = s;
    for _ in 0..50 {
        a = step(&a, &inp);
        b = step(&b, &inp);
    }
    assert_eq!(a, b);
    assert_eq!(checksum(&a), checksum(&b));
}

#[test]
fn checksum_exact_value() {
    // The checksum formula pinned on a known state.
    let s = SimState::initial();
    assert_eq!(checksum(&s), 11577502810710690149u64);
}

#[test]
fn checksum_sensitive_to_state() {
    let s = SimState::initial();
    let mut t = s;
    t.p1.vy = 1;
    assert_ne!(checksum(&s), checksum(&t));
}

#[test]
fn single_unit_divergence_propagates() {
    // A one-unit difference in registered state keeps the checksums apart
    // on every subsequent frame.
    let mut a = SimState::initial();
    let mut b = SimState::initial();
    b.p0.x += 1;
    let inp = no_input();
    for _ in 0..20 {
        a = step(&a, &inp);
        b = step(&b, &inp);
        assert_ne!(checksum(&a), checksum(&b));
    }
}
