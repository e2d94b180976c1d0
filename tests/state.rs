use vent_controller::protocol::{VentState, ANGLE_CLOSED, ANGLE_OPEN};
use vent_controller::state::VentStateMachine;

#[test]
fn test_initial_state_closed() {
    let sm = VentStateMachine::new(ANGLE_CLOSED);
    assert_eq!(sm.current_angle(), 90);
    assert_eq!(sm.state(), VentState::Closed);
    assert!(!sm.is_moving());
}

#[test]
fn test_initial_state_open() {
    let sm = VentStateMachine::new(ANGLE_OPEN);
    assert_eq!(sm.current_angle(), 180);
    assert_eq!(sm.state(), VentState::Open);
}

#[test]
fn test_clamps_out_of_range() {
    let sm = VentStateMachine::new(0);
    assert_eq!(sm.current_angle(), ANGLE_CLOSED);

    let sm = VentStateMachine::new(255);
    assert_eq!(sm.current_angle(), ANGLE_OPEN);
}

#[test]
fn test_set_target_returns_previous() {
    let mut sm = VentStateMachine::new(90);
    let prev = sm.set_target(180);
    assert_eq!(prev, 90);
    assert_eq!(sm.state(), VentState::Moving);
}

#[test]
fn test_step_moves_toward_target() {
    let mut sm = VentStateMachine::new(90);
    sm.set_target(93);

    assert!(sm.step());
    assert_eq!(sm.current_angle(), 91);
    assert!(sm.step());
    assert_eq!(sm.current_angle(), 92);
    assert!(sm.step());
    assert_eq!(sm.current_angle(), 93);
    assert!(!sm.step());
    assert_eq!(sm.state(), VentState::Partial);
}

#[test]
fn test_step_moves_down() {
    let mut sm = VentStateMachine::new(95);
    sm.set_target(90);

    for _ in 0..5 {
        assert!(sm.step());
    }
    assert!(!sm.step());
    assert_eq!(sm.current_angle(), 90);
    assert_eq!(sm.state(), VentState::Closed);
}

#[test]
fn test_full_open_close_cycle() {
    let mut sm = VentStateMachine::new(90);
    sm.set_target(180);

    while sm.step() {}
    assert_eq!(sm.current_angle(), 180);
    assert_eq!(sm.state(), VentState::Open);

    sm.set_target(90);
    while sm.step() {}
    assert_eq!(sm.current_angle(), 90);
    assert_eq!(sm.state(), VentState::Closed);
}

#[test]
fn test_target_clamped() {
    let mut sm = VentStateMachine::new(90);
    sm.set_target(0);
    assert_eq!(sm.target_angle(), ANGLE_CLOSED);

    sm.set_target(255);
    assert_eq!(sm.target_angle(), ANGLE_OPEN);
}

#[test]
fn state_is_derived_from_both_angles() {
    let mut sm = VentStateMachine::new(135);
    assert_eq!(sm.state(), VentState::Partial);
    sm.set_target(136);
    assert_eq!(sm.state(), VentState::Moving);
    let mut open = VentStateMachine::new(180);
    open.set_target(179);
    assert_eq!(open.state(), VentState::Moving);
    let mut closed = VentStateMachine::new(90);
    closed.set_target(91);
    assert_eq!(closed.state(), VentState::Moving);
}

#[test]
fn steps_equal_distance_without_overshoot() {
    for start in [90u8, 100, 135, 180] {
        for target in [0u8, 90, 120, 179, 180, 255] {
            let mut sm = VentStateMachine::new(start);
            sm.set_target(target);
            let goal = sm.target_angle() as i32;
            let mut dist = (sm.current_angle() as i32 - goal).abs();
            let expected = dist;
            let mut calls = 0;
            while sm.is_moving() {
                assert!(sm.step());
                calls += 1;
                let now = (sm.current_angle() as i32 - goal).abs();
                assert_eq!(now, dist - 1);
                dist = now;
            }
            assert_eq!(calls, expected);
            assert_eq!(sm.current_angle() as i32, goal);
            assert!(!sm.step());
        }
    }
}

#[test]
fn set_target_returns_current_while_moving_and_when_clamped() {
    let mut sm = VentStateMachine::new(100);
    sm.set_target(150);
    sm.step();
    sm.step();
    assert_eq!(sm.set_target(255), 102);
    assert_eq!(sm.current_angle(), 102);
    assert_eq!(sm.target_angle(), 180);
    assert_eq!(sm.set_target(3), 102);
    assert_eq!(sm.target_angle(), 90);
}
