use thermo_node::controller::{Actuator, ControllerState, HysteresisController};

#[test]
fn first_cycle_below_target_starts_heating() {
    let mut c = HysteresisController::new(22, 10_000, 10_000);
    assert!(!c.output_asserted());
    assert!(c.cycle(20, 0));
    assert_eq!(c.state.actuator, Actuator::Heating);
    assert_eq!(c.state.last_transition, Some(0));
    assert!(c.output_asserted());
}

#[test]
fn min_on_time_holds_heating_then_releases() {
    let mut c = HysteresisController::new(22, 10_000, 10_000);
    c.state = ControllerState { actuator: Actuator::Heating, last_transition: Some(1_000) };
    assert!(!c.cycle(23, 4_000));
    assert_eq!(c.state.actuator, Actuator::Heating);
    assert!(c.output_asserted());
    assert!(c.cycle(22, 11_000));
    assert_eq!(c.state.actuator, Actuator::Idle);
    assert_eq!(c.state.last_transition, Some(11_000));
    assert!(!c.output_asserted());
}

#[test]
fn min_off_time_is_separate_from_min_on_time() {
    let mut c = HysteresisController::new(22, 5_000, 1_000);
    assert!(c.cycle(10, 0));
    assert!(c.cycle(30, 1_000));
    assert!(!c.cycle(10, 5_999));
    assert_eq!(c.state.actuator, Actuator::Idle);
    assert!(c.cycle(10, 6_000));
    assert_eq!(c.state.actuator, Actuator::Heating);
}

#[test]
fn reading_at_target_keeps_idle() {
    let mut c = HysteresisController::new(22, 0, 0);
    assert!(!c.cycle(22, 0));
    assert_eq!(c.state.actuator, Actuator::Idle);
    assert_eq!(c.state.last_transition, None);
}

#[test]
fn noisy_readings_never_switch_faster_than_dwell() {
    let mut c = HysteresisController::new(22, 10_000, 10_000);
    let mut last_switch: Option<u64> = None;
    for step in 0..200u64 {
        let t = if step % 2 == 0 { 21 } else { 23 };
        let now = step * 700;
        if c.cycle(t, now) {
            if let Some(prev) = last_switch {
                assert!(now - prev >= 10_000);
            }
            last_switch = Some(now);
        }
    }
    assert!(last_switch.is_some());
}

#[test]
fn constant_cold_settles_heating() {
    let mut c = HysteresisController::new(22, 10_000, 10_000);
    for step in 0..50u64 {
        c.cycle(15, step * 1_000);
        assert_eq!(c.state.actuator, Actuator::Heating);
    }
}

#[test]
fn constant_warm_settles_idle() {
    let mut c = HysteresisController::new(22, 10_000, 10_000);
    c.state = ControllerState { actuator: Actuator::Heating, last_transition: Some(0) };
    for step in 0..50u64 {
        c.cycle(30, step * 1_000);
        let want = if step * 1_000 >= 10_000 { Actuator::Idle } else { Actuator::Heating };
        assert_eq!(c.state.actuator, want);
    }
}

#[test]
fn extreme_clock_values_do_not_overflow() {
    let mut c = HysteresisController::new(i32::MAX, u64::MAX, u64::MAX);
    assert!(c.cycle(i32::MIN, u64::MAX));
    assert!(!c.cycle(i32::MAX, u64::MAX));
    assert_eq!(c.state.actuator, Actuator::Heating);
}
