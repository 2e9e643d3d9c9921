use motion_core::controllers::pid::{elapsed_since, PIDGains, PID};
use motion_core::controllers::ControllerMethod;
use motion_core::fixed::ONE;

#[test]
fn new_controller_has_seen_nothing() {
    let pid = PID::new(1, 2, 3, 4, true);
    assert_eq!(pid.gains, PIDGains { kp: 1, ki: 2, kd: 3 });
    assert_eq!(pid.prev_error, 0);
    assert_eq!(pid.prev_time, None);
    assert_eq!(pid.integral, 0);
    assert_eq!(pid.windup_range, 4);
    assert!(pid.reset_on_sign_flip);
}

#[test]
fn from_pid_gains_matches_new() {
    let gains = PIDGains { kp: 7, ki: 8, kd: 9 };
    assert_eq!(PID::from_pid_gains(gains, 5, false), PID::new(7, 8, 9, 5, false));
}

#[test]
fn elapsed_is_in_milliseconds() {
    assert_eq!(elapsed_since(None, 123), 0);
    assert_eq!(elapsed_since(Some(1_000), 11_000), 10 * ONE);
    assert_eq!(elapsed_since(Some(5), 6), 1_000);
    assert_eq!(elapsed_since(Some(5), 5), 0);
}

#[test]
fn elapsed_is_zero_when_the_clock_goes_back() {
    assert_eq!(elapsed_since(Some(10_000), 9_000), 0);
}

#[test]
fn elapsed_saturates() {
    assert_eq!(elapsed_since(Some(0), u64::MAX), i64::MAX);
}

#[test]
fn proportional_term() {
    let mut pid = PID::new(2 * ONE, 0, 0, 0, false);
    assert_eq!(pid.update(3 * ONE, 0), 6 * ONE);
    assert_eq!(pid.update(-ONE / 2, 10_000), -ONE);
}

#[test]
fn first_update_has_no_integral_and_no_derivative() {
    let mut pid = PID::new(0, ONE, ONE, 0, false);
    assert_eq!(pid.update(5 * ONE, 1_000_000), 0);
    assert_eq!(pid.integral, 0);
    assert_eq!(pid.prev_error, 5 * ONE);
    assert_eq!(pid.prev_time, Some(1_000_000));
}

#[test]
fn integral_term_accumulates_error_times_time() {
    let mut pid = PID::new(0, ONE, 0, 0, false);
    assert_eq!(pid.update(ONE, 0), 0);
    // 10 ms at an error of 1.0
    assert_eq!(pid.update(ONE, 10_000), 10 * ONE);
    assert_eq!(pid.integral, 10 * ONE);
    // 5 ms more at an error of 2.0
    assert_eq!(pid.update(2 * ONE, 15_000), 20 * ONE);
    assert_eq!(pid.integral, 20 * ONE);
}

#[test]
fn derivative_term_divides_by_time() {
    let mut pid = PID::new(0, 0, ONE, 0, false);
    assert_eq!(pid.update(0, 0), 0);
    // the error rises by 5.0 in 1 ms
    assert_eq!(pid.update(5 * ONE, 1_000), 5 * ONE);
    // and falls by 2.0 in 4 ms
    assert_eq!(pid.update(3 * ONE, 5_000), -ONE / 2);
}

#[test]
fn derivative_is_zero_when_no_time_passed() {
    let mut pid = PID::new(0, 0, ONE, 0, false);
    assert_eq!(pid.update(0, 7), 0);
    assert_eq!(pid.update(5 * ONE, 7), 0);
}

#[test]
fn all_three_terms_sum() {
    let mut pid = PID::new(2 * ONE, ONE / 10, 3 * ONE, 0, false);
    assert_eq!(pid.update(ONE, 0), 2 * ONE);
    // p: 2 * 2.0, i: 0.1 * (2.0 * 10 ms), d: 3 * (1.0 / 10 ms)
    assert_eq!(pid.update(2 * ONE, 10_000), 4 * ONE + 2 * ONE + 300_000);
}

#[test]
fn zero_gains_and_zero_errors_return_zero() {
    let mut pid = PID::new(0, 0, 0, 0, false);
    let mut now: u64 = 0;
    for _ in 0..20 {
        assert_eq!(pid.update(0, now), 0);
        now += 10_000;
    }
    assert_eq!(pid.integral, 0);
}

#[test]
fn zero_gains_return_zero_for_any_error() {
    let mut pid = PID::new(0, 0, 0, 0, true);
    assert_eq!(pid.update(5 * ONE, 0), 0);
    assert_eq!(pid.update(-7 * ONE, 3_000), 0);
    assert_eq!(pid.update(i64::MAX, 9_000), 0);
    assert_eq!(pid.update(i64::MIN, 12_000), 0);
}

#[test]
fn zero_errors_return_zero_for_any_gains() {
    let mut pid = PID::new(3 * ONE, 2 * ONE, ONE, ONE, true);
    let mut now: u64 = 5;
    for _ in 0..10 {
        assert_eq!(pid.update(0, now), 0);
        now += 1_000;
    }
}

#[test]
fn sign_flip_clears_the_integral() {
    let mut pid = PID::new(0, ONE, 0, 0, true);
    pid.update(ONE, 0);
    pid.update(ONE, 10_000);
    assert_eq!(pid.integral, 10 * ONE);
    assert_eq!(pid.update(-ONE / 2, 20_000), 0);
    assert_eq!(pid.integral, 0);
}

#[test]
fn sign_flip_keeps_the_integral_when_not_asked_to_clear() {
    let mut pid = PID::new(0, ONE, 0, 0, false);
    pid.update(ONE, 0);
    pid.update(ONE, 10_000);
    assert_eq!(pid.update(-ONE / 2, 20_000), 5 * ONE);
    assert_eq!(pid.integral, 5 * ONE);
}

#[test]
fn zero_counts_as_positive_for_the_sign() {
    let mut pid = PID::new(0, ONE, 0, 0, true);
    pid.update(ONE, 0);
    pid.update(ONE, 10_000);
    // from 1.0 to 0: no change of sign
    pid.update(0, 20_000);
    assert_eq!(pid.integral, 10 * ONE);
    // from 0 to below zero: a change of sign
    pid.update(-1, 30_000);
    assert_eq!(pid.integral, 0);
}

#[test]
fn error_beyond_the_windup_range_clears_the_integral() {
    let mut pid = PID::new(0, ONE, 0, 2 * ONE, false);
    pid.update(ONE, 0);
    pid.update(ONE, 10_000);
    assert_eq!(pid.integral, 10 * ONE);
    assert_eq!(pid.update(3 * ONE, 20_000), 0);
    assert_eq!(pid.integral, 0);
    // at the edge of the range the integral is kept
    pid.update(2 * ONE, 30_000);
    assert_eq!(pid.integral, 20 * ONE);
    pid.update(-3 * ONE, 40_000);
    assert_eq!(pid.integral, 0);
}

#[test]
fn windup_range_of_zero_is_no_limit() {
    let mut pid = PID::new(0, ONE, 0, 0, false);
    pid.update(1_000 * ONE, 0);
    pid.update(1_000 * ONE, 1_000);
    assert_eq!(pid.integral, 1_000 * ONE);
}

#[test]
fn windup_check_takes_the_smallest_error() {
    let mut pid = PID::new(0, ONE, 0, i64::MAX, false);
    pid.update(-ONE, 0);
    pid.update(-ONE, 1_000);
    assert_eq!(pid.integral, -ONE);
    pid.update(i64::MIN, 2_000);
    assert_eq!(pid.integral, 0);
}

#[test]
fn integral_saturates() {
    let mut pid = PID::new(0, 0, 0, 0, false);
    pid.update(i64::MAX, 0);
    pid.update(i64::MAX, 10_000);
    assert_eq!(pid.integral, i64::MAX);
    pid.update(i64::MAX, 20_000);
    assert_eq!(pid.integral, i64::MAX);
}

#[test]
fn output_saturates() {
    let mut pid = PID::new(i64::MAX, 0, 0, 0, false);
    assert_eq!(pid.update(i64::MAX, 0), i64::MAX);
    assert_eq!(pid.update(i64::MIN, 0), i64::MIN);
}

#[test]
fn reset_clears_the_state_and_keeps_the_configuration() {
    let mut pid = PID::new(ONE, ONE, ONE, 5 * ONE, true);
    pid.update(ONE, 0);
    pid.update(2 * ONE, 10_000);
    pid.reset();
    assert_eq!(pid, PID::new(ONE, ONE, ONE, 5 * ONE, true));
}

#[test]
fn update_after_reset_is_a_first_update() {
    let mut pid = PID::new(0, ONE, ONE, 0, false);
    pid.update(ONE, 0);
    pid.update(2 * ONE, 10_000);
    pid.reset();
    assert_eq!(pid.update(4 * ONE, 20_000), 0);
}
