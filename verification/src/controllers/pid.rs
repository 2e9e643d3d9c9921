//! Proportional, integral and derivative control.

use vstd::prelude::*;
use crate::controllers::ControllerMethod;
use crate::fixed::{
    div_spec, fx_div, fx_mul, magnitude, mul_spec, narrow, sat_add, sat_sub, saturate,
};

verus! {

/// Raw time that one microsecond stands for: time steps are counted in
/// milliseconds.
pub const PER_MICROSECOND: i64 = 1_000;

/// The three gains of a controller.
#[derive(Clone, Copy, Debug, PartialEq, Eq, Structural)]
pub struct PIDGains {
    /// Proportional gain.
    pub kp: i64,
    /// Integral gain.
    pub ki: i64,
    /// Derivative gain.
    pub kd: i64,
}

/// A controller that answers the error, its integral and its derivative.
#[derive(Clone, Copy, Debug, PartialEq, Eq, Structural)]
pub struct PID {
    pub gains: PIDGains,
    /// Error of the last update.
    pub prev_error: i64,
    /// Time of the last update, in microseconds.
    pub prev_time: Option<u64>,
    /// Integral of the error over time.
    pub integral: i64,
    /// Largest error under which the integral is kept; zero for no limit.
    pub windup_range: i64,
    /// Whether the integral is cleared when the error changes sign.
    pub reset_on_sign_flip: bool,
}

/// Time since the last update in milliseconds: zero on the first update and
/// where the clock went back.
pub open spec fn elapsed(prev_time: Option<u64>, now: u64) -> int {
    match prev_time {
        Some(then) => if now >= then {
            saturate((now - then) * PER_MICROSECOND)
        } else {
            0
        },
        None => 0,
    }
}

/// Whether one of the two errors is below zero and the other is not.
pub open spec fn sign_flipped(error: i64, prev_error: i64) -> bool {
    (error < 0) != (prev_error < 0)
}

impl PID {
    /// Whether an update with `error` clears the integral: the error changed
    /// sign and the controller clears on that, or the error is beyond the
    /// windup range.
    pub open spec fn clears_integral(&self, error: i64) -> bool {
        (sign_flipped(error, self.prev_error) && self.reset_on_sign_flip) || (self.windup_range
            != 0 && magnitude(error as int) > self.windup_range)
    }

    /// The integral after an update.
    pub open spec fn next_integral(&self, error: i64, now: u64) -> int {
        if self.clears_integral(error) {
            0
        } else {
            saturate(self.integral + mul_spec(error as int, elapsed(self.prev_time, now)))
        }
    }

    /// Rate of change of the error: zero where no time has passed.
    pub open spec fn derivative(&self, error: i64, now: u64) -> int {
        let dt = elapsed(self.prev_time, now);
        if dt == 0 {
            0
        } else {
            div_spec(saturate(error - self.prev_error), dt)
        }
    }

    /// The correction: each gain times its term, summed.
    pub open spec fn correction(&self, error: i64, now: u64) -> int {
        saturate(
            mul_spec(self.gains.kp as int, error as int) + mul_spec(
                self.gains.ki as int,
                self.next_integral(error, now),
            ) + mul_spec(self.gains.kd as int, self.derivative(error, now)),
        )
    }

    /// A controller that has seen no error yet.
    pub fn new(kp: i64, ki: i64, kd: i64, windup_range: i64, reset_on_sign_flip: bool) -> (r:
        Self)
        ensures
            r == (PID {
                gains: PIDGains { kp, ki, kd },
                prev_error: 0,
                prev_time: None,
                integral: 0,
                windup_range,
                reset_on_sign_flip,
            }),
    {
        PID {
            gains: PIDGains { kp, ki, kd },
            prev_error: 0,
            integral: 0,
            prev_time: None,
            reset_on_sign_flip,
            windup_range,
        }
    }

    /// A controller with the given gains that has seen no error yet.
    pub fn from_pid_gains(gains: PIDGains, windup_range: i64, reset_on_sign_flip: bool) -> (r:
        Self)
        ensures
            r == (PID {
                gains,
                prev_error: 0,
                prev_time: None,
                integral: 0,
                windup_range,
                reset_on_sign_flip,
            }),
    {
        PID {
            gains,
            prev_error: 0,
            integral: 0,
            prev_time: None,
            reset_on_sign_flip,
            windup_range,
        }
    }
}

/// Time since the last update in milliseconds.
pub fn elapsed_since(prev_time: Option<u64>, now: u64) -> (r: i64)
    ensures
        r == elapsed(prev_time, now),
        r >= 0,
{
    match prev_time {
        Some(then) => {
            if now >= then {
                let micros: u64 = now - then;
                assert(0 <= micros * PER_MICROSECOND <= 0xffff_ffff_ffff_ffff * 1000)
                    by (nonlinear_arith)
                    requires
                        0 <= micros <= 0xffff_ffff_ffff_ffff,
                        PER_MICROSECOND == 1000,
                ;
                narrow((micros as i128) * (PER_MICROSECOND as i128))
            } else {
                0
            }
        },
        None => 0,
    }
}

impl ControllerMethod for PID {
    open spec fn updated(&self, error: i64, now: u64) -> Self {
        PID {
            gains: self.gains,
            prev_error: error,
            prev_time: Some(now),
            integral: self.next_integral(error, now) as i64,
            windup_range: self.windup_range,
            reset_on_sign_flip: self.reset_on_sign_flip,
        }
    }

    open spec fn output(&self, error: i64, now: u64) -> i64 {
        self.correction(error, now) as i64
    }

    open spec fn cleared(&self) -> Self {
        PID {
            gains: self.gains,
            prev_error: 0,
            prev_time: None,
            integral: 0,
            windup_range: self.windup_range,
            reset_on_sign_flip: self.reset_on_sign_flip,
        }
    }

    fn update(&mut self, error: i64, now: u64) -> (r: i64) {
        let delta_time: i64 = elapsed_since(self.prev_time, now);
        let flipped: bool = (error < 0) != (self.prev_error < 0);
        let size: i128 = if error < 0 {
            -(error as i128)
        } else {
            error as i128
        };
        let beyond: bool = self.windup_range != 0 && size > self.windup_range as i128;
        let integral: i64 = if (flipped && self.reset_on_sign_flip) || beyond {
            0
        } else {
            sat_add(self.integral, fx_mul(error, delta_time))
        };
        let derivative: i64 = if delta_time == 0 {
            0
        } else {
            fx_div(sat_sub(error, self.prev_error), delta_time)
        };
        let output: i64 = narrow(
            fx_mul(self.gains.kp, error) as i128 + fx_mul(self.gains.ki, integral) as i128
                + fx_mul(self.gains.kd, derivative) as i128,
        );
        self.prev_time = Some(now);
        self.integral = integral;
        self.prev_error = error;
        output
    }

    fn reset(&mut self) {
        self.integral = 0;
        self.prev_error = 0;
        self.prev_time = None;
    }
}

/// The controller after it has seen the first `n` of the errors, each at its
/// time.
pub open spec fn after_errors(pid: PID, errors: Seq<i64>, times: Seq<u64>, n: nat) -> PID
    decreases n,
{
    if n == 0 {
        pid
    } else {
        after_errors(pid, errors, times, (n - 1) as nat).updated(errors[n - 1], times[n - 1])
    }
}

/// With all three gains at zero the correction is zero, whatever the error
/// and whatever came before.
pub proof fn lemma_zero_gains_zero_output(pid: PID, error: i64, now: u64)
    requires
        pid.gains == (PIDGains { kp: 0, ki: 0, kd: 0 }),
    ensures
        pid.output(error, now) == 0,
{
}

/// A controller that has only seen errors of zero answers an error of zero
/// with zero, and has still only seen errors of zero afterwards.
pub proof fn lemma_zero_error_zero_output(pid: PID, now: u64)
    requires
        pid.prev_error == 0,
        pid.integral == 0,
    ensures
        pid.output(0, now) == 0,
        pid.updated(0, now).prev_error == 0,
        pid.updated(0, now).integral == 0,
{
    let dt = elapsed(pid.prev_time, now);
    assert(0 * dt == 0 && pid.gains.kp * 0 == 0 && pid.gains.ki * 0 == 0 && pid.gains.kd * 0 == 0)
        by (nonlinear_arith);
}

/// Updates change neither the gains nor what clears the integral.
pub proof fn lemma_updates_keep_configuration(
    pid: PID,
    errors: Seq<i64>,
    times: Seq<u64>,
    n: nat,
)
    ensures
        after_errors(pid, errors, times, n).gains == pid.gains,
        after_errors(pid, errors, times, n).windup_range == pid.windup_range,
        after_errors(pid, errors, times, n).reset_on_sign_flip == pid.reset_on_sign_flip,
    decreases n,
{
    if n > 0 {
        lemma_updates_keep_configuration(pid, errors, times, (n - 1) as nat);
    }
}

/// A controller with all three gains at zero answers every error of a
/// sequence with zero.
pub proof fn lemma_zero_gains_zero_outputs(pid: PID, errors: Seq<i64>, times: Seq<u64>, n: nat)
    requires
        pid.gains == (PIDGains { kp: 0, ki: 0, kd: 0 }),
    ensures
        after_errors(pid, errors, times, n).output(errors[n as int], times[n as int]) == 0,
{
    lemma_updates_keep_configuration(pid, errors, times, n);
    lemma_zero_gains_zero_output(
        after_errors(pid, errors, times, n),
        errors[n as int],
        times[n as int],
    );
}

/// A controller that has seen nothing answers every error of a sequence of
/// zeros with zero, whatever its gains and whatever the times.
pub proof fn lemma_zero_errors_zero_outputs(pid: PID, errors: Seq<i64>, times: Seq<u64>, n: nat)
    requires
        pid.prev_error == 0,
        pid.integral == 0,
        n < errors.len(),
        forall|i: int| 0 <= i < errors.len() ==> errors[i] == 0,
    ensures
        after_errors(pid, errors, times, n).prev_error == 0,
        after_errors(pid, errors, times, n).integral == 0,
        after_errors(pid, errors, times, n).output(errors[n as int], times[n as int]) == 0,
    decreases n,
{
    if n > 0 {
        lemma_zero_errors_zero_outputs(pid, errors, times, (n - 1) as nat);
        lemma_zero_error_zero_output(
            after_errors(pid, errors, times, (n - 1) as nat),
            times[n - 1],
        );
    }
    lemma_zero_error_zero_output(after_errors(pid, errors, times, n), times[n as int]);
}

/// Where the controller clears on a change of sign, the update on which the
/// error changes sign leaves the integral at zero.
pub proof fn lemma_sign_flip_clears_integral(pid: PID, error: i64, now: u64)
    requires
        pid.reset_on_sign_flip,
        sign_flipped(error, pid.prev_error),
    ensures
        pid.updated(error, now).integral == 0,
{
}

} // verus!
