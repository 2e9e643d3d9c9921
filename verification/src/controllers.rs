//! Feedback controllers: a correction from an error signal.

use vstd::prelude::*;

pub mod pid;

verus! {

/// A controller with one input and one output that keeps state between
/// updates. Time is handed in as a count of microseconds.
pub trait ControllerMethod: Sized {
    /// The controller after an update with `error` at time `now`.
    spec fn updated(&self, error: i64, now: u64) -> Self;

    /// The correction that an update with `error` at time `now` returns.
    spec fn output(&self, error: i64, now: u64) -> i64;

    /// The controller with its accumulated state cleared.
    spec fn cleared(&self) -> Self;

    fn update(&mut self, error: i64, now: u64) -> (r: i64)
        ensures
            *final(self) == old(self).updated(error, now),
            r == old(self).output(error, now),
    ;

    fn reset(&mut self)
        ensures
            *final(self) == old(self).cleared(),
    ;
}

} // verus!
