//! Start-up of one inertial sensor: what to ask of it after each answer.
//!
//! The sensor is calibrated once. Where that fails it is calibrated once
//! more and, however that ends, its rotation is set to zero, so that a
//! sensor that does not calibrate never holds up the start.

use vstd::prelude::*;

verus! {

/// Where the start-up of a sensor stands.
#[derive(Clone, Copy, Debug, PartialEq, Eq, Structural)]
pub enum Calibration {
    /// The first calibration is under way.
    Calibrating,
    /// The second calibration is under way.
    Retrying,
    /// The rotation is being set to zero.
    Zeroing,
    /// The sensor is in use.
    Ready,
}

/// What to ask of the sensor next.
#[derive(Clone, Copy, Debug, PartialEq, Eq, Structural)]
pub enum CalibrationAction {
    Calibrate,
    ZeroRotation,
    /// Nothing more: go on to the next sensor.
    Finish,
}

impl Calibration {
    /// The state after the sensor has answered the last request, with
    /// success or not.
    pub open spec fn after(self, succeeded: bool) -> Calibration {
        match self {
            Calibration::Calibrating => if succeeded {
                Calibration::Ready
            } else {
                Calibration::Retrying
            },
            Calibration::Retrying => Calibration::Zeroing,
            Calibration::Zeroing => Calibration::Ready,
            Calibration::Ready => Calibration::Ready,
        }
    }

    /// The request that belongs to a state.
    pub open spec fn request(self) -> CalibrationAction {
        match self {
            Calibration::Calibrating => CalibrationAction::Calibrate,
            Calibration::Retrying => CalibrationAction::Calibrate,
            Calibration::Zeroing => CalibrationAction::ZeroRotation,
            Calibration::Ready => CalibrationAction::Finish,
        }
    }

    /// The start-up of a sensor begins with a calibration.
    pub fn begin() -> (r: (Calibration, CalibrationAction))
        ensures
            r.0 == Calibration::Calibrating,
            r.1 == CalibrationAction::Calibrate,
    {
        (Calibration::Calibrating, CalibrationAction::Calibrate)
    }

    /// Takes the sensor's answer to the last request and gives the next
    /// state and request.
    pub fn next(self, succeeded: bool) -> (r: (Calibration, CalibrationAction))
        ensures
            r.0 == self.after(succeeded),
            r.1 == self.after(succeeded).request(),
    {
        match self {
            Calibration::Calibrating => {
                if succeeded {
                    (Calibration::Ready, CalibrationAction::Finish)
                } else {
                    (Calibration::Retrying, CalibrationAction::Calibrate)
                }
            },
            Calibration::Retrying => (Calibration::Zeroing, CalibrationAction::ZeroRotation),
            Calibration::Zeroing => (Calibration::Ready, CalibrationAction::Finish),
            Calibration::Ready => (Calibration::Ready, CalibrationAction::Finish),
        }
    }
}

/// Whatever the sensor answers, its start-up is over after three answers,
/// with at most two calibrations, and a sensor that failed its first
/// calibration has its rotation set to zero.
pub proof fn lemma_calibration_ends(first: bool, second: bool, third: bool)
    ensures
        Calibration::Calibrating.after(first).after(second).after(third) == Calibration::Ready,
        Calibration::Calibrating.after(first).after(second).request()
            != CalibrationAction::Calibrate,
        !first ==> Calibration::Calibrating.after(first).request() == CalibrationAction::Calibrate
            && Calibration::Calibrating.after(first).after(second).request()
            == CalibrationAction::ZeroRotation,
        first ==> Calibration::Calibrating.after(first) == Calibration::Ready,
{
}

} // verus!
