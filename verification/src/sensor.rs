//! The lifecycle that every sensor driver follows.

pub mod barometer;
pub mod decode;
pub mod imu;

use crate::bus::{DelayProvider, Platform, Transport};
use vstd::prelude::*;

verus! {

/// Why a sensor is unusable.
#[derive(Debug, Clone, Copy, PartialEq, Eq, Structural)]
pub enum SensorError {
    /// A bus transaction failed outside the identity check and calibration.
    TransportFailure,
    /// The identity check failed: the device did not answer, or answered
    /// with another identity.
    NotFound,
    /// A calibration read failed or returned an invalid value, or a boot
    /// sequence could not be verified.
    FailedToCalibrate,
}

/// Where a driver is in its lifecycle.
///
/// A driver starts in `Initial`. `Error` is final: no operation of a driver
/// leaves it.
#[derive(Debug, Clone, Copy, PartialEq, Eq, Structural)]
pub enum SensorState {
    Initial,
    Startup,
    Calibrating,
    Ready,
    Error(SensorError),
}

/// The lifecycle operations shared by all drivers.
///
/// Measurements are meaningful only while `sensor_state` reports `Ready`.
/// The drivers do not enforce this: callers gate their reads on the state.
pub trait Sensor {
    /// The lifecycle state.
    spec fn state(&self) -> SensorState;

    /// Checks the device's identity and, if it is the expected device,
    /// calibrates it. Does nothing and fails on a driver that is in `Error`.
    fn init<T: Transport, D: DelayProvider>(&mut self, hw: &mut Platform<T, D>) -> (r: Result<
        (),
        (),
    >)
        ensures
            final(hw).extends(old(hw)),
            old(self).state() is Error ==> final(self).state() == old(self).state() && final(hw).trace() == old(hw).trace(),
            r is Ok <==> final(self).state() == SensorState::Ready,
            r is Err <==> final(self).state() is Error,
    ;

    /// Runs the device's calibration procedure. Does nothing and fails on a
    /// driver that is in `Error`.
    fn calibrate<T: Transport, D: DelayProvider>(&mut self, hw: &mut Platform<T, D>) -> (r: Result<
        (),
        (),
    >)
        ensures
            final(hw).extends(old(hw)),
            old(self).state() is Error ==> final(self).state() == old(self).state() && final(hw).trace() == old(hw).trace(),
            r is Ok <==> final(self).state() == SensorState::Ready,
            r is Err <==> final(self).state() is Error,
            old(self).state() !is Error && r is Err ==> final(self).state() == SensorState::Error(
                SensorError::FailedToCalibrate,
            ),
    ;

    /// The current state. Nothing is changed and the bus is not touched.
    fn sensor_state(&self) -> (s: &SensorState)
        ensures
            *s == self.state(),
    ;
}

} // verus!
