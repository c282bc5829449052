//! Inertial sensors: accelerometers, gyroscopes and magnetometers.

pub mod lsm9ds1;

use crate::bus::{DelayProvider, Platform, Transport};
use crate::sensor::Sensor;
use vstd::prelude::*;

verus! {

/// The raw count that stands for the full-scale range of a reading: an
/// acceleration or a rate of rotation is returned as a number of
/// `1 / FULL_SCALE_COUNTS` of its unit.
pub const FULL_SCALE_COUNTS: i32 = 32767;

/// A sensor that measures acceleration along three axes.
pub trait Accelerometer: Sensor {
    /// The acceleration along x, y and z, in `1 / FULL_SCALE_COUNTS` g.
    /// A failure leaves the sensor in `Error`; otherwise its state is kept.
    fn read_acceleration<T: Transport, D: DelayProvider>(
        &mut self,
        hw: &mut Platform<T, D>,
    ) -> (r: Result<(i32, i32, i32), ()>)
        ensures
            final(hw).extends(old(hw)),
            r is Ok ==> final(self).state() == old(self).state(),
            r is Err ==> final(self).state() is Error,
    ;
}

/// A sensor that measures the rate of rotation about three axes.
pub trait Gyroscope: Sensor {
    /// The rate of rotation about x, y and z, in `1 / FULL_SCALE_COUNTS`
    /// degrees per second.
    /// A failure leaves the sensor in `Error`; otherwise its state is kept.
    fn read_gyro<T: Transport, D: DelayProvider>(&mut self, hw: &mut Platform<T, D>) -> (r: Result<
        (i32, i32, i32),
        (),
    >)
        ensures
            final(hw).extends(old(hw)),
            r is Ok ==> final(self).state() == old(self).state(),
            r is Err ==> final(self).state() is Error,
    ;
}

/// A sensor that measures the magnetic field along three axes.
pub trait Magnetometer: Sensor {
    /// The field along x, y and z, corrected by the sensor's calibration.
    /// A failure leaves the sensor in `Error`; otherwise its state is kept.
    fn read_magnetometer<T: Transport, D: DelayProvider>(
        &mut self,
        hw: &mut Platform<T, D>,
    ) -> (r: Result<(i32, i32, i32), ()>)
        ensures
            final(hw).extends(old(hw)),
            r is Ok ==> final(self).state() == old(self).state(),
            r is Err ==> final(self).state() is Error,
    ;
}

} // verus!
