//! The accelerometer of the LSM9DS1.

use crate::bus::{DelayProvider, Platform, Transport};
use crate::sensor::imu::lsm9ds1::model::{
    accelerometer_control, boot_sequence, burst_measurement, control_read,
    ACCELEROMETER_RANGE_G,
};
use crate::sensor::imu::lsm9ds1::registers::{AccelerometerRM, XlOdr};
use crate::sensor::imu::lsm9ds1::{LSM9DS1, LSM9DS1_AG_ADDRESS};
use crate::sensor::imu::Accelerometer;
use vstd::prelude::*;

verus! {

impl LSM9DS1 {
    /// Switches the accelerometer to its fastest output data rate and
    /// checks that the device took the setting.
    pub fn boot_accelerometer<T: Transport, D: DelayProvider>(
        &mut self,
        hw: &mut Platform<T, D>,
    ) -> (r: Result<(), ()>)
        ensures
            final(hw).extends(old(hw)),
            boot_sequence(
                old(self)@,
                LSM9DS1_AG_ADDRESS,
                AccelerometerRM::CtrlReg6Xl.address(),
                accelerometer_control(XlOdr::CONTINUOUS),
                final(hw).since(old(hw)),
                final(self)@,
                r,
            ),
    {
        proof {
            use_type_invariant(&*self);
        }
        let odr = XlOdr::CONTINUOUS;
        let selector = odr.selector();
        let reg_value = selector << 5;
        assert(selector <= 7 ==> selector << 5 == 32 * selector) by (bit_vector);
        self.boot(hw, self.addr, AccelerometerRM::CtrlReg6Xl.address(), reg_value)
    }

    /// The accelerometer needs no calibration: nothing is done.
    pub fn calibrate_accelerometer(&mut self)
        ensures
            final(self)@ == old(self)@,
    {
    }

    /// The current value of the accelerometer's control register.
    pub fn read_ctrl_reg6_xl<T: Transport, D: DelayProvider>(
        &mut self,
        hw: &mut Platform<T, D>,
    ) -> (r: Result<u8, ()>)
        ensures
            final(hw).extends(old(hw)),
            control_read(
                old(self)@,
                LSM9DS1_AG_ADDRESS,
                AccelerometerRM::CtrlReg6Xl.address(),
                final(hw).since(old(hw)),
                final(self)@,
                r,
            ),
    {
        proof {
            use_type_invariant(&*self);
        }
        self.read_control(hw, self.addr, AccelerometerRM::CtrlReg6Xl.address())
    }
}

impl Accelerometer for LSM9DS1 {
    /// The acceleration along x, y and z: the raw readings times the range
    /// of 2 g, to be divided by `FULL_SCALE_COUNTS`.
    fn read_acceleration<T: Transport, D: DelayProvider>(
        &mut self,
        hw: &mut Platform<T, D>,
    ) -> (r: Result<(i32, i32, i32), ()>)
        ensures
            burst_measurement(
                old(self)@,
                AccelerometerRM::OutXXlL.address(),
                ACCELEROMETER_RANGE_G as int,
                final(hw).since(old(hw)),
                final(self)@,
                r,
            ),
    {
        let g_range = ACCELEROMETER_RANGE_G;
        self.read_burst(hw, AccelerometerRM::OutXXlL.address(), g_range)
    }
}

} // verus!
