//! The gyroscope of the LSM9DS1.

use crate::bus::{DelayProvider, Platform, Transport};
use crate::sensor::imu::lsm9ds1::model::{
    boot_sequence, burst_measurement, control_read, gyroscope_control, GYROSCOPE_RANGE_DPS,
};
use crate::sensor::imu::lsm9ds1::registers::{GyroOdr, GyroRM};
use crate::sensor::imu::lsm9ds1::{LSM9DS1, LSM9DS1_AG_ADDRESS};
use crate::sensor::imu::Gyroscope;
use vstd::prelude::*;

verus! {

impl LSM9DS1 {
    /// Switches the gyroscope to its fastest output data rate, with the
    /// widest bandwidth, and checks that the device took the setting.
    pub fn boot_gyroscope<T: Transport, D: DelayProvider>(&mut self, hw: &mut Platform<T, D>) -> (r:
        Result<(), ()>)
        ensures
            final(hw).extends(old(hw)),
            boot_sequence(
                old(self)@,
                LSM9DS1_AG_ADDRESS,
                GyroRM::CtrlReg1G.address(),
                gyroscope_control(GyroOdr::CONTINUOUS),
                final(hw).since(old(hw)),
                final(self)@,
                r,
            ),
    {
        proof {
            use_type_invariant(&*self);
        }
        let odr = GyroOdr::CONTINUOUS;
        let selector = odr.selector();
        let mut reg_value = selector << 5;
        reg_value = reg_value | 0b00011;
        assert(selector <= 7 ==> (selector << 5) | 0b00011 == 32 * selector + 3) by (bit_vector);
        self.boot(hw, self.addr, GyroRM::CtrlReg1G.address(), reg_value)
    }

    /// The gyroscope needs no calibration: nothing is done.
    pub fn calibrate_gyroscope(&mut self)
        ensures
            final(self)@ == old(self)@,
    {
    }

    /// The current value of the gyroscope's control register.
    pub fn read_ctrl_reg1_g<T: Transport, D: DelayProvider>(
        &mut self,
        hw: &mut Platform<T, D>,
    ) -> (r: Result<u8, ()>)
        ensures
            final(hw).extends(old(hw)),
            control_read(
                old(self)@,
                LSM9DS1_AG_ADDRESS,
                GyroRM::CtrlReg1G.address(),
                final(hw).since(old(hw)),
                final(self)@,
                r,
            ),
    {
        proof {
            use_type_invariant(&*self);
        }
        self.read_control(hw, self.addr, GyroRM::CtrlReg1G.address())
    }
}

impl Gyroscope for LSM9DS1 {
    /// The rate of rotation about x, y and z: the raw readings times the
    /// range of 2000 degrees per second, to be divided by `FULL_SCALE_COUNTS`.
    fn read_gyro<T: Transport, D: DelayProvider>(&mut self, hw: &mut Platform<T, D>) -> (r: Result<
        (i32, i32, i32),
        (),
    >)
        ensures
            burst_measurement(
                old(self)@,
                GyroRM::OutXGL.address(),
                GYROSCOPE_RANGE_DPS as int,
                final(hw).since(old(hw)),
                final(self)@,
                r,
            ),
    {
        let range = GYROSCOPE_RANGE_DPS;
        self.read_burst(hw, GyroRM::OutXGL.address(), range)
    }
}

} // verus!
