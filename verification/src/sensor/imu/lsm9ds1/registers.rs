//! The registers of the LSM9DS1 and the values of its rate selectors.
//!
//! The device answers at two bus addresses. The magnetometer has a register
//! space of its own; the accelerometer and the gyroscope share the other.

use vstd::prelude::*;

verus! {

/// Output data rates of the accelerometer.
#[derive(Debug, Clone, Copy, PartialEq, Eq, Structural)]
pub enum XlOdr {
    PowerDown,
    Hz10,
    Hz50,
    Hz119,
    Hz238,
    Hz476,
    Hz952,
    CONTINUOUS,
}

impl XlOdr {
    /// The number that selects this rate in the control register.
    pub open spec fn spec_selector(self) -> u8 {
        match self {
            XlOdr::PowerDown => 0,
            XlOdr::Hz10 => 1,
            XlOdr::Hz50 => 2,
            XlOdr::Hz119 => 3,
            XlOdr::Hz238 => 4,
            XlOdr::Hz476 => 5,
            XlOdr::Hz952 => 6,
            XlOdr::CONTINUOUS => 7,
        }
    }

    #[verifier::when_used_as_spec(spec_selector)]
    pub fn selector(self) -> (n: u8)
        ensures
            n == self.spec_selector(),
    {
        match self {
            XlOdr::PowerDown => 0,
            XlOdr::Hz10 => 1,
            XlOdr::Hz50 => 2,
            XlOdr::Hz119 => 3,
            XlOdr::Hz238 => 4,
            XlOdr::Hz476 => 5,
            XlOdr::Hz952 => 6,
            XlOdr::CONTINUOUS => 7,
        }
    }
}

/// Output data rates of the gyroscope.
#[derive(Debug, Clone, Copy, PartialEq, Eq, Structural)]
pub enum GyroOdr {
    PowerDown,
    Hz15,
    Hz60,
    Hz119,
    Hz238,
    Hz952,
    CONTINUOUS,
}

impl GyroOdr {
    /// The number that selects this rate in the control register.
    pub open spec fn spec_selector(self) -> u8 {
        match self {
            GyroOdr::PowerDown => 0,
            GyroOdr::Hz15 => 1,
            GyroOdr::Hz60 => 2,
            GyroOdr::Hz119 => 3,
            GyroOdr::Hz238 => 4,
            GyroOdr::Hz952 => 5,
            GyroOdr::CONTINUOUS => 6,
        }
    }

    #[verifier::when_used_as_spec(spec_selector)]
    pub fn selector(self) -> (n: u8)
        ensures
            n == self.spec_selector(),
    {
        match self {
            GyroOdr::PowerDown => 0,
            GyroOdr::Hz15 => 1,
            GyroOdr::Hz60 => 2,
            GyroOdr::Hz119 => 3,
            GyroOdr::Hz238 => 4,
            GyroOdr::Hz952 => 5,
            GyroOdr::CONTINUOUS => 6,
        }
    }
}

/// Registers of the magnetometer.
#[derive(Debug, Clone, Copy, PartialEq, Eq, Structural)]
pub enum MagnetometerRM {
    OffsetXRegLM,
    OffsetXRegHM,
    OffsetYRegLM,
    OffsetYRegHM,
    OffsetZRegLM,
    OffsetZRegHM,
    WhoAmI,
    CtrlReg1M,
    CtrlReg2M,
    CtrlReg3M,
    CtrlReg4M,
    CtrlReg5M,
    StatusRegM,
    OutXLM,
    OutXHM,
    OutYLM,
    OutYHM,
    OutZLM,
    OutZHM,
}

impl MagnetometerRM {
    /// Where the register is.
    pub open spec fn spec_address(self) -> u8 {
        match self {
            MagnetometerRM::OffsetXRegLM => 0x05,
            MagnetometerRM::OffsetXRegHM => 0x06,
            MagnetometerRM::OffsetYRegLM => 0x07,
            MagnetometerRM::OffsetYRegHM => 0x08,
            MagnetometerRM::OffsetZRegLM => 0x09,
            MagnetometerRM::OffsetZRegHM => 0x0A,
            MagnetometerRM::WhoAmI => 0x0F,
            MagnetometerRM::CtrlReg1M => 0x20,
            MagnetometerRM::CtrlReg2M => 0x21,
            MagnetometerRM::CtrlReg3M => 0x22,
            MagnetometerRM::CtrlReg4M => 0x23,
            MagnetometerRM::CtrlReg5M => 0x24,
            MagnetometerRM::StatusRegM => 0x27,
            MagnetometerRM::OutXLM => 0x28,
            MagnetometerRM::OutXHM => 0x29,
            MagnetometerRM::OutYLM => 0x2A,
            MagnetometerRM::OutYHM => 0x2B,
            MagnetometerRM::OutZLM => 0x2C,
            MagnetometerRM::OutZHM => 0x2D,
        }
    }

    #[verifier::when_used_as_spec(spec_address)]
    pub fn address(self) -> (a: u8)
        ensures
            a == self.spec_address(),
    {
        match self {
            MagnetometerRM::OffsetXRegLM => 0x05,
            MagnetometerRM::OffsetXRegHM => 0x06,
            MagnetometerRM::OffsetYRegLM => 0x07,
            MagnetometerRM::OffsetYRegHM => 0x08,
            MagnetometerRM::OffsetZRegLM => 0x09,
            MagnetometerRM::OffsetZRegHM => 0x0A,
            MagnetometerRM::WhoAmI => 0x0F,
            MagnetometerRM::CtrlReg1M => 0x20,
            MagnetometerRM::CtrlReg2M => 0x21,
            MagnetometerRM::CtrlReg3M => 0x22,
            MagnetometerRM::CtrlReg4M => 0x23,
            MagnetometerRM::CtrlReg5M => 0x24,
            MagnetometerRM::StatusRegM => 0x27,
            MagnetometerRM::OutXLM => 0x28,
            MagnetometerRM::OutXHM => 0x29,
            MagnetometerRM::OutYLM => 0x2A,
            MagnetometerRM::OutYHM => 0x2B,
            MagnetometerRM::OutZLM => 0x2C,
            MagnetometerRM::OutZHM => 0x2D,
        }
    }
}

/// Registers of the accelerometer.
#[derive(Debug, Clone, Copy, PartialEq, Eq, Structural)]
pub enum AccelerometerRM {
    CtrlReg6Xl,
    OutXXlL,
    OutXXlH,
    OutYXlL,
    OutYXlH,
    OutZXlL,
    OutZXlH,
}

impl AccelerometerRM {
    /// Where the register is.
    pub open spec fn spec_address(self) -> u8 {
        match self {
            AccelerometerRM::CtrlReg6Xl => 0x20,
            AccelerometerRM::OutXXlL => 0x28,
            AccelerometerRM::OutXXlH => 0x29,
            AccelerometerRM::OutYXlL => 0x2A,
            AccelerometerRM::OutYXlH => 0x2B,
            AccelerometerRM::OutZXlL => 0x2C,
            AccelerometerRM::OutZXlH => 0x2D,
        }
    }

    #[verifier::when_used_as_spec(spec_address)]
    pub fn address(self) -> (a: u8)
        ensures
            a == self.spec_address(),
    {
        match self {
            AccelerometerRM::CtrlReg6Xl => 0x20,
            AccelerometerRM::OutXXlL => 0x28,
            AccelerometerRM::OutXXlH => 0x29,
            AccelerometerRM::OutYXlL => 0x2A,
            AccelerometerRM::OutYXlH => 0x2B,
            AccelerometerRM::OutZXlL => 0x2C,
            AccelerometerRM::OutZXlH => 0x2D,
        }
    }
}

/// Registers of the gyroscope.
#[derive(Debug, Clone, Copy, PartialEq, Eq, Structural)]
pub enum GyroRM {
    CtrlReg1G,
    OutXGL,
    OutXGH,
    OutYGL,
    OutYGH,
    OutZGL,
    OutZGH,
}

impl GyroRM {
    /// Where the register is.
    pub open spec fn spec_address(self) -> u8 {
        match self {
            GyroRM::CtrlReg1G => 0x10,
            GyroRM::OutXGL => 0x18,
            GyroRM::OutXGH => 0x19,
            GyroRM::OutYGL => 0x1A,
            GyroRM::OutYGH => 0x1B,
            GyroRM::OutZGL => 0x1C,
            GyroRM::OutZGH => 0x1D,
        }
    }

    #[verifier::when_used_as_spec(spec_address)]
    pub fn address(self) -> (a: u8)
        ensures
            a == self.spec_address(),
    {
        match self {
            GyroRM::CtrlReg1G => 0x10,
            GyroRM::OutXGL => 0x18,
            GyroRM::OutXGH => 0x19,
            GyroRM::OutYGL => 0x1A,
            GyroRM::OutYGH => 0x1B,
            GyroRM::OutZGL => 0x1C,
            GyroRM::OutZGH => 0x1D,
        }
    }
}

} // verus!
