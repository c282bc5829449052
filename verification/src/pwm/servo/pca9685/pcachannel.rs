//! The outputs of a PCA9685 and what is connected to them.

use vstd::prelude::*;

verus! {

/// The number of outputs of the controller: channels 0 to 15.
pub const PCA_CHANNELS: usize = 16;

/// Why a channel could not be made.
#[derive(Debug, Clone, Copy, PartialEq, Eq, Structural)]
pub enum PcaChannelError {
    /// The controller has no output of that number.
    InvalidChannel,
}

/// What is connected to an output.
#[derive(Debug, Clone, Copy, PartialEq, Eq, Structural)]
pub enum PcaChannelType {
    /// An SG90 micro servo.
    SG90,
    /// A Hobbywing speed controller.
    HOBBYWING,
}

impl PcaChannelType {
    /// The shortest and the longest pulse that the device accepts, in
    /// counts of the controller's 12-bit counter. No range is known yet for
    /// the speed controller: both ends are 0.
    pub open spec fn pulse_range(self) -> (u16, u16) {
        match self {
            PcaChannelType::SG90 => (409, 2047),
            PcaChannelType::HOBBYWING => (0, 0),
        }
    }
}

/// One output with the pulse range of the device connected to it.
#[derive(Debug, Clone, Copy, PartialEq, Eq, Structural)]
pub struct PcaChannel {
    pub channel: usize,
    pub min_pwm: u16,
    pub max_pwm: u16,
    pub channel_type: PcaChannelType,
}

impl PcaChannel {
    /// The output `channel`, with the pulse range of `channel_type`.
    /// Fails for a channel above 15.
    pub fn new(channel: usize, channel_type: PcaChannelType) -> (r: Result<
        PcaChannel,
        PcaChannelError,
    >)
        ensures
            match r {
                Ok(c) => channel < PCA_CHANNELS && c == (PcaChannel {
                    channel,
                    min_pwm: channel_type.pulse_range().0,
                    max_pwm: channel_type.pulse_range().1,
                    channel_type,
                }),
                Err(e) => channel >= PCA_CHANNELS && e == PcaChannelError::InvalidChannel,
            },
    {
        if channel > 15 {
            return Err(PcaChannelError::InvalidChannel);
        }
        match channel_type {
            PcaChannelType::SG90 => Ok(
                PcaChannel { channel, min_pwm: 409, max_pwm: 2047, channel_type },
            ),
            PcaChannelType::HOBBYWING => Ok(
                PcaChannel { channel, min_pwm: 0, max_pwm: 0, channel_type },
            ),
        }
    }
}

} // verus!
