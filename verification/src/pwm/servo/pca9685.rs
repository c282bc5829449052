//! Driver for the PCA9685 16-channel PWM controller.
//!
//! For each channel the controller holds two 12-bit counter values in four
//! registers: the count at which the output goes high, and the count at
//! which it goes low. This driver always lets the output go high at count 0,
//! so the second value is the length of the pulse.

pub mod pcachannel;

use crate::bus::{
    lemma_trace_grows, lemma_trace_push, lemma_trace_unchanged, register_read, register_write,
    reply_byte, DelayProvider, HardwareEvent, Platform, Transport,
};
use vstd::prelude::*;

verus! {

/// The bus address of the controller.
pub const PCA9685_ADDRESS: u8 = 0x40;

/// The first mode register.
pub const PCA9685_MODE1: u8 = 0x00;

/// The first of the four registers of channel 0.
pub const PCA9685_LED0_ON_L: u8 = 0x06;

/// Why the controller could not be set.
#[derive(Debug, Clone, Copy, PartialEq, Eq, Structural)]
pub enum SetPwmError {
    /// The controller has no channel of that number.
    InvalidChannel,
    /// A write to the controller failed.
    TransportFailure,
}

/// A PCA9685 on the bus.
pub struct Pca9685 {
    pub addr: u8,
}

/// The mode that takes the controller out of sleep: the restart bit set,
/// the three lowest bits of the current mode kept, all others cleared.
pub open spec fn wake_mode(mode: u8) -> u8 {
    (128 + mode % 8) as u8
}

/// Computes `wake_mode`.
pub fn compute_wake_mode(mode: u8) -> (woken: u8)
    ensures
        woken == wake_mode(mode),
{
    let kept = mode & 0b0111;
    let woken = kept | 0b1000_0000;
    assert(((mode & 0b0111) | 0b1000_0000) == 128 + mode % 8) by (bit_vector);
    woken
}

/// Waking the controller: the mode is read, the wake mode for it is
/// written, and the mode is read once more. The first transaction that
/// fails ends it.
pub open spec fn wake_up(address: u8, events: Seq<HardwareEvent>, r: Result<(), SetPwmError>) -> bool {
    let lost = r == Err::<(), SetPwmError>(SetPwmError::TransportFailure);
    &&& events.len() >= 1
    &&& events[0] == register_read(address, PCA9685_MODE1, 1, events[0].reply())
    &&& match reply_byte(events[0].reply()) {
        None => events.len() == 1 && lost,
        Some(mode) => {
            &&& events.len() >= 2
            &&& events[1] == register_write(
                address,
                PCA9685_MODE1,
                wake_mode(mode),
                events[1].done(),
            )
            &&& if !events[1].done() {
                events.len() == 2 && lost
            } else {
                &&& events.len() == 3
                &&& events[2] == register_read(address, PCA9685_MODE1, 1, events[2].reply())
                &&& if reply_byte(events[2].reply()) is Some {
                    r is Ok
                } else {
                    lost
                }
            }
        },
    }
}

/// The register that holds byte `i` of the four bytes of `channel`.
pub open spec fn channel_register(channel: u8, i: int) -> int {
    PCA9685_LED0_ON_L + 4 * channel + i
}

/// The four bytes of a channel for a pulse of `on_time` counts that starts
/// at count 0: the start, low byte first, then the end, low byte first.
pub open spec fn channel_bytes(on_time: u16) -> Seq<u8> {
    seq![0u8, 0u8, (on_time % 256) as u8, (on_time / 256) as u8]
}

/// Setting the pulse of a channel: its four registers are written in
/// order, up to the first write that fails. Nothing is written for a
/// channel that does not exist.
pub open spec fn pwm_update(
    address: u8,
    channel: u8,
    on_time: u16,
    events: Seq<HardwareEvent>,
    r: Result<(), SetPwmError>,
) -> bool {
    if channel > 15 {
        events.len() == 0 && r == Err::<(), SetPwmError>(SetPwmError::InvalidChannel)
    } else {
        &&& 1 <= events.len() <= 4
        &&& forall|i: int|
            0 <= i < events.len() ==> events[i] == register_write(
                address,
                channel_register(channel, i) as u8,
                channel_bytes(on_time)[i],
                #[trigger] events[i].done(),
            )
        &&& forall|i: int| 0 <= i < events.len() - 1 ==> #[trigger] events[i].done()
        &&& r is Ok <==> events.len() == 4 && events[3].done()
        &&& r is Err ==> r == Err::<(), SetPwmError>(SetPwmError::TransportFailure)
            && !events.last().done()
    }
}

impl Pca9685 {
    /// A driver for the controller at its usual address, which is woken up.
    pub fn new<T: Transport, D: DelayProvider>(hw: &mut Platform<T, D>) -> (r: Result<
        Self,
        SetPwmError,
    >)
        ensures
            final(hw).extends(old(hw)),
            wake_up(
                PCA9685_ADDRESS,
                final(hw).since(old(hw)),
                match r {
                    Ok(_) => Ok(()),
                    Err(e) => Err(e),
                },
            ),
            r matches Ok(device) ==> device.addr == PCA9685_ADDRESS,
    {
        let mut device = Pca9685 { addr: 0x40 };
        match device.initialize(hw) {
            Ok(()) => Ok(device),
            Err(e) => Err(e),
        }
    }

    /// Takes the device out of sleep mode and enables its internal oscillator.
    pub fn initialize<T: Transport, D: DelayProvider>(&mut self, hw: &mut Platform<T, D>) -> (r:
        Result<(), SetPwmError>)
        ensures
            final(hw).extends(old(hw)),
            wake_up(old(self).addr, final(hw).since(old(hw)), r),
            final(self).addr == old(self).addr,
    {
        let ghost t0 = hw.trace();
        let mut initial_mode_data: [u8; 1] = [0; 1];
        let mut final_mode_data: [u8; 1] = [0; 1];

        let answered = hw.read_registers(self.addr, PCA9685_MODE1, &mut initial_mode_data);
        let ghost t1 = hw.trace();
        proof {
            lemma_trace_push(t0, t1.last());
        }
        if answered.is_err() {
            return Err(SetPwmError::TransportFailure);
        }
        let mode1 = compute_wake_mode(initial_mode_data[0]);

        let written = hw.write_register(self.addr, PCA9685_MODE1, mode1);
        let ghost t2 = hw.trace();
        proof {
            lemma_trace_push(t1, t2.last());
            lemma_trace_grows(t0, t1, t2);
        }
        if written.is_err() {
            return Err(SetPwmError::TransportFailure);
        }

        let answered = hw.read_registers(self.addr, PCA9685_MODE1, &mut final_mode_data);
        proof {
            lemma_trace_push(t2, hw.trace().last());
            lemma_trace_grows(t0, t2, hw.trace());
        }
        if answered.is_err() {
            return Err(SetPwmError::TransportFailure);
        }
        Ok(())
    }

    /// Lets `channel` emit pulses of `on_time` counts out of 4096.
    pub fn set_pwm<T: Transport, D: DelayProvider>(
        &mut self,
        hw: &mut Platform<T, D>,
        channel: u8,
        on_time: u16,
    ) -> (r: Result<(), SetPwmError>)
        ensures
            final(hw).extends(old(hw)),
            pwm_update(old(self).addr, channel, on_time, final(hw).since(old(hw)), r),
            final(self).addr == old(self).addr,
    {
        if channel > 15 {
            proof {
                lemma_trace_unchanged(hw.trace());
            }
            return Err(SetPwmError::InvalidChannel);
        }
        let ghost t0 = hw.trace();

        // The first of the four registers of the channel.
        let addr: u8 = 0x06 + (4 * channel);

        let mut data: [u8; 4] = [0; 4];
        data[0] = 0;
        data[1] = 0;
        data[2] = (on_time & 0xFF) as u8;
        data[3] = ((on_time >> 8) & 0xFF) as u8;
        assert(on_time & 0xFF == on_time % 256) by (bit_vector);
        assert((on_time >> 8) & 0xFF == on_time / 256) by (bit_vector);

        let sent = self.send_pwm_value(hw, addr, data[0]);
        let ghost t1 = hw.trace();
        proof {
            lemma_trace_push(t0, t1.last());
        }
        if sent.is_err() {
            return Err(SetPwmError::TransportFailure);
        }
        let sent = self.send_pwm_value(hw, addr + 1, data[1]);
        let ghost t2 = hw.trace();
        proof {
            lemma_trace_push(t1, t2.last());
            lemma_trace_grows(t0, t1, t2);
        }
        if sent.is_err() {
            return Err(SetPwmError::TransportFailure);
        }
        let sent = self.send_pwm_value(hw, addr + 2, data[2]);
        let ghost t3 = hw.trace();
        proof {
            lemma_trace_push(t2, t3.last());
            lemma_trace_grows(t0, t2, t3);
        }
        if sent.is_err() {
            return Err(SetPwmError::TransportFailure);
        }
        let sent = self.send_pwm_value(hw, addr + 3, data[3]);
        proof {
            lemma_trace_push(t3, hw.trace().last());
            lemma_trace_grows(t0, t3, hw.trace());
        }
        if sent.is_err() {
            return Err(SetPwmError::TransportFailure);
        }
        Ok(())
    }

    fn send_pwm_value<T: Transport, D: DelayProvider>(
        &mut self,
        hw: &mut Platform<T, D>,
        register_addr: u8,
        value: u8,
    ) -> (r: Result<(), ()>)
        ensures
            final(hw).trace() == old(hw).trace().push(
                register_write(old(self).addr, register_addr, value, r is Ok),
            ),
            final(self).addr == old(self).addr,
    {
        match hw.write_register(self.addr, register_addr, value) {
            Ok(()) => Ok(()),
            Err(_) => Err(()),
        }
    }
}

} // verus!
