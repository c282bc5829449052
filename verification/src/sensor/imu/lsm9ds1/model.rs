//! What the operations of the LSM9DS1 driver do, stated over the calls
//! they make on the hardware and the replies they get.

use crate::bus::{register_read, register_write, reply_byte, reply_bytes, HardwareEvent};
use crate::sensor::decode::{
    lemma_signed_word_is_twos_complement, quotient_towards_zero, signed_word,
};
use crate::sensor::imu::lsm9ds1::registers::{GyroOdr, MagnetometerRM, XlOdr};
use crate::sensor::imu::lsm9ds1::{
    Axis, CalibrationInfo, ImuData, MagnetometerCalibration, LSM9DS1_AG_ADDRESS,
    LSM9DS1_MAG_ADDRESS, LSM9DS1_MAG_ID,
};
use crate::sensor::{SensorError, SensorState};
use vstd::prelude::*;

verus! {

/// The full-scale range of the magnetometer, in gauss: corrected readings
/// are divided by it.
pub const MAGNETOMETER_RANGE_GAUSS: i32 = 4;

/// The full-scale range of the accelerometer, in g.
pub const ACCELEROMETER_RANGE_G: i32 = 2;

/// The full-scale range of the gyroscope, in degrees per second.
pub const GYROSCOPE_RANGE_DPS: i32 = 2000;

/// What a driver holds, as the contracts see it.
pub struct Lsm9ds1Model {
    pub state: SensorState,
    pub calibration: CalibrationInfo,
    pub data: ImuData,
}

impl Lsm9ds1Model {
    /// The same driver after a failure of the given kind.
    pub open spec fn failed(self, kind: SensorError) -> Self {
        Lsm9ds1Model { state: SensorState::Error(kind), ..self }
    }

    /// The same driver in another state.
    pub open spec fn in_state(self, state: SensorState) -> Self {
        Lsm9ds1Model { state, ..self }
    }

    /// The offset stored for an axis of the magnetometer.
    pub open spec fn offset(self, axis: Axis) -> i32 {
        match axis {
            Axis::X => self.calibration.magnetometer.x_offset,
            Axis::Y => self.calibration.magnetometer.y_offset,
            Axis::Z => self.calibration.magnetometer.z_offset,
        }
    }
}

/// Whether the reply to the identity query is that of the magnetometer of
/// an LSM9DS1.
pub open spec fn identity_confirmed(reply: Option<Seq<u8>>) -> bool {
    reply_byte(reply) == Some(LSM9DS1_MAG_ID)
}

/// The identity check: one read of the magnetometer's who-am-i register. A
/// failed read and a wrong identity both leave the driver in
/// `Error(NotFound)`; the right identity changes nothing.
pub open spec fn identity_check(
    pre: Lsm9ds1Model,
    events: Seq<HardwareEvent>,
    post: Lsm9ds1Model,
    found: bool,
) -> bool {
    &&& events.len() == 1
    &&& events[0] == register_read(
        LSM9DS1_MAG_ADDRESS,
        MagnetometerRM::WhoAmI.address(),
        1,
        events[0].reply(),
    )
    &&& found == identity_confirmed(events[0].reply())
    &&& post == if found {
        pre
    } else {
        pre.failed(SensorError::NotFound)
    }
}

/// The value that selects a rate of the accelerometer: the selector in the
/// three highest bits of the control register.
pub open spec fn accelerometer_control(odr: XlOdr) -> u8 {
    (32 * odr.selector()) as u8
}

/// The value that selects a rate of the gyroscope: the selector in the
/// three highest bits of the control register, and both bandwidth bits set.
pub open spec fn gyroscope_control(odr: GyroOdr) -> u8 {
    (32 * odr.selector() + 3) as u8
}

/// The value that puts the magnetometer into continuous conversion.
pub const MAGNETOMETER_CONTINUOUS: u8 = 0x00;

/// A write to a control register has taken effect if the register now
/// holds the value written and held another value before. A register that
/// held the value already counts as not written.
pub open spec fn write_verified(initial: u8, written: u8, observed: u8) -> bool {
    observed == written && observed != initial
}

/// Reading a control register: one read of one byte. A failed read leaves
/// the driver in `Error(TransportFailure)`.
pub open spec fn control_read(
    pre: Lsm9ds1Model,
    address: u8,
    register: u8,
    events: Seq<HardwareEvent>,
    post: Lsm9ds1Model,
    r: Result<u8, ()>,
) -> bool {
    &&& events.len() == 1
    &&& events[0] == register_read(address, register, 1, events[0].reply())
    &&& match reply_byte(events[0].reply()) {
        Some(value) => r == Ok::<u8, ()>(value) && post == pre,
        None => r is Err && post == pre.failed(SensorError::TransportFailure),
    }
}

/// Whether the three calls of a boot sequence all went through and the
/// write is verified.
pub open spec fn boot_succeeded(value: u8, events: Seq<HardwareEvent>) -> bool {
    &&& events.len() == 3
    &&& reply_byte(events[0].reply()) is Some
    &&& events[1].done()
    &&& reply_byte(events[2].reply()) is Some
    &&& write_verified(
        reply_byte(events[0].reply())->0,
        value,
        reply_byte(events[2].reply())->0,
    )
}

/// A boot sequence: the control register is read, `value` is written to
/// it, and it is read again. The first transaction that fails ends the
/// sequence and leaves the driver in `Error(TransportFailure)`. A write
/// that is not verified leaves it in `Error(FailedToCalibrate)`. A verified
/// write changes nothing in the driver.
pub open spec fn boot_sequence(
    pre: Lsm9ds1Model,
    address: u8,
    register: u8,
    value: u8,
    events: Seq<HardwareEvent>,
    post: Lsm9ds1Model,
    r: Result<(), ()>,
) -> bool {
    let lost = r is Err && post == pre.failed(SensorError::TransportFailure);
    &&& events.len() >= 1
    &&& events[0] == register_read(address, register, 1, events[0].reply())
    &&& match reply_byte(events[0].reply()) {
        None => events.len() == 1 && lost,
        Some(initial) => {
            &&& events.len() >= 2
            &&& events[1] == register_write(address, register, value, events[1].done())
            &&& if !events[1].done() {
                events.len() == 2 && lost
            } else {
                &&& events.len() == 3
                &&& events[2] == register_read(address, register, 1, events[2].reply())
                &&& match reply_byte(events[2].reply()) {
                    None => lost,
                    Some(observed) => if write_verified(initial, value, observed) {
                        r is Ok && post == pre
                    } else {
                        r is Err && post == pre.failed(SensorError::FailedToCalibrate)
                    },
                }
            }
        },
    }
}

/// The three signed readings in a burst of six bytes: x, y, z, each with
/// its low byte first.
pub open spec fn burst_readings(bytes: Seq<u8>) -> (int, int, int) {
    (
        signed_word(bytes[1], bytes[0]),
        signed_word(bytes[3], bytes[2]),
        signed_word(bytes[5], bytes[4]),
    )
}

/// The offsets that a burst of the magnetometer's output registers gives.
pub open spec fn offsets_from(bytes: Seq<u8>) -> CalibrationInfo {
    CalibrationInfo {
        magnetometer: MagnetometerCalibration {
            x_offset: burst_readings(bytes).0 as i32,
            y_offset: burst_readings(bytes).1 as i32,
            z_offset: burst_readings(bytes).2 as i32,
        },
    }
}

/// Calibrating the magnetometer: its three axes are read once, in one
/// burst of six bytes, and the readings become the offsets. A failed read
/// leaves the offsets as they were and the driver in
/// `Error(FailedToCalibrate)`.
pub open spec fn magnetometer_calibration(
    pre: Lsm9ds1Model,
    events: Seq<HardwareEvent>,
    post: Lsm9ds1Model,
    r: Result<(), ()>,
) -> bool {
    &&& events.len() == 1
    &&& events[0] == register_read(
        LSM9DS1_MAG_ADDRESS,
        MagnetometerRM::OutXLM.address(),
        6,
        events[0].reply(),
    )
    &&& match reply_bytes(events[0].reply(), 6) {
        Some(bytes) => r is Ok && post == (Lsm9ds1Model {
            calibration: offsets_from(bytes),
            ..pre
        }),
        None => r is Err && post == pre.failed(SensorError::FailedToCalibrate),
    }
}

/// The calibration of the device: that of the magnetometer, after which
/// the driver is `Ready`. A driver in `Error` does nothing.
pub open spec fn calibration(
    pre: Lsm9ds1Model,
    events: Seq<HardwareEvent>,
    post: Lsm9ds1Model,
    r: Result<(), ()>,
) -> bool {
    if pre.state is Error {
        events.len() == 0 && post == pre && r is Err
    } else {
        &&& events.len() == 1
        &&& events[0] == register_read(
            LSM9DS1_MAG_ADDRESS,
            MagnetometerRM::OutXLM.address(),
            6,
            events[0].reply(),
        )
        &&& match reply_bytes(events[0].reply(), 6) {
            Some(bytes) => r is Ok && post == (Lsm9ds1Model {
                state: SensorState::Ready,
                calibration: offsets_from(bytes),
                data: pre.data,
            }),
            None => r is Err && post == pre.failed(SensorError::FailedToCalibrate),
        }
    }
}

/// Initialisation: the driver enters `Startup` and checks the identity of
/// the device. A device that is not found ends it, in `Error(NotFound)`.
/// Otherwise the magnetometer is booted; a boot that fails ends it too.
/// After a boot that succeeded the calibration follows. A driver in `Error`
/// does nothing.
pub open spec fn initialization(
    pre: Lsm9ds1Model,
    events: Seq<HardwareEvent>,
    post: Lsm9ds1Model,
    r: Result<(), ()>,
) -> bool {
    if pre.state is Error {
        events.len() == 0 && post == pre && r is Err
    } else {
        let started = pre.in_state(SensorState::Startup);
        &&& events.len() >= 1
        &&& events[0] == register_read(
            LSM9DS1_MAG_ADDRESS,
            MagnetometerRM::WhoAmI.address(),
            1,
            events[0].reply(),
        )
        &&& if !identity_confirmed(events[0].reply()) {
            events.len() == 1 && r is Err && post == pre.failed(SensorError::NotFound)
        } else if events.len() >= 4 && boot_succeeded(
            MAGNETOMETER_CONTINUOUS,
            events.subrange(1, 4),
        ) {
            &&& boot_sequence(
                started,
                LSM9DS1_MAG_ADDRESS,
                MagnetometerRM::CtrlReg3M.address(),
                MAGNETOMETER_CONTINUOUS,
                events.subrange(1, 4),
                started,
                Ok(()),
            )
            &&& calibration(started, events.skip(4), post, r)
        } else {
            &&& r is Err
            &&& boot_sequence(
                started,
                LSM9DS1_MAG_ADDRESS,
                MagnetometerRM::CtrlReg3M.address(),
                MAGNETOMETER_CONTINUOUS,
                events.skip(1),
                post,
                r,
            )
        }
    }
}

/// The register that holds the low byte of an axis of the magnetometer.
pub open spec fn axis_register(axis: Axis) -> u8 {
    match axis {
        Axis::X => MagnetometerRM::OutXLM.address(),
        Axis::Y => MagnetometerRM::OutYLM.address(),
        Axis::Z => MagnetometerRM::OutZLM.address(),
    }
}

/// A reading of the magnetometer with the offset taken off, in units of
/// the full-scale range.
pub open spec fn corrected_field(raw: int, offset: int) -> int {
    quotient_towards_zero(raw - offset, MAGNETOMETER_RANGE_GAUSS as int)
}

/// The corrected field that the reply to a read of `axis` stands for.
pub open spec fn field_from(pre: Lsm9ds1Model, axis: Axis, reply: Option<Seq<u8>>) -> Option<int> {
    match reply_bytes(reply, 2) {
        Some(bytes) => Some(
            corrected_field(signed_word(bytes[1], bytes[0]), pre.offset(axis) as int),
        ),
        None => None,
    }
}

/// Reading one axis of the magnetometer: one read of two bytes, low byte
/// first. A failed read leaves the driver in `Error(TransportFailure)`.
pub open spec fn axis_measurement(
    pre: Lsm9ds1Model,
    axis: Axis,
    events: Seq<HardwareEvent>,
    post: Lsm9ds1Model,
    r: Result<i32, ()>,
) -> bool {
    &&& events.len() == 1
    &&& events[0] == register_read(
        LSM9DS1_MAG_ADDRESS,
        axis_register(axis),
        2,
        events[0].reply(),
    )
    &&& match field_from(pre, axis, events[0].reply()) {
        Some(field) => r == Ok::<i32, ()>(field as i32) && post == pre,
        None => r is Err && post == pre.failed(SensorError::TransportFailure),
    }
}

/// The axis that is read for each component of a field measurement.
///
/// The z component is read from the x axis. The device has a z axis of its
/// own, so this is most likely a mistake; it is kept until the intended
/// behaviour of the hardware is confirmed.
pub open spec fn component_axis(component: int) -> Axis {
    if component == 1 {
        Axis::Y
    } else {
        Axis::X
    }
}

/// Measuring the field: the three components are read in order, up to the
/// first read that fails, which leaves the driver in
/// `Error(TransportFailure)`.
pub open spec fn field_measurement(
    pre: Lsm9ds1Model,
    events: Seq<HardwareEvent>,
    post: Lsm9ds1Model,
    r: Result<(i32, i32, i32), ()>,
) -> bool {
    &&& 1 <= events.len() <= 3
    &&& forall|i: int|
        0 <= i < events.len() ==> events[i] == register_read(
            LSM9DS1_MAG_ADDRESS,
            axis_register(component_axis(i)),
            2,
            #[trigger] events[i].reply(),
        )
    &&& forall|i: int|
        0 <= i < events.len() - 1 ==> field_from(
            pre,
            component_axis(i),
            #[trigger] events[i].reply(),
        ) is Some
    &&& match r {
        Ok((x, y, z)) => {
            &&& events.len() == 3
            &&& field_from(pre, component_axis(0), events[0].reply()) == Some(x as int)
            &&& field_from(pre, component_axis(1), events[1].reply()) == Some(y as int)
            &&& field_from(pre, component_axis(2), events[2].reply()) == Some(z as int)
            &&& post == pre
        },
        Err(_) => {
            &&& field_from(
                pre,
                component_axis(events.len() - 1),
                events.last().reply(),
            ) is None
            &&& post == pre.failed(SensorError::TransportFailure)
        },
    }
}

/// Reading the three axes of the accelerometer or of the gyroscope: one
/// burst of six bytes starting at `register`. Each reading is multiplied by
/// the full-scale range. A failed read leaves the driver in
/// `Error(TransportFailure)`.
pub open spec fn burst_measurement(
    pre: Lsm9ds1Model,
    register: u8,
    range: int,
    events: Seq<HardwareEvent>,
    post: Lsm9ds1Model,
    r: Result<(i32, i32, i32), ()>,
) -> bool {
    &&& events.len() == 1
    &&& events[0] == register_read(LSM9DS1_AG_ADDRESS, register, 6, events[0].reply())
    &&& match reply_bytes(events[0].reply(), 6) {
        Some(bytes) => {
            &&& r matches Ok((x, y, z))
            &&& x == burst_readings(bytes).0 * range
            &&& y == burst_readings(bytes).1 * range
            &&& z == burst_readings(bytes).2 * range
            &&& post == pre
        },
        None => r is Err && post == pre.failed(SensorError::TransportFailure),
    }
}

/// The three ways in which a write to a control register can turn out. A
/// register that reads back the value written, after holding another one,
/// is verified. A register that reads back what it held before is not,
/// even where that is the value written. Nor is a register that reads back
/// anything else.
pub proof fn lemma_write_verified_cases(initial: u8, written: u8, observed: u8)
    ensures
        observed == written && written != initial ==> write_verified(initial, written, observed),
        observed == initial ==> !write_verified(initial, written, observed),
        observed != written ==> !write_verified(initial, written, observed),
{
}

/// A boot sequence whose second read returns what the first read returned
/// fails: the driver is left in `Error(FailedToCalibrate)`.
pub proof fn lemma_ignored_write_fails_boot(
    pre: Lsm9ds1Model,
    address: u8,
    register: u8,
    value: u8,
    events: Seq<HardwareEvent>,
    post: Lsm9ds1Model,
    r: Result<(), ()>,
)
    requires
        boot_sequence(pre, address, register, value, events, post, r),
        events.len() == 3,
        reply_byte(events[0].reply()) is Some,
        reply_byte(events[2].reply()) == reply_byte(events[0].reply()),
    ensures
        r is Err,
        post == pre.failed(SensorError::FailedToCalibrate),
{
}

/// A boot sequence succeeds only if all three of its calls went through
/// and the write is verified.
pub proof fn lemma_boot_succeeds_only_verified(
    pre: Lsm9ds1Model,
    address: u8,
    register: u8,
    value: u8,
    events: Seq<HardwareEvent>,
    post: Lsm9ds1Model,
    r: Result<(), ()>,
)
    requires
        boot_sequence(pre, address, register, value, events, post, r),
    ensures
        r is Ok <==> boot_succeeded(value, events),
        r is Ok ==> post == pre,
        r is Err ==> post.state is Error,
{
}

/// A device that does not identify itself as an LSM9DS1 ends the
/// initialisation at the identity check: the driver is left in
/// `Error(NotFound)`, nothing is written to the device, no calibration
/// read is made, and the offsets are untouched.
pub proof fn lemma_wrong_identity_ends_initialization(
    pre: Lsm9ds1Model,
    events: Seq<HardwareEvent>,
    post: Lsm9ds1Model,
    r: Result<(), ()>,
)
    requires
        initialization(pre, events, post, r),
        pre.state !is Error,
        !identity_confirmed(events[0].reply()),
    ensures
        r is Err,
        post.state == SensorState::Error(SensorError::NotFound),
        events.len() == 1,
        post.calibration == pre.calibration,
        post.data == pre.data,
{
}

/// The raw reading of an axis in a burst of the magnetometer's six output
/// registers.
pub open spec fn burst_reading(bytes: Seq<u8>, axis: Axis) -> int {
    match axis {
        Axis::X => burst_readings(bytes).0,
        Axis::Y => burst_readings(bytes).1,
        Axis::Z => burst_readings(bytes).2,
    }
}

/// After a calibration, a measurement of an axis returns the difference
/// between the raw reading now and the raw reading at the calibration,
/// divided by the full-scale range and rounded towards zero.
pub proof fn lemma_offset_is_subtracted(
    pre: Lsm9ds1Model,
    calibrating: Seq<HardwareEvent>,
    calibrated: Lsm9ds1Model,
    axis: Axis,
    measuring: Seq<HardwareEvent>,
    post: Lsm9ds1Model,
    r: Result<i32, ()>,
)
    requires
        magnetometer_calibration(pre, calibrating, calibrated, Ok(())),
        axis_measurement(calibrated, axis, measuring, post, r),
        reply_bytes(measuring[0].reply(), 2) is Some,
    ensures
        reply_bytes(calibrating[0].reply(), 6) is Some,
        r == Ok::<i32, ()>(
            quotient_towards_zero(
                signed_word(measuring[0].reply()->0[1], measuring[0].reply()->0[0])
                    - burst_reading(calibrating[0].reply()->0, axis),
                4,
            ) as i32,
        ),
        -16383 <= r->Ok_0 <= 16383,
        post == calibrated,
{
    let then = calibrating[0].reply()->0;
    let now = measuring[0].reply()->0;
    lemma_signed_word_is_twos_complement(then[1], then[0]);
    lemma_signed_word_is_twos_complement(then[3], then[2]);
    lemma_signed_word_is_twos_complement(then[5], then[4]);
    lemma_signed_word_is_twos_complement(now[1], now[0]);
}

/// No operation leaves `Error`: a driver that was in `Error` before an
/// initialisation, a calibration, a boot sequence or a measurement is in
/// `Error` after it.
pub proof fn lemma_error_is_final(
    pre: Lsm9ds1Model,
    events: Seq<HardwareEvent>,
    post: Lsm9ds1Model,
    done: Result<(), ()>,
    axis: Axis,
    address: u8,
    register: u8,
    value: u8,
    range: int,
    field: Result<i32, ()>,
    fields: Result<(i32, i32, i32), ()>,
)
    requires
        pre.state is Error,
        initialization(pre, events, post, done) || calibration(pre, events, post, done)
            || magnetometer_calibration(pre, events, post, done) || boot_sequence(
            pre,
            address,
            register,
            value,
            events,
            post,
            done,
        ) || axis_measurement(pre, axis, events, post, field) || field_measurement(
            pre,
            events,
            post,
            fields,
        ) || burst_measurement(pre, register, range, events, post, fields),
    ensures
        post.state is Error,
{
}

} // verus!
