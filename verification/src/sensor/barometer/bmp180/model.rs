//! What the operations of the BMP180 driver do, stated over the calls
//! they make on the hardware and the replies they get.

use crate::bus::{pause, register_read, register_write, reply_byte, HardwareEvent};
use crate::sensor::barometer::bmp180::{
    bmp180_registers, BmpData, Coeffs, BMP180_ADDRESS, BMP180_CHIP_ID, BMP180_CONVERSION_MS,
    BMP180_START_TEMPERATURE,
};
use crate::sensor::decode::{quotient_towards_zero, signed_word};
use crate::sensor::{SensorError, SensorState};
use vstd::prelude::*;

verus! {

/// What a driver holds, as the contracts see it.
pub struct Bmp180Model {
    pub state: SensorState,
    pub coefficients: Coeffs,
    pub data: BmpData,
}

impl Bmp180Model {
    /// The same driver after a failure of the given kind.
    pub open spec fn failed(self, kind: SensorError) -> Self {
        Bmp180Model { state: SensorState::Error(kind), ..self }
    }

    /// The same driver in another state.
    pub open spec fn in_state(self, state: SensorState) -> Self {
        Bmp180Model { state, ..self }
    }
}

/// Whether the reply to the identity query is that of a BMP180.
pub open spec fn identity_confirmed(reply: Option<Seq<u8>>) -> bool {
    reply_byte(reply) == Some(BMP180_CHIP_ID)
}

/// The identity check: one read of the chip-id register. A failed read and
/// a wrong identity both leave the driver in `Error(NotFound)`; the right
/// identity changes nothing.
pub open spec fn identity_check(
    pre: Bmp180Model,
    events: Seq<HardwareEvent>,
    post: Bmp180Model,
    found: bool,
) -> bool {
    &&& events.len() == 1
    &&& events[0] == register_read(
        BMP180_ADDRESS,
        bmp180_registers().reg_id_addr,
        1,
        events[0].reply(),
    )
    &&& found == identity_confirmed(events[0].reply())
    &&& post == if found {
        pre
    } else {
        pre.failed(SensorError::NotFound)
    }
}

/// The coefficient that a reply carries: its two bytes, most significant
/// first, as a signed number. There is none if the read failed, and none if
/// the number is zero.
pub open spec fn coefficient_word(reply: Option<Seq<u8>>) -> Option<i16> {
    match reply {
        Some(bytes) => if bytes.len() >= 2 && signed_word(bytes[0], bytes[1]) != 0 {
            Some(signed_word(bytes[0], bytes[1]) as i16)
        } else {
            None
        },
        None => None,
    }
}

/// Reading one coefficient: one read of two bytes at `register`. Without a
/// coefficient in the reply the driver is left in `Error(FailedToCalibrate)`.
/// The stored coefficients are not touched.
pub open spec fn coefficient_read(
    pre: Bmp180Model,
    register: u8,
    events: Seq<HardwareEvent>,
    post: Bmp180Model,
    r: Result<i16, ()>,
) -> bool {
    &&& events.len() == 1
    &&& events[0] == register_read(BMP180_ADDRESS, register, 2, events[0].reply())
    &&& match coefficient_word(events[0].reply()) {
        Some(word) => r == Ok::<i16, ()>(word) && post == pre,
        None => r is Err && post == pre.failed(SensorError::FailedToCalibrate),
    }
}

/// The register that holds the most significant byte of the coefficient
/// read at the given place of the calibration: AC5, AC6, MC, MD, in that order.
pub open spec fn coefficient_register(place: int) -> u8 {
    if place == 0 {
        bmp180_registers().ac5_msb_addr
    } else if place == 1 {
        bmp180_registers().ac6_msb_addr
    } else if place == 2 {
        bmp180_registers().mc_msb_addr
    } else {
        bmp180_registers().md_msb_addr
    }
}

/// The coefficient at the given place after the reads in `events`: the one
/// that was read there, if that read took place and brought one; else the
/// one that was stored before.
pub open spec fn coefficient_after(events: Seq<HardwareEvent>, place: int, before: i16) -> i16 {
    if place < events.len() && coefficient_word(events[place].reply()) is Some {
        coefficient_word(events[place].reply())->0
    } else {
        before
    }
}

/// The calibration: the four coefficients are read in order, up to the
/// first read that brings none. Each coefficient that was read replaces the
/// stored one at once; the others are left as they were. With all four the
/// driver becomes `Ready`, otherwise `Error(FailedToCalibrate)`. A driver in
/// `Error` does nothing.
pub open spec fn calibration(
    pre: Bmp180Model,
    events: Seq<HardwareEvent>,
    post: Bmp180Model,
    r: Result<(), ()>,
) -> bool {
    if pre.state is Error {
        events.len() == 0 && post == pre && r is Err
    } else {
        &&& 1 <= events.len() <= 4
        &&& forall|i: int|
            0 <= i < events.len() ==> events[i] == register_read(
                BMP180_ADDRESS,
                coefficient_register(i),
                2,
                #[trigger] events[i].reply(),
            )
        &&& forall|i: int|
            0 <= i < events.len() - 1 ==> coefficient_word(#[trigger] events[i].reply()) is Some
        &&& r is Ok <==> events.len() == 4 && coefficient_word(events[3].reply()) is Some
        &&& r is Err ==> coefficient_word(events.last().reply()) is None
        &&& post.state == if r is Ok {
            SensorState::Ready
        } else {
            SensorState::Error(SensorError::FailedToCalibrate)
        }
        &&& post.coefficients == (Coeffs {
            ac5: coefficient_after(events, 0, pre.coefficients.ac5),
            ac6: coefficient_after(events, 1, pre.coefficients.ac6),
            mc: coefficient_after(events, 2, pre.coefficients.mc),
            md: coefficient_after(events, 3, pre.coefficients.md),
        })
        &&& post.data == pre.data
    }
}

/// Initialisation: the driver enters `Startup` and checks the identity of
/// the device. A device that is not found ends it, in `Error(NotFound)`;
/// otherwise the calibration follows. A driver in `Error` does nothing.
pub open spec fn initialization(
    pre: Bmp180Model,
    events: Seq<HardwareEvent>,
    post: Bmp180Model,
    r: Result<(), ()>,
) -> bool {
    if pre.state is Error {
        events.len() == 0 && post == pre && r is Err
    } else {
        &&& events.len() >= 1
        &&& events[0] == register_read(
            BMP180_ADDRESS,
            bmp180_registers().reg_id_addr,
            1,
            events[0].reply(),
        )
        &&& if identity_confirmed(events[0].reply()) {
            calibration(pre.in_state(SensorState::Startup), events.skip(1), post, r)
        } else {
            events.len() == 1 && r is Err && post == pre.failed(SensorError::NotFound)
        }
    }
}

/// The divisor of the compensation formula: X1 + MD, where X1 is
/// (raw - AC6) * AC5 / 2^15, rounded down.
pub open spec fn temperature_divisor(raw: i16, c: Coeffs) -> int {
    ((raw - c.ac6) * c.ac5) / 32768 + c.md
}

/// The temperature in whole degrees Celsius that the datasheet's formula
/// gives for a raw reading:
///
/// X1 = (raw - AC6) * AC5 / 2^15, X2 = MC * 2^11 / (X1 + MD), B5 = X1 + X2,
/// T = ((B5 + 8) / 2^4) / 10,
///
/// where the divisions by powers of two round down and the other two round
/// towards zero. There is no temperature where X1 + MD is zero.
pub open spec fn compensated_temperature(raw: i16, c: Coeffs) -> Option<int> {
    let x1 = ((raw - c.ac6) * c.ac5) / 32768;
    if x1 + c.md == 0 {
        None
    } else {
        let x2 = quotient_towards_zero(c.mc * 2048, x1 + c.md);
        let b5 = x1 + x2;
        Some(quotient_towards_zero((b5 + 8) / 16, 10))
    }
}

/// Measuring the temperature: the conversion is started by a write to the
/// control register, the driver waits for it, and reads the two bytes of
/// the result one after the other. A failed transaction ends the
/// measurement and leaves the driver in `Error(TransportFailure)`. A reading
/// for which the formula has no value leaves it in
/// `Error(FailedToCalibrate)`. Otherwise the temperature is returned and
/// stored, and the state is kept.
pub open spec fn temperature_measurement(
    pre: Bmp180Model,
    events: Seq<HardwareEvent>,
    post: Bmp180Model,
    r: Result<i32, ()>,
) -> bool {
    let map = bmp180_registers();
    let lost = r is Err && post == pre.failed(SensorError::TransportFailure);
    &&& events.len() >= 1
    &&& events[0] == register_write(
        BMP180_ADDRESS,
        map.ctrl_meas_addr,
        BMP180_START_TEMPERATURE,
        events[0].done(),
    )
    &&& if !events[0].done() {
        events.len() == 1 && lost
    } else {
        &&& events.len() >= 3
        &&& events[1] == pause(BMP180_CONVERSION_MS)
        &&& events[2] == register_read(BMP180_ADDRESS, map.meas_out_msb_addr, 1, events[2].reply())
        &&& match reply_byte(events[2].reply()) {
            None => events.len() == 3 && lost,
            Some(msb) => {
                &&& events.len() == 4
                &&& events[3] == register_read(
                    BMP180_ADDRESS,
                    map.meas_out_lsb_addr,
                    1,
                    events[3].reply(),
                )
                &&& match reply_byte(events[3].reply()) {
                    None => lost,
                    Some(lsb) => match compensated_temperature(
                        signed_word(msb, lsb) as i16,
                        pre.coefficients,
                    ) {
                        Some(t) => r == Ok::<i32, ()>(t as i32) && post == (Bmp180Model {
                            data: BmpData { temperature: t as i32, ..pre.data },
                            ..pre
                        }),
                        None => r is Err && post == pre.failed(SensorError::FailedToCalibrate),
                    },
                }
            },
        }
    }
}

/// The coefficient at a place of the calibration: AC5, AC6, MC, MD.
pub open spec fn coefficient_at(c: Coeffs, place: int) -> i16 {
    if place == 0 {
        c.ac5
    } else if place == 1 {
        c.ac6
    } else if place == 2 {
        c.mc
    } else {
        c.md
    }
}

/// A coefficient that reads as zero is rejected. The calibration ends at
/// that read, in `Error(FailedToCalibrate)`, and the coefficient stored at
/// that place and those at the places after it are what they were before
/// the calibration.
pub proof fn lemma_zero_coefficient_is_rejected(
    pre: Bmp180Model,
    events: Seq<HardwareEvent>,
    post: Bmp180Model,
    r: Result<(), ()>,
    place: int,
)
    requires
        calibration(pre, events, post, r),
        pre.state !is Error,
        0 <= place < events.len(),
        events[place].reply() matches Some(bytes) && bytes.len() >= 2 && signed_word(
            bytes[0],
            bytes[1],
        ) == 0,
    ensures
        r is Err,
        post.state == SensorState::Error(SensorError::FailedToCalibrate),
        events.len() == place + 1,
        forall|later: int|
            place <= later < 4 ==> coefficient_at(post.coefficients, later) == coefficient_at(
                pre.coefficients,
                later,
            ),
{
    assert(coefficient_word(events[place].reply()) is None);
}

/// A calibration that succeeds has read all four coefficients, and none of
/// them is zero.
pub proof fn lemma_calibrated_coefficients_are_nonzero(
    pre: Bmp180Model,
    events: Seq<HardwareEvent>,
    post: Bmp180Model,
    r: Result<(), ()>,
)
    requires
        calibration(pre, events, post, r),
        r is Ok,
    ensures
        events.len() == 4,
        post.state == SensorState::Ready,
        post.coefficients.all_nonzero(),
{
    assert(coefficient_word(events[0].reply()) is Some);
    assert(coefficient_word(events[1].reply()) is Some);
    assert(coefficient_word(events[2].reply()) is Some);
}

/// A device that does not identify itself as a BMP180 ends the
/// initialisation at the identity check: the driver is left in
/// `Error(NotFound)`, no calibration read is made, and the coefficients
/// are untouched.
pub proof fn lemma_wrong_identity_ends_initialization(
    pre: Bmp180Model,
    events: Seq<HardwareEvent>,
    post: Bmp180Model,
    r: Result<(), ()>,
)
    requires
        initialization(pre, events, post, r),
        pre.state !is Error,
        !identity_confirmed(events[0].reply()),
    ensures
        r is Err,
        post.state == SensorState::Error(SensorError::NotFound),
        events.len() == 1,
        post.coefficients == pre.coefficients,
        post.data == pre.data,
{
}

/// No operation leaves `Error`: a driver that was in `Error` before an
/// initialisation, a calibration or a measurement is in `Error` after it.
pub proof fn lemma_error_is_final(
    pre: Bmp180Model,
    events: Seq<HardwareEvent>,
    post: Bmp180Model,
    done: Result<(), ()>,
    measured: Result<i32, ()>,
)
    requires
        pre.state is Error,
        initialization(pre, events, post, done) || calibration(pre, events, post, done)
            || temperature_measurement(pre, events, post, measured),
    ensures
        post.state is Error,
{
}

} // verus!
