//! The sensitivity model: per-axis constants that scale digital
//! readings into physical units, and the conversion of one decoded
//! frame into a raw wrench.
//!
//! The device datasheet gives each axis's sensitivity with one decimal
//! place (for example 24.9 digital counts per newton), so the constants
//! are held exactly as integer counts of tenths, and the scaled value
//! in micro-units is the exact integer quotient
//! `digital * 10 * MICRO_STEPS_PER_UNIT / sensitivity_deci`.

use vstd::arithmetic::div_mod::{lemma_div_pos_is_pos, lemma_multiply_divide_le};
use vstd::prelude::*;

use crate::error::SensorError;
use crate::frame::{
    axis_field, decode_frame, field_value, fields_in_bounds_hex, frame_decodes, is_ascii_frame,
    DigitalReading,
};
use crate::wrench::{Force, Torque, Triplet, Wrench, MICRO_STEPS_PER_UNIT};

verus! {

/// Upper bound, in micro-units, of any single scaled axis value: the
/// largest digital reading divided by the smallest sensitivity stays
/// below three billion micro-units.
pub const AXIS_MICRO_BOUND: i64 = 3_000_000_000;

/// Digital counts per newton for the force axes x, y, z, in tenths.
pub const FORCE_SENSITIVITY_X_DECI: u64 = 249;

pub const FORCE_SENSITIVITY_Y_DECI: u64 = 246;

pub const FORCE_SENSITIVITY_Z_DECI: u64 = 245;

/// Digital counts per newton-metre for the torque axes x, y, z, in
/// tenths.
pub const TORQUE_SENSITIVITY_X_DECI: u64 = 16647;

pub const TORQUE_SENSITIVITY_Y_DECI: u64 = 16397;

pub const TORQUE_SENSITIVITY_Z_DECI: u64 = 16380;

/// The sensitivity of axis `i` (axes 0..6 in the order force x, y, z,
/// torque x, y, z), in tenths of a digital count per physical unit.
pub open spec fn sensitivity_deci(i: int) -> int {
    if i == 0 {
        249
    } else if i == 1 {
        246
    } else if i == 2 {
        245
    } else if i == 3 {
        16647
    } else if i == 4 {
        16397
    } else {
        16380
    }
}

/// The exact scaled value, in micro-units, of one digital reading
/// under a sensitivity given in tenths of a count per unit:
/// `digital / (sens_deci / 10)` units, carried out as one integer
/// division so that nothing is rounded twice.
pub open spec fn scaled_micro(digital: u16, sens_deci: int) -> int
    recommends
        0 < sens_deci,
{
    (digital * 10 * MICRO_STEPS_PER_UNIT) / sens_deci
}

/// How many digital counts the sensor reports per newton on each force
/// axis, in tenths of a count.  These are the datasheet calibration
/// constants of the device.
pub fn force_sensitivity() -> (r: Triplet<u64>)
    ensures
        r.x == FORCE_SENSITIVITY_X_DECI,
        r.y == FORCE_SENSITIVITY_Y_DECI,
        r.z == FORCE_SENSITIVITY_Z_DECI,
{
    Triplet::new(FORCE_SENSITIVITY_X_DECI, FORCE_SENSITIVITY_Y_DECI, FORCE_SENSITIVITY_Z_DECI)
}

/// How many digital counts the sensor reports per newton-metre on each
/// torque axis, in tenths of a count.
pub fn torque_sensitivity() -> (r: Triplet<u64>)
    ensures
        r.x == TORQUE_SENSITIVITY_X_DECI,
        r.y == TORQUE_SENSITIVITY_Y_DECI,
        r.z == TORQUE_SENSITIVITY_Z_DECI,
{
    Triplet::new(TORQUE_SENSITIVITY_X_DECI, TORQUE_SENSITIVITY_Y_DECI, TORQUE_SENSITIVITY_Z_DECI)
}

/// Scales one digital reading into micro-units by dividing it by the
/// axis sensitivity, exactly and in one integer division.
fn scale_axis(digital: u16, sens_deci: u64) -> (r: i64)
    requires
        245 <= sens_deci,
    ensures
        r == scaled_micro(digital, sens_deci as int),
        0 <= r <= AXIS_MICRO_BOUND,
{
    let numerator: u64 = (digital as u64) * 10 * 1_000_000;
    let quotient: u64 = numerator / sens_deci;
    proof {
        lemma_div_pos_is_pos(numerator as int, sens_deci as int);
        lemma_multiply_divide_le(numerator as int, sens_deci as int, AXIS_MICRO_BOUND as int);
    }
    quotient as i64
}

/// The raw (uncorrected) wrench that a digital reading scales to.
/// Axis `i` of the result is exactly
/// `scaled_micro(reading.axis(i), sensitivity_deci(i))`.
pub fn scale_reading(reading: DigitalReading) -> (w: Wrench)
    ensures
        forall|i: int|
            0 <= i < 6 ==> #[trigger] w.axis(i) == scaled_micro(reading.axis(i), sensitivity_deci(i)),
        in_sensor_range(w),
{
    let fs = force_sensitivity();
    let ts = torque_sensitivity();
    let force = Triplet::new(
        Force::new(scale_axis(reading.force.x, fs.x)),
        Force::new(scale_axis(reading.force.y, fs.y)),
        Force::new(scale_axis(reading.force.z, fs.z)),
    );
    let torque = Triplet::new(
        Torque::new(scale_axis(reading.torque.x, ts.x)),
        Torque::new(scale_axis(reading.torque.y, ts.y)),
        Torque::new(scale_axis(reading.torque.z, ts.z)),
    );
    Wrench::new(force, torque)
}

/// True when every component of the wrench is a value the scaling of a
/// digital reading can produce: non-negative and at most
/// `AXIS_MICRO_BOUND` micro-units.  Raw readings and calibration
/// offsets always lie in this range, which keeps their differences and
/// running sums far from the machine word's edges.
pub open spec fn in_sensor_range(w: Wrench) -> bool {
    &&& 0 <= w.axis(0) <= AXIS_MICRO_BOUND
    &&& 0 <= w.axis(1) <= AXIS_MICRO_BOUND
    &&& 0 <= w.axis(2) <= AXIS_MICRO_BOUND
    &&& 0 <= w.axis(3) <= AXIS_MICRO_BOUND
    &&& 0 <= w.axis(4) <= AXIS_MICRO_BOUND
    &&& 0 <= w.axis(5) <= AXIS_MICRO_BOUND
}

/// Decodes one received frame and scales it into the raw wrench it
/// reports.
///
/// Succeeds exactly when the frame decodes; axis `i` of the result is
/// then the exact quotient of the reading at byte offset `1 + 4*i` by
/// that axis's sensitivity.  The error is the decoder's: the encoding
/// error for a non-ASCII byte, the digit error for a non-hexadecimal
/// field, the length error for a field cut off by the frame's end.
pub fn convert_reception_to_raw_wrench(reception: &[u8]) -> (r: Result<Wrench, SensorError>)
    ensures
        r is Ok <==> frame_decodes(reception@),
        r matches Ok(w) ==> forall|i: int|
            0 <= i < 6 ==> #[trigger] w.axis(i) == scaled_micro(
                field_value(axis_field(reception@, i)),
                sensitivity_deci(i),
            ),
        r matches Ok(w) ==> in_sensor_range(w),
        !is_ascii_frame(reception@) ==> r == Err::<Wrench, SensorError>(SensorError::Utf8),
        is_ascii_frame(reception@) && !fields_in_bounds_hex(reception@) ==> r == Err::<
            Wrench,
            SensorError,
        >(SensorError::ParseInt),
        is_ascii_frame(reception@) && fields_in_bounds_hex(reception@) && reception@.len() < 25
            ==> r == Err::<Wrench, SensorError>(SensorError::InvalidTextLength),
{
    match decode_frame(reception) {
        Ok(reading) => Ok(scale_reading(reading)),
        Err(e) => Err(e),
    }
}

} // verus!
