//! The sensor session: the last raw reading, the calibration offset,
//! and the request/response protocol state.
//!
//! The session owns no transport.  The caller that holds the serial
//! handle runs the poll cycle — send the one-byte poll command, read
//! one frame — and hands each received frame to [`Wdf6m200::update`];
//! the session does everything that can be checked: the size test, the
//! decode, the scaling, and the replacement rules for the stored state.
//! The reported measurement is always the raw reading minus the offset,
//! computed on demand and never cached.

use vstd::arithmetic::div_mod::{
    lemma_div_multiples_vanish, lemma_div_pos_is_pos, lemma_multiply_divide_le,
};
use vstd::prelude::*;

use crate::convert::{
    convert_reception_to_raw_wrench, in_sensor_range, scaled_micro, sensitivity_deci,
    AXIS_MICRO_BOUND,
};
use crate::error::SensorError;
use crate::frame::{
    axis_field, field_value, fields_in_bounds_hex, frame_decodes, is_ascii_frame, RESPONSE_BYTES,
};
use crate::wrench::{spec_sub, spec_zeroed, Force, Torque, Triplet, Wrench};

verus! {

/// The single-byte command that asks the sensor to send its next
/// frame: ASCII `R`.
pub const POLL_COMMAND: u8 = 0x52;

/// USB vendor identifier of the sensor device.
pub const SENSOR_DEVICE_VENDOR_ID: u16 = 0x10C4;

/// USB product identifier of the sensor device.
pub const SENSOR_DEVICE_PRODUCT_ID: u16 = 0xEA60;

/// Serial line speed the sensor expects, in baud.
pub const BAUD_RATE: u32 = 921600;

/// The most calibration samples one pass may average: the running sum
/// of that many in-range axis values is the largest one the machine
/// word still holds.
pub const MAX_CALIBRATION_SAMPLES: usize = 3_000_000_000;

/// The sum, over a sequence of wrenches, of the component on axis `i`.
pub open spec fn seq_axis_sum(s: Seq<Wrench>, i: int) -> int
    decreases s.len(),
{
    if s.len() == 0 {
        0
    } else {
        seq_axis_sum(s.drop_last(), i) + s.last().axis(i)
    }
}

/// WDF-6M200-3 six-axis force/torque sensor session state.
pub struct Wdf6m200 {
    /// The last raw wrench a successful decode produced, uncorrected.
    raw_wrench: Wrench,
    /// The calibration bias that is subtracted from the raw wrench; the
    /// sensor reports nonzero output even under no load, so a
    /// calibration pass measures that bias and stores it here.
    offset: Wrench,
}

impl Wdf6m200 {
    /// The stored raw wrench, for contracts.
    pub closed spec fn spec_raw_wrench(self) -> Wrench {
        self.raw_wrench
    }

    /// The stored calibration offset, for contracts.
    pub closed spec fn spec_offset(self) -> Wrench {
        self.offset
    }

    /// Both stored wrenches stay within the range that scaling a
    /// digital reading can produce; every constructor establishes this
    /// and every method preserves it.
    pub open spec fn wf(self) -> bool {
        in_sensor_range(self.spec_raw_wrench()) && in_sensor_range(self.spec_offset())
    }

    /// A fresh session: zero raw wrench, zero offset.  The caller that
    /// opened the transport builds one of these right after priming the
    /// protocol with the first poll command.
    pub fn new() -> (r: Wdf6m200)
        ensures
            r.wf(),
            r.spec_raw_wrench() == spec_zeroed(),
            r.spec_offset() == spec_zeroed(),
    {
        Wdf6m200 { raw_wrench: Wrench::zeroed(), offset: Wrench::zeroed() }
    }

    /// The last raw wrench, uncorrected for bias.
    pub fn raw_wrench(&self) -> (r: Wrench)
        ensures
            r == self.spec_raw_wrench(),
    {
        self.raw_wrench
    }

    /// The stored calibration offset.
    pub fn offset(&self) -> (r: Wrench)
        ensures
            r == self.spec_offset(),
    {
        self.offset
    }

    /// The corrected measurement: the last raw wrench minus the
    /// calibration offset, computed on demand.  Performs no I/O and
    /// cannot fail.
    pub fn last_measurement(&self) -> (r: Wrench)
        requires
            self.wf(),
        ensures
            r == spec_sub(self.spec_raw_wrench(), self.spec_offset()),
            forall|i: int|
                0 <= i < 6 ==> #[trigger] r.axis(i) == self.spec_raw_wrench().axis(i)
                    - self.spec_offset().axis(i),
    {
        self.raw_wrench.sub(self.offset)
    }

    /// Feeds the session the bytes read for one poll cycle.
    ///
    /// Succeeds exactly when exactly one whole frame arrived and it
    /// decodes; the raw wrench is then replaced by the frame's scaled
    /// reading and the offset is untouched.  On any failure nothing in
    /// the session changes: a short or long read is reported with the
    /// expected and actual byte counts, a non-ASCII byte as the
    /// encoding error, a non-hexadecimal field as the digit error.
    pub fn update(&mut self, reception: &[u8]) -> (r: Result<(), SensorError>)
        requires
            old(self).wf(),
        ensures
            final(self).wf(),
            final(self).spec_offset() == old(self).spec_offset(),
            r is Ok <==> reception@.len() == RESPONSE_BYTES && frame_decodes(reception@),
            r is Ok ==> forall|i: int|
                0 <= i < 6 ==> #[trigger] final(self).spec_raw_wrench().axis(i) == scaled_micro(
                    field_value(axis_field(reception@, i)),
                    sensitivity_deci(i),
                ),
            r is Err ==> *final(self) == *old(self),
            reception@.len() != RESPONSE_BYTES ==> r == Err::<(), SensorError>(
                SensorError::Read(RESPONSE_BYTES, reception@.len() as usize),
            ),
            reception@.len() == RESPONSE_BYTES && !is_ascii_frame(reception@) ==> r == Err::<
                (),
                SensorError,
            >(SensorError::Utf8),
            reception@.len() == RESPONSE_BYTES && is_ascii_frame(reception@) && !frame_decodes(
                reception@,
            ) ==> r == Err::<(), SensorError>(SensorError::ParseInt),
    {
        if reception.len() != RESPONSE_BYTES {
            return Err(SensorError::Read(RESPONSE_BYTES, reception.len()));
        }
        match convert_reception_to_raw_wrench(reception) {
            Ok(w) => {
                self.raw_wrench = w;
                Ok(())
            },
            Err(e) => {
                proof {
                    if is_ascii_frame(reception@) && !frame_decodes(reception@) {
                        assert(!fields_in_bounds_hex(reception@)) by {
                            if fields_in_bounds_hex(reception@) {
                                assert forall|a: int| 0 <= a < 6 implies crate::frame::field_is_hex(
                                    #[trigger] axis_field(reception@, a),
                                ) by {
                                    assert(crate::frame::field_in_bounds(
                                        reception@.len() as int,
                                        a,
                                    ));
                                }
                            }
                        }
                    }
                }
                Err(e)
            },
        }
    }

    /// Stores the average of one calibration pass as the new offset.
    ///
    /// The caller records the session's raw wrench once per sample —
    /// also when that sample's poll cycle failed, so a momentary
    /// dropout repeats a stale reading instead of aborting the pass —
    /// and hands the recorded wrenches in.  The new offset is, axis by
    /// axis, the exact integer average of the samples; the raw wrench
    /// is untouched.
    pub fn calibrate(&mut self, raw_samples: &Vec<Wrench>)
        requires
            old(self).wf(),
            0 < raw_samples@.len() <= MAX_CALIBRATION_SAMPLES,
            forall|j: int| 0 <= j < raw_samples@.len() ==> in_sensor_range(#[trigger] raw_samples@[j]),
        ensures
            final(self).wf(),
            final(self).spec_raw_wrench() == old(self).spec_raw_wrench(),
            forall|i: int|
                0 <= i < 6 ==> #[trigger] final(self).spec_offset().axis(i) == seq_axis_sum(
                    raw_samples@,
                    i,
                ) / raw_samples@.len() as int,
    {
        let count = raw_samples.len();
        let mut sum = Wrench::zeroed();
        let mut j: usize = 0;
        while j < count
            invariant
                j <= count == raw_samples@.len(),
                raw_samples@.len() <= MAX_CALIBRATION_SAMPLES,
                forall|b: int|
                    0 <= b < raw_samples@.len() ==> in_sensor_range(#[trigger] raw_samples@[b]),
                forall|i: int|
                    0 <= i < 6 ==> #[trigger] sum.axis(i) == seq_axis_sum(
                        raw_samples@.take(j as int),
                        i,
                    ),
                forall|i: int|
                    0 <= i < 6 ==> 0 <= #[trigger] sum.axis(i) <= j * (AXIS_MICRO_BOUND as int),
            decreases count - j,
        {
            let w = raw_samples[j];
            proof {
                assert(in_sensor_range(w));
                assert forall|i: int| 0 <= i < 6 implies i64::MIN <= #[trigger] sum.axis(i)
                    + w.axis(i) <= i64::MAX by {
                    assert(sum.axis(i) <= j * (AXIS_MICRO_BOUND as int));
                    assert(j * (AXIS_MICRO_BOUND as int) <= (MAX_CALIBRATION_SAMPLES as int) * (
                    AXIS_MICRO_BOUND as int)) by (nonlinear_arith)
                        requires
                            0 <= j as int <= MAX_CALIBRATION_SAMPLES as int,
                    ;
                }
                assert(Wrench::add_fits(sum, w)) by {
                    assert(sum.axis(0) + w.axis(0) <= i64::MAX);
                    assert(sum.axis(1) + w.axis(1) <= i64::MAX);
                    assert(sum.axis(2) + w.axis(2) <= i64::MAX);
                    assert(sum.axis(3) + w.axis(3) <= i64::MAX);
                    assert(sum.axis(4) + w.axis(4) <= i64::MAX);
                    assert(sum.axis(5) + w.axis(5) <= i64::MAX);
                }
            }
            let new_sum = sum.add(w);
            proof {
                assert(raw_samples@.take(j as int + 1).drop_last() =~= raw_samples@.take(j as int));
                assert(raw_samples@.take(j as int + 1).last() == raw_samples@[j as int]);
                assert forall|i: int| 0 <= i < 6 implies 0 <= #[trigger] new_sum.axis(i) <= (j + 1)
                    * (AXIS_MICRO_BOUND as int) by {
                    assert(sum.axis(i) <= j * (AXIS_MICRO_BOUND as int));
                    assert((j + 1) * (AXIS_MICRO_BOUND as int) == j * (AXIS_MICRO_BOUND as int)
                        + AXIS_MICRO_BOUND as int) by (nonlinear_arith);
                }
            }
            sum = new_sum;
            j += 1;
        }
        proof {
            assert(raw_samples@.take(count as int) =~= raw_samples@);
        }
        let average = average_wrench(sum, count);
        self.offset = average;
    }
}

/// Divides each axis of a summed wrench by the sample count, exactly.
fn average_wrench(sum: Wrench, count: usize) -> (r: Wrench)
    requires
        0 < count,
        forall|i: int|
            0 <= i < 6 ==> 0 <= #[trigger] sum.axis(i) <= count * (AXIS_MICRO_BOUND as int),
    ensures
        forall|i: int| 0 <= i < 6 ==> #[trigger] r.axis(i) == sum.axis(i) / count as int,
        in_sensor_range(r),
{
    proof {
        assert(0 <= sum.axis(0) <= count * (AXIS_MICRO_BOUND as int));
        assert(0 <= sum.axis(1) <= count * (AXIS_MICRO_BOUND as int));
        assert(0 <= sum.axis(2) <= count * (AXIS_MICRO_BOUND as int));
        assert(0 <= sum.axis(3) <= count * (AXIS_MICRO_BOUND as int));
        assert(0 <= sum.axis(4) <= count * (AXIS_MICRO_BOUND as int));
        assert(0 <= sum.axis(5) <= count * (AXIS_MICRO_BOUND as int));
    }
    let fx = divide_axis(sum.force.x.micronewtons, count);
    let fy = divide_axis(sum.force.y.micronewtons, count);
    let fz = divide_axis(sum.force.z.micronewtons, count);
    let tx = divide_axis(sum.torque.x.micronewton_meters, count);
    let ty = divide_axis(sum.torque.y.micronewton_meters, count);
    let tz = divide_axis(sum.torque.z.micronewton_meters, count);
    Wrench {
        force: Triplet { x: Force { micronewtons: fx }, y: Force { micronewtons: fy }, z: Force {
            micronewtons: fz,
        } },
        torque: Triplet {
            x: Torque { micronewton_meters: tx },
            y: Torque { micronewton_meters: ty },
            z: Torque { micronewton_meters: tz },
        },
    }
}

/// One exact integer division of a non-negative axis sum by the sample
/// count; the quotient stays within the sensor range when the sum does.
fn divide_axis(sum: i64, count: usize) -> (r: i64)
    requires
        0 < count,
        0 <= sum <= count * (AXIS_MICRO_BOUND as int),
    ensures
        r == sum as int / count as int,
        0 <= r <= AXIS_MICRO_BOUND,
{
    let q: u64 = (sum as u64) / (count as u64);
    proof {
        lemma_div_pos_is_pos(sum as int, count as int);
        lemma_multiply_divide_le(sum as int, count as int, AXIS_MICRO_BOUND as int);
    }
    q as i64
}

/// The decision of the request step of one poll cycle: sending the
/// poll command succeeded exactly when the transport reports that the
/// whole one-byte command was written; any other count is the short
/// write with the expected and actual sizes.
pub fn confirm_request_write(written: usize) -> (r: Result<(), SensorError>)
    ensures
        r is Ok <==> written == 1,
        written != 1 ==> r == Err::<(), SensorError>(SensorError::Write(1, written)),
{
    if written == 1 {
        Ok(())
    } else {
        Err(SensorError::Write(1, written))
    }
}

/// Over a run of identical samples the axis sums are the sample count
/// times the common value.
pub proof fn lemma_sum_of_constant(s: Seq<Wrench>, r: Wrench, i: int)
    requires
        forall|j: int| 0 <= j < s.len() ==> s[j] == r,
    ensures
        seq_axis_sum(s, i) == s.len() * r.axis(i),
    decreases s.len(),
{
    if s.len() == 0 {
    } else {
        lemma_sum_of_constant(s.drop_last(), r, i);
        assert(s.last() == r);
        assert((s.len() - 1) * r.axis(i) + r.axis(i) == s.len() * r.axis(i)) by (nonlinear_arith);
    }
}

/// A calibration pass over samples that all equal one fixed raw
/// reading `r` stores exactly `r` as the offset: the sum of the
/// identical samples is the count times `r`, and dividing by the count
/// gives `r` back with no remainder.
pub proof fn lemma_constant_calibration(s: Seq<Wrench>, r: Wrench)
    requires
        0 < s.len(),
        forall|j: int| 0 <= j < s.len() ==> s[j] == r,
    ensures
        forall|i: int| 0 <= i < 6 ==> #[trigger] (seq_axis_sum(s, i) / s.len() as int) == r.axis(i),
{
    assert forall|i: int| 0 <= i < 6 implies #[trigger] (seq_axis_sum(s, i) / s.len() as int)
        == r.axis(i) by {
        lemma_sum_of_constant(s, r, i);
        lemma_div_multiples_vanish(r.axis(i), s.len() as int);
    }
}

/// Once the offset equals the raw reading — as it does right after a
/// calibration pass whose samples all equal that reading — the
/// reported measurement is the zero wrench: the bias cancels fully.
pub proof fn lemma_offset_cancels(s: Wdf6m200)
    requires
        s.spec_offset() == s.spec_raw_wrench(),
    ensures
        spec_sub(s.spec_raw_wrench(), s.spec_offset()) == spec_zeroed(),
{
    crate::wrench::lemma_sub_self(s.spec_raw_wrench());
}

} // verus!
