//! The byte-level decoder for one sensor response frame.
//!
//! A frame is `RESPONSE_BYTES` bytes of ASCII text: one record marker,
//! then six four-character hexadecimal fields (one unsigned digital
//! reading per axis, in the order force x, y, z, torque x, y, z), then
//! a two-byte line terminator.  The marker and the terminator are
//! ignored; decoding extracts the six readings at their fixed offsets.

use vstd::prelude::*;

use crate::error::SensorError;
use crate::wrench::Triplet;

verus! {

/// How many bytes one axis field occupies.
pub const AXIS_DATUM_LENGTH: usize = 4;

/// Offset of the first axis field inside a frame.
pub const AXIS_DATA_START_INDEX: usize = 1;

/// How many axes one frame reports.
pub const AXIS_COUNT: usize = 6;

/// How many bytes the trailing line terminator occupies.
pub const NEWLINE_BYTES: usize = 2;

/// The exact length of one response frame.
pub const RESPONSE_BYTES: usize = AXIS_DATA_START_INDEX + AXIS_DATUM_LENGTH * AXIS_COUNT
    + NEWLINE_BYTES;

/// The six digital readings of one frame, still unscaled, in axis
/// order force x, y, z, then torque x, y, z.
#[derive(Clone, Copy, Debug, PartialEq, Eq, Structural)]
pub struct DigitalReading {
    /// The unscaled force readings, axes x, y, z.
    pub force: Triplet<u16>,
    /// The unscaled torque readings, axes x, y, z.
    pub torque: Triplet<u16>,
}

impl DigitalReading {
    /// The reading for axis `i`, with axes numbered 0..6 in the order
    /// force x, y, z, torque x, y, z.
    pub open spec fn axis(self, i: int) -> u16 {
        if i == 0 {
            self.force.x
        } else if i == 1 {
            self.force.y
        } else if i == 2 {
            self.force.z
        } else if i == 3 {
            self.torque.x
        } else if i == 4 {
            self.torque.y
        } else {
            self.torque.z
        }
    }
}

/// True when every byte of the frame is plain ASCII, which is exactly
/// when the frame is text that byte offsets can slice safely.
pub open spec fn is_ascii_frame(s: Seq<u8>) -> bool {
    forall|k: int| 0 <= k < s.len() ==> #[trigger] s[k] < 128
}

/// True for the ASCII bytes `0`-`9`, `A`-`F` and `a`-`f`.
pub open spec fn is_hex_digit(b: u8) -> bool {
    (48 <= b && b <= 57) || (65 <= b && b <= 70) || (97 <= b && b <= 102)
}

/// The numeric value of one hexadecimal digit byte.
pub open spec fn hex_digit_value(b: u8) -> u16
    recommends
        is_hex_digit(b),
{
    if 48 <= b && b <= 57 {
        (b - 48) as u16
    } else if 65 <= b && b <= 70 {
        (b - 55) as u16
    } else {
        (b - 87) as u16
    }
}

/// The byte offset at which the field of the given axis starts: the
/// fields sit back to back after the record marker.
pub open spec fn field_start(axis: int) -> int {
    1 + axis * 4
}

/// True when the whole field of the given axis lies inside a frame of
/// the given length.
pub open spec fn field_in_bounds(len: int, axis: int) -> bool {
    field_start(axis) + 4 <= len
}

/// The four bytes of the field of the given axis.
pub open spec fn axis_field(s: Seq<u8>, axis: int) -> Seq<u8>
    recommends
        field_in_bounds(s.len() as int, axis),
{
    s.subrange(field_start(axis), field_start(axis) + 4)
}

/// True when a field consists of four hexadecimal digit bytes.
pub open spec fn field_is_hex(s: Seq<u8>) -> bool {
    s.len() == 4 && (forall|k: int| 0 <= k < 4 ==> is_hex_digit(#[trigger] s[k]))
}

/// The unsigned value of a four-digit hexadecimal field, most
/// significant digit first.
pub open spec fn field_value(s: Seq<u8>) -> u16
    recommends
        field_is_hex(s),
{
    (hex_digit_value(s[0]) * 4096 + hex_digit_value(s[1]) * 256 + hex_digit_value(s[2]) * 16
        + hex_digit_value(s[3])) as u16
}

/// True when every axis field that lies inside the frame consists of
/// hexadecimal digits.  Fields are read in axis order, so a field that
/// falls outside the frame is only ever reached when all fields before
/// it were valid.
pub open spec fn fields_in_bounds_hex(s: Seq<u8>) -> bool {
    forall|a: int|
        0 <= a < 6 && field_in_bounds(s.len() as int, a) ==> field_is_hex(#[trigger] axis_field(s, a))
}

/// True exactly when decoding the frame succeeds: the text is ASCII,
/// all six fields lie inside it, and each field is hexadecimal.
pub open spec fn frame_decodes(s: Seq<u8>) -> bool {
    &&& is_ascii_frame(s)
    &&& s.len() >= 25
    &&& forall|a: int| 0 <= a < 6 ==> field_is_hex(#[trigger] axis_field(s, a))
}

/// The numeric value of one hexadecimal digit byte, or `None` when the
/// byte is no hexadecimal digit.
fn hex_value(b: u8) -> (r: Option<u16>)
    ensures
        r is Some <==> is_hex_digit(b),
        r matches Some(v) ==> v == hex_digit_value(b) && v <= 15,
{
    if 48 <= b && b <= 57 {
        Some((b - 48) as u16)
    } else if 65 <= b && b <= 70 {
        Some((b - 55) as u16)
    } else if 97 <= b && b <= 102 {
        Some((b - 87) as u16)
    } else {
        None
    }
}

/// Parses the four-digit hexadecimal field that starts at `start`, or
/// returns `None` when one of the four bytes is no hexadecimal digit.
fn parse_axis_field(frame: &[u8], start: usize) -> (r: Option<u16>)
    requires
        start + 4 <= frame@.len(),
    ensures
        r is Some <==> field_is_hex(frame@.subrange(start as int, start as int + 4)),
        r matches Some(v) ==> v == field_value(frame@.subrange(start as int, start as int + 4)),
{
    let ghost field = frame@.subrange(start as int, start as int + 4);
    assert(field[0] == frame@[start as int]);
    assert(field[1] == frame@[start as int + 1]);
    assert(field[2] == frame@[start as int + 2]);
    assert(field[3] == frame@[start as int + 3]);
    let d0 = hex_value(frame[start]);
    let d1 = hex_value(frame[start + 1]);
    let d2 = hex_value(frame[start + 2]);
    let d3 = hex_value(frame[start + 3]);
    match (d0, d1, d2, d3) {
        (Some(v0), Some(v1), Some(v2), Some(v3)) => {
            assert(field_is_hex(field)) by {
                assert(forall|k: int| 0 <= k < 4 ==> is_hex_digit(#[trigger] field[k])) by {
                    assert(is_hex_digit(field[0]));
                    assert(is_hex_digit(field[1]));
                    assert(is_hex_digit(field[2]));
                    assert(is_hex_digit(field[3]));
                }
            }
            Some(v0 * 4096 + v1 * 256 + v2 * 16 + v3)
        },
        _ => None,
    }
}

/// Decodes one response frame into its six digital readings.
///
/// The result is `Ok` exactly when the frame is ASCII text long enough
/// to hold all six fields and each field is hexadecimal; the reading
/// for axis `i` is then the value of the four bytes at offset
/// `1 + 4 * i`.  A non-ASCII byte anywhere yields the encoding error, a
/// non-hexadecimal field the digit error, and a field cut off by the
/// end of the frame the length error.
pub fn decode_frame(frame: &[u8]) -> (r: Result<DigitalReading, SensorError>)
    ensures
        r is Ok <==> frame_decodes(frame@),
        r matches Ok(d) ==> forall|a: int|
            0 <= a < 6 ==> #[trigger] d.axis(a) == field_value(axis_field(frame@, a)),
        !is_ascii_frame(frame@) ==> r == Err::<DigitalReading, SensorError>(SensorError::Utf8),
        is_ascii_frame(frame@) && !fields_in_bounds_hex(frame@) ==> r == Err::<
            DigitalReading,
            SensorError,
        >(SensorError::ParseInt),
        is_ascii_frame(frame@) && fields_in_bounds_hex(frame@) && frame@.len() < 25 ==> r == Err::<
            DigitalReading,
            SensorError,
        >(SensorError::InvalidTextLength),
{
    let n = frame.len();
    let mut k: usize = 0;
    while k < n
        invariant
            k <= n == frame@.len(),
            forall|j: int| 0 <= j < k ==> #[trigger] frame@[j] < 128,
        decreases n - k,
    {
        if frame[k] >= 128 {
            return Err(SensorError::Utf8);
        }
        k += 1;
    }
    assert(is_ascii_frame(frame@));

    let mut values: Vec<u16> = Vec::new();
    let mut a: usize = 0;
    while a < 6
        invariant
            a <= 6,
            n == frame@.len(),
            is_ascii_frame(frame@),
            values@.len() == a,
            forall|j: int|
                0 <= j < a ==> field_in_bounds(frame@.len() as int, j) && field_is_hex(
                    #[trigger] axis_field(frame@, j),
                ),
            forall|j: int| 0 <= j < a ==> #[trigger] values@[j] == field_value(axis_field(frame@, j)),
        decreases 6 - a,
    {
        let start = AXIS_DATA_START_INDEX + a * AXIS_DATUM_LENGTH;
        if start + AXIS_DATUM_LENGTH > n {
            assert(!field_in_bounds(frame@.len() as int, a as int));
            assert(fields_in_bounds_hex(frame@)) by {
                assert(forall|b: int|
                    0 <= b < 6 && field_in_bounds(frame@.len() as int, b) ==> b < a);
            }
            return Err(SensorError::InvalidTextLength);
        }
        match parse_axis_field(frame, start) {
            Some(v) => {
                assert(frame@.subrange(start as int, start as int + 4) == axis_field(
                    frame@,
                    a as int,
                ));
                values.push(v);
            },
            None => {
                assert(!field_is_hex(axis_field(frame@, a as int)));
                return Err(SensorError::ParseInt);
            },
        }
        a += 1;
    }

    let reading = DigitalReading {
        force: Triplet::new(values[0], values[1], values[2]),
        torque: Triplet::new(values[3], values[4], values[5]),
    };
    assert(field_in_bounds(frame@.len() as int, 5));
    assert(frame@.len() >= 25);
    Ok(reading)
}

} // verus!
