//! The error taxonomy of the driver.

use vstd::prelude::*;

verus! {

/// Everything that can go wrong while talking to the sensor or while
/// decoding one of its frames.
///
/// Transport-level failures carry no payload here: the caller that owns
/// the serial handle keeps the underlying error and maps it to the
/// matching variant at the boundary where it is first detected.
#[derive(Clone, Copy, Debug, PartialEq, Eq, Structural)]
pub enum SensorError {
    /// No connected device matched the sensor's USB identifiers.
    SensorNotFound,
    /// A matching device exists but the serial link could not be opened
    /// or configured.
    SerialPortOpen,
    /// The received byte count differs from the expected frame size;
    /// the fields are the expected and the actual count.
    Read(usize, usize),
    /// The written byte count differs from the command size; the fields
    /// are the expected and the actual count.
    Write(usize, usize),
    /// A transport-level I/O failure distinct from a short read or
    /// write.
    Io,
    /// The response bytes are not valid ASCII text.
    Utf8,
    /// A fixed-offset field slice falls outside the received text.
    InvalidTextLength,
    /// A field's text is not a valid hexadecimal number.
    ParseInt,
}

} // verus!
