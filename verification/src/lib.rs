//! Driver core for a six-axis force/torque sensor that talks over a
//! serial link in fixed-format ASCII frames.
//!
//! The crate holds the verified part of the driver: exact fixed-point
//! wrench arithmetic, the byte-level frame decoder, the sensitivity
//! scaling that turns digital readings into physical values, and the
//! session state that tracks the last raw reading and the calibration
//! offset.  Talking to the actual serial device is left to the caller,
//! who feeds received frames in and sends the poll command out.

pub mod convert;
pub mod error;
pub mod frame;
pub mod session;
pub mod wrench;

pub use convert::{convert_reception_to_raw_wrench, force_sensitivity, torque_sensitivity};
pub use error::SensorError;
pub use frame::{decode_frame, DigitalReading, RESPONSE_BYTES};
pub use session::{
    confirm_request_write, Wdf6m200, BAUD_RATE, MAX_CALIBRATION_SAMPLES, POLL_COMMAND,
    SENSOR_DEVICE_PRODUCT_ID, SENSOR_DEVICE_VENDOR_ID,
};
pub use wrench::{Force, Torque, Triplet, Wrench};
