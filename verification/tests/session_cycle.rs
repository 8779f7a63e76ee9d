//! The session state machine: update, measurement, calibration.

use wdf6m200::{SensorError, Wdf6m200, Wrench, POLL_COMMAND, RESPONSE_BYTES};

fn frame(fields: [&str; 6]) -> Vec<u8> {
    let mut bytes = vec![b'X'];
    for f in fields.iter() {
        bytes.extend_from_slice(f.as_bytes());
    }
    bytes.extend_from_slice(b"\r\n");
    assert_eq!(bytes.len(), RESPONSE_BYTES);
    bytes
}

/// The frame a sensor under a fixed load keeps repeating.
fn fixed_frame() -> Vec<u8> {
    frame(["0064", "0064", "0064", "00C8", "00C8", "00C8"])
}

#[test]
fn new_session_reports_zero() {
    let session = Wdf6m200::new();
    assert_eq!(session.last_measurement(), Wrench::zeroed());
    assert_eq!(session.raw_wrench(), Wrench::zeroed());
    assert_eq!(session.offset(), Wrench::zeroed());
}

#[test]
fn update_replaces_the_raw_wrench() {
    let mut session = Wdf6m200::new();
    session.update(&fixed_frame()).unwrap();
    let raw = session.raw_wrench();
    assert_eq!(raw.force.x.micronewtons, 4_016_064);
    assert_eq!(raw.torque.z.micronewton_meters, 122_100);
    // With a zero offset the measurement is the raw wrench itself.
    assert_eq!(session.last_measurement(), raw);
}

#[test]
fn short_read_fails_and_leaves_the_raw_wrench_alone() {
    let mut session = Wdf6m200::new();
    session.update(&fixed_frame()).unwrap();
    let before = session.raw_wrench();

    let short: Vec<u8> = fixed_frame()[..10].to_vec();
    let result = session.update(&short);
    assert_eq!(result, Err(SensorError::Read(RESPONSE_BYTES, 10)));
    assert_eq!(session.raw_wrench(), before);
    assert_eq!(session.last_measurement(), before);
}

#[test]
fn empty_read_reports_zero_bytes() {
    let mut session = Wdf6m200::new();
    assert_eq!(session.update(&[]), Err(SensorError::Read(RESPONSE_BYTES, 0)));
}

#[test]
fn failed_decode_leaves_the_session_unchanged() {
    let mut session = Wdf6m200::new();
    session.update(&fixed_frame()).unwrap();
    let before = session.raw_wrench();

    let bad = frame(["GGGG", "0000", "0000", "0000", "0000", "0000"]);
    assert_eq!(session.update(&bad), Err(SensorError::ParseInt));
    assert_eq!(session.raw_wrench(), before);

    let mut nonascii = fixed_frame();
    nonascii[7] = 0xFF;
    assert_eq!(session.update(&nonascii), Err(SensorError::Utf8));
    assert_eq!(session.raw_wrench(), before);
}

#[test]
fn calibration_over_a_constant_reading_stores_it_as_offset() {
    let mut session = Wdf6m200::new();
    let mut recorded = Vec::new();
    for _ in 0..5 {
        session.update(&fixed_frame()).unwrap();
        recorded.push(session.raw_wrench());
    }
    let fixed_raw = session.raw_wrench();
    session.calibrate(&recorded);
    // The mean of five identical samples is the sample itself, exactly.
    assert_eq!(session.offset(), fixed_raw);
}

#[test]
fn measurement_after_calibration_on_a_steady_load_is_zero() {
    let mut session = Wdf6m200::new();
    let mut recorded = Vec::new();
    for _ in 0..3 {
        session.update(&fixed_frame()).unwrap();
        recorded.push(session.raw_wrench());
    }
    session.calibrate(&recorded);
    // The next cycle returns the same reading: the bias cancels fully.
    session.update(&fixed_frame()).unwrap();
    assert_eq!(session.last_measurement(), Wrench::zeroed());
}

#[test]
fn calibration_averages_axis_by_axis() {
    let mut session = Wdf6m200::new();
    let mut recorded = Vec::new();
    session.update(&frame(["0064", "0000", "0000", "0000", "0000", "0000"])).unwrap();
    recorded.push(session.raw_wrench());
    session.update(&frame(["00C8", "0000", "0000", "0000", "0000", "0000"])).unwrap();
    recorded.push(session.raw_wrench());
    session.calibrate(&recorded);
    // Force x: (100 and 200 counts scaled) = (4016064 + 8032128) / 2.
    assert_eq!(session.offset().force.x.micronewtons, (4_016_064 + 8_032_128) / 2);
    assert_eq!(session.offset().force.y.micronewtons, 0);
    assert_eq!(session.offset().torque.z.micronewton_meters, 0);
}

#[test]
fn calibration_records_stale_samples_too() {
    // A dropout in the middle of a pass repeats the last good reading,
    // as the caller records the current raw wrench even when the cycle
    // failed; the average is then still the fixed reading.
    let mut session = Wdf6m200::new();
    let mut recorded = Vec::new();
    for attempt in 0..4 {
        let bytes = if attempt == 2 { fixed_frame()[..5].to_vec() } else { fixed_frame() };
        if session.update(&bytes).is_err() {}
        recorded.push(session.raw_wrench());
    }
    let fixed_raw = session.raw_wrench();
    session.calibrate(&recorded);
    assert_eq!(session.offset(), fixed_raw);
}

#[test]
fn poll_command_is_ascii_r() {
    assert_eq!(POLL_COMMAND, b'R');
}

#[test]
fn full_poll_write_confirms_and_short_write_fails() {
    assert_eq!(wdf6m200::confirm_request_write(1), Ok(()));
    assert_eq!(wdf6m200::confirm_request_write(0), Err(SensorError::Write(1, 0)));
    assert_eq!(wdf6m200::confirm_request_write(2), Err(SensorError::Write(1, 2)));
}
