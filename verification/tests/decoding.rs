//! Frame decoding and sensitivity scaling, exercised on concrete
//! frames.

use wdf6m200::{decode_frame, SensorError, RESPONSE_BYTES};

/// Builds one 27-byte frame: a record marker, six 4-character fields,
/// and the CR+LF terminator.
fn frame(fields: [&str; 6]) -> Vec<u8> {
    let mut bytes = vec![b'X'];
    for f in fields.iter() {
        assert_eq!(f.len(), 4);
        bytes.extend_from_slice(f.as_bytes());
    }
    bytes.extend_from_slice(b"\r\n");
    assert_eq!(bytes.len(), RESPONSE_BYTES);
    bytes
}

#[test]
fn decode_reads_axes_in_frame_order() {
    // Distinct values per axis show that axis i comes from byte offset
    // 1 + 4*i, in the order force x, y, z, torque x, y, z.
    let bytes = frame(["0001", "0002", "0003", "0004", "0005", "0006"]);
    let reading = decode_frame(&bytes).unwrap();
    assert_eq!(reading.force.x, 1);
    assert_eq!(reading.force.y, 2);
    assert_eq!(reading.force.z, 3);
    assert_eq!(reading.torque.x, 4);
    assert_eq!(reading.torque.y, 5);
    assert_eq!(reading.torque.z, 6);
}

#[test]
fn decode_accepts_upper_and_lower_case_hex() {
    let bytes = frame(["00ff", "00FF", "abcd", "ABCD", "1a2B", "ffff"]);
    let reading = decode_frame(&bytes).unwrap();
    assert_eq!(reading.force.x, 0x00FF);
    assert_eq!(reading.force.y, 0x00FF);
    assert_eq!(reading.force.z, 0xABCD);
    assert_eq!(reading.torque.x, 0xABCD);
    assert_eq!(reading.torque.y, 0x1A2B);
    assert_eq!(reading.torque.z, 0xFFFF);
}

#[test]
fn decode_ignores_marker_and_terminator() {
    let mut bytes = frame(["0010", "0010", "0010", "0010", "0010", "0010"]);
    bytes[0] = b'Z';
    bytes[25] = b'!';
    bytes[26] = b'?';
    let reading = decode_frame(&bytes).unwrap();
    assert_eq!(reading.force.x, 16);
    assert_eq!(reading.torque.z, 16);
}

#[test]
fn decode_rejects_invalid_hex_field() {
    // Bytes 1..5 are "GGGG": not hexadecimal, so no reading comes out.
    let bytes = frame(["GGGG", "0000", "0000", "0000", "0000", "0000"]);
    assert_eq!(decode_frame(&bytes), Err(SensorError::ParseInt));
    assert!(wdf6m200::convert_reception_to_raw_wrench(&bytes).is_err());
}

#[test]
fn decode_rejects_non_ascii_byte() {
    let mut bytes = frame(["0000", "0000", "0000", "0000", "0000", "0000"]);
    bytes[3] = 0xC3;
    assert_eq!(decode_frame(&bytes), Err(SensorError::Utf8));
}

#[test]
fn decode_rejects_field_outside_text() {
    // Nine ASCII bytes: the first two fields are hexadecimal and lie
    // inside the text, the third starts beyond its end.
    let bytes = b"X00640064".to_vec();
    assert_eq!(decode_frame(&bytes), Err(SensorError::InvalidTextLength));
}

#[test]
fn all_zero_fields_scale_to_zero_wrench() {
    let bytes = frame(["0000", "0000", "0000", "0000", "0000", "0000"]);
    let reading = decode_frame(&bytes).unwrap();
    assert_eq!(reading.force.x, 0);
    assert_eq!(reading.torque.z, 0);
    let wrench = wdf6m200::convert_reception_to_raw_wrench(&bytes).unwrap();
    assert_eq!(wrench, wdf6m200::Wrench::zeroed());
}

#[test]
fn scaling_divides_by_sensitivity_exactly() {
    // Digital readings [100, 100, 100, 200, 200, 200] with the
    // datasheet sensitivities (24.9, 24.6, 24.5) counts per newton and
    // (1664.7, 1639.7, 1638.0) counts per newton-metre.
    let bytes = frame(["0064", "0064", "0064", "00C8", "00C8", "00C8"]);
    let w = wdf6m200::convert_reception_to_raw_wrench(&bytes).unwrap();

    // Exact integer quotients in micro-units: value = d * 10^7 / sens10.
    assert_eq!(w.force.x.micronewtons, 1_000_000_000 / 249);
    assert_eq!(w.force.y.micronewtons, 1_000_000_000 / 246);
    assert_eq!(w.force.z.micronewtons, 1_000_000_000 / 245);
    assert_eq!(w.torque.x.micronewton_meters, 2_000_000_000 / 16647);
    assert_eq!(w.torque.y.micronewton_meters, 2_000_000_000 / 16397);
    assert_eq!(w.torque.z.micronewton_meters, 2_000_000_000 / 16380);

    // The same quotients, written out.
    assert_eq!(w.force.x.micronewtons, 4_016_064);
    assert_eq!(w.force.y.micronewtons, 4_065_040);
    assert_eq!(w.force.z.micronewtons, 4_081_632);
    assert_eq!(w.torque.x.micronewton_meters, 120_141);
    assert_eq!(w.torque.y.micronewton_meters, 121_973);
    assert_eq!(w.torque.z.micronewton_meters, 122_100);

    // And they agree with the floating-point expectation: division by
    // the sensitivity, not multiplication.
    let approx = |micro: i64, expected: f64| {
        let value = micro as f64 / 1.0e6;
        assert!((value - expected).abs() < 1.0e-3, "{value} vs {expected}");
    };
    approx(w.force.x.micronewtons, 100.0 / 24.9);
    approx(w.force.y.micronewtons, 100.0 / 24.6);
    approx(w.force.z.micronewtons, 100.0 / 24.5);
    approx(w.torque.x.micronewton_meters, 200.0 / 1664.7);
    approx(w.torque.y.micronewton_meters, 200.0 / 1639.7);
    approx(w.torque.z.micronewton_meters, 200.0 / 1638.0);
    approx(w.force.x.micronewtons, 4.0161);
    approx(w.force.y.micronewtons, 4.0650);
    approx(w.force.z.micronewtons, 4.0816);
    approx(w.torque.x.micronewton_meters, 0.1201);
    approx(w.torque.y.micronewton_meters, 0.1220);
    approx(w.torque.z.micronewton_meters, 0.1221);
}

#[test]
fn sensitivities_match_the_datasheet() {
    let fs = wdf6m200::force_sensitivity();
    assert_eq!((fs.x, fs.y, fs.z), (249, 246, 245));
    let ts = wdf6m200::torque_sensitivity();
    assert_eq!((ts.x, ts.y, ts.z), (16647, 16397, 16380));
}
