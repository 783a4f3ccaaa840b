use gearvr_core::packet::{parse_raw_bytes, DecodeError};

fn sensor_packet() -> Vec<u8> {
    let mut b = vec![0u8; 60];
    // Timestamp 0x04030201.
    b[0] = 0x01;
    b[1] = 0x02;
    b[2] = 0x03;
    b[3] = 0x04;
    // Temperature 100.
    b[4] = 0x64;
    b[5] = 0x00;
    // Accelerometer raw: 4096, -4096, 0.
    b[8] = 0x00;
    b[9] = 0x10;
    b[10] = 0x00;
    b[11] = 0xF0;
    // Gyroscope raw: 900, 0, 450.
    b[14] = 0x84;
    b[15] = 0x03;
    b[18] = 0xC2;
    b[19] = 0x01;
    // Magnetometer raw: 1000, 0, -1000.
    b[20] = 0xE8;
    b[21] = 0x03;
    b[24] = 0x18;
    b[25] = 0xFC;
    // Touchpad (157, 200).
    b[54] = 0x9D;
    b[55] = 0x00;
    b[56] = 0xC8;
    b[57] = 0x00;
    // Buttons: trigger, back, volume-up.
    b[58] = 0b0001_0101;
    // Touched.
    b[59] = 1;
    b
}

#[test]
fn decode_round_trip_scaled() {
    let r = parse_raw_bytes(&sensor_packet()).unwrap();
    assert_eq!(r.timestamp, 0x04030201);
    assert_eq!(r.temperature, 100);
    assert_eq!(r.accel_x, 1_000_000);
    assert_eq!(r.accel_y, -1_000_000);
    assert_eq!(r.accel_z, 0);
    assert_eq!(r.gyro_x, 1_000_000);
    assert_eq!(r.gyro_y, 0);
    assert_eq!(r.gyro_z, 500_000);
    assert_eq!(r.mag_x, 1_000_000);
    assert_eq!(r.mag_y, 0);
    assert_eq!(r.mag_z, -1_000_000);
    assert_eq!(r.touchpad_x, 157);
    assert_eq!(r.touchpad_y, 200);
    assert!(r.trigger_button);
    assert!(!r.touchpad_button);
    assert!(r.back_button);
    assert!(!r.home_button);
    assert!(r.volume_up_button);
    assert!(!r.volume_down_button);
    assert!(r.touchpad_touched);
    assert_eq!(r.processed_touchpad_x, 0);
    assert_eq!(r.processed_touchpad_y, 0);
}

#[test]
fn decode_two_bytes_is_command_ack() {
    assert_eq!(parse_raw_bytes(&[0x01, 0x00]), Err(DecodeError::CommandAck));
}

#[test]
fn decode_fiftynine_bytes_is_error() {
    let b = vec![0u8; 59];
    assert_eq!(parse_raw_bytes(&b), Err(DecodeError::InvalidLength));
    assert_eq!(parse_raw_bytes(&[]), Err(DecodeError::InvalidLength));
    let b61 = vec![0u8; 61];
    assert_eq!(parse_raw_bytes(&b61), Err(DecodeError::InvalidLength));
}

#[test]
fn decode_float_fallback_at_boundary() {
    let mut b = sensor_packet();
    // Raw accelerometer X at exactly 32000 selects the float encoding.
    b[8] = 0x00;
    b[9] = 0x7D;
    b[10] = 0x00;
    b[11] = 0x00;
    // Bytes 4..8 reinterpreted as the 32-bit float 1.5.
    b[4] = 0x00;
    b[5] = 0x00;
    b[6] = 0xC0;
    b[7] = 0x3F;
    // Bytes 16..20 as the 32-bit float -2.0.
    b[16] = 0x00;
    b[17] = 0x00;
    b[18] = 0x00;
    b[19] = 0xC0;
    let r = parse_raw_bytes(&b).unwrap();
    assert_eq!(r.accel_x, 1_500_000);
    // Bytes 8..12 hold the tiny bit pattern 0x00007D00: subnormal, reads as zero.
    assert_eq!(r.accel_y, 0);
    assert_eq!(r.gyro_x, -2_000_000);
    // The magnetometer still decodes from the scaled integers.
    assert_eq!(r.mag_x, 1_000_000);
}

#[test]
fn decode_scaled_just_below_boundary() {
    let mut b = sensor_packet();
    // Raw accelerometer X at 31999 stays in the scaled-integer encoding.
    b[8] = 0xFF;
    b[9] = 0x7C;
    let r = parse_raw_bytes(&b).unwrap();
    // 31999 * 1_000_000 / 4096, truncated.
    assert_eq!(r.accel_x, 31999i64 * 1_000_000 / 4096);
}

#[test]
fn decode_float_fallback_saturates() {
    let mut b = sensor_packet();
    b[8] = 0x00;
    b[9] = 0x7D;
    // Bytes 4..8 as the 32-bit float 2^24 (huge): saturates at the sensor limit.
    b[4] = 0x00;
    b[5] = 0x00;
    b[6] = 0x80;
    b[7] = 0x4B;
    let r = parse_raw_bytes(&b).unwrap();
    assert_eq!(r.accel_x, 1_000_000_000);
}
