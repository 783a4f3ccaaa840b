use gearvr_core::imu::{ImuProcessor, CALIBRATION_TARGET};
use gearvr_core::packet::ControllerReading;
use gearvr_core::settings::Settings;

fn gyro_sample(x: i64, y: i64, z: i64) -> ControllerReading {
    let mut d = ControllerReading::new();
    d.gyro_x = x;
    d.gyro_y = y;
    d.gyro_z = z;
    d
}

fn accel_sample(x: i64, y: i64, z: i64) -> ControllerReading {
    let mut d = ControllerReading::new();
    d.accel_x = x;
    d.accel_y = y;
    d.accel_z = z;
    d
}

#[test]
fn calibration_converges_to_constant_bias() {
    let s = Settings::default();
    let mut imu = ImuProcessor::new();
    imu.start_calibration();
    assert!(imu.is_calibrating());
    let bias = gyro_sample(900_000, 450_000, -300_000);
    for _ in 0..CALIBRATION_TARGET {
        // While calibrating, samples only feed the accumulator.
        assert_eq!(imu.calculate_airmouse_delta(&bias, &s), None);
    }
    assert!(!imu.is_calibrating());
    assert_eq!(imu.gyro_offset_x, 900_000);
    assert_eq!(imu.gyro_offset_y, 450_000);
    assert_eq!(imu.gyro_offset_z, -300_000);
    // Steady-state samples at the calibrated bias produce no motion.
    for _ in 0..5 {
        assert_eq!(imu.calculate_airmouse_delta(&bias, &s), None);
    }
}

#[test]
fn calibration_progress_fraction() {
    let s = Settings::default();
    let mut imu = ImuProcessor::new();
    imu.start_calibration();
    assert_eq!(imu.calibration_progress(), 0);
    for _ in 0..10 {
        let _ = imu.calculate_airmouse_delta(&gyro_sample(0, 0, 0), &s);
    }
    // 10 of 50 samples: 0.2 in fixed point.
    assert_eq!(imu.calibration_progress(), 200_000);
}

#[test]
fn airmouse_delta_scales_gyro() {
    let s = Settings::default();
    let mut imu = ImuProcessor::new();
    // 1.0 unit of angular rate, above the 0.5 deadzone:
    // 1.0 * 2.0 * 50 = 100 pixels.
    assert_eq!(
        imu.calculate_airmouse_delta(&gyro_sample(1_000_000, 0, 0), &s),
        Some((100, 0))
    );
}

#[test]
fn airmouse_deadzone_rejects_noise() {
    let s = Settings::default();
    let mut imu = ImuProcessor::new();
    // 0.4 units: below the 0.5 deadzone on both axes.
    assert_eq!(
        imu.calculate_airmouse_delta(&gyro_sample(400_000, -400_000, 0), &s),
        None
    );
}

#[test]
fn airmouse_smoothing_window_stays_bounded() {
    let s = Settings::default();
    let mut imu = ImuProcessor::new();
    for i in 0..6 {
        let _ = imu.calculate_airmouse_delta(&gyro_sample(1_000_000 + i, 0, 0), &s);
        assert!(imu.gyro_buffer_x.len() <= 3);
        assert!(imu.gyro_buffer_y.len() <= 3);
    }
    assert_eq!(imu.gyro_buffer_x.len(), 3);
}

#[test]
fn tilt_scroll_thresholds() {
    let imu = ImuProcessor::new();
    assert_eq!(imu.calculate_tilt_scroll(&accel_sample(0, 400_000, 0)), Some(1));
    assert_eq!(imu.calculate_tilt_scroll(&accel_sample(0, -400_000, 0)), Some(-1));
    assert_eq!(imu.calculate_tilt_scroll(&accel_sample(0, 300_000, 0)), None);
    assert_eq!(imu.calculate_tilt_scroll(&accel_sample(0, -300_000, 0)), None);
}

#[test]
fn shake_detection_squared_magnitude() {
    let imu = ImuProcessor::new();
    // |(2, 2, 0)| > 2.5 units of gravity.
    assert!(imu.detect_shake(&accel_sample(2_000_000, 2_000_000, 0)));
    // |(1, 0, 0)| is just gravity: no shake.
    assert!(!imu.detect_shake(&accel_sample(1_000_000, 0, 0)));
    // Exactly 2.5 is not strictly above the threshold.
    assert!(!imu.detect_shake(&accel_sample(2_500_000, 0, 0)));
}

#[test]
fn reset_orientation_clears_accumulators() {
    let mut imu = ImuProcessor::new();
    imu.accumulated_yaw = 42;
    imu.accumulated_pitch = -7;
    imu.reset_orientation();
    assert_eq!(imu.accumulated_yaw, 0);
    assert_eq!(imu.accumulated_pitch, 0);
}
