use gearvr_core::calibration::TouchpadCalibration;
use gearvr_core::packet::ControllerReading;
use gearvr_core::settings::Settings;
use gearvr_core::touchpad::{normalize_axis, TouchpadProcessor};

fn plain_settings() -> Settings {
    let mut s = Settings::default();
    s.enable_smoothing = false;
    s.enable_acceleration = false;
    s.dead_zone = 0;
    s
}

fn touched(raw_x: u16, raw_y: u16) -> ControllerReading {
    let mut d = ControllerReading::new();
    d.touchpad_x = raw_x;
    d.touchpad_y = raw_y;
    d.touchpad_touched = true;
    d
}

fn released() -> ControllerReading {
    ControllerReading::new()
}

#[test]
fn normalization_center_and_value() {
    assert_eq!(normalize_axis(157, 0, 315, 157), 0);
    // (200 - 157) * 2_000_000 / 315, truncated.
    assert_eq!(normalize_axis(200, 0, 315, 157), 273_015);
    assert_eq!(normalize_axis(0, 0, 315, 157), -996_825);
}

#[test]
fn normalization_clamps_outside_range() {
    // Any raw coordinate outside [min, max] lands exactly on the bound.
    assert_eq!(normalize_axis(316, 0, 315, 157), 1_000_000);
    assert_eq!(normalize_axis(1000, 0, 315, 157), 1_000_000);
    assert_eq!(normalize_axis(9, 10, 300, 155), -1_000_000);
    assert_eq!(normalize_axis(0, 10, 300, 155), -1_000_000);
}

#[test]
fn normalization_degenerate_axis_is_finite() {
    // min == max must not divide by zero; output stays within one unit.
    assert_eq!(normalize_axis(157, 157, 157, 157), 0);
    assert_eq!(normalize_axis(200, 157, 157, 157), 1_000_000);
    assert_eq!(normalize_axis(0, 157, 157, 157), -1_000_000);
}

#[test]
fn deadzone_below_threshold_gives_no_motion() {
    let mut s = plain_settings();
    s.dead_zone = 100_000;  // 0.1 normalized units
    let cal = TouchpadCalibration::default();
    let mut engine = TouchpadProcessor::new();
    let mut d1 = touched(157, 157);
    engine.process(&mut d1, &cal);
    assert_eq!(engine.calculate_mouse_delta(&d1, &s, false), None);
    // 10 raw steps is about 0.063 normalized: inside the deadzone.
    let mut d2 = touched(167, 157);
    engine.process(&mut d2, &cal);
    assert_eq!(engine.calculate_mouse_delta(&d2, &s, false), None);
    // The suppressed sample still advanced the remembered position.
    assert_eq!(engine.last_processed_pos, Some((63_492, 0)));
}

#[test]
fn deadzone_above_threshold_moves() {
    let mut s = plain_settings();
    s.dead_zone = 100_000;
    let cal = TouchpadCalibration::default();
    let mut engine = TouchpadProcessor::new();
    let mut d1 = touched(157, 157);
    engine.process(&mut d1, &cal);
    assert_eq!(engine.calculate_mouse_delta(&d1, &s, false), None);
    let mut d2 = touched(200, 157);
    engine.process(&mut d2, &cal);
    // 0.273 normalized * 2.0 * 800 = 436 pixels.
    assert_eq!(engine.calculate_mouse_delta(&d2, &s, false), Some((436, 0)));
}

#[test]
fn smoothing_window_never_exceeds_size() {
    let mut s = plain_settings();
    s.enable_smoothing = true;
    s.smoothing_factor = 2;
    let cal = TouchpadCalibration::default();
    let mut engine = TouchpadProcessor::new();
    let raws = [157u16, 200, 157, 220, 100, 180];
    for raw in raws {
        let mut d = touched(raw, 157);
        engine.process(&mut d, &cal);
        let _ = engine.calculate_mouse_delta(&d, &s, false);
        assert!(engine.delta_buffer_x.len() <= 2);
        assert!(engine.delta_buffer_y.len() <= 2);
    }
}

#[test]
fn smoothing_mean_of_window() {
    let mut s = plain_settings();
    s.enable_smoothing = true;
    s.smoothing_factor = 2;
    let cal = TouchpadCalibration::default();
    let mut engine = TouchpadProcessor::new();
    let mut d1 = touched(157, 157);
    engine.process(&mut d1, &cal);
    assert_eq!(engine.calculate_mouse_delta(&d1, &s, false), None);
    let mut d2 = touched(200, 157);
    engine.process(&mut d2, &cal);
    // Window holds one delta: its mean is the delta itself.
    assert_eq!(engine.calculate_mouse_delta(&d2, &s, false), Some((436, 0)));
    let mut d3 = touched(157, 157);
    engine.process(&mut d3, &cal);
    // Window now holds +273015 and -273015: mean zero, output suppressed.
    assert_eq!(engine.calculate_mouse_delta(&d3, &s, false), None);
}

#[test]
fn acceleration_three_halves_curve() {
    let mut s = plain_settings();
    s.enable_acceleration = true;
    let mut engine = TouchpadProcessor::new();
    let mut d1 = ControllerReading::new();
    d1.touchpad_touched = true;
    assert_eq!(engine.calculate_mouse_delta(&d1, &s, false), None);
    let mut d2 = ControllerReading::new();
    d2.touchpad_touched = true;
    d2.processed_touchpad_x = 250_000;  // 0.25 normalized
    // 0.25^1.5 = 0.125; 0.125 * 2.0 * 800 = 200 pixels.
    assert_eq!(engine.calculate_mouse_delta(&d2, &s, false), Some((200, 0)));
}

#[test]
fn edge_joystick_adds_continuous_motion() {
    let s = plain_settings();
    let cal = TouchpadCalibration::default();
    let mut engine = TouchpadProcessor::new();
    let mut d = touched(315, 157);
    engine.process(&mut d, &cal);
    // First sample of the stroke: no relative motion, but the finger
    // rests past the 0.6 edge threshold, so the hybrid variant moves.
    // (|1.0| - 0.6) * 5 * 2.0 = 4 pixels.
    assert_eq!(engine.calculate_mouse_delta(&d, &s, true), Some((4, 0)));
    // The pure relative variant emits nothing on a first sample.
    let mut engine2 = TouchpadProcessor::new();
    let mut d2 = touched(315, 157);
    engine2.process(&mut d2, &cal);
    assert_eq!(engine2.calculate_mouse_delta(&d2, &s, false), None);
}

#[test]
fn end_to_end_trackpad_stroke() {
    // Raw stream (157,157) -> (157,157) -> (200,157) with default
    // calibration, sensitivity 2.0, smoothing and acceleration off,
    // deadzone 0.
    let s = plain_settings();
    let cal = TouchpadCalibration::default();
    let mut engine = TouchpadProcessor::new();

    let mut d1 = touched(157, 157);
    engine.process(&mut d1, &cal);
    assert_eq!(d1.processed_touchpad_x, 0);
    assert_eq!(d1.processed_touchpad_y, 0);
    assert_eq!(engine.calculate_mouse_delta(&d1, &s, false), None);

    let mut d2 = touched(157, 157);
    engine.process(&mut d2, &cal);
    assert_eq!(engine.calculate_mouse_delta(&d2, &s, false), None);

    let mut d3 = touched(200, 157);
    engine.process(&mut d3, &cal);
    assert_eq!(d3.processed_touchpad_x, 273_015);
    assert_eq!(d3.processed_touchpad_y, 0);
    let delta = engine.calculate_mouse_delta(&d3, &s, false).unwrap();
    assert!(delta.0 > 0);
    assert_eq!(delta, (436, 0));

    // Touch release resets the stroke state...
    let mut d4 = released();
    engine.process(&mut d4, &cal);
    assert_eq!(engine.calculate_mouse_delta(&d4, &s, false), None);
    assert_eq!(engine.last_processed_pos, None);
    assert_eq!(engine.delta_buffer_x.len(), 0);

    // ...so a fresh touch-down produces no motion on its first sample.
    let mut d5 = touched(250, 157);
    engine.process(&mut d5, &cal);
    assert_eq!(engine.calculate_mouse_delta(&d5, &s, false), None);
}
