use gearvr_core::gestures::{GestureDirection, GestureRecognizer};
use gearvr_core::packet::ControllerReading;
use gearvr_core::settings::Settings;

fn sample(x: i64, y: i64, touched: bool) -> ControllerReading {
    let mut d = ControllerReading::new();
    d.processed_touchpad_x = x;
    d.processed_touchpad_y = y;
    d.touchpad_touched = touched;
    d
}

/// Feeds a two-point stroke from the origin to `(x, y)` and returns the
/// classification reported on release.
fn stroke(x: i64, y: i64) -> Option<GestureDirection> {
    let s = Settings::default();
    let mut r = GestureRecognizer::new();
    assert_eq!(r.process(&sample(0, 0, true), &s), None);
    assert_eq!(r.process(&sample(x, y, true), &s), None);
    r.process(&sample(x, y, false), &s)
}

#[test]
fn classification_table_cardinals() {
    // 0.3 normalized units, beyond the 0.2 threshold at sensitivity 2.0.
    assert_eq!(stroke(300_000, 0), Some(GestureDirection::Right));
    assert_eq!(stroke(0, 300_000), Some(GestureDirection::Down));
    assert_eq!(stroke(-300_000, 0), Some(GestureDirection::Left));
    assert_eq!(stroke(0, -300_000), Some(GestureDirection::Up));
}

#[test]
fn classification_table_diagonals_are_dead_cones() {
    assert_eq!(stroke(300_000, 300_000), None);
    assert_eq!(stroke(-300_000, 300_000), None);
    assert_eq!(stroke(-300_000, -300_000), None);
    assert_eq!(stroke(300_000, -300_000), None);
}

#[test]
fn stroke_below_threshold_is_none() {
    // 0.15 normalized units at 0 degrees: below the 0.2 threshold.
    assert_eq!(stroke(150_000, 0), None);
}

#[test]
fn higher_sensitivity_lowers_threshold() {
    // At sensitivity 4.0 the threshold halves to 0.1, so 0.15 triggers.
    let mut s = Settings::default();
    s.mouse_sensitivity = 4_000_000;
    let mut r = GestureRecognizer::new();
    assert_eq!(r.process(&sample(0, 0, true), &s), None);
    assert_eq!(r.process(&sample(150_000, 0, true), &s), None);
    assert_eq!(
        r.process(&sample(150_000, 0, false), &s),
        Some(GestureDirection::Right)
    );
}

#[test]
fn single_point_stroke_is_none() {
    let s = Settings::default();
    let mut r = GestureRecognizer::new();
    assert_eq!(r.process(&sample(0, 0, true), &s), None);
    // Released with only the start point buffered: no classification.
    assert_eq!(r.process(&sample(0, 0, false), &s), None);
    assert!(!r.is_gesture_in_progress);
}

#[test]
fn trajectory_buffer_keeps_last_five() {
    let s = Settings::default();
    let mut r = GestureRecognizer::new();
    assert_eq!(r.process(&sample(0, 0, true), &s), None);
    for i in 1..=10i64 {
        assert_eq!(r.process(&sample(i * 50_000, 0, true), &s), None);
        assert!(r.points.len() <= 5);
    }
    assert_eq!(r.points.len(), 5);
    // Classification runs from the recorded start to the last buffered
    // point, which is the newest sample.
    assert_eq!(
        r.process(&sample(500_000, 0, false), &s),
        Some(GestureDirection::Right)
    );
    assert_eq!(r.points.len(), 0);
}
