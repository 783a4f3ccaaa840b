use gearvr_core::mapper::{InputAction, Key};
use gearvr_core::menu::ControlMode;
use gearvr_core::packet::ControllerReading;
use gearvr_core::pipeline::InputPipeline;
use gearvr_core::settings::Settings;

fn idle() -> ControllerReading {
    ControllerReading::new()
}

fn touched(raw_x: u16, raw_y: u16) -> ControllerReading {
    let mut d = ControllerReading::new();
    d.touchpad_x = raw_x;
    d.touchpad_y = raw_y;
    d.touchpad_touched = true;
    d
}

#[test]
fn trigger_edge_is_debounced() {
    let s = Settings::default();
    let mut p = InputPipeline::new();
    let mut press = idle();
    press.trigger_button = true;

    let out = p.process_reading(press, &s, 0);
    assert_eq!(out.actions, vec![InputAction::MouseLeftDown]);

    // A release 10 ms later bounces: inside the 50 ms debounce window.
    let out = p.process_reading(idle(), &s, 10);
    assert_eq!(out.actions, vec![]);

    // The same release long after the window is accepted.
    let out = p.process_reading(idle(), &s, 100);
    assert_eq!(out.actions, vec![InputAction::MouseLeftUp]);
}

#[test]
fn volume_repeats_while_held() {
    let s = Settings::default();
    let mut p = InputPipeline::new();
    let mut held = idle();
    held.volume_up_button = true;

    let out = p.process_reading(held, &s, 0);
    assert_eq!(out.actions, vec![InputAction::KeyTap(Key::VolumeUp)]);
    // Still held inside the interval: nothing.
    let out = p.process_reading(held, &s, 30);
    assert_eq!(out.actions, vec![]);
    // Past the interval the held button fires again.
    let out = p.process_reading(held, &s, 60);
    assert_eq!(out.actions, vec![InputAction::KeyTap(Key::VolumeUp)]);
}

#[test]
fn long_back_press_opens_menu_and_commits_mode() {
    let s = Settings::default();
    let mut p = InputPipeline::new();
    let mut back = idle();
    back.back_button = true;

    // First pressed sample only records the hold start.
    let out = p.process_reading(back, &s, 0);
    assert_eq!(out.actions, vec![]);
    assert!(!p.mapper.menu.is_visible);

    // Held past 300 ms: the overlay opens; a touch near the right edge
    // aims at the touchpad-mode segment.
    let mut back_touch = touched(315, 157);
    back_touch.back_button = true;
    let out = p.process_reading(back_touch, &s, 350);
    assert_eq!(out.actions, vec![]);
    assert!(p.mapper.menu.is_visible);
    assert_eq!(p.mapper.menu.selected_index, Some(1));

    // Release commits the hovered mode.
    let out = p.process_reading(idle(), &s, 400);
    assert_eq!(out.mode_committed, Some(ControlMode::Touchpad));
    assert!(!out.open_settings);
    assert!(!p.mapper.menu.is_visible);
    assert!(matches!(p.mapper.current_mode, ControlMode::Touchpad));
}

#[test]
fn short_back_press_is_right_click() {
    let s = Settings::default();
    let mut p = InputPipeline::new();
    let mut back = idle();
    back.back_button = true;

    let out = p.process_reading(back, &s, 0);
    assert_eq!(out.actions, vec![]);
    // Released before the 300 ms hold threshold: the mode's back action.
    let out = p.process_reading(idle(), &s, 100);
    assert_eq!(out.actions, vec![InputAction::MouseRightClick]);
    assert_eq!(out.mode_committed, None);
}

#[test]
fn menu_center_dead_zone_selects_nothing() {
    let s = Settings::default();
    let mut p = InputPipeline::new();
    let mut back = idle();
    back.back_button = true;
    let _ = p.process_reading(back, &s, 0);

    // Touch at the calibrated center: inside the 0.3 dead-zone radius.
    let mut back_touch = touched(157, 157);
    back_touch.back_button = true;
    let _ = p.process_reading(back_touch, &s, 350);
    assert!(p.mapper.menu.is_visible);
    assert_eq!(p.mapper.menu.selected_index, None);

    // Releasing over the dead zone commits nothing and keeps the mode.
    let out = p.process_reading(idle(), &s, 400);
    assert_eq!(out.mode_committed, None);
    assert!(matches!(p.mapper.current_mode, ControlMode::Mouse));
}

#[test]
fn presentation_mode_maps_buttons_to_keys() {
    let s = Settings::default();
    let mut p = InputPipeline::new();
    p.mapper.current_mode = ControlMode::Presentation;

    let mut trig = idle();
    trig.trigger_button = true;
    let out = p.process_reading(trig, &s, 0);
    assert_eq!(out.actions, vec![InputAction::KeyTap(Key::ArrowRight)]);

    let mut tp_click = idle();
    tp_click.touchpad_button = true;
    let out = p.process_reading(tp_click, &s, 100);
    assert_eq!(out.actions, vec![InputAction::KeyTap(Key::ArrowLeft)]);
}

#[test]
fn touchpad_mode_routes_pointer_to_cursor() {
    let s = Settings::default();
    let mut p = InputPipeline::new();
    p.mapper.current_mode = ControlMode::Touchpad;
    // Deadzone off so the small test stroke counts.
    let mut s = s;
    s.dead_zone = 0;
    s.enable_smoothing = false;
    s.enable_acceleration = false;

    let out = p.process_reading(touched(157, 157), &s, 0);
    assert_eq!(out.actions, vec![]);
    let out = p.process_reading(touched(200, 157), &s, 10);
    assert_eq!(out.actions, vec![InputAction::MouseMove(436, 0)]);
}

#[test]
fn mouse_mode_touchpad_motion_scrolls() {
    let s = Settings::default();
    let mut p = InputPipeline::new();

    let out = p.process_reading(touched(157, 157), &s, 0);
    assert_eq!(out.actions, vec![]);
    // A rightward swipe beyond the 0.05 threshold: horizontal tick.
    let out = p.process_reading(touched(200, 157), &s, 10);
    assert_eq!(out.actions, vec![InputAction::HorizontalWheel(1)]);
    // An upward swipe (raw Y decreasing) scrolls up.
    let out = p.process_reading(touched(200, 100), &s, 20);
    assert_eq!(out.actions, vec![InputAction::Wheel(1)]);
}

#[test]
fn gesture_maps_to_scroll_in_pipeline() {
    let s = Settings::default();
    let mut p = InputPipeline::new();

    let _ = p.process_reading(touched(157, 157), &s, 0);
    // Swipe down 0.5 normalized units, then release.
    let _ = p.process_reading(touched(157, 236), &s, 10);
    let out = p.process_reading(idle(), &s, 20);
    assert_eq!(out.gesture, Some(gearvr_core::gestures::GestureDirection::Down));
    assert_eq!(out.actions, vec![InputAction::Wheel(-1)]);
}

#[test]
fn open_menu_suppresses_gestures_and_motion() {
    let s = Settings::default();
    let mut p = InputPipeline::new();
    p.mapper.menu.is_visible = true;

    // A full downward stroke while the overlay is open: no gesture, no
    // scroll, no cursor motion.
    let _ = p.process_reading(touched(157, 157), &s, 0);
    let _ = p.process_reading(touched(157, 236), &s, 10);
    let out = p.process_reading(idle(), &s, 20);
    assert_eq!(out.gesture, None);
    assert_eq!(out.actions, vec![]);
    // The recognizer never even saw the stroke.
    assert!(!p.gestures.is_gesture_in_progress);
    assert_eq!(p.gestures.points.len(), 0);
}

#[test]
fn gestures_disabled_flag_suppresses_recognition() {
    let mut s = Settings::default();
    s.enable_gestures = false;
    let mut p = InputPipeline::new();
    let _ = p.process_reading(touched(157, 157), &s, 0);
    let _ = p.process_reading(touched(157, 236), &s, 10);
    let out = p.process_reading(idle(), &s, 20);
    assert_eq!(out.gesture, None);
}

#[test]
fn touchpad_disabled_flag_suppresses_cursor() {
    let mut s = Settings::default();
    s.enable_touchpad = false;
    s.dead_zone = 0;
    s.enable_smoothing = false;
    s.enable_gestures = false;
    let mut p = InputPipeline::new();
    p.mapper.current_mode = ControlMode::Touchpad;
    let _ = p.process_reading(touched(157, 157), &s, 0);
    let out = p.process_reading(touched(200, 157), &s, 10);
    assert_eq!(out.actions, vec![]);
}

#[test]
fn buttons_disabled_suppresses_everything() {
    let mut s = Settings::default();
    s.enable_buttons = false;
    let mut p = InputPipeline::new();
    let mut press = idle();
    press.trigger_button = true;
    press.volume_down_button = true;
    let out = p.process_reading(press, &s, 0);
    assert_eq!(out.actions, vec![]);
}
