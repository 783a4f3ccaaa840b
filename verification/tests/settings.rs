use gearvr_core::calibration::{CalibrationSession, TouchpadCalibration};
use gearvr_core::menu::{ControlMode, RadialMenu};
use gearvr_core::models::{ConnectionConfig, ConnectionStatus, MessageSeverity, StatusMessage};
use gearvr_core::settings::Settings;

#[test]
fn default_settings_values() {
    let s = Settings::default();
    assert_eq!(s.mouse_sensitivity, 2_000_000);
    assert_eq!(s.dead_zone, 100_000);
    assert!(s.enable_smoothing);
    assert_eq!(s.smoothing_factor, 5);
    assert!(s.enable_acceleration);
    assert!(s.enable_touchpad);
    assert!(s.enable_buttons);
    assert!(s.enable_gestures);
    assert_eq!(s.pairing_max_retries, 3);
    assert_eq!(s.pairing_retry_delay_ms, 1000);
    assert_eq!(s.ble_service_uuid, "4f63756c-7573-2054-6872-65656d6f7465");
    assert_eq!(s.log_settings.level, "info");
    assert_eq!(s.log_settings.file_name_prefix, "gear_vr_controller");
}

#[test]
fn default_calibration_is_full_range() {
    let c = TouchpadCalibration::default();
    assert_eq!(c.min_x, 0);
    assert_eq!(c.max_x, 315);
    assert_eq!(c.min_y, 0);
    assert_eq!(c.max_y, 315);
    assert_eq!(c.center_x, 157);
    assert_eq!(c.center_y, 157);
}

#[test]
fn known_addresses_deduplicate() {
    let mut s = Settings::default();
    assert!(s.add_known_address(0xAA55));
    assert!(!s.add_known_address(0xAA55));
    assert!(s.add_known_address(0x1234));
    assert_eq!(s.known_bluetooth_addresses, vec![0xAA55, 0x1234]);
    assert!(s.knows_address(0x1234));
    assert!(!s.knows_address(0x9999));
}

#[test]
fn update_calibration_replaces_bounds() {
    let mut s = Settings::default();
    let c = TouchpadCalibration { min_x: 10, max_x: 300, min_y: 20, max_y: 290, center_x: 155, center_y: 155 };
    s.update_calibration(c);
    assert_eq!(s.touchpad_calibration, c);
}

#[test]
fn calibration_session_tracks_extrema() {
    let mut session = CalibrationSession::start();
    session.observe(10, 20);
    session.observe(300, 250);
    session.observe(150, 150);
    assert_eq!(session.samples, 3);
    let c = session.finish();
    assert_eq!(c.min_x, 10);
    assert_eq!(c.max_x, 300);
    assert_eq!(c.min_y, 20);
    assert_eq!(c.max_y, 250);
    assert_eq!(c.center_x, 155);
    assert_eq!(c.center_y, 135);
}

#[test]
fn radial_menu_sectors() {
    let mut m = RadialMenu::new();
    m.show();
    m.update_selection(0, -900_000);
    assert_eq!(m.selected_index, Some(0));
    m.update_selection(900_000, 0);
    assert_eq!(m.selected_index, Some(1));
    m.update_selection(0, 900_000);
    assert_eq!(m.selected_index, Some(2));
    m.update_selection(-900_000, 0);
    assert_eq!(m.selected_index, Some(3));
    m.update_selection(100_000, 100_000);
    assert_eq!(m.selected_index, None);
    m.update_selection(-900_000, 0);
    assert_eq!(m.close(), Some(ControlMode::Settings));
    assert!(!m.is_visible);
}

#[test]
fn control_mode_names() {
    assert_eq!(ControlMode::Mouse.name(), "Air Mouse");
    assert_eq!(ControlMode::Touchpad.name(), "Touchpad");
    assert_eq!(ControlMode::Presentation.name(), "Presenter");
    assert_eq!(ControlMode::Settings.name(), "Settings");
    assert_eq!(ControlMode::Mouse.description(), "Wave to move, Touch to scroll");
    assert!(!ControlMode::Touchpad.icon().is_empty());
    assert_eq!(ControlMode::default(), ControlMode::Mouse);
}

#[test]
fn status_and_connection_models() {
    let msg = StatusMessage::new(String::from("connected"), MessageSeverity::Success);
    assert_eq!(msg.message, "connected");
    assert_eq!(msg.severity, MessageSeverity::Success);
    assert_ne!(ConnectionStatus::Connected, ConnectionStatus::Disconnected);
    let cfg = ConnectionConfig::default();
    assert_eq!(cfg.max_pairing_retries, 3);
    assert_eq!(cfg.pairing_retry_delay_ms, 1000);
    assert_eq!(cfg.service_uuid, "4f63756c-7573-2054-6872-65656d6f7465");
}
