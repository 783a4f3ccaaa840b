//! The configuration surface the signal chain reads on every sample.
//!
//! The host application owns one `Settings` value (behind whatever lock
//! it needs) and passes a reference into each engine call; the engines
//! never keep their own copy.

use crate::calibration::TouchpadCalibration;
use crate::fixed::SCALE;
use vstd::prelude::*;

verus! {

/// Upper bound on the sensitivity multiplier (1000.0 in fixed point).
pub const SENSITIVITY_LIMIT: i64 = 1_000_000_000;

/// Upper bound on the deadzone threshold: the whole normalized range
/// (2.0 in fixed point).
pub const DEADZONE_LIMIT: i64 = 2_000_000;

/// Largest accepted smoothing window.
pub const SMOOTHING_WINDOW_LIMIT: usize = 64;

/// Diagnostic-logging configuration (consumed by the host application's
/// logging setup; carried here because it persists with the rest of the
/// settings).
#[derive(Clone, Debug)]
pub struct LogSettings {
    pub level: String,
    pub file_logging_enabled: bool,
    pub console_logging_enabled: bool,
    pub log_dir: String,
    pub file_name_prefix: String,
    pub show_file_line: bool,
    pub show_thread_ids: bool,
    pub show_target: bool,
    pub ansi_colors: bool,
    pub rotation: String,
}

pub fn default_level() -> (r: String)
    ensures
        r@ == "info"@,
{
    "info".to_owned()
}

pub fn default_true() -> (r: bool)
    ensures
        r == true,
{
    true
}

pub fn default_false() -> (r: bool)
    ensures
        r == false,
{
    false
}

pub fn default_log_dir() -> (r: String)
    ensures
        r@ == "logs"@,
{
    "logs".to_owned()
}

pub fn default_prefix() -> (r: String)
    ensures
        r@ == "gear_vr_controller"@,
{
    "gear_vr_controller".to_owned()
}

pub fn default_rotation() -> (r: String)
    ensures
        r@ == "daily"@,
{
    "daily".to_owned()
}

impl Default for LogSettings {
    fn default() -> (r: LogSettings)
        ensures
            r.level@ == "info"@,
            r.file_logging_enabled,
            r.console_logging_enabled,
            r.log_dir@ == "logs"@,
            r.file_name_prefix@ == "gear_vr_controller"@,
            r.show_file_line,
            !r.show_thread_ids,
            r.show_target,
            r.ansi_colors,
            r.rotation@ == "daily"@,
    {
        LogSettings {
            level: default_level(),
            file_logging_enabled: default_true(),
            console_logging_enabled: default_true(),
            log_dir: default_log_dir(),
            file_name_prefix: default_prefix(),
            show_file_line: default_true(),
            show_thread_ids: default_false(),
            show_target: default_true(),
            ansi_colors: default_true(),
            rotation: default_rotation(),
        }
    }
}

pub fn default_service_uuid() -> (r: String)
    ensures
        r@ == "4f63756c-7573-2054-6872-65656d6f7465"@,
{
    "4f63756c-7573-2054-6872-65656d6f7465".to_owned()
}

pub fn default_data_uuid() -> (r: String)
    ensures
        r@ == "c8c51726-81bc-483b-a052-f7a14ea3d281"@,
{
    "c8c51726-81bc-483b-a052-f7a14ea3d281".to_owned()
}

pub fn default_command_uuid() -> (r: String)
    ensures
        r@ == "c8c51726-81bc-483b-a052-f7a14ea3d282"@,
{
    "c8c51726-81bc-483b-a052-f7a14ea3d282".to_owned()
}

pub fn default_pairing_max_retries() -> (r: u32)
    ensures
        r == 3,
{
    3
}

pub fn default_pairing_retry_delay_ms() -> (r: u64)
    ensures
        r == 1000,
{
    1000
}

/// All options the core consumes, in fixed point where the quantity is
/// a fraction of normalized space.
///
/// The acceleration curve, when enabled, is the signed three-halves
/// power curve (`sign(d) * |d|^(3/2)`).
#[derive(Clone, Debug)]
pub struct Settings {
    /// Sensitivity multiplier in fixed point (2.0 by default).
    pub mouse_sensitivity: i64,
    pub touchpad_calibration: TouchpadCalibration,
    pub known_bluetooth_addresses: Vec<u64>,
    pub last_connected_address: Option<u64>,
    pub enable_touchpad: bool,
    pub enable_buttons: bool,
    pub enable_gestures: bool,
    pub log_settings: LogSettings,
    /// Deadzone threshold on the per-sample delta magnitude, in fixed
    /// point (0.1 by default).
    pub dead_zone: i64,
    pub enable_smoothing: bool,
    /// Smoothing window size in samples, at least 1.
    pub smoothing_factor: usize,
    pub enable_acceleration: bool,
    pub ble_service_uuid: String,
    pub ble_data_char_uuid: String,
    pub ble_command_char_uuid: String,
    pub debug_show_all_devices: bool,
    pub debug_raw_data_logging: bool,
    pub pairing_max_retries: u32,
    pub pairing_retry_delay_ms: u64,
}

impl Settings {
    /// Bounds every engine relies on for overflow-free arithmetic.
    pub open spec fn wf(self) -> bool {
        &&& 0 <= self.mouse_sensitivity <= SENSITIVITY_LIMIT
        &&& 0 <= self.dead_zone <= DEADZONE_LIMIT
        &&& 1 <= self.smoothing_factor <= SMOOTHING_WINDOW_LIMIT
        &&& self.touchpad_calibration.wf()
    }

    /// Whether an address is already among the known ones.
    pub fn knows_address(&self, address: u64) -> (r: bool)
        ensures
            r == self.known_bluetooth_addresses@.contains(address),
    {
        let n = self.known_bluetooth_addresses.len();
        let mut i: usize = 0;
        while i < n
            invariant
                0 <= i <= n,
                n == self.known_bluetooth_addresses@.len(),
                forall|j: int| 0 <= j < i ==> self.known_bluetooth_addresses@[j] != address,
            decreases n - i,
        {
            if self.known_bluetooth_addresses[i] == address {
                return true;
            }
            i = i + 1;
        }
        false
    }

    /// Records an address if it is new; reports whether it was added.
    pub fn add_known_address(&mut self, address: u64) -> (added: bool)
        ensures
            added == !old(self).known_bluetooth_addresses@.contains(address),
            added ==> final(self).known_bluetooth_addresses@ == old(
                self,
            ).known_bluetooth_addresses@.push(address),
            !added ==> final(self).known_bluetooth_addresses@ == old(
                self,
            ).known_bluetooth_addresses@,
            final(self).mouse_sensitivity == old(self).mouse_sensitivity,
            final(self).touchpad_calibration == old(self).touchpad_calibration,
            final(self).dead_zone == old(self).dead_zone,
            final(self).smoothing_factor == old(self).smoothing_factor,
    {
        if self.knows_address(address) {
            false
        } else {
            self.known_bluetooth_addresses.push(address);
            true
        }
    }

    /// Replaces the stored touchpad calibration.
    pub fn update_calibration(&mut self, calibration: TouchpadCalibration)
        ensures
            final(self).touchpad_calibration == calibration,
            final(self).mouse_sensitivity == old(self).mouse_sensitivity,
            final(self).dead_zone == old(self).dead_zone,
            final(self).smoothing_factor == old(self).smoothing_factor,
            final(self).known_bluetooth_addresses@ == old(self).known_bluetooth_addresses@,
    {
        self.touchpad_calibration = calibration;
    }
}

impl Default for Settings {
    /// The factory defaults: sensitivity 2.0, deadzone 0.1, smoothing
    /// over 5 samples, acceleration on, every input source enabled.
    fn default() -> (r: Settings)
        ensures
            r.mouse_sensitivity == 2 * SCALE,
            r.touchpad_calibration == TouchpadCalibration::spec_default(),
            r.known_bluetooth_addresses@.len() == 0,
            r.last_connected_address is None,
            r.enable_touchpad,
            r.enable_buttons,
            r.enable_gestures,
            r.dead_zone == SCALE / 10,
            r.enable_smoothing,
            r.smoothing_factor == 5,
            r.enable_acceleration,
            !r.debug_show_all_devices,
            !r.debug_raw_data_logging,
            r.pairing_max_retries == 3,
            r.pairing_retry_delay_ms == 1000,
            r.wf(),
    {
        Settings {
            mouse_sensitivity: 2 * SCALE,
            touchpad_calibration: TouchpadCalibration::default(),
            known_bluetooth_addresses: Vec::new(),
            last_connected_address: None,
            enable_touchpad: true,
            enable_buttons: true,
            enable_gestures: true,
            log_settings: LogSettings::default(),
            dead_zone: SCALE / 10,
            enable_smoothing: true,
            smoothing_factor: 5,
            enable_acceleration: true,
            ble_service_uuid: default_service_uuid(),
            ble_data_char_uuid: default_data_uuid(),
            ble_command_char_uuid: default_command_uuid(),
            debug_show_all_devices: false,
            debug_raw_data_logging: false,
            pairing_max_retries: default_pairing_max_retries(),
            pairing_retry_delay_ms: default_pairing_retry_delay_ms(),
        }
    }
}

} // verus!
