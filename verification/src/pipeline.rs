//! The per-sample pipeline: normalizes one decoded reading, runs the
//! engines the current control mode calls for, and maps everything to
//! abstract input actions.
//!
//! Data flow per reading: normalizer first (always), then — unless the
//! radial overlay is open — the IMU engine in air-mouse mode or the
//! pointer engine (relative variant) in touchpad mode, then the gesture
//! recognizer when gestures are enabled, and finally the button mapper.

use crate::calibration::TouchpadCalibration;
use crate::gestures::{spec_gesture_step, GestureDirection, GestureRecognizer};
use crate::imu::{spec_imu_step, ImuProcessor};
use crate::mapper::{spec_mapper_step, InputAction, InputMapper};
use crate::menu::ControlMode;
use crate::packet::ControllerReading;
use crate::settings::Settings;
use crate::touchpad::{spec_axis_norm, spec_pointer_step, TouchpadProcessor};
use vstd::prelude::*;

verus! {

/// A reading with its normalized touchpad coordinates filled in from a
/// calibration; every other field kept.
pub open spec fn spec_normalized(data: ControllerReading, cal: TouchpadCalibration) -> ControllerReading
    recommends
        cal.wf(),
{
    ControllerReading {
        processed_touchpad_x: spec_axis_norm(data.touchpad_x, cal.min_x, cal.max_x, cal.center_x) as i64,
        processed_touchpad_y: spec_axis_norm(data.touchpad_y, cal.min_y, cal.max_y, cal.center_y) as i64,
        ..data
    }
}

/// What one processed sample hands back to the host application.
pub struct StepOutput {
    /// The abstract input commands to inject, in order.
    pub actions: Vec<InputAction>,
    /// The gesture recognized on this sample, if any.
    pub gesture: Option<GestureDirection>,
    /// The mode the radial overlay committed on this sample, if any.
    pub mode_committed: Option<ControlMode>,
    /// Whether the overlay asked for the settings surface.
    pub open_settings: bool,
    /// The reading with its normalized coordinates filled in.
    pub reading: ControllerReading,
}

/// All engine and mapper state for one controller session.
pub struct InputPipeline {
    pub touchpad: TouchpadProcessor,
    pub imu: ImuProcessor,
    pub gestures: GestureRecognizer,
    pub mapper: InputMapper,
}

impl InputPipeline {
    pub open spec fn wf(self) -> bool {
        &&& self.touchpad.wf()
        &&& self.imu.wf()
        &&& self.gestures.wf()
        &&& self.mapper.wf()
    }

    /// A fresh pipeline in the default mode.
    pub fn new() -> (r: InputPipeline)
        ensures
            r.wf(),
            r.mapper.current_mode is Mouse,
            !r.mapper.menu.is_visible,
            r.touchpad.last_processed_pos is None,
            !r.imu.is_calibrating,
            !r.gestures.is_gesture_in_progress,
    {
        InputPipeline {
            touchpad: TouchpadProcessor::new(),
            imu: ImuProcessor::new(),
            gestures: GestureRecognizer::new(),
            mapper: InputMapper::new(),
        }
    }

    /// Processes one decoded reading under the given settings snapshot
    /// and host timestamp (monotonic milliseconds).
    pub fn process_reading(&mut self, data: ControllerReading, settings: &Settings, now_ms: u64)
        -> (out: StepOutput)
        requires
            old(self).wf(),
            data.wf(),
            settings.wf(),
        ensures
            final(self).wf(),
            out.reading == spec_normalized(data, settings.touchpad_calibration),
            out.reading.wf(),
            ({
                let nd = spec_normalized(data, settings.touchpad_calibration);
                let menu_active = old(self).mapper.menu.is_visible;
                let imu_active = !menu_active && old(self).mapper.current_mode is Mouse;
                let (imu_cal, imu_samples, imu_off, imu_bx, imu_by, imu_out) = spec_imu_step(
                    old(self).imu,
                    nd,
                    *settings,
                );
                let imu_delta = if imu_active {
                    imu_out
                } else {
                    None::<(i32, i32)>
                };
                let ptr_active = !menu_active && old(self).mapper.current_mode is Touchpad
                    && settings.enable_touchpad && nd.touchpad_touched;
                let (ptr_pos, ptr_bx, ptr_by, ptr_out) = spec_pointer_step(
                    old(self).touchpad,
                    nd,
                    *settings,
                    false,
                );
                let ptr_delta = if ptr_active {
                    ptr_out
                } else {
                    None::<(i32, i32)>
                };
                let gest_active = settings.enable_gestures && !menu_active;
                let (g_prog, g_start, g_points, g_raw) = spec_gesture_step(
                    old(self).gestures,
                    nd,
                    *settings,
                );
                let g_out = if gest_active {
                    g_raw
                } else {
                    None::<GestureDirection>
                };
                let (m2, acts, committed, open_settings) = spec_mapper_step(
                    old(self).mapper,
                    nd,
                    imu_delta,
                    ptr_delta,
                    g_out,
                    *settings,
                    now_ms,
                );
                &&& out.actions@ == acts
                &&& out.gesture == g_out
                &&& out.mode_committed == committed
                &&& out.open_settings == open_settings
                &&& final(self).mapper == m2
                &&& final(self).imu.is_calibrating == (if imu_active {
                    imu_cal
                } else {
                    old(self).imu.is_calibrating
                })
                &&& final(self).imu.calibration_samples@ == (if imu_active {
                    imu_samples
                } else {
                    old(self).imu.calibration_samples@
                })
                &&& final(self).imu.gyro_offset_x == (if imu_active {
                    imu_off.0
                } else {
                    old(self).imu.gyro_offset_x
                })
                &&& final(self).imu.gyro_offset_y == (if imu_active {
                    imu_off.1
                } else {
                    old(self).imu.gyro_offset_y
                })
                &&& final(self).imu.gyro_offset_z == (if imu_active {
                    imu_off.2
                } else {
                    old(self).imu.gyro_offset_z
                })
                &&& final(self).imu.gyro_buffer_x@ == (if imu_active {
                    imu_bx
                } else {
                    old(self).imu.gyro_buffer_x@
                })
                &&& final(self).imu.gyro_buffer_y@ == (if imu_active {
                    imu_by
                } else {
                    old(self).imu.gyro_buffer_y@
                })
                &&& final(self).gestures.is_gesture_in_progress == (if gest_active {
                    g_prog
                } else {
                    old(self).gestures.is_gesture_in_progress
                })
                &&& final(self).gestures.start_point == (if gest_active {
                    g_start
                } else {
                    old(self).gestures.start_point
                })
                &&& final(self).gestures.points@ == (if gest_active {
                    g_points
                } else {
                    old(self).gestures.points@
                })
                &&& final(self).touchpad.last_processed_pos == (if ptr_active {
                    ptr_pos
                } else if nd.touchpad_touched {
                    old(self).touchpad.last_processed_pos
                } else {
                    None::<(i64, i64)>
                })
                &&& final(self).touchpad.delta_buffer_x@ == (if ptr_active {
                    ptr_bx
                } else if nd.touchpad_touched {
                    old(self).touchpad.delta_buffer_x@
                } else {
                    Seq::<i64>::empty()
                })
                &&& final(self).touchpad.delta_buffer_y@ == (if ptr_active {
                    ptr_by
                } else if nd.touchpad_touched {
                    old(self).touchpad.delta_buffer_y@
                } else {
                    Seq::<i64>::empty()
                })
            }),
    {
        let mut nd = data;
        let menu_active = self.mapper.menu.is_visible;
        let mouse_mode = matches!(self.mapper.current_mode, ControlMode::Mouse);
        let touchpad_mode = matches!(self.mapper.current_mode, ControlMode::Touchpad);

        self.touchpad.process(&mut nd, &settings.touchpad_calibration);

        let imu_delta = if !menu_active && mouse_mode {
            self.imu.calculate_airmouse_delta(&nd, settings)
        } else {
            None
        };
        let pointer_delta = if !menu_active && touchpad_mode && settings.enable_touchpad
            && nd.touchpad_touched {
            self.touchpad.calculate_mouse_delta(&nd, settings, false)
        } else {
            None
        };
        let gesture = if settings.enable_gestures && !menu_active {
            self.gestures.process(&nd, settings)
        } else {
            None
        };

        let (actions, mode_committed, open_settings) = self.mapper.step(
            &nd,
            imu_delta,
            pointer_delta,
            gesture,
            settings,
            now_ms,
        );

        StepOutput { actions, gesture, mode_committed, open_settings, reading: nd }
    }
}

} // verus!
