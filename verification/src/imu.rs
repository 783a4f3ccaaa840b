//! IMU motion engine: gyroscope-based air-mouse deltas with bias
//! calibration, plus the stateless tilt-scroll and shake detectors.
//!
//! Calibration is a two-state protocol (idle / calibrating).  While
//! calibrating, every sample's gyroscope triple goes into an
//! accumulator; at [`CALIBRATION_TARGET`] samples the per-axis mean
//! becomes the bias offset and the engine returns to idle.  In steady
//! state the bias-corrected X/Y rates run through a three-sample
//! smoothing window, a per-axis deadzone and a near-zero cutoff before
//! being scaled to pixels.

use crate::fixed::{
    div_i64, div_tz, lemma_div_tz_mono_abs, lemma_seq_sum_take_step, mul_div, seq_sum, spec_abs,
    spec_window_mean, spec_window_push, SCALE, SENSOR_LIMIT,
};
use crate::packet::ControllerReading;
use crate::settings::Settings;
use vstd::prelude::*;

verus! {

/// Samples collected by one calibration run.
pub const CALIBRATION_TARGET: usize = 50;

/// Size of the gyroscope smoothing windows.
pub const GYRO_WINDOW: usize = 3;

/// Per-axis deadzone on the smoothed angular rate (0.5 units).
pub const GYRO_DEADZONE: i64 = 500_000;

/// Near-zero cutoff below which no motion is emitted (0.01 units).
pub const IMU_EPSILON: i64 = 10_000;

/// Fixed scale constant converting angular rate into pixels.
pub const IMU_POINTER_SCALE: i64 = 50;

/// Accelerometer magnitude (vertical axis) past which tilt-scroll fires
/// (0.3 units).
pub const TILT_THRESHOLD: i64 = 300_000;

/// Squared accelerometer-vector magnitude past which a shake is
/// detected (2.5 units, squared, in fixed point).
pub const SHAKE_THRESHOLD_SQUARED: i64 = 6_250_000_000_000;

/// Sum of the first components of a gyroscope-sample accumulator.
pub open spec fn spec_sum_x(s: Seq<(i64, i64, i64)>) -> int {
    seq_sum(s.map_values(|t: (i64, i64, i64)| t.0))
}

/// Sum of the second components.
pub open spec fn spec_sum_y(s: Seq<(i64, i64, i64)>) -> int {
    seq_sum(s.map_values(|t: (i64, i64, i64)| t.1))
}

/// Sum of the third components.
pub open spec fn spec_sum_z(s: Seq<(i64, i64, i64)>) -> int {
    seq_sum(s.map_values(|t: (i64, i64, i64)| t.2))
}

/// The pixel value of a processed angular rate:
/// `d * sensitivity * IMU_POINTER_SCALE` over normalized units,
/// truncating at each fixed-point division.
pub open spec fn spec_imu_pixels(d: int, sensitivity: int) -> int {
    div_tz(div_tz(d * sensitivity, SCALE as int) * IMU_POINTER_SCALE, SCALE as int)
}

/// Gyroscope-based air-mouse engine.
pub struct ImuProcessor {
    pub gyro_offset_x: i64,
    pub gyro_offset_y: i64,
    pub gyro_offset_z: i64,
    /// Placeholder accumulators for absolute-orientation integration;
    /// cleared by [`ImuProcessor::reset_orientation`].
    pub accumulated_yaw: i64,
    pub accumulated_pitch: i64,
    pub gyro_buffer_x: Vec<i64>,
    pub gyro_buffer_y: Vec<i64>,
    pub calibration_samples: Vec<(i64, i64, i64)>,
    pub is_calibrating: bool,
}

impl ImuProcessor {
    /// Offsets within sensor range, bounded windows of bias-corrected
    /// rates, and an accumulator that never reaches the target while a
    /// run is still open.
    pub open spec fn wf(self) -> bool {
        &&& -SENSOR_LIMIT <= self.gyro_offset_x <= SENSOR_LIMIT
        &&& -SENSOR_LIMIT <= self.gyro_offset_y <= SENSOR_LIMIT
        &&& -SENSOR_LIMIT <= self.gyro_offset_z <= SENSOR_LIMIT
        &&& self.gyro_buffer_x@.len() == self.gyro_buffer_y@.len()
        &&& self.gyro_buffer_x@.len() <= GYRO_WINDOW
        &&& forall|i: int|
            0 <= i < self.gyro_buffer_x@.len() ==> -2 * SENSOR_LIMIT
                <= #[trigger] self.gyro_buffer_x@[i] <= 2 * SENSOR_LIMIT
        &&& forall|i: int|
            0 <= i < self.gyro_buffer_y@.len() ==> -2 * SENSOR_LIMIT
                <= #[trigger] self.gyro_buffer_y@[i] <= 2 * SENSOR_LIMIT
        &&& self.calibration_samples@.len() < CALIBRATION_TARGET
        &&& forall|i: int|
            0 <= i < self.calibration_samples@.len() ==> {
                let t = #[trigger] self.calibration_samples@[i];
                -SENSOR_LIMIT <= t.0 <= SENSOR_LIMIT && -SENSOR_LIMIT <= t.1 <= SENSOR_LIMIT
                    && -SENSOR_LIMIT <= t.2 <= SENSOR_LIMIT
            }
    }

    /// A fresh engine: no bias, empty windows, idle.
    pub fn new() -> (r: ImuProcessor)
        ensures
            r.gyro_offset_x == 0,
            r.gyro_offset_y == 0,
            r.gyro_offset_z == 0,
            r.accumulated_yaw == 0,
            r.accumulated_pitch == 0,
            r.gyro_buffer_x@.len() == 0,
            r.gyro_buffer_y@.len() == 0,
            r.calibration_samples@.len() == 0,
            !r.is_calibrating,
            r.wf(),
    {
        ImuProcessor {
            gyro_offset_x: 0,
            gyro_offset_y: 0,
            gyro_offset_z: 0,
            accumulated_yaw: 0,
            accumulated_pitch: 0,
            gyro_buffer_x: Vec::new(),
            gyro_buffer_y: Vec::new(),
            calibration_samples: Vec::new(),
            is_calibrating: false,
        }
    }

    /// Opens a calibration run; the controller should be held still.
    pub fn start_calibration(&mut self)
        requires
            old(self).wf(),
        ensures
            final(self).is_calibrating,
            final(self).calibration_samples@.len() == 0,
            final(self).gyro_offset_x == old(self).gyro_offset_x,
            final(self).gyro_offset_y == old(self).gyro_offset_y,
            final(self).gyro_offset_z == old(self).gyro_offset_z,
            final(self).gyro_buffer_x@ == old(self).gyro_buffer_x@,
            final(self).gyro_buffer_y@ == old(self).gyro_buffer_y@,
            final(self).wf(),
    {
        self.calibration_samples.clear();
        self.is_calibrating = true;
    }

    /// Whether a calibration run is open.
    pub fn is_calibrating(&self) -> (r: bool)
        ensures
            r == self.is_calibrating,
    {
        self.is_calibrating
    }

    /// Calibration progress as a fixed-point fraction of 1.0.
    pub fn calibration_progress(&self) -> (r: i64)
        requires
            self.wf(),
        ensures
            r == div_tz(self.calibration_samples@.len() * SCALE, CALIBRATION_TARGET as int),
            0 <= r < SCALE,
    {
        let n = self.calibration_samples.len() as i64;
        div_i64(n * SCALE, CALIBRATION_TARGET as i64)
    }

    /// Clears the accumulated-orientation placeholders (re-center).
    pub fn reset_orientation(&mut self)
        requires
            old(self).wf(),
        ensures
            final(self).accumulated_yaw == 0,
            final(self).accumulated_pitch == 0,
            final(self).gyro_offset_x == old(self).gyro_offset_x,
            final(self).gyro_offset_y == old(self).gyro_offset_y,
            final(self).gyro_offset_z == old(self).gyro_offset_z,
            final(self).gyro_buffer_x@ == old(self).gyro_buffer_x@,
            final(self).gyro_buffer_y@ == old(self).gyro_buffer_y@,
            final(self).is_calibrating == old(self).is_calibrating,
            final(self).calibration_samples@ == old(self).calibration_samples@,
            final(self).wf(),
    {
        self.accumulated_yaw = 0;
        self.accumulated_pitch = 0;
    }

    /// Tilt-scroll detector: one fixed-magnitude scroll tick when the
    /// accelerometer's vertical axis exceeds the symmetric threshold.
    /// Stateless per call.
    pub fn calculate_tilt_scroll(&self, data: &ControllerReading) -> (r: Option<i32>)
        ensures
            data.accel_y > TILT_THRESHOLD ==> r == Some(1i32),
            data.accel_y < -TILT_THRESHOLD ==> r == Some(-1i32),
            -TILT_THRESHOLD <= data.accel_y <= TILT_THRESHOLD ==> r is None,
    {
        if data.accel_y > TILT_THRESHOLD {
            Some(1)
        } else if data.accel_y < -TILT_THRESHOLD {
            Some(-1)
        } else {
            None
        }
    }

    /// Shake detector: true when the accelerometer vector's squared
    /// magnitude exceeds the squared threshold.  Stateless per call.
    pub fn detect_shake(&self, data: &ControllerReading) -> (r: bool)
        requires
            data.wf(),
        ensures
            r == (data.accel_x * data.accel_x + data.accel_y * data.accel_y + data.accel_z
                * data.accel_z > SHAKE_THRESHOLD_SQUARED),
    {
        proof {
            assert(0 <= data.accel_x as int * data.accel_x as int <= 1_000_000_000_000_000_000
                && 0 <= data.accel_y as int * data.accel_y as int <= 1_000_000_000_000_000_000
                && 0 <= data.accel_z as int * data.accel_z as int <= 1_000_000_000_000_000_000)
                by (nonlinear_arith)
                requires
                    -1_000_000_000 <= data.accel_x as int <= 1_000_000_000,
                    -1_000_000_000 <= data.accel_y as int <= 1_000_000_000,
                    -1_000_000_000 <= data.accel_z as int <= 1_000_000_000,
            ;
        }
        let squared = data.accel_x * data.accel_x + data.accel_y * data.accel_y + data.accel_z
            * data.accel_z;
        squared > SHAKE_THRESHOLD_SQUARED
    }
}

/// Everything one sample does to the IMU engine: the new calibration
/// flag, accumulator, offsets and windows, and the emitted pixel delta.
pub open spec fn spec_imu_step(state: ImuProcessor, data: ControllerReading, settings: Settings) -> (
    bool,
    Seq<(i64, i64, i64)>,
    (i64, i64, i64),
    Seq<i64>,
    Seq<i64>,
    Option<(i32, i32)>,
)
    recommends
        state.wf(),
        data.wf(),
        settings.wf(),
{
    let offsets = (state.gyro_offset_x, state.gyro_offset_y, state.gyro_offset_z);
    if state.is_calibrating {
        let grown = state.calibration_samples@.push((data.gyro_x, data.gyro_y, data.gyro_z));
        if grown.len() >= CALIBRATION_TARGET {
            let new_offsets = (
                div_tz(spec_sum_x(grown), grown.len() as int) as i64,
                div_tz(spec_sum_y(grown), grown.len() as int) as i64,
                div_tz(spec_sum_z(grown), grown.len() as int) as i64,
            );
            (
                false,
                Seq::<(i64, i64, i64)>::empty(),
                new_offsets,
                state.gyro_buffer_x@,
                state.gyro_buffer_y@,
                None,
            )
        } else {
            (true, grown, offsets, state.gyro_buffer_x@, state.gyro_buffer_y@, None)
        }
    } else {
        let nbx = spec_window_push(
            state.gyro_buffer_x@,
            (data.gyro_x - state.gyro_offset_x) as i64,
            GYRO_WINDOW as int,
        );
        let nby = spec_window_push(
            state.gyro_buffer_y@,
            (data.gyro_y - state.gyro_offset_y) as i64,
            GYRO_WINDOW as int,
        );
        let sx = spec_window_mean(nbx);
        let sy = spec_window_mean(nby);
        let dx = if spec_abs(sx) > GYRO_DEADZONE {
            sx
        } else {
            0
        };
        let dy = if spec_abs(sy) > GYRO_DEADZONE {
            sy
        } else {
            0
        };
        let out = if spec_abs(dx) < IMU_EPSILON && spec_abs(dy) < IMU_EPSILON {
            None
        } else {
            Some(
                (
                    spec_imu_pixels(dx, settings.mouse_sensitivity as int) as i32,
                    spec_imu_pixels(dy, settings.mouse_sensitivity as int) as i32,
                ),
            )
        };
        (false, state.calibration_samples@, offsets, nbx, nby, out)
    }
}

impl ImuProcessor {
    /// Consumes one reading: while calibrating it only feeds the
    /// accumulator (finishing the run at the target count); when idle it
    /// produces the optional air-mouse pixel delta.
    pub fn calculate_airmouse_delta(&mut self, data: &ControllerReading, settings: &Settings) -> (r:
        Option<(i32, i32)>)
        requires
            old(self).wf(),
            data.wf(),
            settings.wf(),
        ensures
            final(self).wf(),
            ({
                let (calibrating, samples, offsets, bx, by, out) = spec_imu_step(
                    *old(self),
                    *data,
                    *settings,
                );
                &&& final(self).is_calibrating == calibrating
                &&& final(self).calibration_samples@ == samples
                &&& final(self).gyro_offset_x == offsets.0
                &&& final(self).gyro_offset_y == offsets.1
                &&& final(self).gyro_offset_z == offsets.2
                &&& final(self).gyro_buffer_x@ == bx
                &&& final(self).gyro_buffer_y@ == by
                &&& r == out
            }),
            old(self).is_calibrating ==> r is None,
            final(self).accumulated_yaw == old(self).accumulated_yaw,
            final(self).accumulated_pitch == old(self).accumulated_pitch,
    {
        if self.is_calibrating {
            self.calibration_samples.push((data.gyro_x, data.gyro_y, data.gyro_z));
            if self.calibration_samples.len() >= CALIBRATION_TARGET {
                self.finish_calibration();
            }
            return None;
        }

        let gx = data.gyro_x - self.gyro_offset_x;
        let gy = data.gyro_y - self.gyro_offset_y;

        imu_window_push(&mut self.gyro_buffer_x, gx);
        imu_window_push(&mut self.gyro_buffer_y, gy);
        let sx = imu_window_mean(&self.gyro_buffer_x);
        let sy = imu_window_mean(&self.gyro_buffer_y);

        let dx = if sx > GYRO_DEADZONE || sx < -GYRO_DEADZONE {
            sx
        } else {
            0
        };
        let dy = if sy > GYRO_DEADZONE || sy < -GYRO_DEADZONE {
            sy
        } else {
            0
        };

        if -IMU_EPSILON < dx && dx < IMU_EPSILON && -IMU_EPSILON < dy && dy < IMU_EPSILON {
            return None;
        }

        let px = imu_pixels(dx, settings.mouse_sensitivity);
        let py = imu_pixels(dy, settings.mouse_sensitivity);
        Some((px, py))
    }

    /// Turns the accumulated samples into per-axis mean offsets and
    /// closes the run.
    fn finish_calibration(&mut self)
        requires
            old(self).is_calibrating,
            1 <= old(self).calibration_samples@.len() <= CALIBRATION_TARGET,
            forall|i: int|
                0 <= i < old(self).calibration_samples@.len() ==> {
                    let t = #[trigger] old(self).calibration_samples@[i];
                    -SENSOR_LIMIT <= t.0 <= SENSOR_LIMIT && -SENSOR_LIMIT <= t.1 <= SENSOR_LIMIT
                        && -SENSOR_LIMIT <= t.2 <= SENSOR_LIMIT
                },
        ensures
            !final(self).is_calibrating,
            final(self).calibration_samples@.len() == 0,
            final(self).gyro_offset_x == div_tz(
                spec_sum_x(old(self).calibration_samples@),
                old(self).calibration_samples@.len() as int,
            ),
            final(self).gyro_offset_y == div_tz(
                spec_sum_y(old(self).calibration_samples@),
                old(self).calibration_samples@.len() as int,
            ),
            final(self).gyro_offset_z == div_tz(
                spec_sum_z(old(self).calibration_samples@),
                old(self).calibration_samples@.len() as int,
            ),
            -SENSOR_LIMIT <= final(self).gyro_offset_x <= SENSOR_LIMIT,
            -SENSOR_LIMIT <= final(self).gyro_offset_y <= SENSOR_LIMIT,
            -SENSOR_LIMIT <= final(self).gyro_offset_z <= SENSOR_LIMIT,
            final(self).gyro_buffer_x@ == old(self).gyro_buffer_x@,
            final(self).gyro_buffer_y@ == old(self).gyro_buffer_y@,
            final(self).accumulated_yaw == old(self).accumulated_yaw,
            final(self).accumulated_pitch == old(self).accumulated_pitch,
    {
        let n = self.calibration_samples.len();
        let mut sum_x: i64 = 0;
        let mut sum_y: i64 = 0;
        let mut sum_z: i64 = 0;
        let mut i: usize = 0;
        let ghost sx = self.calibration_samples@.map_values(|t: (i64, i64, i64)| t.0);
        let ghost sy = self.calibration_samples@.map_values(|t: (i64, i64, i64)| t.1);
        let ghost sz = self.calibration_samples@.map_values(|t: (i64, i64, i64)| t.2);
        while i < n
            invariant
                0 <= i <= n,
                n == self.calibration_samples@.len(),
                1 <= n <= CALIBRATION_TARGET,
                forall|j: int|
                    0 <= j < n ==> {
                        let t = #[trigger] self.calibration_samples@[j];
                        -SENSOR_LIMIT <= t.0 <= SENSOR_LIMIT && -SENSOR_LIMIT <= t.1 <= SENSOR_LIMIT
                            && -SENSOR_LIMIT <= t.2 <= SENSOR_LIMIT
                    },
                sx == self.calibration_samples@.map_values(|t: (i64, i64, i64)| t.0),
                sy == self.calibration_samples@.map_values(|t: (i64, i64, i64)| t.1),
                sz == self.calibration_samples@.map_values(|t: (i64, i64, i64)| t.2),
                sum_x == seq_sum(sx.take(i as int)),
                sum_y == seq_sum(sy.take(i as int)),
                sum_z == seq_sum(sz.take(i as int)),
                -1_000_000_000 * i <= sum_x <= 1_000_000_000 * i,
                -1_000_000_000 * i <= sum_y <= 1_000_000_000 * i,
                -1_000_000_000 * i <= sum_z <= 1_000_000_000 * i,
            decreases n - i,
        {
            let t = self.calibration_samples[i];
            proof {
                lemma_seq_sum_take_step(sx, i as int);
                lemma_seq_sum_take_step(sy, i as int);
                lemma_seq_sum_take_step(sz, i as int);
            }
            sum_x = sum_x + t.0;
            sum_y = sum_y + t.1;
            sum_z = sum_z + t.2;
            i = i + 1;
        }
        proof {
            assert(sx.take(n as int) =~= sx);
            assert(sy.take(n as int) =~= sy);
            assert(sz.take(n as int) =~= sz);
            lemma_div_tz_mono_abs(sum_x as int, n as int, 1_000_000_000 * (n as int));
            lemma_div_tz_mono_abs(sum_y as int, n as int, 1_000_000_000 * (n as int));
            lemma_div_tz_mono_abs(sum_z as int, n as int, 1_000_000_000 * (n as int));
            vstd::arithmetic::div_mod::lemma_div_by_multiple(1_000_000_000, n as int);
        }
        self.gyro_offset_x = div_i64(sum_x, n as i64);
        self.gyro_offset_y = div_i64(sum_y, n as i64);
        self.gyro_offset_z = div_i64(sum_z, n as i64);
        self.is_calibrating = false;
        self.calibration_samples.clear();
    }
}

/// Law (calibration convergence): a calibration run fed only one
/// constant gyroscope triple computes exactly that constant as the
/// per-axis bias offset.
pub proof fn lemma_calibration_constant_mean(s: Seq<(i64, i64, i64)>, c: (i64, i64, i64))
    requires
        s.len() >= 1,
        forall|i: int| 0 <= i < s.len() ==> #[trigger] s[i] == c,
    ensures
        div_tz(spec_sum_x(s), s.len() as int) == c.0,
        div_tz(spec_sum_y(s), s.len() as int) == c.1,
        div_tz(spec_sum_z(s), s.len() as int) == c.2,
{
    let n = s.len() as int;
    let sx = s.map_values(|t: (i64, i64, i64)| t.0);
    let sy = s.map_values(|t: (i64, i64, i64)| t.1);
    let sz = s.map_values(|t: (i64, i64, i64)| t.2);
    assert forall|i: int| 0 <= i < sx.len() implies #[trigger] sx[i] == c.0 by {
        assert(s[i] == c);
    }
    assert forall|i: int| 0 <= i < sy.len() implies #[trigger] sy[i] == c.1 by {
        assert(s[i] == c);
    }
    assert forall|i: int| 0 <= i < sz.len() implies #[trigger] sz[i] == c.2 by {
        assert(s[i] == c);
    }
    crate::fixed::lemma_seq_sum_constant(sx, c.0);
    crate::fixed::lemma_seq_sum_constant(sy, c.1);
    crate::fixed::lemma_seq_sum_constant(sz, c.2);
    assert(sx.len() * c.0 == c.0 * n && sy.len() * c.1 == c.1 * n && sz.len() * c.2 == c.2 * n)
        by (nonlinear_arith)
        requires
            sx.len() == n,
            sy.len() == n,
            sz.len() == n,
    ;
    crate::fixed::lemma_div_tz_multiple(c.0 as int, n);
    crate::fixed::lemma_div_tz_multiple(c.1 as int, n);
    crate::fixed::lemma_div_tz_multiple(c.2 as int, n);
}

/// Law (steady state after calibration): with the engine idle, the
/// smoothing windows all zero (as right after a calibration on a fresh
/// session) and the gyroscope reading exactly the calibrated bias, the
/// engine emits no motion and the windows stay all zero — so the
/// property holds for every further such sample by induction.
pub proof fn lemma_imu_steady_state(state: ImuProcessor, data: ControllerReading, settings: Settings)
    requires
        state.wf(),
        data.wf(),
        settings.wf(),
        !state.is_calibrating,
        data.gyro_x == state.gyro_offset_x,
        data.gyro_y == state.gyro_offset_y,
        forall|i: int| 0 <= i < state.gyro_buffer_x@.len() ==> #[trigger] state.gyro_buffer_x@[i]
            == 0,
        forall|i: int| 0 <= i < state.gyro_buffer_y@.len() ==> #[trigger] state.gyro_buffer_y@[i]
            == 0,
    ensures
        ({
            let (calibrating, samples, offsets, bx, by, out) = spec_imu_step(state, data, settings);
            &&& out is None
            &&& forall|i: int| 0 <= i < bx.len() ==> #[trigger] bx[i] == 0
            &&& forall|i: int| 0 <= i < by.len() ==> #[trigger] by[i] == 0
        }),
{
    let nbx = spec_window_push(state.gyro_buffer_x@, 0i64, GYRO_WINDOW as int);
    let nby = spec_window_push(state.gyro_buffer_y@, 0i64, GYRO_WINDOW as int);
    let gx = state.gyro_buffer_x@.push(0i64);
    let gy = state.gyro_buffer_y@.push(0i64);
    assert forall|i: int| 0 <= i < nbx.len() implies #[trigger] nbx[i] == 0 by {
        assert(nbx[i] == gx[i + (gx.len() - nbx.len())]);
    }
    assert forall|i: int| 0 <= i < nby.len() implies #[trigger] nby[i] == 0 by {
        assert(nby[i] == gy[i + (gy.len() - nby.len())]);
    }
    crate::fixed::lemma_seq_sum_bound(nbx, 0);
    crate::fixed::lemma_seq_sum_bound(nby, 0);
    assert(seq_sum(nbx) == 0);
    assert(seq_sum(nby) == 0);
    vstd::arithmetic::div_mod::lemma_basic_div(0, nbx.len() as int);
    vstd::arithmetic::div_mod::lemma_basic_div(0, nby.len() as int);
    assert(spec_window_mean(nbx) == 0);
    assert(spec_window_mean(nby) == 0);
}

/// Pushes one bias-corrected rate into a gyroscope window.
fn imu_window_push(buf: &mut Vec<i64>, d: i64)
    requires
        old(buf)@.len() <= GYRO_WINDOW,
        -2 * SENSOR_LIMIT <= d <= 2 * SENSOR_LIMIT,
        forall|i: int|
            0 <= i < old(buf)@.len() ==> -2 * SENSOR_LIMIT <= #[trigger] old(buf)@[i] <= 2
                * SENSOR_LIMIT,
    ensures
        final(buf)@ == spec_window_push(old(buf)@, d, GYRO_WINDOW as int),
        1 <= final(buf)@.len() <= GYRO_WINDOW,
        forall|i: int|
            0 <= i < final(buf)@.len() ==> -2 * SENSOR_LIMIT <= #[trigger] final(buf)@[i] <= 2
                * SENSOR_LIMIT,
{
    buf.push(d);
    let ghost grown = buf@;
    while buf.len() > GYRO_WINDOW
        invariant
            1 <= buf@.len() <= grown.len(),
            buf@ =~= grown.skip(grown.len() - buf@.len()),
            grown.len() > GYRO_WINDOW ==> buf@.len() >= GYRO_WINDOW,
            grown.len() <= GYRO_WINDOW ==> buf@ == grown,
        decreases buf@.len(),
    {
        let _ = buf.remove(0);
        proof {
            assert(buf@ =~= grown.skip(grown.len() - buf@.len()));
        }
    }
    proof {
        if grown.len() > GYRO_WINDOW {
            assert(buf@.len() == GYRO_WINDOW);
            assert(buf@ =~= spec_window_push(old(buf)@, d, GYRO_WINDOW as int));
        }
        assert forall|i: int| 0 <= i < buf@.len() implies -2 * SENSOR_LIMIT <= #[trigger] buf@[i]
            <= 2 * SENSOR_LIMIT by {
            let off = grown.len() - buf@.len();
            assert(buf@[i] == grown[i + off]);
        }
    }
}

/// Mean of a nonempty gyroscope window, truncating toward zero.
fn imu_window_mean(buf: &Vec<i64>) -> (r: i64)
    requires
        1 <= buf@.len() <= GYRO_WINDOW,
        forall|i: int|
            0 <= i < buf@.len() ==> -2 * SENSOR_LIMIT <= #[trigger] buf@[i] <= 2 * SENSOR_LIMIT,
    ensures
        r == spec_window_mean(buf@),
        -2 * SENSOR_LIMIT <= r <= 2 * SENSOR_LIMIT,
{
    let n = buf.len();
    let mut acc: i64 = 0;
    let mut i: usize = 0;
    while i < n
        invariant
            0 <= i <= n,
            n == buf@.len(),
            1 <= n <= GYRO_WINDOW,
            forall|j: int|
                0 <= j < n ==> -2 * SENSOR_LIMIT <= #[trigger] buf@[j] <= 2 * SENSOR_LIMIT,
            acc == seq_sum(buf@.take(i as int)),
            -2_000_000_000 * i <= acc <= 2_000_000_000 * i,
        decreases n - i,
    {
        let e = buf[i];
        proof {
            lemma_seq_sum_take_step(buf@, i as int);
        }
        acc = acc + e;
        i = i + 1;
    }
    proof {
        assert(buf@.take(n as int) =~= buf@);
        lemma_div_tz_mono_abs(acc as int, n as int, 2_000_000_000 * (n as int));
        vstd::arithmetic::div_mod::lemma_div_by_multiple(2_000_000_000, n as int);
    }
    div_i64(acc, n as i64)
}

/// Scales a processed angular rate into whole pixels.
fn imu_pixels(d: i64, sens: i64) -> (r: i32)
    requires
        -2 * SENSOR_LIMIT <= d <= 2 * SENSOR_LIMIT,
        0 <= sens <= 1_000_000_000,
    ensures
        r == spec_imu_pixels(d as int, sens as int),
{
    proof {
        assert(-2_000_000_000_000_000_000 <= d as int * sens as int <= 2_000_000_000_000_000_000)
            by (nonlinear_arith)
            requires
                -2_000_000_000 <= d as int <= 2_000_000_000,
                0 <= sens as int <= 1_000_000_000,
        ;
        lemma_div_tz_mono_abs(d as int * sens as int, SCALE as int, 2_000_000_000_000_000_000);
    }
    let q = mul_div(d, sens, SCALE);
    let scaled = q * IMU_POINTER_SCALE;
    proof {
        lemma_div_tz_mono_abs(scaled as int, SCALE as int, 100_000_000_000_000_000);
    }
    let px = div_i64(scaled, SCALE);
    px as i32
}

} // verus!
