//! Touchpad normalizer and pointer motion engine.
//!
//! Normalization maps raw touchpad coordinates into the calibrated,
//! centered, clamped unit range (`[-SCALE, SCALE]` in fixed point).
//! The motion engine turns successive normalized positions into pixel
//! deltas through a deadzone, an optional smoothing window, an optional
//! acceleration curve and a fixed output scale; a hybrid variant adds a
//! continuous edge-joystick velocity term.
//!
//! Deliberate behavioral choices, documented because either choice
//! would be defensible:
//! - a deadzone-suppressed sample still advances the remembered last
//!   position (no delta accumulation across suppressed micro-movements),
//!   but does not feed the smoothing window;
//! - disabling smoothing clears the window so re-enabling it never
//!   averages in stale samples;
//! - the edge-joystick term is independent of the relative delta, so in
//!   the hybrid variant a finger resting near an edge keeps moving the
//!   cursor even while its per-sample delta sits inside the deadzone.

use crate::calibration::TouchpadCalibration;
use crate::fixed::{
    clamp_i64, div_i64, div_tz, isqrt_i64, lemma_div_tz_mono_abs, lemma_seq_sum_take_step, mul_div,
    seq_sum, spec_abs, spec_clamp, spec_isqrt, spec_window_mean, spec_window_push, SCALE,
};
use crate::packet::ControllerReading;
use crate::settings::{Settings, SENSITIVITY_LIMIT, SMOOTHING_WINDOW_LIMIT};
use std::collections::VecDeque;
use vstd::prelude::*;

verus! {

/// Fixed scale constant converting normalized-space deltas into pixels.
pub const POINTER_SCALE: i64 = 800;

/// Normalized magnitude past which the edge-joystick term engages (0.6).
pub const EDGE_THRESHOLD: i64 = 600_000;

/// Base speed multiplier of the edge-joystick term.
pub const EDGE_SPEED: i64 = 5;

/// Normalized value of one raw touchpad coordinate against a calibrated
/// axis: `(raw - center) / ((max - min) / 2)`, clamped to one unit.  A
/// degenerate axis (`max == min`) divides by one unit instead.
pub open spec fn spec_axis_norm(raw: u16, min: u16, max: u16, center: u16) -> int
    recommends
        min <= max,
{
    let divisor: int = if max > min {
        max - min
    } else {
        2
    };
    spec_clamp(div_tz((raw - center) * 2 * SCALE, divisor), -SCALE as int, SCALE as int)
}

/// Whether a per-sample delta falls inside the deadzone (its Euclidean
/// magnitude is below the threshold).
pub open spec fn spec_deadzone_hit(dx: int, dy: int, dead_zone: int) -> bool {
    dx * dx + dy * dy < dead_zone * dead_zone
}

/// Signed three-halves power curve in fixed point:
/// `sign(d) * |d|^(3/2)` over normalized units.
pub open spec fn spec_accel_curve(d: int) -> int {
    let m = spec_abs(d);
    let a = div_tz(m * spec_isqrt(m * SCALE), SCALE as int);
    if d >= 0 {
        a
    } else {
        -a
    }
}

/// A processed axis delta scaled into fixed-point pixels:
/// `d * sensitivity * POINTER_SCALE`.
pub open spec fn spec_pixel_scale(d: int, sensitivity: int) -> int {
    div_tz(d * sensitivity, SCALE as int) * POINTER_SCALE
}

/// Continuous edge-joystick velocity for one axis, in fixed-point
/// pixels: past the edge threshold, proportional to the overshoot.
pub open spec fn spec_edge_component(pos: int, sensitivity: int) -> int {
    if spec_abs(pos) > EDGE_THRESHOLD {
        let v = div_tz((spec_abs(pos) - EDGE_THRESHOLD) * EDGE_SPEED * sensitivity, SCALE as int);
        if pos >= 0 {
            v
        } else {
            -v
        }
    } else {
        0
    }
}

/// Stateful pointer motion engine: the last normalized position of the
/// current stroke and the two parallel smoothing windows.
pub struct TouchpadProcessor {
    pub last_processed_pos: Option<(i64, i64)>,
    pub delta_buffer_x: VecDeque<i64>,
    pub delta_buffer_y: VecDeque<i64>,
}

impl TouchpadProcessor {
    /// Parallel, bounded windows of bounded samples; a remembered
    /// position inside the normalized range.
    pub open spec fn wf(self) -> bool {
        &&& self.delta_buffer_x@.len() == self.delta_buffer_y@.len()
        &&& self.delta_buffer_x@.len() <= SMOOTHING_WINDOW_LIMIT
        &&& forall|i: int|
            0 <= i < self.delta_buffer_x@.len() ==> -2 * SCALE <= #[trigger] self.delta_buffer_x@[i]
                <= 2 * SCALE
        &&& forall|i: int|
            0 <= i < self.delta_buffer_y@.len() ==> -2 * SCALE <= #[trigger] self.delta_buffer_y@[i]
                <= 2 * SCALE
        &&& match self.last_processed_pos {
            Some((x, y)) => -SCALE <= x <= SCALE && -SCALE <= y <= SCALE,
            None => true,
        }
    }

    /// A fresh engine with no remembered stroke.
    pub fn new() -> (r: TouchpadProcessor)
        ensures
            r.last_processed_pos is None,
            r.delta_buffer_x@.len() == 0,
            r.delta_buffer_y@.len() == 0,
            r.wf(),
    {
        TouchpadProcessor {
            last_processed_pos: None,
            delta_buffer_x: VecDeque::new(),
            delta_buffer_y: VecDeque::new(),
        }
    }

    /// Fills in the normalized touchpad coordinates of a reading and, on
    /// a released touch, resets the stroke state.
    ///
    /// Normalization itself is stateless and always recomputes; only the
    /// release edge touches the engine state.
    pub fn process(&mut self, data: &mut ControllerReading, calibration: &TouchpadCalibration)
        requires
            old(self).wf(),
            old(data).wf(),
            calibration.wf(),
        ensures
            final(self).wf(),
            final(data).wf(),
            *final(data) == (ControllerReading {
                processed_touchpad_x: final(data).processed_touchpad_x,
                processed_touchpad_y: final(data).processed_touchpad_y,
                ..*old(data)
            }),
            final(data).processed_touchpad_x == spec_axis_norm(
                old(data).touchpad_x,
                calibration.min_x,
                calibration.max_x,
                calibration.center_x,
            ),
            final(data).processed_touchpad_y == spec_axis_norm(
                old(data).touchpad_y,
                calibration.min_y,
                calibration.max_y,
                calibration.center_y,
            ),
            !old(data).touchpad_touched ==> final(self).last_processed_pos is None,
            !old(data).touchpad_touched ==> final(self).delta_buffer_x@.len() == 0,
            !old(data).touchpad_touched ==> final(self).delta_buffer_y@.len() == 0,
            old(data).touchpad_touched ==> *final(self) == *old(self),
    {
        if !data.touchpad_touched {
            self.last_processed_pos = None;
            self.delta_buffer_x.clear();
            self.delta_buffer_y.clear();
        }
        data.processed_touchpad_x = normalize_axis(
            data.touchpad_x,
            calibration.min_x,
            calibration.max_x,
            calibration.center_x,
        );
        data.processed_touchpad_y = normalize_axis(
            data.touchpad_y,
            calibration.min_y,
            calibration.max_y,
            calibration.center_y,
        );
    }
}

/// Everything one sample does to the motion engine: the new remembered
/// position, the new smoothing windows, and the emitted pixel delta.
pub open spec fn spec_pointer_step(
    state: TouchpadProcessor,
    data: ControllerReading,
    settings: Settings,
    edge_joystick: bool,
) -> (Option<(i64, i64)>, Seq<i64>, Seq<i64>, Option<(i32, i32)>)
    recommends
        state.wf(),
        data.wf(),
        settings.wf(),
{
    if !data.touchpad_touched {
        (state.last_processed_pos, state.delta_buffer_x@, state.delta_buffer_y@, None)
    } else {
        let cx = data.processed_touchpad_x;
        let cy = data.processed_touchpad_y;
        let sens = settings.mouse_sensitivity as int;
        let (rel_x, rel_y, bx, by) = match state.last_processed_pos {
            None => (0int, 0int, state.delta_buffer_x@, state.delta_buffer_y@),
            Some((lx, ly)) => {
                let dx = cx - lx;
                let dy = cy - ly;
                if spec_deadzone_hit(dx, dy, settings.dead_zone as int) {
                    (0int, 0int, state.delta_buffer_x@, state.delta_buffer_y@)
                } else {
                    let (sx, sy, nbx, nby) = if settings.enable_smoothing {
                        let nbx = spec_window_push(
                            state.delta_buffer_x@,
                            dx as i64,
                            settings.smoothing_factor as int,
                        );
                        let nby = spec_window_push(
                            state.delta_buffer_y@,
                            dy as i64,
                            settings.smoothing_factor as int,
                        );
                        (spec_window_mean(nbx), spec_window_mean(nby), nbx, nby)
                    } else {
                        (dx, dy, Seq::<i64>::empty(), Seq::<i64>::empty())
                    };
                    let (ax, ay) = if settings.enable_acceleration {
                        (spec_accel_curve(sx), spec_accel_curve(sy))
                    } else {
                        (sx, sy)
                    };
                    (spec_pixel_scale(ax, sens), spec_pixel_scale(ay, sens), nbx, nby)
                }
            },
        };
        let tx = rel_x + if edge_joystick {
            spec_edge_component(cx as int, sens)
        } else {
            0
        };
        let ty = rel_y + if edge_joystick {
            spec_edge_component(cy as int, sens)
        } else {
            0
        };
        let out = if -SCALE < tx < SCALE && -SCALE < ty < SCALE {
            None
        } else {
            Some((div_tz(tx, SCALE as int) as i32, div_tz(ty, SCALE as int) as i32))
        };
        (Some((cx, cy)), bx, by, out)
    }
}

impl TouchpadProcessor {
    /// Converts one normalized sample into an optional pixel delta.
    ///
    /// Per-sample algorithm while touched: raw delta against the last
    /// position, deadzone, optional smoothing, optional acceleration,
    /// scale; with `edge_joystick`, an independent continuous velocity
    /// term near the touchpad edges.  Output is suppressed while
    /// untouched, on the first sample of a stroke, and whenever both
    /// axes come out below one pixel.
    pub fn calculate_mouse_delta(
        &mut self,
        data: &ControllerReading,
        settings: &Settings,
        edge_joystick: bool,
    ) -> (r: Option<(i32, i32)>)
        requires
            old(self).wf(),
            data.wf(),
            settings.wf(),
        ensures
            final(self).wf(),
            ({
                let (pos, bx, by, out) = spec_pointer_step(*old(self), *data, *settings, edge_joystick);
                &&& final(self).last_processed_pos == pos
                &&& final(self).delta_buffer_x@ == bx
                &&& final(self).delta_buffer_y@ == by
                &&& r == out
            }),
            !data.touchpad_touched ==> r is None && *final(self) == *old(self),
    {
        if !data.touchpad_touched {
            return None;
        }
        let cx = data.processed_touchpad_x;
        let cy = data.processed_touchpad_y;
        let sens = settings.mouse_sensitivity;

        let mut total_x: i64 = 0;
        let mut total_y: i64 = 0;

        match self.last_processed_pos {
            Some((lx, ly)) => {
                let dx = cx - lx;
                let dy = cy - ly;
                proof {
                    assert(dx as int * dx as int + dy as int * dy as int <= 8_000_000_000_000
                        && dx as int * dx as int >= 0 && dy as int * dy as int >= 0) by (nonlinear_arith)
                        requires
                            -2_000_000 <= dx as int <= 2_000_000,
                            -2_000_000 <= dy as int <= 2_000_000,
                    ;
                    assert(0 <= settings.dead_zone as int * settings.dead_zone as int
                        <= 4_000_000_000_000) by (nonlinear_arith)
                        requires
                            0 <= settings.dead_zone as int <= 2_000_000,
                    ;
                }
                if dx * dx + dy * dy < settings.dead_zone * settings.dead_zone {
                    // Inside the deadzone: no relative motion, and the
                    // smoothing windows are left alone.
                } else {
                    let (sx, sy) = if settings.enable_smoothing {
                        window_push(&mut self.delta_buffer_x, dx, settings.smoothing_factor);
                        window_push(&mut self.delta_buffer_y, dy, settings.smoothing_factor);
                        (window_mean(&self.delta_buffer_x), window_mean(&self.delta_buffer_y))
                    } else {
                        self.delta_buffer_x.clear();
                        self.delta_buffer_y.clear();
                        (dx, dy)
                    };
                    let (ax, ay) = if settings.enable_acceleration {
                        (accel_curve(sx), accel_curve(sy))
                    } else {
                        (sx, sy)
                    };
                    total_x = pixel_scale(ax, sens);
                    total_y = pixel_scale(ay, sens);
                }
            },
            None => {},
        }
        self.last_processed_pos = Some((cx, cy));

        if edge_joystick {
            total_x = total_x + edge_component(cx, sens);
            total_y = total_y + edge_component(cy, sens);
        }

        if -SCALE < total_x && total_x < SCALE && -SCALE < total_y && total_y < SCALE {
            return None;
        }
        let px = div_i64(total_x, SCALE);
        let py = div_i64(total_y, SCALE);
        Some((px as i32, py as i32))
    }
}

/// Pushes one sample into a smoothing window, evicting the oldest
/// entries past the window size.
fn window_push(buf: &mut VecDeque<i64>, d: i64, window: usize)
    requires
        1 <= window <= SMOOTHING_WINDOW_LIMIT,
        old(buf)@.len() <= SMOOTHING_WINDOW_LIMIT,
        -2 * SCALE <= d <= 2 * SCALE,
        forall|i: int| 0 <= i < old(buf)@.len() ==> -2 * SCALE <= #[trigger] old(buf)@[i] <= 2
            * SCALE,
    ensures
        final(buf)@ == spec_window_push(old(buf)@, d, window as int),
        1 <= final(buf)@.len() <= window || final(buf)@ == old(buf)@.push(d),
        final(buf)@.len() <= SMOOTHING_WINDOW_LIMIT,
        forall|i: int| 0 <= i < final(buf)@.len() ==> -2 * SCALE <= #[trigger] final(buf)@[i] <= 2
            * SCALE,
{
    buf.push_back(d);
    let ghost grown = buf@;
    while buf.len() > window
        invariant
            1 <= window,
            1 <= buf@.len() <= grown.len(),
            buf@ =~= grown.skip(grown.len() - buf@.len()),
            grown.len() > window ==> buf@.len() >= window,
            grown.len() <= window ==> buf@ == grown,
        decreases buf@.len(),
    {
        let ghost before = buf@;
        let _ = buf.pop_front();
        proof {
            assert(buf@ =~= grown.skip(grown.len() - buf@.len()));
        }
    }
    proof {
        if grown.len() > window {
            assert(buf@.len() == window);
            assert(buf@ =~= spec_window_push(old(buf)@, d, window as int));
        }
        assert forall|i: int| 0 <= i < buf@.len() implies -2 * SCALE <= #[trigger] buf@[i] <= 2
            * SCALE by {
            let off = grown.len() - buf@.len();
            assert(buf@[i] == grown[i + off]);
        }
    }
}

/// Mean of a nonempty smoothing window, truncating toward zero.
fn window_mean(buf: &VecDeque<i64>) -> (r: i64)
    requires
        1 <= buf@.len() <= SMOOTHING_WINDOW_LIMIT,
        forall|i: int| 0 <= i < buf@.len() ==> -2 * SCALE <= #[trigger] buf@[i] <= 2 * SCALE,
    ensures
        r == spec_window_mean(buf@),
        -2 * SCALE <= r <= 2 * SCALE,
{
    let n = buf.len();
    let mut acc: i64 = 0;
    let mut i: usize = 0;
    while i < n
        invariant
            0 <= i <= n,
            n == buf@.len(),
            1 <= n <= SMOOTHING_WINDOW_LIMIT,
            forall|j: int| 0 <= j < n ==> -2 * SCALE <= #[trigger] buf@[j] <= 2 * SCALE,
            acc == seq_sum(buf@.take(i as int)),
            -2_000_000 * i <= acc <= 2_000_000 * i,
        decreases n - i,
    {
        let e = buf[i];
        proof {
            lemma_seq_sum_take_step(buf@, i as int);
        }
        acc = acc + e;
        i = i + 1;
    }
    proof {
        assert(buf@.take(n as int) =~= buf@);
        lemma_div_tz_mono_abs(acc as int, n as int, 2_000_000 * (n as int));
        vstd::arithmetic::div_mod::lemma_div_by_multiple(2_000_000, n as int);
    }
    div_i64(acc, n as i64)
}

/// The signed three-halves acceleration curve.
fn accel_curve(d: i64) -> (r: i64)
    requires
        -2 * SCALE <= d <= 2 * SCALE,
    ensures
        r == spec_accel_curve(d as int),
        -3_000_000 <= r <= 3_000_000,
{
    let m = if d >= 0 {
        d
    } else {
        -d
    };
    let q = isqrt_i64(m * SCALE);
    proof {
        crate::fixed::lemma_isqrt_props(m as int * SCALE as int);
        assert(q <= 1_414_214) by (nonlinear_arith)
            requires
                q as int * q as int <= 2_000_000_000_000,
                q >= 0,
        ;
        assert(0 <= m as int * q as int <= 2_828_428_000_000) by (nonlinear_arith)
            requires
                0 <= m as int <= 2_000_000,
                0 <= q as int <= 1_414_214,
        ;
        lemma_div_tz_mono_abs(m as int * q as int, SCALE as int, 2_828_428_000_000);
    }
    let a = mul_div(m, q, SCALE);
    if d >= 0 {
        a
    } else {
        -a
    }
}

/// Scales a processed delta by the sensitivity and the fixed pixel
/// scale.
fn pixel_scale(d: i64, sens: i64) -> (r: i64)
    requires
        -3_000_000 <= d <= 3_000_000,
        0 <= sens <= SENSITIVITY_LIMIT,
    ensures
        r == spec_pixel_scale(d as int, sens as int),
        -2_400_000_000_000 <= r <= 2_400_000_000_000,
{
    proof {
        assert(-3_000_000_000_000_000 <= d as int * sens as int <= 3_000_000_000_000_000)
            by (nonlinear_arith)
            requires
                -3_000_000 <= d as int <= 3_000_000,
                0 <= sens as int <= 1_000_000_000,
        ;
        lemma_div_tz_mono_abs(d as int * sens as int, SCALE as int, 3_000_000_000_000_000);
    }
    let q = mul_div(d, sens, SCALE);
    q * POINTER_SCALE
}

/// The continuous edge-joystick velocity term for one axis.
fn edge_component(pos: i64, sens: i64) -> (r: i64)
    requires
        -SCALE <= pos <= SCALE,
        0 <= sens <= SENSITIVITY_LIMIT,
    ensures
        r == spec_edge_component(pos as int, sens as int),
        -2_000_000_000 <= r <= 2_000_000_000,
{
    let m = if pos >= 0 {
        pos
    } else {
        -pos
    };
    if m > EDGE_THRESHOLD {
        let excess = m - EDGE_THRESHOLD;
        proof {
            assert(0 <= (excess as int * EDGE_SPEED as int) * sens as int <= 2_000_000_000_000_000)
                by (nonlinear_arith)
                requires
                    0 <= excess as int * EDGE_SPEED as int <= 2_000_000,
                    0 <= sens as int <= 1_000_000_000,
            ;
            lemma_div_tz_mono_abs(
                (excess as int * EDGE_SPEED as int) * sens as int,
                SCALE as int,
                2_000_000_000_000_000,
            );
            crate::fixed::lemma_div_tz_bound(
                (excess as int * EDGE_SPEED as int) * sens as int,
                SCALE as int,
                2_000_000_000_000_000,
            );
        }
        let v = mul_div(excess * EDGE_SPEED, sens, SCALE);
        if pos >= 0 {
            v
        } else {
            -v
        }
    } else {
        0
    }
}

/// Law: with a centered calibration, any raw coordinate outside
/// `[min, max]` normalizes to exactly plus or minus one unit, never
/// beyond.  (With an off-center calibration the clamp bound still
/// holds, but a coordinate just past the short side of the range need
/// not saturate: for `min = 0`, `max = 315`, `center = 315`, raw 316
/// normalizes to a small positive value.)
pub proof fn lemma_normalize_clamps_outside(raw: u16, min: u16, max: u16, center: u16)
    requires
        min <= max,
        2 * center == min + max,
    ensures
        raw > max ==> spec_axis_norm(raw, min, max, center) == SCALE,
        raw < min ==> spec_axis_norm(raw, min, max, center) == -SCALE,
{
    let d: int = if max > min {
        max - min
    } else {
        2
    };
    let v = (raw - center) * 2 * SCALE;
    if raw > max {
        if max > min {
            assert(2 * (raw - center) >= d);
        } else {
            assert(2 * (raw - center) >= 2);
        }
        assert(v >= d * SCALE);
        vstd::arithmetic::div_mod::lemma_div_is_ordered(d * SCALE, v, d);
        vstd::arithmetic::div_mod::lemma_div_by_multiple(SCALE as int, d);
        assert(SCALE as int * d == d * SCALE);
        assert(v / d >= SCALE);
        assert(div_tz(v, d) == v / d);
    }
    if raw < min {
        if max > min {
            assert(2 * (center - raw) >= d);
        } else {
            assert(2 * (center - raw) >= 2);
        }
        assert(-v >= d * SCALE);
        vstd::arithmetic::div_mod::lemma_div_is_ordered(d * SCALE, -v, d);
        vstd::arithmetic::div_mod::lemma_div_by_multiple(SCALE as int, d);
        assert(SCALE as int * d == d * SCALE);
        assert((-v) / d >= SCALE);
        assert(div_tz(v, d) == -((-v) / d));
    }
}

/// Law: a degenerate calibration axis (`min == max`) never divides by
/// zero — a unit divisor is substituted — and the normalized value is
/// still a well-defined number in `[-1, 1]`.
pub proof fn lemma_normalize_degenerate(raw: u16, min: u16, center: u16)
    ensures
        -SCALE <= spec_axis_norm(raw, min, min, center) <= SCALE,
        spec_axis_norm(raw, min, min, center) == spec_clamp(
            div_tz((raw - center) * 2 * SCALE, 2),
            -SCALE as int,
            SCALE as int,
        ),
{
}

/// Law: while touched and past the first sample, a delta whose
/// magnitude lies inside the deadzone yields no motion from the
/// relative chain; without the edge-joystick term the engine emits
/// nothing at all, and the smoothing windows are left untouched.
pub proof fn lemma_deadzone_suppresses(
    state: TouchpadProcessor,
    data: ControllerReading,
    settings: Settings,
)
    requires
        state.wf(),
        data.wf(),
        settings.wf(),
        data.touchpad_touched,
        state.last_processed_pos matches Some((lx, ly)) && spec_deadzone_hit(
            data.processed_touchpad_x - lx,
            data.processed_touchpad_y - ly,
            settings.dead_zone as int,
        ),
    ensures
        ({
            let (pos, bx, by, out) = spec_pointer_step(state, data, settings, false);
            &&& out is None
            &&& bx == state.delta_buffer_x@
            &&& by == state.delta_buffer_y@
            &&& pos == Some((data.processed_touchpad_x, data.processed_touchpad_y))
        }),
{
}

/// Law: with smoothing, acceleration and the edge-joystick term all
/// off, a delta strictly outside the deadzone whose scaled X component
/// reaches one pixel always yields motion.
pub proof fn lemma_above_deadzone_moves(
    state: TouchpadProcessor,
    data: ControllerReading,
    settings: Settings,
)
    requires
        state.wf(),
        data.wf(),
        settings.wf(),
        data.touchpad_touched,
        !settings.enable_smoothing,
        !settings.enable_acceleration,
        state.last_processed_pos matches Some((lx, ly)) && !spec_deadzone_hit(
            data.processed_touchpad_x - lx,
            data.processed_touchpad_y - ly,
            settings.dead_zone as int,
        ) && spec_abs(
            spec_pixel_scale(data.processed_touchpad_x - lx, settings.mouse_sensitivity as int),
        ) >= SCALE,
    ensures
        ({
            let (pos, bx, by, out) = spec_pointer_step(state, data, settings, false);
            let px = out->0;
            &&& out is Some
            &&& px.0 != 0
        }),
{
    let (lx, ly) = state.last_processed_pos->0;
    let dx = data.processed_touchpad_x - lx;
    let sens = settings.mouse_sensitivity as int;
    assert(-2_000_000_000_000_000 <= dx * sens <= 2_000_000_000_000_000) by (nonlinear_arith)
        requires
            -2_000_000 <= dx <= 2_000_000,
            0 <= sens <= 1_000_000_000,
    ;
    lemma_div_tz_mono_abs(dx * sens, SCALE as int, 2_000_000_000_000_000);
    let q = div_tz(dx * sens, SCALE as int);
    let tx = q * POINTER_SCALE;
    assert(tx == spec_pixel_scale(dx, sens));
    assert(-1_600_000_000_000 <= tx <= 1_600_000_000_000);
    lemma_div_tz_mono_abs(tx, SCALE as int, 1_600_000_000_000);
    vstd::arithmetic::div_mod::lemma_div_by_multiple(1, SCALE as int);
    assert(1 * SCALE as int == SCALE);
    if tx >= SCALE {
        vstd::arithmetic::div_mod::lemma_div_is_ordered(SCALE as int, tx, SCALE as int);
        assert(div_tz(tx, SCALE as int) >= 1);
    } else {
        assert(-tx >= SCALE);
        vstd::arithmetic::div_mod::lemma_div_is_ordered(SCALE as int, -tx, SCALE as int);
        assert(div_tz(tx, SCALE as int) <= -1);
    }
}

/// Law: one push into a smoothing window of size at most `window`
/// leaves at most `window` entries — the bound a whole stroke keeps by
/// induction.
pub proof fn lemma_smoothing_window_bound(buf: Seq<i64>, d: i64, window: int)
    requires
        window >= 1,
    ensures
        buf.len() <= window ==> spec_window_push(buf, d, window).len() <= window,
        spec_window_push(buf, d, window).len() <= vstd::math::max(buf.len() as int + 1, window),
{
}

/// Normalizes one raw coordinate against one calibrated axis.
pub fn normalize_axis(raw: u16, min: u16, max: u16, center: u16) -> (r: i64)
    requires
        min <= max,
    ensures
        r == spec_axis_norm(raw, min, max, center),
        -SCALE <= r <= SCALE,
{
    let divisor: i64 = if max > min {
        (max - min) as i64
    } else {
        2
    };
    let diff: i64 = raw as i64 - center as i64;
    let unclamped = mul_div(2 * diff, SCALE, divisor);
    clamp_i64(unclamped, -SCALE, SCALE)
}

} // verus!
