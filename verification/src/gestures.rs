//! Gesture recognizer: buffers a short trajectory of touched samples
//! and classifies the completed stroke into one of four compass
//! directions by angular sectoring.
//!
//! A stroke starts on touch-down, appends every touched sample to a
//! bounded five-sample buffer (oldest evicted), and is classified on
//! touch-release from the recorded start point to the *last buffered*
//! point.  Each direction owns an open 60-degree cone (half-angle 30
//! degrees, expressed as the tangent ratio [`SECTOR_TAN_NUM`] /
//! [`SECTOR_TAN_DEN`]); strokes on a cone boundary or in the gaps
//! between cones classify as none.  Positive Y is downward, matching
//! raw touchpad coordinates.

use crate::fixed::{div_tz, mul_div, lemma_div_tz_mono_abs, spec_abs, spec_window_push, SCALE};
use crate::packet::ControllerReading;
use crate::settings::Settings;
use std::collections::VecDeque;
use vstd::prelude::*;

verus! {

/// Capacity of the trajectory buffer.
pub const GESTURE_SAMPLE_COUNT: usize = 5;

/// Base recognition distance in normalized space (0.2).
pub const MIN_GESTURE_DISTANCE: i64 = 200_000;

/// Floor applied to the sensitivity before it scales the threshold
/// (0.1).
pub const SENSITIVITY_FLOOR: i64 = 100_000;

/// The sensitivity at which the recognition threshold equals the base
/// distance (2.0).
pub const BASE_SENSITIVITY: i64 = 2_000_000;

/// Numerator of the tangent of the 30-degree cone half-angle.
pub const SECTOR_TAN_NUM: i64 = 57_735;

/// Denominator of the tangent of the 30-degree cone half-angle.
pub const SECTOR_TAN_DEN: i64 = 100_000;

#[derive(Clone, Copy, Debug, PartialEq, Eq, Structural)]
pub enum GestureDirection {
    NoDirection,
    Up,
    Down,
    Left,
    Right,
}

/// Recognition distance for a given sensitivity: the base distance
/// shrinks as the sensitivity grows past the reference value.
pub open spec fn spec_gesture_threshold(sensitivity: int) -> int {
    let s = if sensitivity > SENSITIVITY_FLOOR {
        sensitivity
    } else {
        SENSITIVITY_FLOOR as int
    };
    div_tz(MIN_GESTURE_DISTANCE * BASE_SENSITIVITY, s)
}

/// Classification of a planar stroke delta: none when shorter than the
/// threshold, otherwise the direction whose open 60-degree cone
/// contains it, or none between cones.
pub open spec fn spec_classify(dx: int, dy: int, threshold: int) -> GestureDirection {
    if dx * dx + dy * dy < threshold * threshold {
        GestureDirection::NoDirection
    } else if dy < 0 && spec_abs(dx) * SECTOR_TAN_DEN < (-dy) * SECTOR_TAN_NUM {
        GestureDirection::Up
    } else if dy > 0 && spec_abs(dx) * SECTOR_TAN_DEN < dy * SECTOR_TAN_NUM {
        GestureDirection::Down
    } else if dx < 0 && spec_abs(dy) * SECTOR_TAN_DEN < (-dx) * SECTOR_TAN_NUM {
        GestureDirection::Left
    } else if dx > 0 && spec_abs(dy) * SECTOR_TAN_DEN < dx * SECTOR_TAN_NUM {
        GestureDirection::Right
    } else {
        GestureDirection::NoDirection
    }
}

/// Law (classification table): a stroke of at least the recognition
/// distance exactly along an axis classifies to that axis's compass
/// direction — rightward, leftward, downward and upward strokes give
/// Right, Left, Down and Up (positive Y is downward).
pub proof fn lemma_classify_cardinal(d: int, threshold: int)
    requires
        0 <= threshold <= d,
        1 <= d,
    ensures
        spec_classify(d, 0, threshold) == GestureDirection::Right,
        spec_classify(-d, 0, threshold) == GestureDirection::Left,
        spec_classify(0, d, threshold) == GestureDirection::Down,
        spec_classify(0, -d, threshold) == GestureDirection::Up,
{
    assert(threshold * threshold <= d * d && d * d >= 1 && (-d) * (-d) == d * d)
        by (nonlinear_arith)
        requires
            0 <= threshold <= d,
            1 <= d,
    ;
}

/// Law (classification table, dead cones): a stroke of at least the
/// recognition distance exactly along a diagonal lies between the four
/// cones and classifies to none.
pub proof fn lemma_classify_diagonal(d: int, threshold: int)
    requires
        0 <= threshold <= d,
        1 <= d,
    ensures
        spec_classify(d, d, threshold) == GestureDirection::NoDirection,
        spec_classify(d, -d, threshold) == GestureDirection::NoDirection,
        spec_classify(-d, d, threshold) == GestureDirection::NoDirection,
        spec_classify(-d, -d, threshold) == GestureDirection::NoDirection,
{
    assert(threshold * threshold <= d * d + d * d && d * d >= 1 && (-d) * (-d) == d * d)
        by (nonlinear_arith)
        requires
            0 <= threshold <= d,
            1 <= d,
    ;
}

/// Law (distance threshold): any stroke shorter than the recognition
/// threshold classifies to none, whatever its direction.
pub proof fn lemma_classify_below_threshold(dx: int, dy: int, threshold: int)
    requires
        dx * dx + dy * dy < threshold * threshold,
    ensures
        spec_classify(dx, dy, threshold) is NoDirection,
{
}

/// The stroke recognizer's trajectory state.
pub struct GestureRecognizer {
    pub points: VecDeque<(i64, i64)>,
    pub start_point: Option<(i64, i64)>,
    pub is_gesture_in_progress: bool,
}

/// Everything one sample does to the recognizer: the new in-progress
/// flag, start point and trajectory, and the recognized direction, if
/// the sample completed a long-enough stroke.
pub open spec fn spec_gesture_step(
    state: GestureRecognizer,
    data: ControllerReading,
    settings: Settings,
) -> (bool, Option<(i64, i64)>, Seq<(i64, i64)>, Option<GestureDirection>)
    recommends
        state.wf(),
{
    let p = (data.processed_touchpad_x, data.processed_touchpad_y);
    if !state.is_gesture_in_progress && data.touchpad_touched {
        (true, Some(p), seq![p], None)
    } else if state.is_gesture_in_progress && data.touchpad_touched {
        (
            true,
            state.start_point,
            spec_window_push(state.points@, p, GESTURE_SAMPLE_COUNT as int),
            None,
        )
    } else if state.is_gesture_in_progress {
        let dir = if state.points@.len() >= 2 && state.start_point is Some {
            let s = state.start_point->0;
            let e = state.points@.last();
            spec_classify(
                e.0 - s.0,
                e.1 - s.1,
                spec_gesture_threshold(settings.mouse_sensitivity as int),
            )
        } else {
            GestureDirection::NoDirection
        };
        (
            false,
            state.start_point,
            Seq::<(i64, i64)>::empty(),
            if dir is NoDirection {
                None
            } else {
                Some(dir)
            },
        )
    } else {
        (false, state.start_point, state.points@, None)
    }
}

impl GestureRecognizer {
    /// A bounded trajectory of in-range points; an open stroke always
    /// has a start point and at least one buffered sample.
    pub open spec fn wf(self) -> bool {
        &&& self.points@.len() <= GESTURE_SAMPLE_COUNT
        &&& forall|i: int|
            0 <= i < self.points@.len() ==> {
                let p = #[trigger] self.points@[i];
                -SCALE <= p.0 <= SCALE && -SCALE <= p.1 <= SCALE
            }
        &&& match self.start_point {
            Some(p) => -SCALE <= p.0 <= SCALE && -SCALE <= p.1 <= SCALE,
            None => true,
        }
        &&& self.is_gesture_in_progress ==> self.start_point is Some && self.points@.len() >= 1
    }

    /// A fresh recognizer with no stroke in progress.
    pub fn new() -> (r: GestureRecognizer)
        ensures
            r.points@.len() == 0,
            r.start_point is None,
            !r.is_gesture_in_progress,
            r.wf(),
    {
        GestureRecognizer { points: VecDeque::new(), start_point: None, is_gesture_in_progress: false }
    }

    /// The recognition distance under the current sensitivity.
    pub fn get_recognition_threshold(&self, settings: &Settings) -> (r: i64)
        requires
            settings.wf(),
        ensures
            r == spec_gesture_threshold(settings.mouse_sensitivity as int),
            0 <= r <= 4 * SCALE,
    {
        let s = if settings.mouse_sensitivity > SENSITIVITY_FLOOR {
            settings.mouse_sensitivity
        } else {
            SENSITIVITY_FLOOR
        };
        proof {
            lemma_div_tz_mono_abs(
                MIN_GESTURE_DISTANCE as int * BASE_SENSITIVITY as int,
                s as int,
                400_000_000_000,
            );
            vstd::arithmetic::div_mod::lemma_div_is_ordered_by_denominator(
                400_000_000_000,
                100_000,
                s as int,
            );
        }
        mul_div(MIN_GESTURE_DISTANCE, BASE_SENSITIVITY, s)
    }

    /// Consumes one normalized sample; reports a direction only on the
    /// touch-release that completes a recognizable stroke.
    pub fn process(&mut self, data: &ControllerReading, settings: &Settings) -> (r: Option<
        GestureDirection,
    >)
        requires
            old(self).wf(),
            data.wf(),
            settings.wf(),
        ensures
            final(self).wf(),
            ({
                let (in_progress, start, points, out) = spec_gesture_step(
                    *old(self),
                    *data,
                    *settings,
                );
                &&& final(self).is_gesture_in_progress == in_progress
                &&& final(self).start_point == start
                &&& final(self).points@ == points
                &&& r == out
            }),
            r is Some ==> r->0 != GestureDirection::NoDirection,
    {
        let p = (data.processed_touchpad_x, data.processed_touchpad_y);
        if !self.is_gesture_in_progress && data.touchpad_touched {
            self.start_gesture(p);
            None
        } else if self.is_gesture_in_progress {
            if data.touchpad_touched {
                self.update_gesture(p);
                None
            } else {
                self.end_gesture(settings)
            }
        } else {
            None
        }
    }

    /// Opens a stroke at the given point.
    fn start_gesture(&mut self, p: (i64, i64))
        requires
            old(self).wf(),
            -SCALE <= p.0 <= SCALE,
            -SCALE <= p.1 <= SCALE,
        ensures
            final(self).is_gesture_in_progress,
            final(self).start_point == Some(p),
            final(self).points@ =~= seq![p],
            final(self).wf(),
    {
        self.start_point = Some(p);
        self.points.clear();
        self.points.push_back(p);
        self.is_gesture_in_progress = true;
    }

    /// Appends one touched sample, evicting the oldest past capacity.
    fn update_gesture(&mut self, p: (i64, i64))
        requires
            old(self).wf(),
            old(self).is_gesture_in_progress,
            -SCALE <= p.0 <= SCALE,
            -SCALE <= p.1 <= SCALE,
        ensures
            final(self).is_gesture_in_progress,
            final(self).start_point == old(self).start_point,
            final(self).points@ == spec_window_push(
                old(self).points@,
                p,
                GESTURE_SAMPLE_COUNT as int,
            ),
            final(self).wf(),
    {
        self.points.push_back(p);
        let ghost grown = self.points@;
        if self.points.len() > GESTURE_SAMPLE_COUNT {
            let _ = self.points.pop_front();
            proof {
                assert(self.points@ =~= grown.skip(grown.len() - self.points@.len()));
                assert(self.points@ =~= spec_window_push(
                    old(self).points@,
                    p,
                    GESTURE_SAMPLE_COUNT as int,
                ));
            }
        }
    }

    /// Closes the stroke and classifies it from the start point to the
    /// last buffered point.
    fn end_gesture(&mut self, settings: &Settings) -> (r: Option<GestureDirection>)
        requires
            old(self).wf(),
            old(self).is_gesture_in_progress,
            settings.wf(),
        ensures
            !final(self).is_gesture_in_progress,
            final(self).start_point == old(self).start_point,
            final(self).points@ =~= Seq::<(i64, i64)>::empty(),
            final(self).wf(),
            ({
                let dir = if old(self).points@.len() >= 2 {
                    let s = old(self).start_point->0;
                    let e = old(self).points@.last();
                    spec_classify(
                        e.0 - s.0,
                        e.1 - s.1,
                        spec_gesture_threshold(settings.mouse_sensitivity as int),
                    )
                } else {
                    GestureDirection::NoDirection
                };
                r == if dir is NoDirection {
                    None
                } else {
                    Some(dir)
                }
            }),
    {
        let mut result = GestureDirection::NoDirection;
        if self.points.len() >= 2 {
            if let Some(start) = self.start_point {
                let end = self.points[self.points.len() - 1];
                result = self.calculate_direction(start, end, settings);
            }
        }
        self.is_gesture_in_progress = false;
        self.points.clear();
        match result {
            GestureDirection::NoDirection => None,
            _ => Some(result),
        }
    }

    /// Classifies a stroke from `start` to `end` under the current
    /// recognition threshold.
    fn calculate_direction(&self, start: (i64, i64), end: (i64, i64), settings: &Settings) -> (r:
        GestureDirection)
        requires
            settings.wf(),
            -SCALE <= start.0 <= SCALE,
            -SCALE <= start.1 <= SCALE,
            -SCALE <= end.0 <= SCALE,
            -SCALE <= end.1 <= SCALE,
        ensures
            r == spec_classify(
                end.0 - start.0,
                end.1 - start.1,
                spec_gesture_threshold(settings.mouse_sensitivity as int),
            ),
    {
        let dx = end.0 - start.0;
        let dy = end.1 - start.1;
        let threshold = self.get_recognition_threshold(settings);
        proof {
            assert(dx as int * dx as int + dy as int * dy as int <= 8_000_000_000_000 && dx as int
                * dx as int >= 0 && dy as int * dy as int >= 0) by (nonlinear_arith)
                requires
                    -2_000_000 <= dx as int <= 2_000_000,
                    -2_000_000 <= dy as int <= 2_000_000,
            ;
            assert(0 <= threshold as int * threshold as int <= 16_000_000_000_000)
                by (nonlinear_arith)
                requires
                    0 <= threshold as int <= 4_000_000,
            ;
        }
        if dx * dx + dy * dy < threshold * threshold {
            return GestureDirection::NoDirection;
        }
        let abs_dx = if dx >= 0 {
            dx
        } else {
            -dx
        };
        let abs_dy = if dy >= 0 {
            dy
        } else {
            -dy
        };
        if dy < 0 && abs_dx * SECTOR_TAN_DEN < (-dy) * SECTOR_TAN_NUM {
            GestureDirection::Up
        } else if dy > 0 && abs_dx * SECTOR_TAN_DEN < dy * SECTOR_TAN_NUM {
            GestureDirection::Down
        } else if dx < 0 && abs_dy * SECTOR_TAN_DEN < (-dx) * SECTOR_TAN_NUM {
            GestureDirection::Left
        } else if dx > 0 && abs_dy * SECTOR_TAN_DEN < dx * SECTOR_TAN_NUM {
            GestureDirection::Right
        } else {
            GestureDirection::NoDirection
        }
    }
}

} // verus!
