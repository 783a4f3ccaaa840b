//! Touchpad calibration bounds and the sampling session that produces
//! them.

use vstd::prelude::*;

verus! {

/// Highest raw coordinate the touchpad reports on either axis.
pub const TOUCHPAD_RAW_MAX: u16 = 315;

/// Calibrated touchpad bounds: minimum, maximum and center per axis.
///
/// The invariant only requires `max >= min` per axis; a center outside
/// `[min, max]` is tolerated and simply biases normalization.
#[derive(Clone, Copy, Debug, PartialEq, Eq, Structural)]
pub struct TouchpadCalibration {
    pub min_x: u16,
    pub max_x: u16,
    pub min_y: u16,
    pub max_y: u16,
    pub center_x: u16,
    pub center_y: u16,
}

impl TouchpadCalibration {
    pub open spec fn wf(self) -> bool {
        &&& self.min_x <= self.max_x
        &&& self.min_y <= self.max_y
    }

    /// The factory calibration: full raw range, centered.
    pub open spec fn spec_default() -> TouchpadCalibration {
        TouchpadCalibration {
            min_x: 0,
            max_x: TOUCHPAD_RAW_MAX,
            min_y: 0,
            max_y: TOUCHPAD_RAW_MAX,
            center_x: 157,
            center_y: 157,
        }
    }
}

impl Default for TouchpadCalibration {
    /// Full raw range with the center at the midpoint.
    fn default() -> (r: TouchpadCalibration)
        ensures
            r == TouchpadCalibration::spec_default(),
            r.wf(),
    {
        TouchpadCalibration {
            min_x: 0,
            max_x: TOUCHPAD_RAW_MAX,
            min_y: 0,
            max_y: TOUCHPAD_RAW_MAX,
            center_x: 157,
            center_y: 157,
        }
    }
}

/// A manual calibration session: tracks the extrema of the raw samples
/// seen while the user sweeps a finger over the whole touchpad.
#[derive(Clone, Copy, Debug, PartialEq, Eq, Structural)]
pub struct CalibrationSession {
    pub min_x: u16,
    pub max_x: u16,
    pub min_y: u16,
    pub max_y: u16,
    pub samples: usize,
}

impl CalibrationSession {
    /// Once a sample has been observed, the extrema bracket properly.
    pub open spec fn wf(self) -> bool {
        self.samples >= 1 ==> (self.min_x <= self.max_x && self.min_y <= self.max_y)
    }

    /// An empty session whose extrema will be overwritten by the first
    /// sample.
    pub fn start() -> (r: CalibrationSession)
        ensures
            r.samples == 0,
            r.min_x == u16::MAX,
            r.max_x == 0,
            r.min_y == u16::MAX,
            r.max_y == 0,
            r.wf(),
    {
        CalibrationSession { min_x: u16::MAX, max_x: 0, min_y: u16::MAX, max_y: 0, samples: 0 }
    }

    /// Folds one touched raw sample into the extrema.
    pub fn observe(&mut self, x: u16, y: u16)
        requires
            old(self).wf(),
            old(self).samples < usize::MAX,
        ensures
            final(self).samples == old(self).samples + 1,
            final(self).min_x == if x < old(self).min_x { x } else { old(self).min_x },
            final(self).max_x == if x > old(self).max_x { x } else { old(self).max_x },
            final(self).min_y == if y < old(self).min_y { y } else { old(self).min_y },
            final(self).max_y == if y > old(self).max_y { y } else { old(self).max_y },
            final(self).wf(),
            final(self).min_x <= x <= final(self).max_x,
            final(self).min_y <= y <= final(self).max_y,
    {
        if x < self.min_x {
            self.min_x = x;
        }
        if x > self.max_x {
            self.max_x = x;
        }
        if y < self.min_y {
            self.min_y = y;
        }
        if y > self.max_y {
            self.max_y = y;
        }
        self.samples = self.samples + 1;
    }

    /// Closes the session: the observed extrema become the bounds and
    /// the center is their midpoint.
    pub fn finish(&self) -> (r: TouchpadCalibration)
        requires
            self.wf(),
            self.samples >= 1,
        ensures
            r.min_x == self.min_x,
            r.max_x == self.max_x,
            r.min_y == self.min_y,
            r.max_y == self.max_y,
            r.center_x == (self.min_x + self.max_x) as int / 2,
            r.center_y == (self.min_y + self.max_y) as int / 2,
            r.wf(),
            r.min_x <= r.center_x <= r.max_x,
            r.min_y <= r.center_y <= r.max_y,
    {
        let center_x = ((self.min_x as u32 + self.max_x as u32) / 2) as u16;
        let center_y = ((self.min_y as u32 + self.max_y as u32) / 2) as u16;
        TouchpadCalibration {
            min_x: self.min_x,
            max_x: self.max_x,
            min_y: self.min_y,
            max_y: self.max_y,
            center_x,
            center_y,
        }
    }
}

} // verus!
