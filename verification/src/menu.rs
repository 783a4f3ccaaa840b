//! Control modes and the radial mode-selection overlay's state.
//!
//! The overlay appears while the menu button is held; touchpad motion
//! then selects among the four modes by angular sector (90 degrees
//! each, the first centered straight up), with a circular dead zone in
//! the middle meaning "no selection".  Rendering is the host
//! application's concern; this state machine only tracks visibility and
//! the hovered selection.

use crate::fixed::SCALE;
use vstd::prelude::*;

verus! {

/// Squared radius of the central dead zone (0.3 of normalized range,
/// squared, in fixed point).
pub const MENU_DEAD_ZONE_SQUARED: i64 = 90_000_000_000;

/// The four control modes.
#[derive(Clone, Copy, Debug, PartialEq, Eq, Structural)]
pub enum ControlMode {
    /// Air-mouse: IMU cursor, touchpad scroll.
    Mouse,
    /// Laptop-trackpad: touchpad cursor, volume-button scroll.
    Touchpad,
    /// Presenter: buttons page through slides; no cursor.
    Presentation,
    /// Quick settings; no continuous mapping.
    Settings,
}

impl ControlMode {
    pub fn name(&self) -> (r: &'static str)
        ensures
            self is Mouse ==> r@ == "Air Mouse"@,
            self is Touchpad ==> r@ == "Touchpad"@,
            self is Presentation ==> r@ == "Presenter"@,
            self is Settings ==> r@ == "Settings"@,
    {
        match self {
            ControlMode::Mouse => "Air Mouse",
            ControlMode::Touchpad => "Touchpad",
            ControlMode::Presentation => "Presenter",
            ControlMode::Settings => "Settings",
        }
    }

    pub fn icon(&self) -> (r: &'static str)
        ensures
            self is Mouse ==> r@ == "✈️"@,
            self is Touchpad ==> r@ == "🖱️"@,
            self is Presentation ==> r@ == "📽️"@,
            self is Settings ==> r@ == "⚙️"@,
    {
        match self {
            ControlMode::Mouse => "✈️",
            ControlMode::Touchpad => "🖱️",
            ControlMode::Presentation => "📽️",
            ControlMode::Settings => "⚙️",
        }
    }

    pub fn description(&self) -> (r: &'static str)
        ensures
            self is Mouse ==> r@ == "Wave to move, Touch to scroll"@,
            self is Touchpad ==> r@ == "Laptop style control"@,
            self is Presentation ==> r@ == "PPT & Media control"@,
            self is Settings ==> r@ == "Calibration & Options"@,
    {
        match self {
            ControlMode::Mouse => "Wave to move, Touch to scroll",
            ControlMode::Touchpad => "Laptop style control",
            ControlMode::Presentation => "PPT & Media control",
            ControlMode::Settings => "Calibration & Options",
        }
    }
}

impl Default for ControlMode {
    /// The air-mouse mode.
    fn default() -> (r: ControlMode)
        ensures
            r is Mouse,
    {
        ControlMode::Mouse
    }
}

/// The mode each menu segment holds, counterclockwise from the top.
pub open spec fn spec_mode_of_index(i: int) -> ControlMode {
    if i == 0 {
        ControlMode::Mouse
    } else if i == 1 {
        ControlMode::Touchpad
    } else if i == 2 {
        ControlMode::Presentation
    } else {
        ControlMode::Settings
    }
}

/// The segment a normalized touchpad position points at: none inside
/// the central dead zone, otherwise the quarter-plane sector (the first
/// centered straight up, then right, down, left; positive Y is
/// downward).
pub open spec fn spec_menu_selection(x: int, y: int) -> Option<usize> {
    if x * x + y * y < MENU_DEAD_ZONE_SQUARED {
        None
    } else if y < 0 && y <= x && x < -y {
        Some(0usize)
    } else if x > 0 && -x <= y && y < x {
        Some(1usize)
    } else if y > 0 && x <= y && -y < x {
        Some(2usize)
    } else {
        Some(3usize)
    }
}

/// The radial menu's logical state.
#[derive(Clone, Copy, Debug, PartialEq, Eq, Structural)]
pub struct RadialMenu {
    pub is_visible: bool,
    pub selected_index: Option<usize>,
}

impl RadialMenu {
    /// A selection, when there is one, names one of the four segments.
    pub open spec fn wf(self) -> bool {
        match self.selected_index {
            Some(i) => i < 4,
            None => true,
        }
    }

    /// A hidden menu with nothing selected.
    pub fn new() -> (r: RadialMenu)
        ensures
            !r.is_visible,
            r.selected_index is None,
            r.wf(),
    {
        RadialMenu { is_visible: false, selected_index: None }
    }

    /// Shows the menu with nothing selected yet.
    pub fn show(&mut self)
        ensures
            final(self).is_visible,
            final(self).selected_index is None,
            final(self).wf(),
    {
        self.is_visible = true;
        self.selected_index = None;
    }

    /// Hides the menu and reports the mode of the hovered segment, if
    /// any.
    pub fn close(&mut self) -> (r: Option<ControlMode>)
        requires
            old(self).wf(),
        ensures
            !final(self).is_visible,
            final(self).selected_index == old(self).selected_index,
            final(self).wf(),
            r == match old(self).selected_index {
                Some(i) => Some(spec_mode_of_index(i as int)),
                None => None::<ControlMode>,
            },
    {
        self.is_visible = false;
        match self.selected_index {
            Some(i) => Some(mode_of_index(i)),
            None => None,
        }
    }

    /// Re-aims the selection from a normalized touchpad position.
    pub fn update_selection(&mut self, x: i64, y: i64)
        requires
            old(self).wf(),
            -SCALE <= x <= SCALE,
            -SCALE <= y <= SCALE,
        ensures
            final(self).is_visible == old(self).is_visible,
            final(self).selected_index == spec_menu_selection(x as int, y as int),
            final(self).wf(),
    {
        proof {
            assert(0 <= x as int * x as int <= 1_000_000_000_000 && 0 <= y as int * y as int
                <= 1_000_000_000_000) by (nonlinear_arith)
                requires
                    -1_000_000 <= x as int <= 1_000_000,
                    -1_000_000 <= y as int <= 1_000_000,
            ;
        }
        if x * x + y * y < MENU_DEAD_ZONE_SQUARED {
            self.selected_index = None;
        } else if y < 0 && y <= x && x < -y {
            self.selected_index = Some(0);
        } else if x > 0 && -x <= y && y < x {
            self.selected_index = Some(1);
        } else if y > 0 && x <= y && -y < x {
            self.selected_index = Some(2);
        } else {
            self.selected_index = Some(3);
        }
    }
}

/// The mode a menu segment holds.
pub fn mode_of_index(i: usize) -> (r: ControlMode)
    ensures
        r == spec_mode_of_index(i as int),
{
    if i == 0 {
        ControlMode::Mouse
    } else if i == 1 {
        ControlMode::Touchpad
    } else if i == 2 {
        ControlMode::Presentation
    } else {
        ControlMode::Settings
    }
}

} // verus!
