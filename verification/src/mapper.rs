//! Input event mapper: fans one decoded, normalized reading out into
//! discrete abstract input actions, respecting the selected control
//! mode, per-button debouncing, and the radial mode-selection overlay.
//!
//! Per-mode routing:
//! - Mouse (air-mouse): IMU deltas move the cursor; touchpad motion
//!   past a small threshold emits vertical/horizontal scroll ticks;
//!   trigger and touchpad-click are the mouse buttons; volume buttons
//!   are volume keys.
//! - Touchpad: the pointer engine (relative variant) moves the cursor;
//!   volume buttons scroll; trigger and touchpad-click are the mouse
//!   buttons.
//! - Presentation: trigger pages forward, touchpad-click and a short
//!   back press page backward, volume buttons are volume keys; no
//!   cursor or scroll.
//! - Settings: no continuous mapping and no button actions.
//!
//! Trigger and touchpad-click fire once per debounced edge; the volume
//! buttons re-fire at the debounce interval while held.  Holding the
//! back button past [`MENU_HOLD_MS`] opens the radial overlay; while it
//! is open, touchpad position aims the selection, every other touchpad
//! and gesture mapping is suppressed, and releasing the button commits
//! the hovered mode.  A short back press is the mode's normal back
//! action instead.

use crate::fixed::SCALE;
use crate::gestures::GestureDirection;
use crate::menu::{spec_menu_selection, spec_mode_of_index, ControlMode, RadialMenu};
use crate::packet::ControllerReading;
use crate::settings::Settings;
use vstd::prelude::*;

verus! {

/// Minimum interval between accepted transitions of one button, in
/// milliseconds.
pub const DEBOUNCE_MS: u64 = 50;

/// How long the back button must be held before the radial overlay
/// opens, in milliseconds.
pub const MENU_HOLD_MS: u64 = 300;

/// Normalized per-sample motion past which touchpad scroll ticks fire
/// in air-mouse mode (0.05).
pub const SCROLL_THRESHOLD: i64 = 50_000;

/// A named key the injection sink can press and release.
#[derive(Clone, Copy, Debug, PartialEq, Eq, Structural)]
pub enum Key {
    ArrowRight,
    ArrowLeft,
    VolumeUp,
    VolumeDown,
    AltModifier,
}

/// One abstract command for the input-injection sink.
#[derive(Clone, Copy, Debug, PartialEq, Eq, Structural)]
pub enum InputAction {
    /// Relative cursor motion in pixels.
    MouseMove(i32, i32),
    MouseLeftDown,
    MouseLeftUp,
    MouseRightDown,
    MouseRightUp,
    MouseRightClick,
    /// Vertical scroll ticks (positive is up).
    Wheel(i32),
    /// Horizontal scroll ticks (positive is right).
    HorizontalWheel(i32),
    /// A key pressed and released.
    KeyTap(Key),
}

/// An optional action as a (sub-)sequence.
pub open spec fn opt_seq(a: Option<InputAction>) -> Seq<InputAction> {
    match a {
        Some(x) => seq![x],
        None => Seq::<InputAction>::empty(),
    }
}

/// Whether a debounced slot may fire again at `now`.
pub open spec fn spec_debounce_ready(last: Option<u64>, now: u64) -> bool {
    match last {
        Some(t) => now - t > DEBOUNCE_MS,
        None => true,
    }
}

/// What a trigger transition does in each mode.
pub open spec fn spec_trigger_action(mode: ControlMode, pressed: bool) -> Option<InputAction> {
    if pressed {
        match mode {
            ControlMode::Mouse | ControlMode::Touchpad => Some(InputAction::MouseLeftDown),
            ControlMode::Presentation => Some(InputAction::KeyTap(Key::ArrowRight)),
            ControlMode::Settings => None,
        }
    } else {
        match mode {
            ControlMode::Mouse | ControlMode::Touchpad => Some(InputAction::MouseLeftUp),
            _ => None,
        }
    }
}

/// What a touchpad-click transition does in each mode.
pub open spec fn spec_touchpad_button_action(mode: ControlMode, pressed: bool) -> Option<
    InputAction,
> {
    if pressed {
        match mode {
            ControlMode::Mouse | ControlMode::Touchpad => Some(InputAction::MouseRightDown),
            ControlMode::Presentation => Some(InputAction::KeyTap(Key::ArrowLeft)),
            ControlMode::Settings => None,
        }
    } else {
        match mode {
            ControlMode::Mouse | ControlMode::Touchpad => Some(InputAction::MouseRightUp),
            _ => None,
        }
    }
}

/// What a short back press does in each mode.
pub open spec fn spec_back_tap_action(mode: ControlMode) -> Option<InputAction> {
    match mode {
        ControlMode::Mouse | ControlMode::Touchpad => Some(InputAction::MouseRightClick),
        ControlMode::Presentation => Some(InputAction::KeyTap(Key::ArrowLeft)),
        ControlMode::Settings => None,
    }
}

/// What a held volume-up repeat does in each mode.
pub open spec fn spec_volume_up_action(mode: ControlMode) -> Option<InputAction> {
    match mode {
        ControlMode::Mouse | ControlMode::Presentation => Some(InputAction::KeyTap(Key::VolumeUp)),
        ControlMode::Touchpad => Some(InputAction::Wheel(1i32)),
        ControlMode::Settings => None,
    }
}

/// What a held volume-down repeat does in each mode.
pub open spec fn spec_volume_down_action(mode: ControlMode) -> Option<InputAction> {
    match mode {
        ControlMode::Mouse | ControlMode::Presentation => Some(
            InputAction::KeyTap(Key::VolumeDown),
        ),
        ControlMode::Touchpad => Some(InputAction::Wheel(-1i32)),
        ControlMode::Settings => None,
    }
}

/// What a recognized gesture does (mode-independent): vertical strokes
/// scroll, horizontal strokes tap the modifier key.
pub open spec fn spec_gesture_action(dir: GestureDirection) -> Option<InputAction> {
    match dir {
        GestureDirection::Up => Some(InputAction::Wheel(1i32)),
        GestureDirection::Down => Some(InputAction::Wheel(-1i32)),
        GestureDirection::Left | GestureDirection::Right => Some(
            InputAction::KeyTap(Key::AltModifier),
        ),
        GestureDirection::NoDirection => None,
    }
}

/// A cursor-motion action from an optional engine delta.
pub open spec fn spec_move_action(delta: Option<(i32, i32)>) -> Option<InputAction> {
    match delta {
        Some((dx, dy)) => Some(InputAction::MouseMove(dx, dy)),
        None => None::<InputAction>,
    }
}

/// Button, overlay and scroll bookkeeping between samples.
#[derive(Clone, Copy, Debug)]
pub struct InputMapper {
    pub current_mode: ControlMode,
    pub last_trigger_state: bool,
    pub last_touchpad_button_state: bool,
    pub trigger_debounce: Option<u64>,
    pub touchpad_btn_debounce: Option<u64>,
    pub back_btn_debounce: Option<u64>,
    pub volume_up_debounce: Option<u64>,
    pub volume_down_debounce: Option<u64>,
    pub back_hold_start: Option<u64>,
    pub menu: RadialMenu,
    pub scroll_last_pos: Option<(i64, i64)>,
}

/// The air-mouse scroll phase: the vertical and horizontal tick (if
/// any) and the new remembered scroll position.
pub open spec fn spec_scroll_phase(m: InputMapper, nd: ControllerReading, settings: Settings) -> (
    Option<InputAction>,
    Option<InputAction>,
    Option<(i64, i64)>,
)
    recommends
        m.wf(),
        nd.wf(),
{
    let np = (nd.processed_touchpad_x, nd.processed_touchpad_y);
    if !m.menu.is_visible && m.current_mode is Mouse {
        if settings.enable_touchpad && nd.touchpad_touched {
            match m.scroll_last_pos {
                Some(l) => {
                    let dx = np.0 - l.0;
                    let dy = np.1 - l.1;
                    let aw = if dy > SCROLL_THRESHOLD {
                        Some(InputAction::Wheel(-1i32))
                    } else if dy < -SCROLL_THRESHOLD {
                        Some(InputAction::Wheel(1i32))
                    } else {
                        None::<InputAction>
                    };
                    let ah = if dx > SCROLL_THRESHOLD {
                        Some(InputAction::HorizontalWheel(1i32))
                    } else if dx < -SCROLL_THRESHOLD {
                        Some(InputAction::HorizontalWheel(-1i32))
                    } else {
                        None::<InputAction>
                    };
                    (aw, ah, Some(np))
                },
                None => (None::<InputAction>, None::<InputAction>, Some(np)),
            }
        } else if !nd.touchpad_touched {
            (None::<InputAction>, None::<InputAction>, None::<(i64, i64)>)
        } else {
            (None::<InputAction>, None::<InputAction>, m.scroll_last_pos)
        }
    } else {
        (None::<InputAction>, None::<InputAction>, m.scroll_last_pos)
    }
}

/// The back-button phase: its action (if a tap fired), the new back
/// debounce stamp, hold-start, overlay state and mode, the committed
/// mode (if the overlay closed on one) and whether that selection was
/// the settings surface.
pub open spec fn spec_back_phase(m: InputMapper, nd: ControllerReading, now: u64) -> (
    Option<InputAction>,
    Option<u64>,
    Option<u64>,
    RadialMenu,
    ControlMode,
    Option<ControlMode>,
    bool,
)
    recommends
        m.wf(),
        nd.wf(),
{
    let np = (nd.processed_touchpad_x, nd.processed_touchpad_y);
    if nd.back_button {
        match m.back_hold_start {
            None => (
                None::<InputAction>,
                m.back_btn_debounce,
                Some(now),
                m.menu,
                m.current_mode,
                None::<ControlMode>,
                false,
            ),
            Some(start) => {
                let menu_shown = if m.menu.is_visible {
                    m.menu
                } else if now - start >= MENU_HOLD_MS {
                    (RadialMenu { is_visible: true, selected_index: None })
                } else {
                    m.menu
                };
                let menu_aimed = if menu_shown.is_visible && nd.touchpad_touched {
                    (RadialMenu {
                        is_visible: true,
                        selected_index: spec_menu_selection(np.0 as int, np.1 as int),
                    })
                } else {
                    menu_shown
                };
                (
                    None::<InputAction>,
                    m.back_btn_debounce,
                    m.back_hold_start,
                    menu_aimed,
                    m.current_mode,
                    None::<ControlMode>,
                    false,
                )
            },
        }
    } else {
        match m.back_hold_start {
            None => (
                None::<InputAction>,
                m.back_btn_debounce,
                None::<u64>,
                m.menu,
                m.current_mode,
                None::<ControlMode>,
                false,
            ),
            Some(start) => {
                if m.menu.is_visible {
                    let committed = match m.menu.selected_index {
                        Some(i) => Some(spec_mode_of_index(i as int)),
                        None => None::<ControlMode>,
                    };
                    let next_mode = match committed {
                        Some(md) => if md is Settings {
                            m.current_mode
                        } else {
                            md
                        },
                        None => m.current_mode,
                    };
                    (
                        None::<InputAction>,
                        m.back_btn_debounce,
                        None::<u64>,
                        (RadialMenu { is_visible: false, selected_index: m.menu.selected_index }),
                        next_mode,
                        committed,
                        committed == Some(ControlMode::Settings),
                    )
                } else if now - start < MENU_HOLD_MS && spec_debounce_ready(
                    m.back_btn_debounce,
                    now,
                ) {
                    (
                        spec_back_tap_action(m.current_mode),
                        Some(now),
                        None::<u64>,
                        m.menu,
                        m.current_mode,
                        None::<ControlMode>,
                        false,
                    )
                } else {
                    (
                        None::<InputAction>,
                        m.back_btn_debounce,
                        None::<u64>,
                        m.menu,
                        m.current_mode,
                        None::<ControlMode>,
                        false,
                    )
                }
            },
        }
    }
}

/// The button phase: debounced trigger and touchpad-click edges, the
/// back button's overlay-or-tap handling, and the repeating volume
/// buttons.  Yields the new mapper state, the button actions in order,
/// the committed mode and the settings request.  When buttons are
/// disabled it does nothing.
pub open spec fn spec_buttons_phase(m: InputMapper, nd: ControllerReading, now: u64) -> (
    InputMapper,
    Seq<InputAction>,
    Option<ControlMode>,
    bool,
)
    recommends
        m.wf(),
        nd.wf(),
{
    let (m_a, acts_a) = spec_edges_phase(m, nd, now);
    let (m_b, acts_b, committed, open_settings) = spec_back_apply(m_a, nd, now);
    let (m_c, acts_c) = spec_volume_phase(m_b, nd, now);
    (m_c, acts_a + acts_b + acts_c, committed, open_settings)
}

/// The debounced trigger and touchpad-click edges.
pub open spec fn spec_edges_phase(m: InputMapper, nd: ControllerReading, now: u64) -> (
    InputMapper,
    Seq<InputAction>,
) {
    let trig_fire = nd.trigger_button != m.last_trigger_state && spec_debounce_ready(
        m.trigger_debounce,
        now,
    );
    let a_trig = if trig_fire {
        spec_trigger_action(m.current_mode, nd.trigger_button)
    } else {
        None::<InputAction>
    };
    let tpb_fire = nd.touchpad_button != m.last_touchpad_button_state && spec_debounce_ready(
        m.touchpad_btn_debounce,
        now,
    );
    let a_tpb = if tpb_fire {
        spec_touchpad_button_action(m.current_mode, nd.touchpad_button)
    } else {
        None::<InputAction>
    };
    let m2 = InputMapper {
        last_trigger_state: if trig_fire {
            nd.trigger_button
        } else {
            m.last_trigger_state
        },
        trigger_debounce: if trig_fire {
            Some(now)
        } else {
            m.trigger_debounce
        },
        last_touchpad_button_state: if tpb_fire {
            nd.touchpad_button
        } else {
            m.last_touchpad_button_state
        },
        touchpad_btn_debounce: if tpb_fire {
            Some(now)
        } else {
            m.touchpad_btn_debounce
        },
        ..m
    };
    (m2, opt_seq(a_trig) + opt_seq(a_tpb))
}

/// [`spec_back_phase`] folded back into a mapper value.
pub open spec fn spec_back_apply(m: InputMapper, nd: ControllerReading, now: u64) -> (
    InputMapper,
    Seq<InputAction>,
    Option<ControlMode>,
    bool,
) {
    let (a, back_db, hold, menu2, mode2, committed, open_settings) = spec_back_phase(m, nd, now);
    (
        InputMapper {
            back_btn_debounce: back_db,
            back_hold_start: hold,
            menu: menu2,
            current_mode: mode2,
            ..m
        },
        opt_seq(a),
        committed,
        open_settings,
    )
}

/// The repeating volume buttons, under the current mode.
pub open spec fn spec_volume_phase(m: InputMapper, nd: ControllerReading, now: u64) -> (
    InputMapper,
    Seq<InputAction>,
) {
    let vup_fire = nd.volume_up_button && spec_debounce_ready(m.volume_up_debounce, now);
    let a_vup = if vup_fire {
        spec_volume_up_action(m.current_mode)
    } else {
        None::<InputAction>
    };
    let vdn_fire = nd.volume_down_button && spec_debounce_ready(m.volume_down_debounce, now);
    let a_vdn = if vdn_fire {
        spec_volume_down_action(m.current_mode)
    } else {
        None::<InputAction>
    };
    let m2 = InputMapper {
        volume_up_debounce: if vup_fire {
            Some(now)
        } else {
            m.volume_up_debounce
        },
        volume_down_debounce: if vdn_fire {
            Some(now)
        } else {
            m.volume_down_debounce
        },
        ..m
    };
    (m2, opt_seq(a_vup) + opt_seq(a_vdn))
}

/// Everything one normalized sample does to the mapper, given the
/// engines' outputs: the new mapper state, the emitted actions in
/// order, the mode committed by the overlay (if any), and whether the
/// overlay asked for the settings surface.
pub open spec fn spec_mapper_step(
    m: InputMapper,
    nd: ControllerReading,
    imu_delta: Option<(i32, i32)>,
    pointer_delta: Option<(i32, i32)>,
    gesture: Option<GestureDirection>,
    settings: Settings,
    now: u64,
) -> (InputMapper, Seq<InputAction>, Option<ControlMode>, bool)
    recommends
        m.wf(),
        nd.wf(),
{
    let a_imu = spec_move_action(imu_delta);
    let (a_wheel, a_hwheel, scroll_last) = spec_scroll_phase(m, nd, settings);
    let a_ptr = spec_move_action(pointer_delta);
    let a_gest = match gesture {
        Some(d) => spec_gesture_action(d),
        None => None::<InputAction>,
    };
    let prefix = opt_seq(a_imu) + opt_seq(a_wheel) + opt_seq(a_hwheel) + opt_seq(a_ptr) + opt_seq(
        a_gest,
    );
    let m1 = InputMapper { scroll_last_pos: scroll_last, ..m };
    if settings.enable_buttons {
        let (m2, button_actions, committed, open_settings) = spec_buttons_phase(m1, nd, now);
        (m2, prefix + button_actions, committed, open_settings)
    } else {
        (m1, prefix, None::<ControlMode>, false)
    }
}

/// Whether a debounced slot may fire again at `now`.
fn debounce_ready(last: Option<u64>, now: u64) -> (r: bool)
    ensures
        r == spec_debounce_ready(last, now),
{
    match last {
        Some(t) => now > t && now - t > DEBOUNCE_MS,
        None => true,
    }
}

/// Appends an optional action.
fn push_opt(actions: &mut Vec<InputAction>, a: Option<InputAction>)
    ensures
        final(actions)@ == old(actions)@ + opt_seq(a),
{
    match a {
        Some(x) => {
            actions.push(x);
            proof {
                assert(actions@ =~= old(actions)@ + opt_seq(a));
            }
        },
        None => {
            proof {
                assert(actions@ =~= old(actions)@ + opt_seq(a));
            }
        },
    }
}

/// The action for a debounced trigger edge.
fn trigger_action(mode: ControlMode, pressed: bool) -> (r: Option<InputAction>)
    ensures
        r == spec_trigger_action(mode, pressed),
{
    if pressed {
        match mode {
            ControlMode::Mouse | ControlMode::Touchpad => Some(InputAction::MouseLeftDown),
            ControlMode::Presentation => Some(InputAction::KeyTap(Key::ArrowRight)),
            ControlMode::Settings => None,
        }
    } else {
        match mode {
            ControlMode::Mouse | ControlMode::Touchpad => Some(InputAction::MouseLeftUp),
            _ => None,
        }
    }
}

/// The action for a debounced touchpad-click edge.
fn touchpad_button_action(mode: ControlMode, pressed: bool) -> (r: Option<InputAction>)
    ensures
        r == spec_touchpad_button_action(mode, pressed),
{
    if pressed {
        match mode {
            ControlMode::Mouse | ControlMode::Touchpad => Some(InputAction::MouseRightDown),
            ControlMode::Presentation => Some(InputAction::KeyTap(Key::ArrowLeft)),
            ControlMode::Settings => None,
        }
    } else {
        match mode {
            ControlMode::Mouse | ControlMode::Touchpad => Some(InputAction::MouseRightUp),
            _ => None,
        }
    }
}

/// The action for a short back press.
fn back_tap_action(mode: ControlMode) -> (r: Option<InputAction>)
    ensures
        r == spec_back_tap_action(mode),
{
    match mode {
        ControlMode::Mouse | ControlMode::Touchpad => Some(InputAction::MouseRightClick),
        ControlMode::Presentation => Some(InputAction::KeyTap(Key::ArrowLeft)),
        ControlMode::Settings => None,
    }
}

/// The action for a held volume-up repeat.
fn volume_up_action(mode: ControlMode) -> (r: Option<InputAction>)
    ensures
        r == spec_volume_up_action(mode),
{
    match mode {
        ControlMode::Mouse | ControlMode::Presentation => Some(InputAction::KeyTap(Key::VolumeUp)),
        ControlMode::Touchpad => Some(InputAction::Wheel(1)),
        ControlMode::Settings => None,
    }
}

/// The action for a held volume-down repeat.
fn volume_down_action(mode: ControlMode) -> (r: Option<InputAction>)
    ensures
        r == spec_volume_down_action(mode),
{
    match mode {
        ControlMode::Mouse | ControlMode::Presentation => Some(
            InputAction::KeyTap(Key::VolumeDown),
        ),
        ControlMode::Touchpad => Some(InputAction::Wheel(-1)),
        ControlMode::Settings => None,
    }
}

/// The action for a recognized gesture.
fn gesture_action(dir: GestureDirection) -> (r: Option<InputAction>)
    ensures
        r == spec_gesture_action(dir),
{
    match dir {
        GestureDirection::Up => Some(InputAction::Wheel(1)),
        GestureDirection::Down => Some(InputAction::Wheel(-1)),
        GestureDirection::Left | GestureDirection::Right => Some(
            InputAction::KeyTap(Key::AltModifier),
        ),
        GestureDirection::NoDirection => None,
    }
}

impl InputMapper {
    pub open spec fn wf(self) -> bool {
        &&& self.menu.wf()
        &&& match self.scroll_last_pos {
            Some((x, y)) => -SCALE <= x <= SCALE && -SCALE <= y <= SCALE,
            None => true,
        }
    }

    /// A fresh mapper in the default mode with every button released.
    pub fn new() -> (r: InputMapper)
        ensures
            r.current_mode is Mouse,
            !r.last_trigger_state,
            !r.last_touchpad_button_state,
            r.trigger_debounce is None,
            r.touchpad_btn_debounce is None,
            r.back_btn_debounce is None,
            r.volume_up_debounce is None,
            r.volume_down_debounce is None,
            r.back_hold_start is None,
            !r.menu.is_visible,
            r.menu.selected_index is None,
            r.scroll_last_pos is None,
            r.wf(),
    {
        InputMapper {
            current_mode: ControlMode::Mouse,
            last_trigger_state: false,
            last_touchpad_button_state: false,
            trigger_debounce: None,
            touchpad_btn_debounce: None,
            back_btn_debounce: None,
            volume_up_debounce: None,
            volume_down_debounce: None,
            back_hold_start: None,
            menu: RadialMenu::new(),
            scroll_last_pos: None,
        }
    }

    /// The air-mouse scroll phase: emits up to one vertical and one
    /// horizontal tick and advances the remembered scroll position.
    fn scroll_phase(&mut self, nd: &ControllerReading, settings: &Settings, actions: &mut Vec<
        InputAction,
    >)
        requires
            old(self).wf(),
            nd.wf(),
        ensures
            ({
                let (aw, ah, sl) = spec_scroll_phase(*old(self), *nd, *settings);
                &&& final(actions)@ == old(actions)@ + opt_seq(aw) + opt_seq(ah)
                &&& final(self).scroll_last_pos == sl
            }),
            final(self).wf(),
            final(self).current_mode == old(self).current_mode,
            final(self).last_trigger_state == old(self).last_trigger_state,
            final(self).last_touchpad_button_state == old(self).last_touchpad_button_state,
            final(self).trigger_debounce == old(self).trigger_debounce,
            final(self).touchpad_btn_debounce == old(self).touchpad_btn_debounce,
            final(self).back_btn_debounce == old(self).back_btn_debounce,
            final(self).volume_up_debounce == old(self).volume_up_debounce,
            final(self).volume_down_debounce == old(self).volume_down_debounce,
            final(self).back_hold_start == old(self).back_hold_start,
            final(self).menu == old(self).menu,
    {
        let ghost pre = actions@;
        let np = (nd.processed_touchpad_x, nd.processed_touchpad_y);
        let mut aw: Option<InputAction> = None;
        let mut ah: Option<InputAction> = None;
        if !self.menu.is_visible && matches!(self.current_mode, ControlMode::Mouse) {
            if settings.enable_touchpad && nd.touchpad_touched {
                if let Some(l) = self.scroll_last_pos {
                    let dx = np.0 - l.0;
                    let dy = np.1 - l.1;
                    if dy > SCROLL_THRESHOLD {
                        aw = Some(InputAction::Wheel(-1));
                    } else if dy < -SCROLL_THRESHOLD {
                        aw = Some(InputAction::Wheel(1));
                    }
                    if dx > SCROLL_THRESHOLD {
                        ah = Some(InputAction::HorizontalWheel(1));
                    } else if dx < -SCROLL_THRESHOLD {
                        ah = Some(InputAction::HorizontalWheel(-1));
                    }
                }
                self.scroll_last_pos = Some(np);
            } else if !nd.touchpad_touched {
                self.scroll_last_pos = None;
            }
        }
        push_opt(actions, aw);
        push_opt(actions, ah);
    }

    /// The back-button phase: opens, aims and commits the overlay, or
    /// emits the short-press action.  Returns the committed mode, if
    /// any, and whether it was the settings surface.
    fn back_phase(&mut self, nd: &ControllerReading, now: u64, actions: &mut Vec<InputAction>) -> (r:
        (Option<ControlMode>, bool))
        requires
            old(self).wf(),
            nd.wf(),
        ensures
            ({
                let (a, back_db, hold, menu2, mode2, committed, open_settings) = spec_back_phase(
                    *old(self),
                    *nd,
                    now,
                );
                &&& final(actions)@ == old(actions)@ + opt_seq(a)
                &&& final(self).back_btn_debounce == back_db
                &&& final(self).back_hold_start == hold
                &&& final(self).menu == menu2
                &&& final(self).current_mode == mode2
                &&& r.0 == committed
                &&& r.1 == open_settings
            }),
            final(self).wf(),
            final(self).last_trigger_state == old(self).last_trigger_state,
            final(self).last_touchpad_button_state == old(self).last_touchpad_button_state,
            final(self).trigger_debounce == old(self).trigger_debounce,
            final(self).touchpad_btn_debounce == old(self).touchpad_btn_debounce,
            final(self).volume_up_debounce == old(self).volume_up_debounce,
            final(self).volume_down_debounce == old(self).volume_down_debounce,
            final(self).scroll_last_pos == old(self).scroll_last_pos,
    {
        let np = (nd.processed_touchpad_x, nd.processed_touchpad_y);
        let mut a: Option<InputAction> = None;
        let mut committed: Option<ControlMode> = None;
        let mut open_settings = false;
        if nd.back_button {
            match self.back_hold_start {
                None => {
                    self.back_hold_start = Some(now);
                },
                Some(start) => {
                    if !self.menu.is_visible && now >= start && now - start >= MENU_HOLD_MS {
                        self.menu.show();
                    }
                    if self.menu.is_visible && nd.touchpad_touched {
                        self.menu.update_selection(np.0, np.1);
                    }
                },
            }
        } else if let Some(start) = self.back_hold_start {
            if self.menu.is_visible {
                if let Some(mode) = self.menu.close() {
                    if matches!(mode, ControlMode::Settings) {
                        open_settings = true;
                    } else {
                        self.current_mode = mode;
                    }
                    committed = Some(mode);
                }
            } else if (now < start || now - start < MENU_HOLD_MS) && debounce_ready(
                self.back_btn_debounce,
                now,
            ) {
                self.back_btn_debounce = Some(now);
                a = back_tap_action(self.current_mode);
            }
            self.back_hold_start = None;
        }
        push_opt(actions, a);
        (committed, open_settings)
    }

    /// The debounced trigger and touchpad-click edges.
    fn edges_phase(&mut self, nd: &ControllerReading, now: u64, actions: &mut Vec<InputAction>)
        requires
            old(self).wf(),
            nd.wf(),
        ensures
            final(self).wf(),
            ({
                let (m2, edge_actions) = spec_edges_phase(*old(self), *nd, now);
                &&& *final(self) == m2
                &&& final(actions)@ == old(actions)@ + edge_actions
            }),
    {
        let mut a_trig: Option<InputAction> = None;
        if nd.trigger_button != self.last_trigger_state && debounce_ready(
            self.trigger_debounce,
            now,
        ) {
            self.last_trigger_state = nd.trigger_button;
            self.trigger_debounce = Some(now);
            a_trig = trigger_action(self.current_mode, nd.trigger_button);
        }
        push_opt(actions, a_trig);

        let mut a_tpb: Option<InputAction> = None;
        if nd.touchpad_button != self.last_touchpad_button_state && debounce_ready(
            self.touchpad_btn_debounce,
            now,
        ) {
            self.last_touchpad_button_state = nd.touchpad_button;
            self.touchpad_btn_debounce = Some(now);
            a_tpb = touchpad_button_action(self.current_mode, nd.touchpad_button);
        }
        push_opt(actions, a_tpb);
        proof {
            let (m2, edge_actions) = spec_edges_phase(*old(self), *nd, now);
            assert(actions@ =~= old(actions)@ + edge_actions);
        }
    }

    /// The repeating volume buttons.
    fn volume_phase(&mut self, nd: &ControllerReading, now: u64, actions: &mut Vec<InputAction>)
        requires
            old(self).wf(),
            nd.wf(),
        ensures
            final(self).wf(),
            ({
                let (m2, volume_actions) = spec_volume_phase(*old(self), *nd, now);
                &&& *final(self) == m2
                &&& final(actions)@ == old(actions)@ + volume_actions
            }),
    {
        let mut a_vup: Option<InputAction> = None;
        if nd.volume_up_button && debounce_ready(self.volume_up_debounce, now) {
            self.volume_up_debounce = Some(now);
            a_vup = volume_up_action(self.current_mode);
        }
        push_opt(actions, a_vup);
        let mut a_vdn: Option<InputAction> = None;
        if nd.volume_down_button && debounce_ready(self.volume_down_debounce, now) {
            self.volume_down_debounce = Some(now);
            a_vdn = volume_down_action(self.current_mode);
        }
        push_opt(actions, a_vdn);
        proof {
            let (m2, volume_actions) = spec_volume_phase(*old(self), *nd, now);
            assert(actions@ =~= old(actions)@ + volume_actions);
        }
    }

    /// The button phase: debounced trigger and touchpad-click edges,
    /// the back button, and the repeating volume buttons.
    fn buttons_phase(&mut self, nd: &ControllerReading, now: u64, actions: &mut Vec<InputAction>)
        -> (r: (Option<ControlMode>, bool))
        requires
            old(self).wf(),
            nd.wf(),
        ensures
            final(self).wf(),
            ({
                let (m2, button_actions, committed, open_settings) = spec_buttons_phase(
                    *old(self),
                    *nd,
                    now,
                );
                &&& *final(self) == m2
                &&& final(actions)@ == old(actions)@ + button_actions
                &&& r.0 == committed
                &&& r.1 == open_settings
            }),
    {
        self.edges_phase(nd, now, actions);
        let (committed, open_settings) = self.back_phase(nd, now, actions);
        self.volume_phase(nd, now, actions);
        proof {
            let (m2, button_actions, comm, os) = spec_buttons_phase(*old(self), *nd, now);
            assert(actions@ =~= old(actions)@ + button_actions);
            assert(*self == m2);
        }
        (committed, open_settings)
    }

    /// Applies one normalized sample and the engines' outputs; returns
    /// the actions to inject, the committed mode if the overlay closed
    /// on a selection, and whether that selection was the settings
    /// surface.
    #[verifier::rlimit(100)]
    pub fn step(
        &mut self,
        nd: &ControllerReading,
        imu_delta: Option<(i32, i32)>,
        pointer_delta: Option<(i32, i32)>,
        gesture: Option<GestureDirection>,
        settings: &Settings,
        now: u64,
    ) -> (r: (Vec<InputAction>, Option<ControlMode>, bool))
        requires
            old(self).wf(),
            nd.wf(),
            settings.wf(),
        ensures
            final(self).wf(),
            ({
                let (m2, actions, committed, open_settings) = spec_mapper_step(
                    *old(self),
                    *nd,
                    imu_delta,
                    pointer_delta,
                    gesture,
                    *settings,
                    now,
                );
                &&& *final(self) == m2
                &&& r.0@ == actions
                &&& r.1 == committed
                &&& r.2 == open_settings
            }),
    {
        let mut actions: Vec<InputAction> = Vec::new();

        // Cursor motion and air-mouse scroll.
        let a_imu = match imu_delta {
            Some((dx, dy)) => Some(InputAction::MouseMove(dx, dy)),
            None => None,
        };
        push_opt(&mut actions, a_imu);
        self.scroll_phase(nd, settings, &mut actions);
        let a_ptr = match pointer_delta {
            Some((dx, dy)) => Some(InputAction::MouseMove(dx, dy)),
            None => None,
        };
        push_opt(&mut actions, a_ptr);

        // Gesture mapping.
        let a_gest = match gesture {
            Some(d) => gesture_action(d),
            None => None,
        };
        push_opt(&mut actions, a_gest);

        let mut committed: Option<ControlMode> = None;
        let mut open_settings = false;

        if settings.enable_buttons {
            let (c, os) = self.buttons_phase(nd, now, &mut actions);
            committed = c;
            open_settings = os;
        }

        proof {
            let (m2, acts, comm, os) = spec_mapper_step(
                *old(self),
                *nd,
                imu_delta,
                pointer_delta,
                gesture,
                *settings,
                now,
            );
            assert(actions@ =~= acts);
            assert(*self == m2);
        }
        (actions, committed, open_settings)
    }
}

} // verus!
