//! Event model: physical key transitions coming in, virtual device events
//! going out, and the Linux input event codes the default layout uses.
use vstd::prelude::*;

verus! {

/// Event type code for key transitions in the physical input stream.
pub const EV_KEY: u16 = 1;

/// Key transition value: the key was released.
pub const RELEASED: i32 = 0;
/// Key transition value: the key was pressed.
pub const PRESSED: i32 = 1;
/// Key transition value: autorepeat while the key is held.
pub const REPEAT: i32 = 2;

/// Absolute axis identifier: horizontal stick position.
pub const ABS_X: u16 = 0;
/// Absolute axis identifier: vertical stick position.
pub const ABS_Y: u16 = 1;

/// Bus type reported in the virtual device's identity block.
pub const BUS_USB: u16 = 3;

pub const KEY_BACKSPACE: u16 = 14;
pub const KEY_E: u16 = 18;
pub const KEY_Y: u16 = 21;
pub const KEY_ENTER: u16 = 28;
pub const KEY_A: u16 = 30;
pub const KEY_X: u16 = 45;
pub const KEY_B: u16 = 48;
pub const KEY_COMMA: u16 = 51;
pub const KEY_DOT: u16 = 52;
pub const KEY_SPACE: u16 = 57;
pub const KEY_UP: u16 = 103;
pub const KEY_PAGEUP: u16 = 104;
pub const KEY_LEFT: u16 = 105;
pub const KEY_RIGHT: u16 = 106;
pub const KEY_DOWN: u16 = 108;
pub const KEY_PAGEDOWN: u16 = 109;

pub const BTN_SOUTH: u16 = 304;
pub const BTN_EAST: u16 = 305;
pub const BTN_NORTH: u16 = 307;
pub const BTN_WEST: u16 = 308;
pub const BTN_TL: u16 = 310;
pub const BTN_TR: u16 = 311;
pub const BTN_SELECT: u16 = 314;
pub const BTN_START: u16 = 315;
pub const BTN_THUMBL: u16 = 317;
pub const BTN_THUMBR: u16 = 318;

/// One key transition observed on the physical keyboard: which key, and
/// whether it was released (0), pressed (1), or is autorepeating (2).
#[derive(Clone, Copy, PartialEq, Eq, Structural, Debug)]
pub struct PhysicalKeyEvent {
    /// Key identifier (Linux input event code).
    pub key: u16,
    /// Transition value: released, pressed, or repeat.
    pub value: i32,
}

/// One event to be written to the virtual gamepad device.
#[derive(Clone, Copy, PartialEq, Eq, Structural, Debug)]
pub enum OutputEvent {
    /// An absolute axis moved to a calibrated position.
    Axis { axis: u16, position: i32 },
    /// A virtual button changed state; the value carries the physical
    /// transition through unchanged.
    Key { key: u16, value: i32 },
}

} // verus!
