//! The stock layout: arrow keys drive the two stick axes, a handful of
//! letter and control keys drive the standard gamepad buttons, and the
//! device presents itself as a familiar USB pad.
use vstd::prelude::*;

use crate::device::{
    spec_config_error, AxisCapability, GamepadConfig, VirtualDeviceIdentity,
};
use crate::errors::ConfigError;
use crate::events::{
    ABS_X, ABS_Y, BTN_EAST, BTN_NORTH, BTN_SELECT, BTN_SOUTH, BTN_START, BTN_THUMBL, BTN_THUMBR,
    BTN_TL, BTN_TR, BTN_WEST, BUS_USB, KEY_A, KEY_B, KEY_BACKSPACE, KEY_COMMA, KEY_DOT, KEY_DOWN,
    KEY_E, KEY_ENTER, KEY_LEFT, KEY_PAGEDOWN, KEY_PAGEUP, KEY_RIGHT, KEY_SPACE, KEY_UP, KEY_X,
    KEY_Y, PRESSED, RELEASED,
};
use crate::mapping::{AxisMappingEntry, KeyMappingEntry};

verus! {

broadcast use vstd::string::group_string_axioms;

/// Neutral (center) position of both stick axes.
pub const AXIS_NEUTRAL: i32 = 256;
/// Lowest position of both stick axes.
pub const AXIS_MINIMUM: i32 = 0;
/// Highest position of both stick axes.
pub const AXIS_MAXIMUM: i32 = 512;
/// Noise threshold of both stick axes.
pub const AXIS_FUZZ: i32 = 20;
/// Dead zone of both stick axes.
pub const AXIS_FLAT: i32 = 20;
/// Resolution of both stick axes.
pub const AXIS_RESOLUTION: i32 = 1;

/// The stock directional transitions: each arrow key moves its axis to an
/// extreme on press and back to the neutral position on release.
pub open spec fn spec_default_axis_entries() -> Seq<AxisMappingEntry> {
    seq![
        AxisMappingEntry { key: KEY_LEFT, key_value: PRESSED, axis: ABS_X, position: AXIS_MINIMUM },
        AxisMappingEntry {
            key: KEY_LEFT,
            key_value: RELEASED,
            axis: ABS_X,
            position: AXIS_NEUTRAL,
        },
        AxisMappingEntry {
            key: KEY_RIGHT,
            key_value: PRESSED,
            axis: ABS_X,
            position: AXIS_MAXIMUM,
        },
        AxisMappingEntry {
            key: KEY_RIGHT,
            key_value: RELEASED,
            axis: ABS_X,
            position: AXIS_NEUTRAL,
        },
        AxisMappingEntry { key: KEY_DOWN, key_value: PRESSED, axis: ABS_Y, position: AXIS_MAXIMUM },
        AxisMappingEntry {
            key: KEY_DOWN,
            key_value: RELEASED,
            axis: ABS_Y,
            position: AXIS_NEUTRAL,
        },
        AxisMappingEntry { key: KEY_UP, key_value: PRESSED, axis: ABS_Y, position: AXIS_MINIMUM },
        AxisMappingEntry { key: KEY_UP, key_value: RELEASED, axis: ABS_Y, position: AXIS_NEUTRAL },
    ]
}

/// The stock button bindings; `KEY_SPACE` aliases `KEY_A` and `KEY_E`
/// aliases `KEY_X`.
pub open spec fn spec_default_key_entries() -> Seq<KeyMappingEntry> {
    seq![
        KeyMappingEntry { key: KEY_A, target: BTN_SOUTH },
        KeyMappingEntry { key: KEY_SPACE, target: BTN_SOUTH },
        KeyMappingEntry { key: KEY_B, target: BTN_EAST },
        KeyMappingEntry { key: KEY_X, target: BTN_NORTH },
        KeyMappingEntry { key: KEY_E, target: BTN_NORTH },
        KeyMappingEntry { key: KEY_Y, target: BTN_WEST },
        KeyMappingEntry { key: KEY_ENTER, target: BTN_START },
        KeyMappingEntry { key: KEY_BACKSPACE, target: BTN_SELECT },
        KeyMappingEntry { key: KEY_PAGEUP, target: BTN_TL },
        KeyMappingEntry { key: KEY_PAGEDOWN, target: BTN_TR },
        KeyMappingEntry { key: KEY_COMMA, target: BTN_THUMBL },
        KeyMappingEntry { key: KEY_DOT, target: BTN_THUMBR },
    ]
}

/// The stock button capability set.
pub open spec fn spec_default_buttons() -> Seq<u16> {
    seq![
        BTN_SOUTH,
        BTN_EAST,
        BTN_NORTH,
        BTN_WEST,
        BTN_TL,
        BTN_TR,
        BTN_THUMBL,
        BTN_THUMBR,
        BTN_START,
        BTN_SELECT,
    ]
}

/// The stock axis capabilities: both stick axes share one calibration.
pub open spec fn spec_default_axes() -> Seq<AxisCapability> {
    seq![
        AxisCapability {
            axis: ABS_X,
            neutral: AXIS_NEUTRAL,
            minimum: AXIS_MINIMUM,
            maximum: AXIS_MAXIMUM,
            fuzz: AXIS_FUZZ,
            flat: AXIS_FLAT,
            resolution: AXIS_RESOLUTION,
        },
        AxisCapability {
            axis: ABS_Y,
            neutral: AXIS_NEUTRAL,
            minimum: AXIS_MINIMUM,
            maximum: AXIS_MAXIMUM,
            fuzz: AXIS_FUZZ,
            flat: AXIS_FLAT,
            resolution: AXIS_RESOLUTION,
        },
    ]
}

/// The display name the stock identity block carries.
pub open spec fn spec_default_name() -> Seq<char> {
    "Microsoft X-Box 360 pad"@
}

/// Builds the stock axis transition table.
pub fn default_axis_entries() -> (r: Vec<AxisMappingEntry>)
    ensures
        r@ == spec_default_axis_entries(),
{
    let mut r: Vec<AxisMappingEntry> = Vec::new();
    r.push(AxisMappingEntry { key: KEY_LEFT, key_value: PRESSED, axis: ABS_X, position: AXIS_MINIMUM });
    r.push(AxisMappingEntry { key: KEY_LEFT, key_value: RELEASED, axis: ABS_X, position: AXIS_NEUTRAL });
    r.push(AxisMappingEntry { key: KEY_RIGHT, key_value: PRESSED, axis: ABS_X, position: AXIS_MAXIMUM });
    r.push(AxisMappingEntry { key: KEY_RIGHT, key_value: RELEASED, axis: ABS_X, position: AXIS_NEUTRAL });
    r.push(AxisMappingEntry { key: KEY_DOWN, key_value: PRESSED, axis: ABS_Y, position: AXIS_MAXIMUM });
    r.push(AxisMappingEntry { key: KEY_DOWN, key_value: RELEASED, axis: ABS_Y, position: AXIS_NEUTRAL });
    r.push(AxisMappingEntry { key: KEY_UP, key_value: PRESSED, axis: ABS_Y, position: AXIS_MINIMUM });
    r.push(AxisMappingEntry { key: KEY_UP, key_value: RELEASED, axis: ABS_Y, position: AXIS_NEUTRAL });
    proof {
        assert(r@ =~= spec_default_axis_entries());
    }
    r
}

/// Builds the stock button binding table.
pub fn default_key_entries() -> (r: Vec<KeyMappingEntry>)
    ensures
        r@ == spec_default_key_entries(),
{
    let mut r: Vec<KeyMappingEntry> = Vec::new();
    r.push(KeyMappingEntry { key: KEY_A, target: BTN_SOUTH });
    r.push(KeyMappingEntry { key: KEY_SPACE, target: BTN_SOUTH });
    r.push(KeyMappingEntry { key: KEY_B, target: BTN_EAST });
    r.push(KeyMappingEntry { key: KEY_X, target: BTN_NORTH });
    r.push(KeyMappingEntry { key: KEY_E, target: BTN_NORTH });
    r.push(KeyMappingEntry { key: KEY_Y, target: BTN_WEST });
    r.push(KeyMappingEntry { key: KEY_ENTER, target: BTN_START });
    r.push(KeyMappingEntry { key: KEY_BACKSPACE, target: BTN_SELECT });
    r.push(KeyMappingEntry { key: KEY_PAGEUP, target: BTN_TL });
    r.push(KeyMappingEntry { key: KEY_PAGEDOWN, target: BTN_TR });
    r.push(KeyMappingEntry { key: KEY_COMMA, target: BTN_THUMBL });
    r.push(KeyMappingEntry { key: KEY_DOT, target: BTN_THUMBR });
    proof {
        assert(r@ =~= spec_default_key_entries());
    }
    r
}

/// Builds the stock button capability list.
pub fn default_buttons() -> (r: Vec<u16>)
    ensures
        r@ == spec_default_buttons(),
{
    let mut r: Vec<u16> = Vec::new();
    r.push(BTN_SOUTH);
    r.push(BTN_EAST);
    r.push(BTN_NORTH);
    r.push(BTN_WEST);
    r.push(BTN_TL);
    r.push(BTN_TR);
    r.push(BTN_THUMBL);
    r.push(BTN_THUMBR);
    r.push(BTN_START);
    r.push(BTN_SELECT);
    proof {
        assert(r@ =~= spec_default_buttons());
    }
    r
}

/// Builds the stock axis capability list.
pub fn default_axes() -> (r: Vec<AxisCapability>)
    ensures
        r@ == spec_default_axes(),
{
    let mut r: Vec<AxisCapability> = Vec::new();
    r.push(AxisCapability {
        axis: ABS_X,
        neutral: AXIS_NEUTRAL,
        minimum: AXIS_MINIMUM,
        maximum: AXIS_MAXIMUM,
        fuzz: AXIS_FUZZ,
        flat: AXIS_FLAT,
        resolution: AXIS_RESOLUTION,
    });
    r.push(AxisCapability {
        axis: ABS_Y,
        neutral: AXIS_NEUTRAL,
        minimum: AXIS_MINIMUM,
        maximum: AXIS_MAXIMUM,
        fuzz: AXIS_FUZZ,
        flat: AXIS_FLAT,
        resolution: AXIS_RESOLUTION,
    });
    proof {
        assert(r@ =~= spec_default_axes());
    }
    r
}

/// Builds the stock identity block: the device presents itself as a common
/// USB gamepad so applications recognize it without configuration.
pub fn default_identity() -> (r: VirtualDeviceIdentity)
    ensures
        r.name@ == spec_default_name(),
        r.bus_type == BUS_USB,
        r.vendor == 0x045e,
        r.product == 0x028e,
        r.version == 0x110,
{
    VirtualDeviceIdentity {
        name: "Microsoft X-Box 360 pad".to_string(),
        bus_type: BUS_USB,
        vendor: 0x045e,
        product: 0x028e,
        version: 0x110,
    }
}

/// Builds and validates the stock configuration.
pub fn default_gamepad() -> (r: Result<GamepadConfig, ConfigError>)
    ensures
        r is Ok <==> spec_config_error(
            spec_default_buttons(),
            spec_default_axes(),
            spec_default_axis_entries(),
            spec_default_key_entries(),
        ) is None,
        r matches Err(e) ==> Some(e) == spec_config_error(
            spec_default_buttons(),
            spec_default_axes(),
            spec_default_axis_entries(),
            spec_default_key_entries(),
        ),
        r matches Ok(c) ==> {
            &&& c.wf()
            &&& c.spec_buttons() == spec_default_buttons()
            &&& c.spec_axes() == spec_default_axes()
            &&& c.spec_mapping().spec_axis_entries() == spec_default_axis_entries()
            &&& c.spec_mapping().spec_key_entries() == spec_default_key_entries()
            &&& c.spec_identity().name@ == spec_default_name()
            &&& c.spec_identity().bus_type == BUS_USB
            &&& c.spec_identity().vendor == 0x045e
            &&& c.spec_identity().product == 0x028e
            &&& c.spec_identity().version == 0x110
        },
{
    GamepadConfig::new(
        default_identity(),
        default_buttons(),
        default_axes(),
        default_axis_entries(),
        default_key_entries(),
    )
}

} // verus!
