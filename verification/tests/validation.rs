use kbd_gamepad::defaults::{default_axes, default_axis_entries, default_buttons, default_identity, default_key_entries};
use kbd_gamepad::device::{AxisCapability, GamepadConfig};
use kbd_gamepad::errors::ConfigError;
use kbd_gamepad::events::{ABS_X, ABS_Y, BTN_SOUTH, KEY_LEFT, PRESSED, RELEASED};
use kbd_gamepad::mapping::{AxisMappingEntry, KeyMappingEntry, MappingTable};

fn axis(axis: u16, neutral: i32, minimum: i32, maximum: i32) -> AxisCapability {
    AxisCapability { axis, neutral, minimum, maximum, fuzz: 0, flat: 0, resolution: 1 }
}

fn build(
    buttons: Vec<u16>,
    axes: Vec<AxisCapability>,
    axis_entries: Vec<AxisMappingEntry>,
    key_entries: Vec<KeyMappingEntry>,
) -> Result<GamepadConfig, ConfigError> {
    GamepadConfig::new(default_identity(), buttons, axes, axis_entries, key_entries)
}

#[test]
fn stock_configuration_validates() {
    assert!(build(
        default_buttons(),
        default_axes(),
        default_axis_entries(),
        default_key_entries()
    )
    .is_ok());
}

#[test]
fn duplicate_axis_mapping_is_rejected() {
    let entry = AxisMappingEntry { key: KEY_LEFT, key_value: PRESSED, axis: ABS_X, position: 1 };
    let r = build(vec![], vec![axis(ABS_X, 1, 0, 2)], vec![entry, entry], vec![]);
    assert_eq!(r.err(), Some(ConfigError::DuplicateAxisMapping));
}

#[test]
fn duplicate_key_mapping_is_rejected() {
    let entry = KeyMappingEntry { key: 30, target: BTN_SOUTH };
    let r = build(vec![BTN_SOUTH], vec![], vec![], vec![entry, entry]);
    assert_eq!(r.err(), Some(ConfigError::DuplicateKeyMapping));
}

#[test]
fn table_rejects_duplicates_directly() {
    let entry = AxisMappingEntry { key: KEY_LEFT, key_value: PRESSED, axis: ABS_X, position: 1 };
    assert_eq!(
        MappingTable::new(vec![entry, entry], vec![]).err(),
        Some(ConfigError::DuplicateAxisMapping)
    );
    let opposed =
        AxisMappingEntry { key: KEY_LEFT, key_value: RELEASED, axis: ABS_X, position: 0 };
    assert!(MappingTable::new(vec![entry, opposed], vec![]).is_ok());
}

#[test]
fn inverted_axis_range_is_rejected() {
    let r = build(vec![], vec![axis(ABS_X, 0, 5, 5)], vec![], vec![]);
    assert_eq!(r.err(), Some(ConfigError::InvalidAxisRange));
    let r = build(vec![], vec![axis(ABS_X, 0, 6, 5)], vec![], vec![]);
    assert_eq!(r.err(), Some(ConfigError::InvalidAxisRange));
    let r = build(vec![], vec![axis(ABS_X, 5, 4, 6)], vec![], vec![]);
    assert!(r.is_ok());
}

#[test]
fn neutral_outside_range_is_rejected() {
    let r = build(vec![], vec![axis(ABS_X, 9, 0, 8)], vec![], vec![]);
    assert_eq!(r.err(), Some(ConfigError::NeutralOutOfRange));
}

#[test]
fn duplicate_axis_capability_is_rejected() {
    let r = build(vec![], vec![axis(ABS_X, 1, 0, 2), axis(ABS_X, 1, 0, 2)], vec![], vec![]);
    assert_eq!(r.err(), Some(ConfigError::DuplicateAxisCapability));
}

#[test]
fn undeclared_axis_target_is_rejected() {
    let entry = AxisMappingEntry { key: KEY_LEFT, key_value: PRESSED, axis: ABS_Y, position: 1 };
    let r = build(vec![], vec![axis(ABS_X, 1, 0, 2)], vec![entry], vec![]);
    assert_eq!(r.err(), Some(ConfigError::UnmappedAxis));
}

#[test]
fn position_outside_range_is_rejected() {
    let entry = AxisMappingEntry { key: KEY_LEFT, key_value: PRESSED, axis: ABS_X, position: 3 };
    let r = build(vec![], vec![axis(ABS_X, 1, 0, 2)], vec![entry], vec![]);
    assert_eq!(r.err(), Some(ConfigError::PositionOutOfRange));
}

#[test]
fn release_away_from_neutral_is_rejected() {
    let entry = AxisMappingEntry { key: KEY_LEFT, key_value: RELEASED, axis: ABS_X, position: 2 };
    let r = build(vec![], vec![axis(ABS_X, 1, 0, 2)], vec![entry], vec![]);
    assert_eq!(r.err(), Some(ConfigError::ReleaseNotNeutral));
}

#[test]
fn undeclared_button_target_is_rejected() {
    let entry = KeyMappingEntry { key: 30, target: BTN_SOUTH };
    let r = build(vec![], vec![], vec![], vec![entry]);
    assert_eq!(r.err(), Some(ConfigError::UnknownButtonTarget));
}
