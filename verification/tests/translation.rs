use kbd_gamepad::defaults::default_gamepad;
use kbd_gamepad::device::GamepadConfig;
use kbd_gamepad::events::{
    OutputEvent, PhysicalKeyEvent, ABS_X, ABS_Y, BTN_NORTH, BTN_SOUTH, BUS_USB, EV_KEY, KEY_A,
    KEY_E, KEY_LEFT, KEY_RIGHT, KEY_SPACE, KEY_UP, KEY_X, PRESSED, RELEASED, REPEAT,
};
use kbd_gamepad::mapping::{AxisMappingEntry, KeyMappingEntry, MappingTable};

fn stock() -> GamepadConfig {
    default_gamepad().expect("the stock configuration must validate")
}

fn translate(config: &GamepadConfig, key: u16, value: i32) -> Vec<OutputEvent> {
    config.mapping().translate(PhysicalKeyEvent { key, value })
}

#[test]
fn left_press_moves_x_to_minimum() {
    let config = stock();
    let out = translate(&config, KEY_LEFT, PRESSED);
    assert_eq!(out, vec![OutputEvent::Axis { axis: ABS_X, position: 0 }]);
}

#[test]
fn left_release_returns_x_to_center() {
    let config = stock();
    let out = translate(&config, KEY_LEFT, RELEASED);
    assert_eq!(out, vec![OutputEvent::Axis { axis: ABS_X, position: 256 }]);
}

#[test]
fn right_press_moves_x_to_maximum() {
    let config = stock();
    let out = translate(&config, KEY_RIGHT, PRESSED);
    assert_eq!(out, vec![OutputEvent::Axis { axis: ABS_X, position: 512 }]);
}

#[test]
fn up_press_moves_y_to_minimum() {
    let config = stock();
    let out = translate(&config, KEY_UP, PRESSED);
    assert_eq!(out, vec![OutputEvent::Axis { axis: ABS_Y, position: 0 }]);
}

#[test]
fn release_after_any_press_is_neutral() {
    let config = stock();
    translate(&config, KEY_LEFT, PRESSED);
    let after_left = translate(&config, KEY_LEFT, RELEASED);
    translate(&config, KEY_RIGHT, PRESSED);
    let after_right = translate(&config, KEY_LEFT, RELEASED);
    assert_eq!(after_left, vec![OutputEvent::Axis { axis: ABS_X, position: 256 }]);
    assert_eq!(after_right, after_left);
}

#[test]
fn key_a_press_and_release_drive_btn_south() {
    let config = stock();
    let pressed = translate(&config, KEY_A, PRESSED);
    let released = translate(&config, KEY_A, RELEASED);
    assert_eq!(pressed, vec![OutputEvent::Key { key: BTN_SOUTH, value: 1 }]);
    assert_eq!(released, vec![OutputEvent::Key { key: BTN_SOUTH, value: 0 }]);
}

#[test]
fn repeat_value_passes_through_unchanged() {
    let config = stock();
    let out = translate(&config, KEY_A, REPEAT);
    assert_eq!(out, vec![OutputEvent::Key { key: BTN_SOUTH, value: 2 }]);
}

#[test]
fn unmapped_key_yields_nothing() {
    let config = stock();
    let key_f1: u16 = 59;
    let out = translate(&config, key_f1, PRESSED);
    assert!(out.is_empty());
}

#[test]
fn aliased_keys_share_a_button() {
    let config = stock();
    let via_a = translate(&config, KEY_A, PRESSED);
    let via_space = translate(&config, KEY_SPACE, PRESSED);
    assert_eq!(via_a, vec![OutputEvent::Key { key: BTN_SOUTH, value: 1 }]);
    assert_eq!(via_space, via_a);
    let via_x = translate(&config, KEY_X, RELEASED);
    let via_e = translate(&config, KEY_E, RELEASED);
    assert_eq!(via_x, vec![OutputEvent::Key { key: BTN_NORTH, value: 0 }]);
    assert_eq!(via_e, via_x);
}

#[test]
fn key_in_both_tables_fires_axis_then_button() {
    let axis_entries = vec![AxisMappingEntry {
        key: 40,
        key_value: PRESSED,
        axis: ABS_X,
        position: 3,
    }];
    let key_entries = vec![KeyMappingEntry { key: 40, target: BTN_SOUTH }];
    let table = MappingTable::new(axis_entries, key_entries).expect("no duplicates");
    let out = table.translate(PhysicalKeyEvent { key: 40, value: PRESSED });
    assert_eq!(
        out,
        vec![
            OutputEvent::Axis { axis: ABS_X, position: 3 },
            OutputEvent::Key { key: BTN_SOUTH, value: 1 },
        ]
    );
}

#[test]
fn non_key_events_are_ignored() {
    let config = stock();
    let ev_abs: u16 = 3;
    let out = config.mapping().translate_raw(ev_abs, KEY_A, PRESSED);
    assert!(out.is_empty());
    let via_raw = config.mapping().translate_raw(EV_KEY, KEY_A, PRESSED);
    assert_eq!(via_raw, translate(&config, KEY_A, PRESSED));
}

#[test]
fn lookups_report_hits_and_misses() {
    let config = stock();
    let table = config.mapping();
    assert_eq!(table.lookup_axis(KEY_LEFT, PRESSED), Some((ABS_X, 0)));
    assert_eq!(table.lookup_axis(KEY_A, PRESSED), None);
    assert_eq!(table.lookup_key(KEY_A), Some(BTN_SOUTH));
    assert_eq!(table.lookup_key(KEY_LEFT), None);
}

#[test]
fn stock_identity_mimics_a_usb_pad() {
    let config = stock();
    let identity = config.identity();
    assert_eq!(identity.name, "Microsoft X-Box 360 pad");
    assert_eq!(identity.bus_type, BUS_USB);
    assert_eq!(identity.vendor, 0x045e);
    assert_eq!(identity.product, 0x028e);
    assert_eq!(identity.version, 0x110);
    assert_eq!(config.buttons().len(), 10);
    assert_eq!(config.axes().len(), 2);
    assert_eq!(config.axes()[0].axis, ABS_X);
    assert_eq!(config.axes()[0].neutral, 256);
    assert_eq!(config.axes()[0].minimum, 0);
    assert_eq!(config.axes()[0].maximum, 512);
    assert_eq!(config.axes()[1].axis, ABS_Y);
}
