//! Device model tests: brightness parsing, state words, and the partial
//! order on device values.

use enet_client::dev::{
    DeviceBrightness, DeviceState, DeviceValue, ParseDeviceBrightnessError, ParseDeviceStateError,
};
use enet_client::update::ItemUpdateValue;
use std::cmp::Ordering;

#[test]
fn brightness_parses_digits_up_to_hundred() {
    assert_eq!(DeviceBrightness::from_str("0").unwrap().get(), 0);
    assert_eq!(DeviceBrightness::from_str("7").unwrap().get(), 7);
    assert_eq!(DeviceBrightness::from_str("42").unwrap().get(), 42);
    assert_eq!(DeviceBrightness::from_str("100").unwrap().get(), 100);
    assert_eq!(DeviceBrightness::from_str("099").unwrap().get(), 99);
}

#[test]
fn brightness_rejects_everything_else() {
    assert_eq!(DeviceBrightness::from_str("101"), Err(ParseDeviceBrightnessError));
    assert_eq!(DeviceBrightness::from_str(""), Err(ParseDeviceBrightnessError));
    assert_eq!(DeviceBrightness::from_str("1000"), Err(ParseDeviceBrightnessError));
    assert_eq!(DeviceBrightness::from_str("0a"), Err(ParseDeviceBrightnessError));
    assert_eq!(DeviceBrightness::from_str("-1"), Err(ParseDeviceBrightnessError));
    assert_eq!(DeviceBrightness::from_str(" 1"), Err(ParseDeviceBrightnessError));
}

#[test]
fn brightness_bounds() {
    assert_eq!(DeviceBrightness::new(100).unwrap().get(), 100);
    assert_eq!(DeviceBrightness::new(101), None);
    assert_eq!(DeviceBrightness::min_value().get(), 0);
    assert_eq!(DeviceBrightness::max_value().get(), 100);
}

#[test]
fn state_words() {
    assert_eq!(DeviceState::from_str("ON"), Ok(DeviceState::On));
    assert_eq!(DeviceState::from_str("OFF"), Ok(DeviceState::Off));
    assert_eq!(DeviceState::from_str("UNKNOWN"), Ok(DeviceState::Unknown));
    assert_eq!(DeviceState::from_str("UNDEFINED"), Ok(DeviceState::Unknown));
    assert_eq!(DeviceState::from_str("on"), Err(ParseDeviceStateError));
    assert_eq!(DeviceState::from_str(""), Err(ParseDeviceStateError));
}

fn on(b: u8) -> DeviceValue {
    DeviceValue::On(DeviceBrightness::new(b).unwrap())
}

#[test]
fn value_partial_order() {
    assert_eq!(DeviceValue::Off.partial_cmp(&on(0)), Some(Ordering::Less));
    assert_eq!(on(0).partial_cmp(&DeviceValue::Off), Some(Ordering::Greater));
    assert_eq!(on(0).partial_cmp(&on(100)), Some(Ordering::Less));
    assert_eq!(on(50).partial_cmp(&on(50)), Some(Ordering::Equal));
    assert_eq!(DeviceValue::AllOff.partial_cmp(&DeviceValue::AllOn), Some(Ordering::Less));
    assert_eq!(DeviceValue::AllOn.partial_cmp(&DeviceValue::AllOff), Some(Ordering::Greater));
    assert!(DeviceValue::Off < on(0));
    assert!(on(1) <= on(100));
}

#[test]
fn value_incomparabilities() {
    assert_eq!(DeviceValue::Undefined.partial_cmp(&DeviceValue::Off), None);
    assert_eq!(on(3).partial_cmp(&DeviceValue::Undefined), None);
    assert_eq!(
        DeviceValue::Undefined.partial_cmp(&DeviceValue::Undefined),
        Some(Ordering::Equal)
    );
    assert_eq!(DeviceValue::Off.partial_cmp(&DeviceValue::AllOff), None);
    assert_eq!(on(10).partial_cmp(&DeviceValue::AllOn), None);
    assert_eq!(DeviceValue::AllOn.partial_cmp(&on(100)), None);
}

#[test]
fn value_accessors() {
    assert!(on(5).is_on());
    assert!(DeviceValue::AllOn.is_on());
    assert!(!DeviceValue::Off.is_on());
    assert_eq!(on(5).brightness().unwrap().get(), 5);
    assert_eq!(DeviceValue::AllOn.brightness().unwrap().get(), 100);
    assert_eq!(DeviceValue::Off.brightness(), None);
    assert_eq!(DeviceValue::from_state(DeviceState::On), on(100));
    assert_eq!(DeviceValue::from_state(DeviceState::Off), DeviceValue::Off);
    assert_eq!(DeviceValue::from_state(DeviceState::Unknown), DeviceValue::Undefined);
    assert_eq!(
        DeviceValue::from_state_brightness(DeviceState::On, DeviceBrightness::new(7).unwrap()),
        on(7)
    );
}

fn update(value: &str, state: &str) -> ItemUpdateValue {
    ItemUpdateValue {
        number: 1,
        value: value.to_owned(),
        state: state.to_owned(),
        setpoint: "0".to_owned(),
    }
}

#[test]
fn value_from_update_entries() {
    assert_eq!(DeviceValue::from_update(update("", "UNDEFINED")), Ok(DeviceValue::Undefined));
    assert_eq!(DeviceValue::from_update(update("", "OFF")), Ok(DeviceValue::Off));
    assert_eq!(DeviceValue::from_update(update("40", "ON")), Ok(on(40)));
    assert_eq!(DeviceValue::from_update(update("", "ALL_OFF")), Ok(DeviceValue::AllOff));
    assert_eq!(DeviceValue::from_update(update("", "ALL_ON")), Ok(DeviceValue::AllOn));
    // an on-state with no parsable brightness hands the entry back
    let bad = update("200", "ON");
    assert_eq!(DeviceValue::from_update(bad.clone()), Err(bad));
    let odd = update("40", "GLITCH");
    assert_eq!(DeviceValue::from_update(odd.clone()), Err(odd));
}
