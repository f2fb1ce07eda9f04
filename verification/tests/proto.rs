//! Wire-text tests for requests, commanded items, and the version tag.

use enet_client::req::{
    append_item_set_value_json, ClickDuration, ItemSetValue, ItemValueSetReq, ItemValueSignInReq,
    Request, RequestEnvelope, RequestKind, SetValue, VersionReq,
};
use enet_client::enc::EnetEncoder;
use enet_client::ver::ProtocolVersion;

fn item(value: SetValue) -> ItemSetValue {
    ItemSetValue { value, number: 1 }
}

fn item_json(value: SetValue) -> String {
    let mut out: Vec<u8> = Vec::new();
    append_item_set_value_json(&mut out, &item(value));
    String::from_utf8(out).unwrap()
}

#[test]
fn item_set_value_on_short() {
    assert_eq!(
        item_json(SetValue::On(ClickDuration::Short)),
        "{\"STATE\":\"ON\",\"NUMBER\":1}"
    );
}

#[test]
fn item_set_value_off_short() {
    assert_eq!(
        item_json(SetValue::Off(ClickDuration::Short)),
        "{\"STATE\":\"OFF\",\"NUMBER\":1}"
    );
}

#[test]
fn item_set_value_on_long() {
    assert_eq!(
        item_json(SetValue::On(ClickDuration::Long)),
        "{\"STATE\":\"ON\",\"LONG_CLICK\":\"ON\",\"NUMBER\":1}"
    );
}

#[test]
fn item_set_value_off_long() {
    assert_eq!(
        item_json(SetValue::Off(ClickDuration::Long)),
        "{\"STATE\":\"OFF\",\"LONG_CLICK\":\"ON\",\"NUMBER\":1}"
    );
}

#[test]
fn item_set_value_dim() {
    assert_eq!(
        item_json(SetValue::Dimm(50)),
        "{\"STATE\":\"VALUE_DIMM\",\"VALUE\":50,\"NUMBER\":1}"
    );
}

#[test]
fn item_set_value_blinds() {
    assert_eq!(
        item_json(SetValue::Blinds(50)),
        "{\"STATE\":\"VALUE_BLINDS\",\"VALUE\":50,\"NUMBER\":1}"
    );
}

#[test]
fn protocol_version_zerozerothree_serde() {
    let version = ProtocolVersion::ZeroZeroThree;
    assert_eq!(version.to_str(), "0.03");
    assert_eq!(ProtocolVersion::from_str("0.03"), version);
}

#[test]
fn protocol_version_other_serde() {
    let version = ProtocolVersion::Unknown("other".to_owned());
    assert_eq!(version.to_str(), "other");
    assert_eq!(ProtocolVersion::from_str("other"), version);
}

#[test]
fn version_request_frame() {
    let env = RequestEnvelope::at_time(Request::Version(VersionReq::new()), 1700000000);
    let mut buf: Vec<u8> = Vec::new();
    let mut enc = EnetEncoder::new();
    enc.encode(&env, &mut buf);
    assert_eq!(
        String::from_utf8(buf).unwrap(),
        "{\"CMD\":\"VERSION_REQ\",\"PROTOCOL\":\"0.03\",\"TIMESTAMP\":\"1700000000\"}\r\n\r\n"
    );
}

#[test]
fn short_dim_set_frame() {
    let req = ItemValueSetReq::new(vec![ItemSetValue { value: SetValue::Dimm(50), number: 17 }]);
    let env = RequestEnvelope::at_time(Request::ItemValueSet(req), 7);
    let mut buf: Vec<u8> = Vec::new();
    let mut enc = EnetEncoder::new();
    enc.encode(&env, &mut buf);
    let text = String::from_utf8(buf).unwrap();
    assert!(text.contains("\"CMD\":\"ITEM_VALUE_SET\""));
    assert!(text.contains("{\"STATE\":\"VALUE_DIMM\",\"VALUE\":50,\"NUMBER\":17}"));
    assert!(text.ends_with("\r\n\r\n"));
}

#[test]
fn long_click_on_frame() {
    let req = ItemValueSetReq::new(
        vec![ItemSetValue { value: SetValue::On(ClickDuration::Long), number: 3 }],
    );
    let env = RequestEnvelope::at_time(Request::ItemValueSet(req), 7);
    let mut buf: Vec<u8> = Vec::new();
    let mut enc = EnetEncoder::new();
    enc.encode(&env, &mut buf);
    let text = String::from_utf8(buf).unwrap();
    assert!(text.contains("{\"STATE\":\"ON\",\"LONG_CLICK\":\"ON\",\"NUMBER\":3}"));
}

#[test]
fn sign_in_request_frame() {
    let req = ItemValueSignInReq::new(vec![0, 2, 5]);
    let env = RequestEnvelope::at_time(Request::ItemValueSignIn(req), 42);
    let mut buf: Vec<u8> = Vec::new();
    let mut enc = EnetEncoder::new();
    enc.encode(&env, &mut buf);
    let text = String::from_utf8(buf).unwrap();
    assert_eq!(
        text,
        "{\"CMD\":\"ITEM_VALUE_SIGN_IN_REQ\",\"ITEMS\":[0,2,5],\"PROTOCOL\":\"0.03\",\"TIMESTAMP\":\"42\"}\r\n\r\n"
    );
}

#[test]
fn request_kinds() {
    assert_eq!(Request::Version(VersionReq::new()).kind(), RequestKind::Version);
    assert_eq!(
        Request::ItemValueSet(ItemValueSetReq::new(vec![])).kind(),
        RequestKind::ItemValueSet
    );
}
