//! Framing and decoding tests: chunked streams, delimiter prefixes at
//! append boundaries, duplicate keys, quoted numbers, and unknown kinds.

use enet_client::enc::{EnetDecoder, EnetDecoderError};
use enet_client::proj::ProjectItem;
use enet_client::res::{Response, ResponseKind};

const VERSION_FRAME: &str = "{\"CMD\":\"VERSION_RES\",\"PROTOCOL\":\"0.03\",\"FIRMWARE\":\"2.6\",\"HARDWARE\":\"1.0\",\"ENET\":\"0.03\"}\r\n\r\n";

#[test]
fn version_response_decodes() {
    let mut dec = EnetDecoder::new();
    dec.push(VERSION_FRAME.as_bytes());
    match dec.decode() {
        Ok(Some(Response::Version(v))) => {
            assert_eq!(v.firmware, "2.6");
            assert_eq!(v.hardware, "1.0");
            assert_eq!(v.enet, "0.03");
        }
        other => panic!("expected a version response, got {:?}", other),
    }
    assert_eq!(dec.decode().unwrap(), None);
}

#[test]
fn chunked_stream_round_trip() {
    let sign_in = "{\"CMD\":\"ITEM_VALUE_SIGN_IN_RES\",\"PROTOCOL\":\"0.03\"}\r\n\r\n";
    let stream: Vec<u8> = [VERSION_FRAME, sign_in, VERSION_FRAME]
        .concat()
        .into_bytes();
    let mut dec = EnetDecoder::new();
    let mut kinds: Vec<ResponseKind> = Vec::new();
    for b in stream {
        dec.push(&[b]);
        while let Some(resp) = dec.decode().unwrap() {
            kinds.push(resp.kind());
        }
    }
    assert_eq!(
        kinds,
        vec![ResponseKind::Version, ResponseKind::ItemValueSignIn, ResponseKind::Version]
    );
}

#[test]
fn delimiter_split_across_pushes() {
    // every proper prefix of the delimiter first yields nothing, then the
    // rest of the delimiter completes exactly one frame
    let payload = "{\"CMD\":\"ITEM_VALUE_SIGN_IN_RES\",\"PROTOCOL\":\"0.03\"}";
    for split in 1..4usize {
        let mut dec = EnetDecoder::new();
        dec.push(payload.as_bytes());
        dec.push(&b"\r\n\r\n"[..split]);
        assert_eq!(dec.decode().unwrap(), None);
        dec.push(&b"\r\n\r\n"[split..]);
        match dec.decode() {
            Ok(Some(Response::ItemValueSignIn(_))) => {}
            other => panic!("expected the sign-in response, got {:?}", other),
        }
        assert_eq!(dec.decode().unwrap(), None);
    }
}

#[test]
fn trailing_cr_then_rest_of_delimiter() {
    // a buffer ending in "\r\n\r" must rewind far enough that the final
    // "\n" still completes the delimiter
    let payload = "{\"CMD\":\"ITEM_VALUE_SIGN_IN_RES\",\"PROTOCOL\":\"0.03\"}";
    let mut dec = EnetDecoder::new();
    let mut head = payload.as_bytes().to_vec();
    head.extend_from_slice(b"\r\n\r");
    dec.push(&head);
    assert_eq!(dec.decode().unwrap(), None);
    dec.push(b"\n");
    assert!(matches!(dec.decode(), Ok(Some(Response::ItemValueSignIn(_)))));
}

#[test]
fn broken_json_is_a_decoder_error() {
    let mut dec = EnetDecoder::new();
    dec.push(b"{\"CMD\":\r\n\r\n");
    assert_eq!(dec.decode(), Err(EnetDecoderError::JsonError));
}

#[test]
fn known_kind_with_malformed_body_is_an_error() {
    let mut dec = EnetDecoder::new();
    dec.push(b"{\"CMD\":\"VERSION_RES\",\"PROTOCOL\":\"0.03\"}\r\n\r\n");
    assert_eq!(dec.decode(), Err(EnetDecoderError::JsonError));
}

#[test]
fn missing_cmd_is_an_error() {
    let mut dec = EnetDecoder::new();
    dec.push(b"{\"PROTOCOL\":\"0.03\"}\r\n\r\n");
    assert_eq!(dec.decode(), Err(EnetDecoderError::JsonError));
}

#[test]
fn duplicate_keys_keep_the_last() {
    let mut dec = EnetDecoder::new();
    dec.push("{\"CMD\":\"VERSION_RES\",\"PROTOCOL\":\"0.03\",\"FIRMWARE\":\"9.9\",\"FIRMWARE\":\"2.6\",\"HARDWARE\":\"1.0\",\"ENET\":\"0.03\"}\r\n\r\n".as_bytes());
    match dec.decode() {
        Ok(Some(Response::Version(v))) => assert_eq!(v.firmware, "2.6"),
        other => panic!("expected a version response, got {:?}", other),
    }
}

#[test]
fn update_numbers_quoted_or_not() {
    let mut dec = EnetDecoder::new();
    let frame = "{\"CMD\":\"ITEM_UPDATE\",\"PROTOCOL\":\"0.03\",\"VALUES\":[{\"NUMBER\":\"17\",\"VALUE\":\"50\",\"STATE\":\"ON\",\"SETPOINT\":\"0\"},{\"NUMBER\":3,\"VALUE\":\"-1\",\"STATE\":\"OFF\",\"SETPOINT\":\"0\"}]}\r\n\r\n";
    dec.push(frame.as_bytes());
    match dec.decode() {
        Ok(Some(Response::ItemUpdate(u))) => {
            assert_eq!(u.values.len(), 2);
            assert_eq!(u.values[0].number, 17);
            assert_eq!(u.values[0].value, "50");
            assert_eq!(u.values[1].number, 3);
            assert_eq!(u.values[1].state, "OFF");
        }
        other => panic!("expected an update, got {:?}", other),
    }
}

#[test]
fn unknown_pair_is_preserved() {
    let mut dec = EnetDecoder::new();
    dec.push(b"{\"CMD\":\"BLOCK_LIST_RES\",\"PROTOCOL\":\"9.99\",\"X\":1}\r\n\r\n");
    match dec.decode() {
        Ok(Some(Response::Unknown(u))) => {
            assert_eq!(u.kind, "BLOCK_LIST_RES");
            assert_eq!(u.protocol, "9.99");
        }
        other => panic!("expected an unknown response, got {:?}", other),
    }
}

#[test]
fn channel_info_decodes() {
    let mut dec = EnetDecoder::new();
    let frame = "{\"CMD\":\"GET_CHANNEL_INFO_ALL_RES\",\"PROTOCOL\":\"0.03\",\"DEVICES\":[1,0,1,16]}\r\n\r\n";
    dec.push(frame.as_bytes());
    match dec.decode() {
        Ok(Some(Response::GetChannelInfoAll(c))) => assert_eq!(c.devices, vec![1, 0, 1, 16]),
        other => panic!("expected channel info, got {:?}", other),
    }
}

#[test]
fn project_list_decodes() {
    let mut dec = EnetDecoder::new();
    let frame = "{\"CMD\":\"PROJECT_LIST_RES\",\"PROTOCOL\":\"0.03\",\"PROJECT_ID\":\"p1\",\"ITEMS\":[{\"TYPE\":\"BINAER\",\"NUMBER\":0,\"NAME\":\"plug\",\"PROGRAMMABLE\":\"FALSE\"},{\"TYPE\":\"BINAER\",\"NUMBER\":1,\"NAME\":\"lamp\"},{\"TYPE\":\"DIMMER\",\"NUMBER\":2,\"NAME\":\"dim\"},{\"TYPE\":\"JALOUSIE\",\"NUMBER\":3,\"NAME\":\"blind\"},{\"TYPE\":\"SCENE\",\"NUMBER\":4,\"NAME\":\"all\",\"DIMMABLE\":false},{\"TYPE\":\"NONE\",\"NUMBER\":5,\"NAME\":\"empty\"}],\"LISTS\":[{\"NUMBER\":0,\"NAME\":\"hall\",\"ITEMS_ORDER\":[1,2],\"VISIBLE\":true},{\"NUMBER\":1,\"NAME\":\"attic\",\"VISIBLE\":false}]}\r\n\r\n";
    dec.push(frame.as_bytes());
    match dec.decode() {
        Ok(Some(Response::ProjectList(p))) => {
            assert_eq!(p.project_id, "p1");
            assert_eq!(p.items.len(), 6);
            match &p.items[0] {
                ProjectItem::Binaer(b) => assert!(!b.programmable),
                other => panic!("expected a switch, got {:?}", other),
            }
            match &p.items[1] {
                ProjectItem::Binaer(b) => assert!(b.programmable),
                other => panic!("expected a switch, got {:?}", other),
            }
            assert_eq!(p.lists.len(), 2);
            assert_eq!(p.lists[0].items_order, vec![1, 2]);
            assert_eq!(p.lists[1].items_order, Vec::<u32>::new());
        }
        other => panic!("expected the project, got {:?}", other),
    }
}
