//! Tests of the command correlator, the event task's decisions, the
//! inventory, and the facade logic.

use enet_client::client::synthetic_states;
use enet_client::cmd::{CommandTask, Correlation, SendDisposition};
use enet_client::dev::DeviceState;
use enet_client::evt::{EventAction, EventInput, EventTask};
use enet_client::inventory::{DeviceDesc, Inventory, StreamWrite};
use enet_client::proj::{
    ProjectBinaer, ProjectDimmer, ProjectItem, ProjectList, ProjectNone, ProjectScene,
};
use enet_client::req::{ClickDuration, ItemSetValue, RequestKind, SetValue};
use enet_client::res::{ItemUpdateInd, Response, ResponseKind};
use enet_client::room::rooms_of;
use enet_client::update::ItemUpdateValue;
use enet_client::dev::DeviceKind;

fn sample_items() -> Vec<ProjectItem> {
    vec![
        ProjectItem::Binaer(ProjectBinaer {
            number: 10,
            name: "plug".to_owned(),
            programmable: true,
        }),
        ProjectItem::Dimmer(ProjectDimmer { number: 11, name: "lamp".to_owned() }),
        ProjectItem::Scene(ProjectScene {
            number: 12,
            name: "all".to_owned(),
            dimmable: false,
        }),
        ProjectItem::Binaer(ProjectBinaer {
            number: 13,
            name: "fixed".to_owned(),
            programmable: false,
        }),
        ProjectItem::NoneItem(ProjectNone { number: 14, name: "empty".to_owned() }),
    ]
}

fn sample_inventory() -> Inventory {
    // slots 0, 1 and 3 are real devices; slot 2 is not, slot 4 has no item
    Inventory::build(sample_items(), &vec![1, 1, 1, 0, 1])
}

fn upd(number: u32, value: &str, state: &str) -> ItemUpdateValue {
    ItemUpdateValue {
        number,
        value: value.to_owned(),
        state: state.to_owned(),
        setpoint: "0".to_owned(),
    }
}

#[test]
fn inventory_keeps_real_device_slots() {
    let inv = sample_inventory();
    // the scene at slot 2 and the non-programmable switch at slot 3 are no
    // devices; slot 3 also has channel type 0
    assert_eq!(inv.entries.len(), 2);
    assert_eq!(inv.entries[0].channel, 0);
    assert_eq!(inv.entries[0].desc.kind, DeviceKind::Binary);
    assert_eq!(inv.entries[0].desc.name, "plug");
    assert_eq!(inv.entries[0].desc.number, 10);
    assert_eq!(inv.entries[1].channel, 1);
    assert_eq!(inv.entries[1].desc.kind, DeviceKind::Dimmer);
    assert_eq!(inv.channels(), vec![0, 1]);
}

#[test]
fn device_desc_from_item() {
    let d = DeviceDesc::from_item(
        ProjectItem::Dimmer(ProjectDimmer { number: 4, name: "d".to_owned() }),
    )
    .unwrap();
    assert_eq!(d.kind, DeviceKind::Dimmer);
    assert!(DeviceDesc::from_item(
        ProjectItem::Scene(ProjectScene { number: 1, name: "s".to_owned(), dimmable: true })
    )
    .is_err());
}

#[test]
fn update_with_unknown_number_is_ignored() {
    let mut inv = sample_inventory();
    let writes = inv.apply_update_batch(&vec![upd(9, "50", "ON")]);
    assert_eq!(writes, Vec::<StreamWrite>::new());
    assert_eq!(inv.entries[0].state, None);
    assert_eq!(inv.entries[1].state, None);
}

#[test]
fn update_writes_exactly_the_matching_streams() {
    let mut inv = sample_inventory();
    let writes = inv.apply_update_batch(&vec![upd(1, "50", "ON"), upd(0, "", "OFF")]);
    assert_eq!(
        writes,
        vec![
            StreamWrite { channel: 1, state: Some(DeviceState::On), brightness: Some(50) },
            StreamWrite { channel: 0, state: Some(DeviceState::Off), brightness: None },
        ]
    );
    assert_eq!(inv.entries[0].state, Some(DeviceState::Off));
    assert_eq!(inv.entries[1].state, Some(DeviceState::On));
    assert_eq!(inv.entries[1].brightness, Some(50));
}

#[test]
fn dimmer_sentinel_minus_one_means_zero() {
    let mut inv = sample_inventory();
    let writes = inv.apply_update_batch(&vec![upd(1, "-1", "OFF")]);
    assert_eq!(
        writes,
        vec![StreamWrite { channel: 1, state: Some(DeviceState::Off), brightness: Some(0) }]
    );
    assert_eq!(inv.entries[1].brightness, Some(0));
}

#[test]
fn unparsable_update_strings_are_skipped() {
    let mut inv = sample_inventory();
    let writes = inv.apply_update_batch(&vec![upd(0, "", "glitch")]);
    assert_eq!(writes, Vec::<StreamWrite>::new());
    assert_eq!(inv.entries[0].state, None);
}

#[test]
fn synthetic_echo_reaches_state_streams() {
    let mut inv = sample_inventory();
    let writes = inv.apply_state_batch(&vec![(0, DeviceState::On), (7, DeviceState::Off)]);
    assert_eq!(
        writes,
        vec![StreamWrite { channel: 0, state: Some(DeviceState::On), brightness: None }]
    );
    assert_eq!(inv.entries[0].state, Some(DeviceState::On));
    assert_eq!(inv.entries[1].state, None);
}

#[test]
fn synthetic_states_mapping() {
    let values = vec![
        ItemSetValue { value: SetValue::On(ClickDuration::Long), number: 3 },
        ItemSetValue { value: SetValue::Off(ClickDuration::Short), number: 4 },
        ItemSetValue { value: SetValue::Dimm(0), number: 5 },
        ItemSetValue { value: SetValue::Dimm(50), number: 6 },
        ItemSetValue { value: SetValue::Blinds(0), number: 7 },
        ItemSetValue { value: SetValue::Blinds(9), number: 8 },
    ];
    assert_eq!(
        synthetic_states(&values),
        vec![
            (3, DeviceState::On),
            (4, DeviceState::Off),
            (5, DeviceState::Off),
            (6, DeviceState::On),
            (7, DeviceState::Off),
            (8, DeviceState::On),
        ]
    );
}

#[test]
fn rooms_keep_only_visible_lists() {
    let rooms = rooms_of(vec![
        ProjectList {
            number: 0,
            name: "hall".to_owned(),
            items_order: vec![1, 2],
            visible: true,
        },
        ProjectList {
            number: 1,
            name: "attic".to_owned(),
            items_order: vec![3],
            visible: false,
        },
    ]);
    assert_eq!(rooms.len(), 1);
    assert_eq!(rooms[0].name, "hall");
    assert_eq!(rooms[0].items, vec![1, 2]);
}

#[test]
fn wrong_kind_response_fails_the_waiter_and_clears_the_slot() {
    let mut task = CommandTask::new();
    assert_eq!(task.handle_send(RequestKind::Version, 0), SendDisposition::ConnectAndSend);
    // an ITEM_UPDATE arrives while VERSION_RES is awaited
    assert_eq!(task.handle_response(ResponseKind::ItemUpdate, 1), Correlation::WrongKind);
    // the slot is free again: a follow-up get_version succeeds
    assert_eq!(task.handle_send(RequestKind::Version, 2), SendDisposition::SendNow);
    assert_eq!(task.handle_response(ResponseKind::Version, 3), Correlation::Delivered);
}

#[test]
fn second_request_cannot_take_an_occupied_slot() {
    let mut task = CommandTask::new();
    assert_eq!(task.handle_send(RequestKind::Version, 0), SendDisposition::ConnectAndSend);
    assert_eq!(task.handle_send(RequestKind::ProjectList, 1), SendDisposition::Reject);
}

#[test]
fn response_with_no_waiter_is_dropped() {
    let mut task = CommandTask::new();
    assert_eq!(task.handle_response(ResponseKind::ItemUpdate, 5), Correlation::NoWaiter);
}

#[test]
fn idle_socket_closes_and_reopens() {
    let mut task = CommandTask::new();
    assert_eq!(task.handle_send(RequestKind::Version, 0), SendDisposition::ConnectAndSend);
    assert_eq!(task.handle_response(ResponseKind::Version, 100), Correlation::Delivered);
    // before the idle limit the socket stays
    assert!(!task.should_close(100 + 14_999));
    // twenty seconds later the socket has been idle past the limit
    assert!(task.should_close(100 + 20_000));
    task.handle_idle_close();
    // the next request reconnects first, and both calls succeed
    assert_eq!(task.handle_send(RequestKind::Version, 20_100), SendDisposition::ConnectAndSend);
    assert_eq!(task.handle_response(ResponseKind::Version, 20_200), Correlation::Delivered);
}

#[test]
fn recv_error_disconnects_and_fails_the_waiter() {
    let mut task = CommandTask::new();
    task.handle_send(RequestKind::ProjectList, 0);
    assert!(task.handle_recv_error());
    // the retry must reconnect; a send failure then fails its waiter too
    assert_eq!(task.handle_send(RequestKind::ProjectList, 1), SendDisposition::ConnectAndSend);
    assert!(task.handle_send_error());
    assert_eq!(task.handle_response(ResponseKind::ProjectList, 2), Correlation::NoWaiter);
}

#[test]
fn event_reconnect_uses_backoff_and_resubscribes() {
    let mut evt = EventTask::new(sample_inventory());
    // the connection dies: wait the initial backoff of half a second
    assert_eq!(evt.step(EventInput::RecvFailed), EventAction::Sleep(500));
    // reconnected: subscribe for the whole inventory
    assert_eq!(evt.step(EventInput::Connected), EventAction::SendSubscribe(vec![0, 1]));
    // a subsequent update is applied normally
    let update = ItemUpdateInd { values: vec![upd(0, "", "ON")] };
    match evt.step(EventInput::Inbound(Response::ItemUpdate(update))) {
        EventAction::Writes(ws) => assert_eq!(
            ws,
            vec![StreamWrite { channel: 0, state: Some(DeviceState::On), brightness: None }]
        ),
        other => panic!("expected writes, got {:?}", other),
    }
    assert_eq!(evt.inventory.entries[0].state, Some(DeviceState::On));
    // the update reset the backoff: the next failure waits 500 ms again
    assert_eq!(evt.step(EventInput::ConnectFailed), EventAction::Sleep(500));
}

#[test]
fn event_backoff_grows_by_half() {
    let mut evt = EventTask::new(Inventory { entries: vec![] });
    assert_eq!(evt.step(EventInput::ConnectFailed), EventAction::Sleep(500));
    assert_eq!(evt.step(EventInput::ConnectFailed), EventAction::Sleep(750));
    assert_eq!(evt.step(EventInput::ConnectFailed), EventAction::Sleep(1125));
}

#[test]
fn event_wrong_kind_rebuilds_the_connection() {
    let mut evt = EventTask::new(sample_inventory());
    let version = "{\"CMD\":\"VERSION_RES\",\"PROTOCOL\":\"0.03\",\"FIRMWARE\":\"2.6\",\
                   \"HARDWARE\":\"1.0\",\"ENET\":\"0.03\"}";
    let mut dec = enet_client::enc::EnetDecoder::new();
    dec.push(version.as_bytes());
    dec.push(b"\r\n\r\n");
    let resp = dec.decode().unwrap().unwrap();
    assert_eq!(evt.step(EventInput::Inbound(resp)), EventAction::Sleep(500));
}

#[test]
fn event_mailbox_and_shutdown() {
    let mut evt = EventTask::new(sample_inventory());
    match evt.step(EventInput::Mailbox(vec![(1, DeviceState::On)])) {
        EventAction::Writes(ws) => assert_eq!(
            ws,
            vec![StreamWrite { channel: 1, state: Some(DeviceState::On), brightness: None }]
        ),
        other => panic!("expected writes, got {:?}", other),
    }
    assert_eq!(evt.step(EventInput::ResubscribeDue), EventAction::SendSubscribe(vec![0, 1]));
    assert_eq!(evt.step(EventInput::MailboxClosed), EventAction::Stop);
}
