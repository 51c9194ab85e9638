use esp_idf_matter::ble::central::{
    ClientAction, EspBtpGattClient, EspBtpGattClientContext, GapEvent, GattcChr, GattcEvent,
    GattcService, Wake,
};
use esp_idf_matter::ble::{
    BleUuid, BtAddr, HostEvent, OwnAddrType, C1_CHARACTERISTIC_UUID, C2_CHARACTERISTIC_UUID,
    C3_CHARACTERISTIC_UUID, MATTER_BLE_SERVICE_UUID16, MAX_MTU_SIZE,
};
use esp_idf_matter::error::ErrorCode;

const PEER: BtAddr = BtAddr([1, 2, 3, 4, 5, 6]);
const CONN: u16 = 3;
const C1: u16 = 20;
const C2: u16 = 22;

const IDLE: Wake = Wake { progress: false, incoming: false, outgoing: false };
const PROGRESS: Wake = Wake { progress: true, incoming: false, outgoing: false };
const INCOMING: Wake = Wake { progress: false, incoming: true, outgoing: false };
const OUTGOING: Wake = Wake { progress: false, incoming: false, outgoing: true };
const ALL: Wake = Wake { progress: true, incoming: true, outgoing: true };

fn service(uuid: BleUuid, start_handle: u16, end_handle: u16) -> GattcEvent<'static> {
    GattcEvent::Service { service: Some(GattcService { start_handle, end_handle, uuid }) }
}

fn chr(uuid: u128, val_handle: u16) -> GattcEvent<'static> {
    GattcEvent::Characteristic { chr: Some(GattcChr { val_handle, uuid: BleUuid::Uuid128(uuid) }) }
}

fn discovered() -> EspBtpGattClientContext {
    let mut context = EspBtpGattClientContext::new();
    context.on_host_event(HostEvent::Sync);
    context.on_gap_event(GapEvent::Connect { conn_handle: CONN, connected: true });
    context.on_gattc_event(service(BleUuid::Uuid16(MATTER_BLE_SERVICE_UUID16), 16, 30));
    context.on_gattc_event(GattcEvent::Service { service: None });
    context.on_gattc_event(chr(C1_CHARACTERISTIC_UUID, C1));
    context.on_gattc_event(chr(C2_CHARACTERISTIC_UUID, C2));
    context.on_gattc_event(GattcEvent::Characteristic { chr: None });
    context
}

fn indicate(context: &mut EspBtpGattClientContext, attr_handle: u16, data: &[u8]) -> Wake {
    let mut buffer = [0; MAX_MTU_SIZE];
    buffer[..data.len()].copy_from_slice(data);
    context.on_gattc_event(GattcEvent::Notify {
        attr_handle,
        buffer: &buffer,
        copied: Some(data.len()),
    })
}

#[test]
fn a_run_goes_through_all_phases() {
    let mut context = EspBtpGattClientContext::new();
    let mut client = EspBtpGattClient::new(&mut context);
    client.run(&mut context, PEER);
    assert_eq!(client.next(&context, Ok(())), Ok(ClientAction::Wait));

    assert_eq!(context.on_host_event(HostEvent::Sync), PROGRESS);
    assert_eq!(
        client.next(&context, Ok(())),
        Ok(ClientAction::Connect {
            prefer_random: false,
            own_addr_type: OwnAddrType::Public,
            peer_addr_type: 0,
            peer: PEER,
        })
    );
    assert_eq!(client.next(&context, Ok(())), Ok(ClientAction::Wait));

    let connected = GapEvent::Connect { conn_handle: CONN, connected: true };
    assert_eq!(context.on_gap_event(connected), PROGRESS);
    assert_eq!(context.connected_handle(), Some(CONN));
    assert_eq!(client.next(&context, Ok(())), Ok(ClientAction::DiscoverServices { conn: CONN }));
    assert_eq!(client.next(&context, Ok(())), Ok(ClientAction::Wait));

    assert_eq!(context.on_gattc_event(service(BleUuid::Uuid16(0x1800), 1, 15)), IDLE);
    let matter = BleUuid::Uuid16(MATTER_BLE_SERVICE_UUID16);
    assert_eq!(context.on_gattc_event(service(matter, 16, 30)), IDLE);
    assert_eq!(context.on_gattc_event(service(BleUuid::Uuid16(0x1801), 31, 40)), IDLE);
    assert_eq!(context.on_gattc_event(GattcEvent::Service { service: None }), PROGRESS);
    assert_eq!(
        client.next(&context, Ok(())),
        Ok(ClientAction::DiscoverCharacteristics { conn: CONN, start_handle: 16, end_handle: 30 })
    );
    assert_eq!(client.next(&context, Ok(())), Ok(ClientAction::Wait));

    assert_eq!(context.on_gattc_event(chr(C1_CHARACTERISTIC_UUID, C1)), IDLE);
    assert_eq!(context.on_gattc_event(chr(C2_CHARACTERISTIC_UUID, C2)), IDLE);
    assert_eq!(context.on_gattc_event(chr(C3_CHARACTERISTIC_UUID, 26)), IDLE);
    assert_eq!(context.c2_val_handle(), Some(C2));
    assert_eq!(context.on_gattc_event(GattcEvent::Characteristic { chr: None }), PROGRESS);
    assert_eq!(
        client.next(&context, Ok(())),
        Ok(ClientAction::Subscribe { conn: CONN, attr_handle: C2 + 1, value: [2, 0] })
    );
    assert_eq!(client.next(&context, Ok(())), Ok(ClientAction::Wait));

    let subscribed = GattcEvent::WriteComplete { attr_handle: C2 + 1, status: 0 };
    assert_eq!(context.on_gattc_event(subscribed), PROGRESS);
    let pump = ClientAction::Pump { conn: CONN, c1_val: C1 };
    assert_eq!(client.next(&context, Ok(())), Ok(pump));
    assert_eq!(client.next(&context, Ok(())), Ok(pump));
}

#[test]
fn a_failed_action_ends_the_run() {
    let mut context = EspBtpGattClientContext::new();
    let mut client = EspBtpGattClient::new(&mut context);
    client.run(&mut context, PEER);
    context.on_host_event(HostEvent::Sync);
    assert!(client.next(&context, Ok(())).is_ok());
    assert_eq!(client.next(&context, Err(6)), Err(ErrorCode::NoNetworkInterface));
}

#[test]
fn a_failed_connection_attempt_ends_the_run() {
    let mut context = EspBtpGattClientContext::new();
    let mut client = EspBtpGattClient::new(&mut context);
    client.run(&mut context, PEER);
    context.on_host_event(HostEvent::Sync);
    client.next(&context, Ok(())).unwrap();
    let refused = GapEvent::Connect { conn_handle: 0, connected: false };
    assert_eq!(context.on_gap_event(refused), PROGRESS);
    assert_eq!(client.next(&context, Ok(())), Err(ErrorCode::NoNetworkInterface));
}

#[test]
fn a_peer_without_the_matter_service_ends_the_run() {
    let mut context = EspBtpGattClientContext::new();
    let mut client = EspBtpGattClient::new(&mut context);
    client.run(&mut context, PEER);
    context.on_host_event(HostEvent::Sync);
    client.next(&context, Ok(())).unwrap();
    context.on_gap_event(GapEvent::Connect { conn_handle: CONN, connected: true });
    client.next(&context, Ok(())).unwrap();
    context.on_gattc_event(GattcEvent::Service { service: None });
    assert_eq!(client.next(&context, Ok(())), Err(ErrorCode::NoNetworkInterface));
}

#[test]
fn a_peer_without_c2_ends_the_run() {
    let mut context = EspBtpGattClientContext::new();
    let mut client = EspBtpGattClient::new(&mut context);
    client.run(&mut context, PEER);
    context.on_host_event(HostEvent::Sync);
    client.next(&context, Ok(())).unwrap();
    context.on_gap_event(GapEvent::Connect { conn_handle: CONN, connected: true });
    client.next(&context, Ok(())).unwrap();
    context.on_gattc_event(service(BleUuid::Uuid16(MATTER_BLE_SERVICE_UUID16), 16, 30));
    context.on_gattc_event(GattcEvent::Service { service: None });
    client.next(&context, Ok(())).unwrap();
    context.on_gattc_event(chr(C1_CHARACTERISTIC_UUID, C1));
    context.on_gattc_event(GattcEvent::Characteristic { chr: None });
    assert_eq!(client.next(&context, Ok(())), Err(ErrorCode::NoNetworkInterface));
}

#[test]
fn a_link_that_drops_during_the_subscription_ends_the_run() {
    let mut context = discovered();
    let mut client = EspBtpGattClient::new(&mut EspBtpGattClientContext::new());
    client.run(&mut context, PEER);
    for _ in 0..4 {
        client.next(&context, Ok(())).unwrap();
    }
    assert_eq!(client.next(&context, Ok(())), Ok(ClientAction::Wait));
    let lost = GapEvent::Disconnect { conn_handle: CONN, reason: 8 };
    assert_eq!(context.on_gap_event(lost), ALL);
    assert_eq!(client.next(&context, Ok(())), Err(ErrorCode::NoNetworkInterface));
}

#[test]
fn a_refused_subscription_does_not_start_the_pumps() {
    let mut context = discovered();
    let mut client = EspBtpGattClient::new(&mut EspBtpGattClientContext::new());
    client.run(&mut context, PEER);
    for _ in 0..4 {
        client.next(&context, Ok(())).unwrap();
    }
    context.on_gattc_event(GattcEvent::WriteComplete { attr_handle: C2 + 1, status: 5 });
    assert_eq!(client.next(&context, Ok(())), Ok(ClientAction::Wait));
}

#[test]
fn the_last_attribute_handle_leaves_none_for_the_descriptor() {
    let mut context = discovered();
    let mut client = EspBtpGattClient::new(&mut EspBtpGattClientContext::new());
    client.run(&mut context, PEER);
    for _ in 0..3 {
        assert!(client.has_next(&context));
        client.next(&context, Ok(())).unwrap();
    }
    assert!(client.has_next(&context));
    context.on_gattc_event(chr(C2_CHARACTERISTIC_UUID, u16::MAX - 1));
    assert!(client.has_next(&context));
    context.on_gattc_event(chr(C2_CHARACTERISTIC_UUID, u16::MAX));
    assert!(!client.has_next(&context));
}

#[test]
fn a_failure_is_final() {
    let mut context = discovered();
    context.on_gap_event(GapEvent::Disconnect { conn_handle: CONN, reason: 8 });
    context.on_gap_event(GapEvent::Connect { conn_handle: CONN, connected: true });
    assert_eq!(context.poll_incoming(), Err(ErrorCode::NoNetworkInterface));
    assert_eq!(context.poll_outgoing(), Err(ErrorCode::NoNetworkInterface));
}

#[test]
fn the_mtu_is_only_taken_for_the_connection() {
    let mut context = EspBtpGattClientContext::new();
    assert_eq!(context.on_gap_event(GapEvent::Mtu { conn_handle: CONN, value: 100 }), IDLE);
    assert_eq!(context.poll_outgoing(), Ok(Some(None)));
    context.on_gap_event(GapEvent::Connect { conn_handle: CONN, connected: true });
    assert_eq!(context.on_gap_event(GapEvent::Mtu { conn_handle: CONN + 1, value: 100 }), IDLE);
    assert_eq!(context.poll_outgoing(), Ok(Some(None)));
    assert_eq!(context.on_gap_event(GapEvent::Mtu { conn_handle: CONN, value: 247 }), IDLE);
    assert_eq!(context.poll_outgoing(), Ok(Some(Some(247))));
    assert_eq!(context.on_gap_event(GapEvent::Other), IDLE);
}

#[test]
fn an_indication_is_delivered() {
    let mut context = discovered();
    let mut client = EspBtpGattClient::new(&mut EspBtpGattClientContext::new());
    client.run(&mut context, PEER);
    assert_eq!(context.poll_incoming(), Ok(None));
    assert_eq!(indicate(&mut context, C2, &[1, 2, 3]), INCOMING);
    let delivery = context.poll_incoming().unwrap().unwrap();
    assert_eq!(delivery.peer, PEER);
    assert_eq!(delivery.mtu, None);
    assert_eq!(delivery.data, &[1, 2, 3]);
    assert_eq!(context.incoming_processed::<u8>(Ok(())), Ok(true));
    assert_eq!(context.poll_incoming(), Ok(None));
}

#[test]
fn an_indication_that_comes_too_early_is_dropped() {
    let mut context = discovered();
    indicate(&mut context, C2, &[1]);
    assert_eq!(indicate(&mut context, C2, &[2]), INCOMING);
    assert_eq!(context.poll_incoming().unwrap().unwrap().data, &[1]);
    assert_eq!(context.incoming_processed(Err("engine")), Err("engine"));
    assert_eq!(context.poll_incoming().unwrap().unwrap().data, &[1]);
}

#[test]
fn an_indication_that_cannot_be_copied_is_dropped() {
    let mut context = discovered();
    let buffer = [7; MAX_MTU_SIZE];
    let event = GattcEvent::Notify { attr_handle: C2, buffer: &buffer, copied: None };
    assert_eq!(context.on_gattc_event(event), INCOMING);
    assert_eq!(context.poll_incoming(), Ok(None));
    assert_eq!(indicate(&mut context, C2, &[1]), INCOMING);
    assert_eq!(context.poll_incoming().unwrap().unwrap().data, &[1]);
}

#[test]
fn indications_of_other_attributes_are_ignored() {
    let mut context = discovered();
    assert_eq!(indicate(&mut context, C1, &[1]), IDLE);
    assert_eq!(context.poll_incoming(), Ok(None));
    assert_eq!(context.on_gattc_event(GattcEvent::ReadComplete), IDLE);
}

#[test]
fn one_segment_is_in_flight_at_a_time() {
    let mut context = discovered();
    let mut buffer = [0; MAX_MTU_SIZE];
    buffer[..3].copy_from_slice(&[4, 5, 6]);
    assert_eq!(context.poll_outgoing(), Ok(Some(None)));
    assert_eq!(context.outgoing_filled::<u8>(&buffer, Ok(2)), Ok(Some(vec![4, 5])));
    assert_eq!(context.segment_written(Ok(())), Ok(true));
    assert_eq!(context.poll_outgoing(), Ok(None));
    let other = GattcEvent::WriteComplete { attr_handle: 99, status: 0 };
    assert_eq!(context.on_gattc_event(other), IDLE);
    assert_eq!(context.poll_outgoing(), Ok(None));
    let acknowledged = GattcEvent::WriteComplete { attr_handle: C1, status: 0 };
    assert_eq!(context.on_gattc_event(acknowledged), OUTGOING);
    assert_eq!(context.poll_outgoing(), Ok(Some(None)));
}

#[test]
fn nothing_is_written_of_an_engine_that_has_nothing() {
    let mut context = discovered();
    let buffer = [0; MAX_MTU_SIZE];
    assert_eq!(context.outgoing_filled::<u8>(&buffer, Ok(0)), Ok(None));
    assert_eq!(context.outgoing_filled(&buffer, Err("engine")), Err("engine"));
    assert_eq!(context.poll_outgoing(), Ok(Some(None)));
}

#[test]
fn a_write_that_cannot_start_ends_the_pump() {
    let mut context = discovered();
    assert_eq!(context.segment_written(Err(6)), Err(ErrorCode::NoNetworkInterface));
    assert_eq!(context.poll_outgoing(), Ok(Some(None)));
}

#[test]
fn a_new_central_forgets_everything() {
    let mut context = discovered();
    context.on_gap_event(GapEvent::Disconnect { conn_handle: CONN, reason: 8 });
    EspBtpGattClient::new(&mut context);
    assert_eq!(context.connected_handle(), None);
    assert_eq!(context.c2_val_handle(), None);
    assert_eq!(context.poll_incoming(), Ok(None));
    let mut context = discovered();
    EspBtpGattClientContext::init(&mut context);
    assert_eq!(context.connected_handle(), None);
    assert_eq!(EspBtpGattClientContext::default().connected_handle(), None);
}

#[test]
fn indications_are_delivered_in_order() {
    let mut context = discovered();
    let mut delivered = Vec::new();
    for packet in 0..6u8 {
        indicate(&mut context, C2, &[packet, packet]);
        indicate(&mut context, C2, &[0xEE]);
        delivered.push(context.poll_incoming().unwrap().unwrap().data.to_vec());
        context.incoming_processed::<u8>(Ok(())).unwrap();
    }
    let expected: Vec<Vec<u8>> = (0..6u8).map(|packet| vec![packet, packet]).collect();
    assert_eq!(delivered, expected);
}

#[test]
fn the_pumps_leave_a_segment_in_flight() {
    let mut context = discovered();
    let buffer = [3; MAX_MTU_SIZE];
    indicate(&mut context, C2, &[1]);
    context.outgoing_filled::<u8>(&buffer, Ok(4)).unwrap();
    context.segment_written(Ok(())).unwrap();
    context.incoming_processed::<u8>(Ok(())).unwrap();
    assert_eq!(context.poll_outgoing(), Ok(None));
}

#[test]
fn the_last_match_wins() {
    let mut context = EspBtpGattClientContext::new();
    let mut client = EspBtpGattClient::new(&mut EspBtpGattClientContext::new());
    client.run(&mut context, PEER);
    context.on_host_event(HostEvent::Sync);
    client.next(&context, Ok(())).unwrap();
    context.on_gap_event(GapEvent::Connect { conn_handle: CONN, connected: true });
    context.on_gap_event(GapEvent::Connect { conn_handle: CONN + 1, connected: true });
    context.on_gap_event(GapEvent::Mtu { conn_handle: CONN, value: 50 });
    context.on_gap_event(GapEvent::Mtu { conn_handle: CONN + 1, value: 60 });
    assert_eq!(context.poll_outgoing(), Ok(Some(Some(60))));
    assert_eq!(
        client.next(&context, Ok(())),
        Ok(ClientAction::DiscoverServices { conn: CONN + 1 })
    );
    let matter = BleUuid::Uuid16(MATTER_BLE_SERVICE_UUID16);
    context.on_gattc_event(service(matter, 1, 2));
    context.on_gattc_event(service(matter, 16, 30));
    assert_eq!(client.next(&context, Ok(())), Ok(ClientAction::Wait));
    context.on_gattc_event(GattcEvent::Service { service: None });
    assert_eq!(
        client.next(&context, Ok(())),
        Ok(ClientAction::DiscoverCharacteristics {
            conn: CONN + 1,
            start_handle: 16,
            end_handle: 30,
        })
    );
    context.on_gattc_event(chr(C1_CHARACTERISTIC_UUID, 5));
    context.on_gattc_event(chr(C1_CHARACTERISTIC_UUID, C1));
    context.on_gattc_event(chr(C2_CHARACTERISTIC_UUID, 7));
    context.on_gattc_event(chr(C2_CHARACTERISTIC_UUID, C2));
    assert_eq!(client.next(&context, Ok(())), Ok(ClientAction::Wait));
    context.on_gattc_event(GattcEvent::Characteristic { chr: None });
    assert_eq!(
        client.next(&context, Ok(())),
        Ok(ClientAction::Subscribe { conn: CONN + 1, attr_handle: C2 + 1, value: [2, 0] })
    );
    context.on_gattc_event(chr(C1_CHARACTERISTIC_UUID, 99));
    context.on_gattc_event(GattcEvent::WriteComplete { attr_handle: C2 + 1, status: 0 });
    assert_eq!(
        client.next(&context, Ok(())),
        Ok(ClientAction::Pump { conn: CONN + 1, c1_val: C1 })
    );
}
