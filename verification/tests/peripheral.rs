use esp_idf_matter::ble::peripheral::{
    AdvertiseCommand, AttStatus, BleGattRegister, ConnMode, Connection, DiscMode,
    EspBtpGattContext, EspBtpGattPeripheral, GapEvent, GattsEvent, OutgoingSlot, StartCommand, Wake,
};
use esp_idf_matter::ble::{
    BleUuid, BtAddr, HostEvent, OwnAddrType, C1_CHARACTERISTIC_UUID, C2_CHARACTERISTIC_UUID,
    MAX_MTU_SIZE,
};
use esp_idf_matter::error::{to_matter_err, to_matter_err_ble, ErrorCode};

const PEER: BtAddr = BtAddr([1, 2, 3, 4, 5, 6]);
const C2: u16 = 17;

const IDLE: Wake = Wake { incoming: false, outgoing: false };
const INCOMING: Wake = Wake { incoming: true, outgoing: false };
const OUTGOING: Wake = Wake { incoming: false, outgoing: true };
const BOTH: Wake = Wake { incoming: true, outgoing: true };

fn connect(context: &mut EspBtpGattContext, conn_handle: u16) -> Wake {
    context.on_gap_event(GapEvent::Connect {
        conn_handle,
        connected: true,
        peer: Some(PEER),
        mtu: Some(23),
    })
}

fn subscribe(context: &mut EspBtpGattContext, conn_handle: u16, on: bool) -> Wake {
    let mut c2 = C2;
    let (status, wake) = context.on_gatts_event(
        GattsEvent::SubscriptionChanged { conn_handle, attr_handle: C2, cur_indicate: on },
        &mut c2,
    );
    assert_eq!(status, AttStatus::Success);
    assert_eq!(c2, C2);
    wake
}

fn buffer_of(data: &[u8]) -> [u8; MAX_MTU_SIZE] {
    let mut buffer = [0; MAX_MTU_SIZE];
    buffer[..data.len()].copy_from_slice(data);
    buffer
}

fn write(context: &mut EspBtpGattContext, data: &[u8]) -> (AttStatus, Wake) {
    let buffer = buffer_of(data);
    let mut c2 = C2;
    context.on_gatts_event(GattsEvent::Write { buffer: &buffer, copied: Some(data.len()) }, &mut c2)
}

fn complete(context: &mut EspBtpGattContext, indication: bool, status: i32) -> Wake {
    let mut c2 = C2;
    context.on_gatts_event(GattsEvent::NotifyComplete { indication, status }, &mut c2).1
}

#[test]
fn a_fresh_context_has_no_connection() {
    let context = EspBtpGattContext::new();
    assert_eq!(context.connection(), None);
    assert_eq!(context.adv_data().len(), 0);
    assert_eq!(context.poll_outgoing(C2), None);
    assert_eq!(EspBtpGattContext::default().connection(), None);
}

#[test]
fn a_context_is_initialized_in_place() {
    let mut context = EspBtpGattContext::new();
    connect(&mut context, 1);
    EspBtpGattContext::init(&mut context);
    assert_eq!(context.connection(), None);
}

#[test]
fn the_host_sync_requests_advertising_once() {
    let mut context = EspBtpGattContext::new();
    assert!(!context.take_need_advertise());
    assert_eq!(context.on_host_event(HostEvent::Reset { reason: 3 }), IDLE);
    assert!(!context.take_need_advertise());
    assert_eq!(context.on_host_event(HostEvent::Sync), OUTGOING);
    assert!(context.take_need_advertise());
    assert!(!context.take_need_advertise());
}

#[test]
fn a_failed_connection_attempt_requests_advertising() {
    let mut context = EspBtpGattContext::new();
    let wake = context.on_gap_event(GapEvent::Connect {
        conn_handle: 1,
        connected: false,
        peer: None,
        mtu: None,
    });
    assert_eq!(wake, OUTGOING);
    assert_eq!(context.connection(), None);
    assert!(context.take_need_advertise());
}

#[test]
fn a_connection_is_recorded() {
    let mut context = EspBtpGattContext::new();
    assert_eq!(connect(&mut context, 5), INCOMING);
    assert_eq!(
        context.connection(),
        Some(Connection { peer: PEER, conn_handle: 5, subscribed: false, mtu: Some(23) })
    );
    let wake = context.on_gap_event(GapEvent::Connect {
        conn_handle: 6,
        connected: true,
        peer: None,
        mtu: None,
    });
    assert_eq!(wake, INCOMING);
    assert_eq!(
        context.connection(),
        Some(Connection { peer: BtAddr([0; 6]), conn_handle: 6, subscribed: false, mtu: None })
    );
}

#[test]
fn a_disconnect_ends_the_session_and_requests_advertising() {
    let mut context = EspBtpGattContext::new();
    connect(&mut context, 5);
    write(&mut context, &[1, 2]);
    let wake = context.on_gap_event(GapEvent::Disconnect { conn_handle: 5, reason: 19 });
    assert_eq!(wake, BOTH);
    assert_eq!(context.connection(), None);
    assert!(context.take_need_advertise());
    let mut peripheral = EspBtpGattPeripheral::new(&mut context);
    let step = peripheral.poll_incoming(&context);
    assert!(!step.reset_btp);
    assert_eq!(step.delivery, None);
}

#[test]
fn the_mtu_is_only_taken_for_the_current_connection() {
    let mut context = EspBtpGattContext::new();
    connect(&mut context, 5);
    assert_eq!(context.on_gap_event(GapEvent::Mtu { conn_handle: 6, value: 100 }), IDLE);
    assert_eq!(context.connection().unwrap().mtu, Some(23));
    assert_eq!(context.on_gap_event(GapEvent::Mtu { conn_handle: 5, value: 247 }), IDLE);
    assert_eq!(context.connection().unwrap().mtu, Some(247));
    assert_eq!(context.on_gap_event(GapEvent::Other), IDLE);
    assert_eq!(context.connection().unwrap().mtu, Some(247));
}

#[test]
fn the_handle_of_c2_is_learned_from_its_registration() {
    let mut context = EspBtpGattContext::new();
    let mut c2 = 0;
    let c1_registered = BleGattRegister::Characteristic {
        uuid: BleUuid::Uuid128(C1_CHARACTERISTIC_UUID),
        def_handle: 10,
        val_handle: 11,
    };
    context.on_gatts_event(GattsEvent::Register(c1_registered), &mut c2);
    assert_eq!(c2, 0);
    let c2_registered = BleGattRegister::Characteristic {
        uuid: BleUuid::Uuid128(C2_CHARACTERISTIC_UUID),
        def_handle: 12,
        val_handle: 13,
    };
    let (status, wake) = context.on_gatts_event(GattsEvent::Register(c2_registered), &mut c2);
    assert_eq!(status, AttStatus::Success);
    assert_eq!(wake, IDLE);
    assert_eq!(c2, 13);
    let service = BleGattRegister::Service { uuid: BleUuid::Uuid16(0xFFF6), handle: 9 };
    context.on_gatts_event(GattsEvent::Register(service), &mut c2);
    assert_eq!(c2, 13);
}

#[test]
fn a_read_of_c3_is_answered_with_success() {
    let mut context = EspBtpGattContext::new();
    let mut c2 = C2;
    assert_eq!(context.on_gatts_event(GattsEvent::Read, &mut c2), (AttStatus::Success, IDLE));
}

#[test]
fn a_write_is_delivered_with_what_is_known_of_the_peer() {
    let mut context = EspBtpGattContext::new();
    let mut peripheral = EspBtpGattPeripheral::new(&mut context);
    connect(&mut context, 5);
    assert_eq!(write(&mut context, &[7, 8, 9]), (AttStatus::Success, INCOMING));
    let step = peripheral.poll_incoming(&context);
    assert!(step.reset_btp);
    let delivery = step.delivery.unwrap();
    assert_eq!(delivery.mtu, Some(23));
    assert_eq!(delivery.peer, PEER);
    assert_eq!(delivery.data, &[7, 8, 9]);
    assert_eq!(context.incoming_processed::<u8>(Ok(())), Ok(true));
    let step = peripheral.poll_incoming(&context);
    assert!(!step.reset_btp);
    assert_eq!(step.delivery, None);
}

#[test]
fn a_pending_packet_is_not_overwritten() {
    let mut context = EspBtpGattContext::new();
    let mut peripheral = EspBtpGattPeripheral::new(&mut context);
    connect(&mut context, 5);
    assert_eq!(write(&mut context, &[1]), (AttStatus::Success, INCOMING));
    assert_eq!(write(&mut context, &[2]), (AttStatus::InsufficientResources, IDLE));
    assert_eq!(peripheral.poll_incoming(&context).delivery.unwrap().data, &[1]);
    assert_eq!(context.incoming_processed::<u8>(Ok(())), Ok(true));
    assert_eq!(write(&mut context, &[2]), (AttStatus::Success, INCOMING));
    assert_eq!(peripheral.poll_incoming(&context).delivery.unwrap().data, &[2]);
}

#[test]
fn a_failed_delivery_is_passed_on() {
    let mut context = EspBtpGattContext::new();
    let mut peripheral = EspBtpGattPeripheral::new(&mut context);
    connect(&mut context, 5);
    write(&mut context, &[1]);
    assert_eq!(context.incoming_processed(Err("engine")), Err("engine"));
    assert_eq!(peripheral.poll_incoming(&context).delivery.unwrap().data, &[1]);
}

#[test]
fn a_write_that_cannot_be_copied_is_refused_and_takes_the_room() {
    let mut context = EspBtpGattContext::new();
    connect(&mut context, 5);
    let buffer = buffer_of(&[1]);
    let mut c2 = C2;
    let reply = context.on_gatts_event(GattsEvent::Write { buffer: &buffer, copied: None }, &mut c2);
    assert_eq!(reply, (AttStatus::InsufficientResources, IDLE));
    assert_eq!(write(&mut context, &[2]), (AttStatus::InsufficientResources, IDLE));
    let mut peripheral = EspBtpGattPeripheral::new(&mut EspBtpGattContext::new());
    assert_eq!(peripheral.poll_incoming(&context).delivery.unwrap().data.len(), MAX_MTU_SIZE);
}

#[test]
fn an_empty_write_is_accepted_and_not_delivered() {
    let mut context = EspBtpGattContext::new();
    let mut peripheral = EspBtpGattPeripheral::new(&mut context);
    connect(&mut context, 5);
    assert_eq!(write(&mut context, &[]), (AttStatus::Success, INCOMING));
    assert_eq!(peripheral.poll_incoming(&context).delivery, None);
}

#[test]
fn the_engine_starts_over_on_each_connection() {
    let mut context = EspBtpGattContext::new();
    let mut peripheral = EspBtpGattPeripheral::new(&mut context);
    assert!(!peripheral.poll_incoming(&context).reset_btp);
    connect(&mut context, 5);
    assert!(peripheral.poll_incoming(&context).reset_btp);
    assert!(!peripheral.poll_incoming(&context).reset_btp);
    context.on_gap_event(GapEvent::Disconnect { conn_handle: 5, reason: 0 });
    assert!(!peripheral.poll_incoming(&context).reset_btp);
    connect(&mut context, 5);
    assert!(peripheral.poll_incoming(&context).reset_btp);
}

#[test]
fn indications_wait_for_the_subscription() {
    let mut context = EspBtpGattContext::new();
    assert_eq!(subscribe(&mut context, 5, true), OUTGOING);
    connect(&mut context, 5);
    assert_eq!(context.poll_outgoing(C2), None);
    assert_eq!(subscribe(&mut context, 6, true), OUTGOING);
    assert_eq!(context.poll_outgoing(C2), None);
    assert_eq!(subscribe(&mut context, 5, true), OUTGOING);
    assert_eq!(
        context.poll_outgoing(C2),
        Some(OutgoingSlot { mtu: Some(23), conn_handle: 5, attr_handle: C2 })
    );
    assert_eq!(context.poll_outgoing(0), None);
    assert_eq!(subscribe(&mut context, 5, false), OUTGOING);
    assert_eq!(context.poll_outgoing(C2), None);
}

#[test]
fn a_subscription_to_another_attribute_does_not_count() {
    let mut context = EspBtpGattContext::new();
    connect(&mut context, 5);
    let mut c2 = C2;
    let reply = context.on_gatts_event(
        GattsEvent::SubscriptionChanged { conn_handle: 5, attr_handle: C2 + 1, cur_indicate: true },
        &mut c2,
    );
    assert_eq!(reply, (AttStatus::Success, IDLE));
    assert!(!context.connection().unwrap().subscribed);
}

#[test]
fn one_indication_is_in_flight_at_a_time() {
    let mut context = EspBtpGattContext::new();
    connect(&mut context, 5);
    subscribe(&mut context, 5, true);
    let slot = context.poll_outgoing(C2).unwrap();
    let buffer = buffer_of(&[4, 5, 6]);
    let sent = context.outgoing_filled::<u8>(slot, &buffer, Ok(2)).unwrap().unwrap();
    assert_eq!(sent.conn_handle, 5);
    assert_eq!(sent.attr_handle, C2);
    assert_eq!(sent.data, vec![4, 5]);
    assert_eq!(context.indication_sent(Ok(())), Ok(true));
    assert_eq!(context.poll_outgoing(C2), None);
    assert_eq!(complete(&mut context, true, 0), IDLE);
    assert_eq!(complete(&mut context, false, 14), IDLE);
    assert_eq!(context.poll_outgoing(C2), None);
    assert_eq!(complete(&mut context, true, 14), OUTGOING);
    assert!(context.poll_outgoing(C2).is_some());
}

#[test]
fn nothing_is_sent_of_an_engine_that_has_nothing() {
    let mut context = EspBtpGattContext::new();
    connect(&mut context, 5);
    subscribe(&mut context, 5, true);
    let slot = context.poll_outgoing(C2).unwrap();
    let buffer = buffer_of(&[]);
    assert!(context.outgoing_filled::<u8>(slot, &buffer, Ok(0)).unwrap().is_none());
    assert!(context.poll_outgoing(C2).is_some());
    assert_eq!(context.outgoing_filled(slot, &buffer, Err("engine")).err(), Some("engine"));
    assert!(context.poll_outgoing(C2).is_some());
}

#[test]
fn a_failed_indication_does_not_block_the_next_one() {
    let mut context = EspBtpGattContext::new();
    connect(&mut context, 5);
    subscribe(&mut context, 5, true);
    let slot = context.poll_outgoing(C2).unwrap();
    let buffer = buffer_of(&[4]);
    context.outgoing_filled::<u8>(slot, &buffer, Ok(1)).unwrap();
    assert_eq!(context.poll_outgoing(C2), None);
    assert_eq!(context.indication_sent(Err(6)), Err(ErrorCode::NoNetworkInterface));
    assert!(context.poll_outgoing(C2).is_some());
}

#[test]
fn an_acknowledgment_may_come_before_the_send_returns() {
    let mut context = EspBtpGattContext::new();
    connect(&mut context, 5);
    subscribe(&mut context, 5, true);
    let slot = context.poll_outgoing(C2).unwrap();
    let buffer = buffer_of(&[4]);
    context.outgoing_filled::<u8>(slot, &buffer, Ok(1)).unwrap();
    assert_eq!(complete(&mut context, true, 14), OUTGOING);
    assert_eq!(context.indication_sent(Ok(())), Ok(true));
    assert!(context.poll_outgoing(C2).is_some());
}

#[test]
fn a_new_connection_starts_clean() {
    let mut context = EspBtpGattContext::new();
    connect(&mut context, 5);
    subscribe(&mut context, 5, true);
    write(&mut context, &[1]);
    let slot = context.poll_outgoing(C2).unwrap();
    let buffer = buffer_of(&[4]);
    context.outgoing_filled::<u8>(slot, &buffer, Ok(1)).unwrap();
    connect(&mut context, 7);
    assert!(!context.connection().unwrap().subscribed);
    assert_eq!(write(&mut context, &[2]), (AttStatus::Success, INCOMING));
    subscribe(&mut context, 7, true);
    assert_eq!(context.poll_outgoing(C2).unwrap().conn_handle, 7);
}

#[test]
fn the_advertising_payload_is_replaced_by_a_run() {
    let mut context = EspBtpGattContext::new();
    let mut peripheral = EspBtpGattPeripheral::new(&mut context);
    assert_eq!(peripheral.run(&mut context, &[2, 1, 6]), Ok(()));
    assert_eq!(context.adv_data(), &[2, 1, 6]);
    assert_eq!(peripheral.run(&mut context, &[9; 32]), Ok(()));
    assert_eq!(context.adv_data(), &[9; 32]);
    assert_eq!(context.set_adv_data(&[1]), Ok(()));
    assert_eq!(context.adv_data(), &[1]);
}

#[test]
fn an_advertising_payload_that_is_too_long_is_refused() {
    let mut context = EspBtpGattContext::new();
    let mut peripheral = EspBtpGattPeripheral::new(&mut context);
    assert_eq!(peripheral.run(&mut context, &[9; 33]), Err(ErrorCode::NoSpace));
    assert_eq!(context.adv_data(), &[9; 32]);
}

#[test]
fn a_new_peripheral_drops_the_session_but_not_the_advertise_request() {
    let mut context = EspBtpGattContext::new();
    context.set_adv_data(&[1, 2]).unwrap();
    context.on_host_event(HostEvent::Sync);
    connect(&mut context, 5);
    write(&mut context, &[1]);
    let mut peripheral = EspBtpGattPeripheral::new(&mut context);
    assert_eq!(context.connection(), None);
    assert_eq!(context.adv_data().len(), 0);
    assert!(context.take_need_advertise());
    assert_eq!(peripheral.poll_incoming(&context).delivery, None);
    assert_eq!(write(&mut context, &[2]), (AttStatus::Success, INCOMING));
}

#[test]
fn driver_errors_are_interface_errors() {
    assert_eq!(to_matter_err(258), ErrorCode::NoNetworkInterface);
    assert_eq!(to_matter_err_ble(6), ErrorCode::NoNetworkInterface);
}

#[test]
fn packets_are_delivered_in_order() {
    let mut context = EspBtpGattContext::new();
    let mut peripheral = EspBtpGattPeripheral::new(&mut context);
    connect(&mut context, 5);
    let mut delivered = Vec::new();
    for packet in 0..6u8 {
        let (status, _) = write(&mut context, &[packet, packet]);
        let refused = write(&mut context, &[0xEE]).0;
        assert_eq!(status, AttStatus::Success);
        assert_eq!(refused, AttStatus::InsufficientResources);
        let step = peripheral.poll_incoming(&context);
        delivered.push(step.delivery.unwrap().data.to_vec());
        context.incoming_processed::<u8>(Ok(())).unwrap();
    }
    let expected: Vec<Vec<u8>> = (0..6u8).map(|packet| vec![packet, packet]).collect();
    assert_eq!(delivered, expected);
}

#[test]
fn the_pumps_leave_an_indication_in_flight() {
    let mut context = EspBtpGattContext::new();
    let mut peripheral = EspBtpGattPeripheral::new(&mut context);
    context.on_host_event(HostEvent::Sync);
    connect(&mut context, 5);
    subscribe(&mut context, 5, true);
    write(&mut context, &[1]);
    let slot = context.poll_outgoing(C2).unwrap();
    let buffer = buffer_of(&[4]);
    context.outgoing_filled::<u8>(slot, &buffer, Ok(1)).unwrap();
    assert!(context.take_need_advertise());
    assert!(peripheral.poll_incoming(&context).reset_btp);
    context.incoming_processed::<u8>(Ok(())).unwrap();
    assert_eq!(context.indication_sent(Ok(())), Ok(true));
    assert_eq!(context.poll_outgoing(C2), None);
}

#[test]
fn the_engine_is_reset_once_before_the_deliveries_of_a_connection() {
    let mut context = EspBtpGattContext::new();
    let mut peripheral = EspBtpGattPeripheral::new(&mut context);
    for conn_handle in 0..3 {
        connect(&mut context, conn_handle);
        for packet in 0..3u8 {
            write(&mut context, &[packet]);
            let step = peripheral.poll_incoming(&context);
            assert_eq!(step.reset_btp, packet == 0);
            assert_eq!(step.delivery.unwrap().data, &[packet]);
            context.incoming_processed::<u8>(Ok(())).unwrap();
        }
    }
}

#[test]
fn a_run_is_started_in_order() {
    let peripheral = EspBtpGattPeripheral::new(&mut EspBtpGattContext::new());
    assert_eq!(
        peripheral.start_commands(),
        [
            StartCommand::PublishContext,
            StartCommand::SubscribeHooks,
            StartCommand::SetDeviceName,
            StartCommand::StartHost,
        ]
    );
}

#[test]
fn the_payload_of_the_run_is_advertised() {
    let mut context = EspBtpGattContext::new();
    context.set_adv_data(&[2, 1, 6]).unwrap();
    assert_eq!(
        context.advertise_commands(),
        vec![
            AdvertiseCommand::EnsureAddr { prefer_random: false },
            AdvertiseCommand::SetData { adv_data: vec![2, 1, 6] },
            AdvertiseCommand::Start {
                own_addr_type: OwnAddrType::Public,
                conn_mode: ConnMode::Undirected,
                disc_mode: DiscMode::General,
            },
        ]
    );
}
