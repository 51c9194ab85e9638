use esp_idf_matter::error::{
    to_net_constr_error, to_net_ctl_error, ErrorCode, NetCtlError, NetError,
};
use esp_idf_matter::thread::ctl::{
    Connect, ConnectAction, ConnectEvent, EspMatterThreadCtl, NetworkType, Role, WirelessCreds,
};

const DATASET: [u8; 4] = [14, 8, 0, 1];

fn start(ctl: &EspMatterThreadCtl) -> Connect<'static> {
    match ctl.connect(WirelessCreds::Thread { dataset_tlv: &DATASET }) {
        Ok(connect) => connect,
        Err(_) => panic!("refused"),
    }
}

fn polling(ctl: &mut EspMatterThreadCtl) -> Connect<'static> {
    let mut connect = start(ctl);
    for _ in 0..3 {
        connect.next(ctl, ConnectEvent::Returned(Ok(())));
    }
    assert_eq!(connect.action(), ConnectAction::FetchOperational);
    connect
}

fn fetched(operational: Result<bool, i32>, elapsed_ticks: u64) -> ConnectEvent {
    ConnectEvent::Fetched { operational, elapsed_ticks }
}

#[test]
fn only_a_detached_or_disabled_device_is_not_connected() {
    let connected = EspMatterThreadCtl::fetch_is_thread_connected;
    assert_eq!(connected(Ok(Role::Disabled)), Ok(false));
    assert_eq!(connected(Ok(Role::Detached)), Ok(false));
    assert_eq!(connected(Ok(Role::Child)), Ok(true));
    assert_eq!(connected(Ok(Role::Router)), Ok(true));
    assert_eq!(connected(Ok(Role::Leader)), Ok(true));
    assert_eq!(connected(Err(7)), Err(7));
    assert!(EspMatterThreadCtl::access_connected(Ok(Role::Leader)));
    assert!(!EspMatterThreadCtl::access_connected(Ok(Role::Detached)));
    assert!(!EspMatterThreadCtl::access_connected(Err(7)));
}

#[test]
fn an_operational_interface_is_attached_and_has_an_address() {
    let operational = EspMatterThreadCtl::fetch_is_operational;
    assert_eq!(operational(Ok(Role::Child), Ok(true)), Ok(true));
    assert_eq!(operational(Ok(Role::Child), Ok(false)), Ok(false));
    assert_eq!(operational(Ok(Role::Detached), Ok(true)), Ok(false));
    assert_eq!(operational(Err(7), Ok(true)), Ok(false));
    assert_eq!(operational(Ok(Role::Child), Err(8)), Err(8));
    assert_eq!(operational(Err(7), Err(8)), Err(8));
}

#[test]
fn a_controller_is_of_a_thread_network() {
    assert_eq!(EspMatterThreadCtl::default().net_type(), NetworkType::Thread);
}

#[test]
fn a_change_is_told_once() {
    let mut ctl = EspMatterThreadCtl::new();
    assert!(!ctl.connected());
    assert!(!ctl.wait_changed(Ok(false)));
    assert!(!ctl.wait_changed(Err(7)));
    assert!(ctl.wait_changed(Ok(true)));
    assert!(ctl.connected());
    assert!(!ctl.wait_changed(Ok(true)));
    assert!(ctl.wait_changed(Err(7)));
    assert!(!ctl.connected());
}

#[test]
fn credentials_of_another_network_are_refused() {
    let ctl = EspMatterThreadCtl::new();
    let creds = WirelessCreds::Wifi { ssid: b"home", pass: b"secret" };
    assert_eq!(
        ctl.connect(creds).err(),
        Some(NetCtlError::Other(NetError::Code(ErrorCode::InvalidData)))
    );
}

#[test]
fn a_dataset_is_applied_with_thread_stopped() {
    let mut ctl = EspMatterThreadCtl::new();
    let mut connect = start(&ctl);
    assert_eq!(connect.action(), ConnectAction::EnableThread { enabled: false });
    connect.next(&mut ctl, ConnectEvent::Returned(Err(259)));
    assert_eq!(connect.action(), ConnectAction::SetDataset { dataset_tlv: &DATASET });
    connect.next(&mut ctl, ConnectEvent::Returned(Ok(())));
    assert_eq!(connect.action(), ConnectAction::EnableThread { enabled: true });
    connect.next(&mut ctl, ConnectEvent::Returned(Ok(())));
    assert_eq!(connect.action(), ConnectAction::FetchOperational);
    assert!(!ctl.connected());
    connect.next(&mut ctl, fetched(Ok(true), 0));
    assert_eq!(connect.action(), ConnectAction::Return { result: Ok(()) });
    assert!(ctl.connected());
}

#[test]
fn a_dataset_that_is_refused_is_out_of_bounds() {
    let mut ctl = EspMatterThreadCtl::new();
    let mut connect = start(&ctl);
    connect.next(&mut ctl, ConnectEvent::Returned(Ok(())));
    connect.next(&mut ctl, ConnectEvent::Returned(Err(258)));
    let err = NetCtlError::Other(NetError::Code(ErrorCode::ConstraintError));
    assert_eq!(connect.action(), ConnectAction::Return { result: Err(err) });
    assert_eq!(to_net_constr_error(258), err);
    assert!(!ctl.connected());
}

#[test]
fn thread_that_does_not_start_ends_the_attempt() {
    let mut ctl = EspMatterThreadCtl::new();
    let mut connect = start(&ctl);
    connect.next(&mut ctl, ConnectEvent::Returned(Ok(())));
    connect.next(&mut ctl, ConnectEvent::Returned(Ok(())));
    connect.next(&mut ctl, ConnectEvent::Returned(Err(259)));
    let err = NetCtlError::Other(NetError::Net(259));
    assert_eq!(connect.action(), ConnectAction::Return { result: Err(err) });
    assert_eq!(to_net_ctl_error(259), err);
}

#[test]
fn an_interface_that_cannot_be_looked_at_ends_the_attempt() {
    let mut ctl = EspMatterThreadCtl::new();
    let mut connect = polling(&mut ctl);
    connect.next(&mut ctl, fetched(Err(260), 0));
    let err = NetCtlError::Other(NetError::Net(260));
    assert_eq!(connect.action(), ConnectAction::Return { result: Err(err) });
}

#[test]
fn the_interface_is_looked_at_every_second() {
    let mut ctl = EspMatterThreadCtl::new();
    let mut connect = polling(&mut ctl);
    for second in 0..31u64 {
        connect.next(&mut ctl, fetched(Ok(false), second * 1_000_000));
        assert_eq!(connect.action(), ConnectAction::Wait { millis: 1000 });
        connect.next(&mut ctl, ConnectEvent::Waited);
        assert_eq!(connect.action(), ConnectAction::FetchOperational);
    }
    connect.next(&mut ctl, fetched(Ok(false), 31_000_000));
    assert_eq!(connect.action(), ConnectAction::EnableThread { enabled: false });
}

#[test]
fn an_attempt_gives_up_after_thirty_seconds() {
    let mut ctl = EspMatterThreadCtl::new();
    let mut connect = polling(&mut ctl);
    connect.next(&mut ctl, fetched(Ok(false), 30_000_000));
    assert_eq!(connect.action(), ConnectAction::Wait { millis: 1000 });
    connect.next(&mut ctl, ConnectEvent::Waited);
    connect.next(&mut ctl, fetched(Ok(false), 30_000_001));
    assert_eq!(connect.action(), ConnectAction::EnableThread { enabled: false });
    connect.next(&mut ctl, ConnectEvent::Returned(Err(259)));
    let result = Err(NetCtlError::AuthFailure);
    assert_eq!(connect.action(), ConnectAction::Return { result });
    assert!(!ctl.connected());
}

#[test]
fn a_network_that_is_joined_late_is_still_joined() {
    let mut ctl = EspMatterThreadCtl::new();
    let mut connect = polling(&mut ctl);
    connect.next(&mut ctl, fetched(Ok(true), 40_000_000));
    assert_eq!(connect.action(), ConnectAction::Return { result: Ok(()) });
    assert!(ctl.connected());
}

#[test]
fn a_failed_attempt_leaves_what_is_known_of_the_interface() {
    let mut ctl = EspMatterThreadCtl::new();
    ctl.wait_changed(Ok(true));
    let mut connect = polling(&mut ctl);
    connect.next(&mut ctl, fetched(Ok(false), 30_000_001));
    connect.next(&mut ctl, ConnectEvent::Returned(Ok(())));
    assert!(ctl.connected());
}
