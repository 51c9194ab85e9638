//! The GATT central (commissioner) side of BTP.
//!
//! Given the address of a commissionable device, the central connects to it, discovers the Matter
//! BTP service with its `C1` and `C2` characteristics, subscribes to the indications of `C2`, and
//! then drives the BTP engine as the initiator: outgoing segments are written to `C1`, the
//! indications of `C2` are fed back in. The event hooks of the BLE host only record in
//! [`EspBtpGattClientContext`] what has happened.

use vstd::prelude::*;

use crate::ble::{
    BleUuid, BtAddr, HostEvent, OwnAddrType, C1_CHARACTERISTIC_UUID, C2_CHARACTERISTIC_UUID,
    MATTER_BLE_SERVICE_UUID16, MAX_MTU_SIZE,
};
use crate::error::{to_matter_err_ble, ErrorCode};

verus! {

/// A connection event.
#[derive(Debug, Clone, Copy, PartialEq, Eq, Structural)]
pub enum GapEvent {
    /// A connection attempt ended.
    Connect { conn_handle: u16, connected: bool },
    Disconnect { conn_handle: u16, reason: i32 },
    Mtu { conn_handle: u16, value: u16 },
    Other,
}

/// A service found on the peer.
#[derive(Debug, Clone, Copy, PartialEq, Eq, Structural)]
pub struct GattcService {
    pub start_handle: u16,
    pub end_handle: u16,
    pub uuid: BleUuid,
}

/// A characteristic found on the peer.
#[derive(Debug, Clone, Copy, PartialEq, Eq, Structural)]
pub struct GattcChr {
    pub val_handle: u16,
    pub uuid: BleUuid,
}

/// A GATT-client event.
#[derive(Debug, Clone, Copy, PartialEq, Eq)]
pub enum GattcEvent<'a> {
    /// A service was found, or, with `None`, the discovery is complete.
    Service { service: Option<GattcService> },
    /// A characteristic was found, or, with `None`, the discovery is complete.
    Characteristic { chr: Option<GattcChr> },
    ReadComplete,
    WriteComplete { attr_handle: u16, status: u16 },
    /// The peer sent an indication. `buffer` is a buffer of [`MAX_MTU_SIZE`] bytes after the
    /// value was copied into it, and `copied` the number of bytes copied, if the copy succeeded.
    Notify { attr_handle: u16, buffer: &'a [u8], copied: Option<usize> },
}

/// Whom to wake after an event: the setup sequence, the incoming pump or the outgoing pump.
#[derive(Debug, Clone, Copy, PartialEq, Eq, Structural)]
pub struct Wake {
    pub progress: bool,
    pub incoming: bool,
    pub outgoing: bool,
}

/// A packet for the BTP engine.
#[derive(Debug, Clone, Copy, PartialEq, Eq)]
pub struct Delivery<'a> {
    pub mtu: Option<u16>,
    pub peer: BtAddr,
    pub data: &'a [u8],
}

/// The mathematical content of an [`EspBtpGattClientContext`].
#[verifier::ext_equal]
pub struct CentralModel {
    /// The host is in sync with the controller.
    pub synced: bool,
    /// The connection handle, once connected.
    pub conn_handle: Option<u16>,
    /// The connection attempt failed, or the link dropped.
    pub failed: bool,
    pub mtu: Option<u16>,
    pub peer: BtAddr,
    /// The attribute-handle range of the Matter service.
    pub matter_range: Option<(u16, u16)>,
    pub services_done: bool,
    /// The value handles of `C1` and `C2`.
    pub c1_val: Option<u16>,
    pub c2_val: Option<u16>,
    pub chars_done: bool,
    /// The subscription to `C2` is complete.
    pub subscribed: bool,
    /// The indication that the incoming pump has not delivered yet.
    pub in_data: Seq<u8>,
    /// The buffer that the BTP engine last filled.
    pub out_data: Seq<u8>,
    /// A write to `C1` awaits its response.
    pub out_inflight: bool,
}

impl CentralModel {
    /// Nothing has happened yet.
    pub open spec fn fresh() -> Self {
        CentralModel {
            synced: false,
            conn_handle: None,
            failed: false,
            mtu: None,
            peer: BtAddr([0u8, 0, 0, 0, 0, 0]),
            matter_range: None,
            services_done: false,
            c1_val: None,
            c2_val: None,
            chars_done: false,
            subscribed: false,
            in_data: Seq::empty(),
            out_data: Seq::empty(),
            out_inflight: false,
        }
    }

    /// The state after a host event.
    pub open spec fn after_host(self, event: HostEvent) -> Self {
        if event is Sync {
            CentralModel { synced: true, ..self }
        } else {
            self
        }
    }

    /// The state after a connection event.
    pub open spec fn after_gap(self, event: GapEvent) -> Self {
        match event {
            GapEvent::Connect { conn_handle, connected } => if connected {
                CentralModel { conn_handle: Some(conn_handle), ..self }
            } else {
                CentralModel { failed: true, ..self }
            },
            GapEvent::Disconnect { .. } => CentralModel { failed: true, ..self },
            GapEvent::Mtu { conn_handle, value } => if self.conn_handle == Some(conn_handle) {
                CentralModel { mtu: Some(value), ..self }
            } else {
                self
            },
            GapEvent::Other => self,
        }
    }

    /// Whether `attr_handle` is the client characteristic configuration descriptor of `C2`,
    /// which lies directly after its value.
    pub open spec fn is_cccd(self, attr_handle: u16) -> bool {
        self.c2_val is Some && attr_handle == self.c2_val->0 + 1
    }

    /// The state after a service was found.
    pub open spec fn service_found(self, service: GattcService) -> Self {
        if service.uuid == BleUuid::Uuid16(MATTER_BLE_SERVICE_UUID16) {
            CentralModel {
                matter_range: Some((service.start_handle, service.end_handle)),
                ..self
            }
        } else {
            self
        }
    }

    /// The state after a characteristic was found.
    pub open spec fn chr_found(self, chr: GattcChr) -> Self {
        if chr.uuid == BleUuid::Uuid128(C1_CHARACTERISTIC_UUID) {
            CentralModel { c1_val: Some(chr.val_handle), ..self }
        } else if chr.uuid == BleUuid::Uuid128(C2_CHARACTERISTIC_UUID) {
            CentralModel { c2_val: Some(chr.val_handle), ..self }
        } else {
            self
        }
    }

    /// The state after a write to the peer completed: the subscription, or a segment.
    pub open spec fn write_completed(self, attr_handle: u16, status: u16) -> Self {
        if self.is_cccd(attr_handle) {
            CentralModel { subscribed: status == 0, ..self }
        } else if self.c1_val == Some(attr_handle) {
            CentralModel { out_inflight: false, ..self }
        } else {
            self
        }
    }

    /// The state after an indication of `C2` arrived. One that comes before the previous one was
    /// delivered is dropped, and so is one whose bytes could not be copied.
    pub open spec fn indicated(self, buffer: Seq<u8>, copied: Option<usize>) -> Self {
        if self.in_data.len() == 0 && copied is Some {
            CentralModel {
                in_data: if copied->0 <= buffer.len() {
                    buffer.take(copied->0 as int)
                } else {
                    buffer
                },
                ..self
            }
        } else {
            self
        }
    }

    /// The state after the BTP engine took the indication that was delivered.
    pub open spec fn delivered(self) -> Self {
        CentralModel { in_data: Seq::empty(), ..self }
    }

    /// Whether the BTP engine may be asked for a segment.
    pub open spec fn may_write(self) -> bool {
        !self.failed && !self.out_inflight
    }

    /// The state after the BTP engine filled the buffer that it was given.
    pub open spec fn segment_filled(self, buffer: Seq<u8>) -> Self {
        CentralModel { out_data: buffer, ..self }
    }

    /// The state after the write of a segment was started.
    pub open spec fn segment_started(self) -> Self {
        CentralModel { out_inflight: true, ..self }
    }

    /// The state after a GATT-client event.
    pub open spec fn after_gattc(self, event: GattcEvent) -> Self {
        match event {
            GattcEvent::Service { service } => match service {
                Some(service) => self.service_found(service),
                None => CentralModel { services_done: true, ..self },
            },
            GattcEvent::Characteristic { chr } => match chr {
                Some(chr) => self.chr_found(chr),
                None => CentralModel { chars_done: true, ..self },
            },
            GattcEvent::ReadComplete => self,
            GattcEvent::WriteComplete { attr_handle, status } => self.write_completed(
                attr_handle,
                status,
            ),
            GattcEvent::Notify { attr_handle, buffer, copied } => if self.c2_val == Some(
                attr_handle,
            ) {
                self.indicated(buffer@, copied)
            } else {
                self
            },
        }
    }
}

/// Whom a host event wakes.
pub open spec fn host_wake(event: HostEvent) -> Wake {
    Wake { progress: event is Sync, incoming: false, outgoing: false }
}

/// Whom a connection event wakes.
pub open spec fn gap_wake(event: GapEvent) -> Wake {
    match event {
        GapEvent::Connect { .. } => Wake { progress: true, incoming: false, outgoing: false },
        GapEvent::Disconnect { .. } => Wake { progress: true, incoming: true, outgoing: true },
        _ => Wake { progress: false, incoming: false, outgoing: false },
    }
}

/// Whom a GATT-client event wakes.
pub open spec fn gattc_wake(s: CentralModel, event: GattcEvent) -> Wake {
    match event {
        GattcEvent::Service { service } => Wake {
            progress: service is None,
            incoming: false,
            outgoing: false,
        },
        GattcEvent::Characteristic { chr } => Wake {
            progress: chr is None,
            incoming: false,
            outgoing: false,
        },
        GattcEvent::ReadComplete => Wake { progress: false, incoming: false, outgoing: false },
        GattcEvent::WriteComplete { attr_handle, .. } => Wake {
            progress: s.is_cccd(attr_handle),
            incoming: false,
            outgoing: !s.is_cccd(attr_handle) && s.c1_val == Some(attr_handle),
        },
        GattcEvent::Notify { attr_handle, .. } => Wake {
            progress: false,
            incoming: s.c2_val == Some(attr_handle),
            outgoing: false,
        },
    }
}

/// The state of the central that outlives a single run of it.
pub struct EspBtpGattClientContext {
    synced: bool,
    conn_handle: Option<u16>,
    failed: bool,
    mtu: Option<u16>,
    peer: BtAddr,
    matter_range: Option<(u16, u16)>,
    services_done: bool,
    c1_val: Option<u16>,
    c2_val: Option<u16>,
    chars_done: bool,
    subscribed: bool,
    in_data: Vec<u8>,
    out_data: Vec<u8>,
    out_inflight: bool,
}

impl View for EspBtpGattClientContext {
    type V = CentralModel;

    closed spec fn view(&self) -> CentralModel {
        CentralModel {
            synced: self.synced,
            conn_handle: self.conn_handle,
            failed: self.failed,
            mtu: self.mtu,
            peer: self.peer,
            matter_range: self.matter_range,
            services_done: self.services_done,
            c1_val: self.c1_val,
            c2_val: self.c2_val,
            chars_done: self.chars_done,
            subscribed: self.subscribed,
            in_data: self.in_data@,
            out_data: self.out_data@,
            out_inflight: self.out_inflight,
        }
    }
}

impl EspBtpGattClientContext {
    /// The buffers never outgrow what they are meant for.
    pub open spec fn wf(&self) -> bool {
        &&& self@.in_data.len() <= MAX_MTU_SIZE
        &&& self@.out_data.len() <= MAX_MTU_SIZE
    }

    /// Creates a new instance.
    pub fn new() -> (context: Self)
        ensures
            context.wf(),
            context@ == CentralModel::fresh(),
    {
        EspBtpGattClientContext {
            synced: false,
            conn_handle: None,
            failed: false,
            mtu: None,
            peer: BtAddr([0u8, 0, 0, 0, 0, 0]),
            matter_range: None,
            services_done: false,
            c1_val: None,
            c2_val: None,
            chars_done: false,
            subscribed: false,
            in_data: Vec::new(),
            out_data: Vec::new(),
            out_inflight: false,
        }
    }

    /// Initializes an instance in place.
    pub fn init(slot: &mut Self)
        ensures
            final(slot).wf(),
            final(slot)@ == CentralModel::fresh(),
    {
        *slot = EspBtpGattClientContext::new();
    }

    /// Forgets everything.
    pub fn reset(&mut self)
        ensures
            final(self).wf(),
            final(self)@ == CentralModel::fresh(),
    {
        *self = EspBtpGattClientContext::new();
    }

    /// Records that the host is in sync.
    pub fn on_host_event(&mut self, event: HostEvent) -> (wake: Wake)
        requires
            old(self).wf(),
        ensures
            final(self).wf(),
            final(self)@ == old(self)@.after_host(event),
            wake == host_wake(event),
    {
        match event {
            HostEvent::Sync => {
                self.synced = true;
                Wake { progress: true, incoming: false, outgoing: false }
            },
            HostEvent::Reset { .. } => Wake { progress: false, incoming: false, outgoing: false },
        }
    }

    /// Follows the lifecycle of the connection.
    pub fn on_gap_event(&mut self, event: GapEvent) -> (wake: Wake)
        requires
            old(self).wf(),
        ensures
            final(self).wf(),
            final(self)@ == old(self)@.after_gap(event),
            wake == gap_wake(event),
    {
        match event {
            GapEvent::Connect { conn_handle, connected } => {
                if connected {
                    self.conn_handle = Some(conn_handle);
                } else {
                    self.failed = true;
                }
                Wake { progress: true, incoming: false, outgoing: false }
            },
            GapEvent::Disconnect { .. } => {
                self.failed = true;
                Wake { progress: true, incoming: true, outgoing: true }
            },
            GapEvent::Mtu { conn_handle, value } => {
                if let Some(current) = self.conn_handle {
                    if current == conn_handle {
                        self.mtu = Some(value);
                    }
                }
                Wake { progress: false, incoming: false, outgoing: false }
            },
            GapEvent::Other => Wake { progress: false, incoming: false, outgoing: false },
        }
    }

    /// Records the results of the discovery, the completion of writes and the indications.
    pub fn on_gattc_event(&mut self, event: GattcEvent) -> (wake: Wake)
        requires
            old(self).wf(),
            event matches GattcEvent::Notify { buffer, .. } ==> buffer@.len() == MAX_MTU_SIZE,
            event is WriteComplete ==> old(self)@.c2_val != Some(u16::MAX),
        ensures
            final(self).wf(),
            final(self)@ == old(self)@.after_gattc(event),
            wake == gattc_wake(old(self)@, event),
    {
        let idle = Wake { progress: false, incoming: false, outgoing: false };
        let progress = Wake { progress: true, incoming: false, outgoing: false };
        match event {
            GattcEvent::Service { service } => match service {
                Some(service) => {
                    if service.uuid == BleUuid::Uuid16(MATTER_BLE_SERVICE_UUID16) {
                        self.matter_range = Some((service.start_handle, service.end_handle));
                    }
                    idle
                },
                None => {
                    self.services_done = true;
                    progress
                },
            },
            GattcEvent::Characteristic { chr } => match chr {
                Some(chr) => {
                    if chr.uuid == BleUuid::Uuid128(C1_CHARACTERISTIC_UUID) {
                        self.c1_val = Some(chr.val_handle);
                    } else if chr.uuid == BleUuid::Uuid128(C2_CHARACTERISTIC_UUID) {
                        self.c2_val = Some(chr.val_handle);
                    }
                    idle
                },
                None => {
                    self.chars_done = true;
                    progress
                },
            },
            GattcEvent::ReadComplete => idle,
            GattcEvent::WriteComplete { attr_handle, status } => {
                let is_cccd = match self.c2_val {
                    Some(c2_val) => attr_handle == c2_val + 1,
                    None => false,
                };
                let is_c1 = match self.c1_val {
                    Some(c1_val) => attr_handle == c1_val,
                    None => false,
                };
                if is_cccd {
                    self.subscribed = status == 0;
                    progress
                } else if is_c1 {
                    self.out_inflight = false;
                    Wake { progress: false, incoming: false, outgoing: true }
                } else {
                    idle
                }
            },
            GattcEvent::Notify { attr_handle, buffer, copied } => {
                let is_c2 = match self.c2_val {
                    Some(c2_val) => attr_handle == c2_val,
                    None => false,
                };
                if !is_c2 {
                    return idle;
                }
                if self.in_data.len() == 0 {
                    if let Some(len) = copied {
                        self.in_data.extend_from_slice(buffer);
                        assert(self.in_data@ == buffer@);
                        self.in_data.truncate(len);
                    }
                }
                Wake { progress: false, incoming: true, outgoing: false }
            },
        }
    }

    /// Looks for an indication to deliver. With none the incoming pump waits; a session that
    /// failed ends it.
    pub fn poll_incoming<'a>(&'a self) -> (step: Result<Option<Delivery<'a>>, ErrorCode>)
        ensures
            self@.failed ==> step == Err::<Option<Delivery<'a>>, ErrorCode>(
                ErrorCode::NoNetworkInterface,
            ),
            !self@.failed ==> step is Ok && (step->Ok_0 is Some <==> self@.in_data.len() > 0),
            step matches Ok(Some(delivery)) ==> {
                &&& delivery.mtu == self@.mtu
                &&& delivery.peer == self@.peer
                &&& delivery.data@ == self@.in_data
            },
    {
        if self.failed {
            return Err(ErrorCode::NoNetworkInterface);
        }
        if self.in_data.len() == 0 {
            return Ok(None);
        }
        Ok(Some(Delivery { mtu: self.mtu, peer: self.peer, data: self.in_data.as_slice() }))
    }

    /// Takes note of what became of a delivery. A packet that the BTP engine took makes room for
    /// the next one; the failure of the engine is passed on.
    pub fn incoming_processed<E>(&mut self, result: Result<(), E>) -> (processed: Result<bool, E>)
        requires
            old(self).wf(),
        ensures
            final(self).wf(),
            result is Ok ==> {
                &&& processed == Ok::<bool, E>(true)
                &&& final(self)@ == old(self)@.delivered()
            },
            result matches Err(e) ==> {
                &&& processed == Err::<bool, E>(e)
                &&& final(self)@ == old(self)@
            },
    {
        match result {
            Ok(()) => {
                self.in_data.clear();
                Ok(true)
            },
            Err(e) => Err(e),
        }
    }

    /// Whether the BTP engine may be asked for a segment, and with which MTU. One segment is in
    /// flight at a time; a session that failed ends the outgoing pump.
    pub fn poll_outgoing(&self) -> (slot: Result<Option<Option<u16>>, ErrorCode>)
        ensures
            slot == if self@.failed {
                Err::<Option<Option<u16>>, ErrorCode>(ErrorCode::NoNetworkInterface)
            } else if self@.may_write() {
                Ok(Some(self@.mtu))
            } else {
                Ok(None)
            },
    {
        if self.failed {
            return Err(ErrorCode::NoNetworkInterface);
        }
        if self.out_inflight {
            // Awaiting the previous Write Response.
            return Ok(None);
        }
        Ok(Some(self.mtu))
    }

    /// Takes over the buffer that the BTP engine was given and the number of bytes that it
    /// produced. Those bytes, if there are any, are to be written to `C1`.
    pub fn outgoing_filled<E>(&mut self, buffer: &[u8], produced: Result<usize, E>) -> (segment:
        Result<Option<Vec<u8>>, E>)
        requires
            old(self).wf(),
            buffer@.len() == MAX_MTU_SIZE,
            produced matches Ok(len) ==> len <= MAX_MTU_SIZE,
        ensures
            final(self).wf(),
            final(self)@ == old(self)@.segment_filled(buffer@),
            produced matches Err(e) ==> segment == Err::<Option<Vec<u8>>, E>(e),
            produced matches Ok(len) ==> segment is Ok && (segment->Ok_0 is Some <==> len > 0),
            segment matches Ok(Some(data)) ==> data@ == buffer@.take(produced->Ok_0 as int),
    {
        self.out_data.clear();
        self.out_data.extend_from_slice(buffer);
        assert(self.out_data@ == buffer@);
        match produced {
            Err(e) => Err(e),
            Ok(len) => {
                if len == 0 {
                    return Ok(None);
                }
                let mut data: Vec<u8> = Vec::new();
                data.extend_from_slice(buffer);
                assert(data@ == buffer@);
                data.truncate(len);
                Ok(Some(data))
            },
        }
    }

    /// Takes note of whether the write of a segment was started. From here on it is in flight.
    pub fn segment_written(&mut self, result: Result<(), i32>) -> (processed: Result<
        bool,
        ErrorCode,
    >)
        requires
            old(self).wf(),
        ensures
            final(self).wf(),
            result is Ok ==> processed == Ok::<bool, ErrorCode>(true) && final(self)@ == old(
                self,
            )@.segment_started(),
            result is Err ==> processed == Err::<bool, ErrorCode>(ErrorCode::NoNetworkInterface)
                && final(self)@ == old(self)@,
    {
        match result {
            Ok(()) => {
                self.out_inflight = true;
                Ok(true)
            },
            Err(code) => Err(to_matter_err_ble(code)),
        }
    }

    /// The connection handle, once connected.
    pub fn connected_handle(&self) -> (conn_handle: Option<u16>)
        ensures
            conn_handle == self@.conn_handle,
    {
        self.conn_handle
    }

    /// The value handle of `C2`, once it was found.
    pub fn c2_val_handle(&self) -> (c2_val: Option<u16>)
        ensures
            c2_val == self@.c2_val,
    {
        self.c2_val
    }
}

impl Default for EspBtpGattClientContext {
    fn default() -> (context: Self)
        ensures
            context.wf(),
            context@ == CentralModel::fresh(),
    {
        Self::new()
    }
}

/// The kind of the peer's address. Commissionable devices advertise with a public one.
pub const PEER_ADDR_TYPE: u8 = 0;

/// How far a run of the central has come: what it waits for.
#[derive(Debug, Clone, Copy, PartialEq, Eq, Structural)]
pub enum ClientPhase {
    /// The host has to synchronize.
    Sync,
    /// The connection attempt has to end.
    Connection,
    /// The services have to be discovered.
    Services { conn: u16 },
    /// The characteristics of the Matter service have to be discovered.
    Characteristics { conn: u16 },
    /// The subscription to `C2` has to complete.
    Subscription { conn: u16, c1_val: u16 },
    /// The pumps run.
    Session { conn: u16, c1_val: u16 },
}

/// What a run of the central has to do next.
#[derive(Debug, Clone, Copy, PartialEq, Eq)]
pub enum ClientAction {
    /// Wait for progress.
    Wait,
    /// Make sure of an address of our own, a random one only if that is preferred, then connect
    /// from it to the peer.
    Connect { prefer_random: bool, own_addr_type: OwnAddrType, peer_addr_type: u8, peer: BtAddr },
    DiscoverServices { conn: u16 },
    DiscoverCharacteristics { conn: u16, start_handle: u16, end_handle: u16 },
    /// Write `value` to the client characteristic configuration descriptor of `C2`.
    Subscribe { conn: u16, attr_handle: u16, value: [u8; 2] },
    /// Make the BTP engine the initiator and run the pumps, which write to `c1_val`.
    Pump { conn: u16, c1_val: u16 },
}

/// Whether what `phase` waits for has come, or cannot come anymore.
pub open spec fn phase_over(phase: ClientPhase, s: CentralModel) -> bool {
    match phase {
        ClientPhase::Sync => s.synced,
        ClientPhase::Connection => s.conn_handle is Some || s.failed,
        ClientPhase::Services { .. } => s.services_done || s.failed,
        ClientPhase::Characteristics { .. } => s.chars_done || s.failed,
        ClientPhase::Subscription { .. } => s.subscribed || s.failed,
        ClientPhase::Session { .. } => true,
    }
}

/// Whether `phase` has brought what the next one needs.
pub open spec fn phase_fruitful(phase: ClientPhase, s: CentralModel) -> bool {
    match phase {
        ClientPhase::Sync => true,
        ClientPhase::Connection => s.conn_handle is Some,
        ClientPhase::Services { .. } => s.matter_range is Some,
        ClientPhase::Characteristics { .. } => s.c1_val is Some && s.c2_val is Some,
        ClientPhase::Subscription { .. } => !s.failed,
        ClientPhase::Session { .. } => true,
    }
}

/// What has to be done when `phase` is over and has been fruitful.
pub open spec fn phase_action(phase: ClientPhase, s: CentralModel) -> ClientAction {
    match phase {
        ClientPhase::Sync => ClientAction::Connect {
            prefer_random: false,
            own_addr_type: OwnAddrType::Public,
            peer_addr_type: PEER_ADDR_TYPE,
            peer: s.peer,
        },
        ClientPhase::Connection => ClientAction::DiscoverServices { conn: s.conn_handle->0 },
        ClientPhase::Services { conn } => {
            let (start_handle, end_handle) = s.matter_range->0;
            ClientAction::DiscoverCharacteristics { conn, start_handle, end_handle }
        },
        ClientPhase::Characteristics { conn } => ClientAction::Subscribe {
            conn,
            attr_handle: (s.c2_val->0 + 1) as u16,
            value: [0x02u8, 0x00u8],
        },
        ClientPhase::Subscription { conn, c1_val } => ClientAction::Pump { conn, c1_val },
        ClientPhase::Session { conn, c1_val } => ClientAction::Pump { conn, c1_val },
    }
}

/// The phase that follows `phase` when it is over and has been fruitful.
pub open spec fn phase_successor(phase: ClientPhase, s: CentralModel) -> ClientPhase {
    match phase {
        ClientPhase::Sync => ClientPhase::Connection,
        ClientPhase::Connection => ClientPhase::Services { conn: s.conn_handle->0 },
        ClientPhase::Services { conn } => ClientPhase::Characteristics { conn },
        ClientPhase::Characteristics { conn } => ClientPhase::Subscription {
            conn,
            c1_val: s.c1_val->0,
        },
        ClientPhase::Subscription { conn, c1_val } => ClientPhase::Session { conn, c1_val },
        ClientPhase::Session { conn, c1_val } => ClientPhase::Session { conn, c1_val },
    }
}

/// A run of the central.
pub struct EspBtpGattClient {
    phase: ClientPhase,
}

impl EspBtpGattClient {
    /// How far the run has come.
    pub closed spec fn phase(&self) -> ClientPhase {
        self.phase
    }

    /// Creates a new instance. Whatever the context holds of an earlier central is dropped.
    pub fn new(context: &mut EspBtpGattClientContext) -> (client: Self)
        ensures
            final(context).wf(),
            final(context)@ == CentralModel::fresh(),
            client.phase() == ClientPhase::Sync,
    {
        context.reset();
        EspBtpGattClient { phase: ClientPhase::Sync }
    }

    /// Begins a run against the commissionable device at `addr`.
    pub fn run(&mut self, context: &mut EspBtpGattClientContext, addr: BtAddr)
        requires
            old(context).wf(),
        ensures
            final(context).wf(),
            final(context)@ == (CentralModel { peer: addr, ..old(context)@ }),
            final(self).phase() == ClientPhase::Sync,
    {
        context.peer = addr;
        self.phase = ClientPhase::Sync;
    }

    /// Whether the next action can be told. It cannot where the subscription is due and the value
    /// of `C2` has the last attribute handle, which leaves none for its descriptor.
    pub fn has_next(&self, context: &EspBtpGattClientContext) -> (has_next: bool)
        ensures
            has_next <==> !(self.phase() is Characteristics && phase_over(self.phase(), context@)
                && context@.c1_val is Some && context@.c2_val == Some(u16::MAX)),
    {
        match (self.phase, context.c1_val, context.c2_val) {
            (ClientPhase::Characteristics { .. }, Some(_), Some(c2_val)) => {
                (!context.chars_done && !context.failed) || c2_val != u16::MAX
            },
            _ => true,
        }
    }

    /// The next action of the run. `outcome` is what came of the previous one: once an action
    /// fails, or a phase ends without what the next one needs, the run is over.
    pub fn next(&mut self, context: &EspBtpGattClientContext, outcome: Result<(), i32>) -> (action:
        Result<ClientAction, ErrorCode>)
        requires
            outcome is Ok && old(self).phase() is Characteristics && phase_over(
                old(self).phase(),
                context@,
            ) && context@.c1_val is Some ==> context@.c2_val != Some(u16::MAX),
        ensures
            action is Err <==> outcome is Err || (phase_over(old(self).phase(), context@)
                && !phase_fruitful(old(self).phase(), context@)),
            action matches Err(code) ==> code == ErrorCode::NoNetworkInterface
                && final(self).phase() == old(self).phase(),
            action matches Ok(action) ==> if phase_over(old(self).phase(), context@) {
                &&& action == phase_action(old(self).phase(), context@)
                &&& final(self).phase() == phase_successor(old(self).phase(), context@)
            } else {
                &&& action == ClientAction::Wait
                &&& final(self).phase() == old(self).phase()
            },
    {
        if let Err(code) = outcome {
            return Err(to_matter_err_ble(code));
        }
        match self.phase {
            ClientPhase::Sync => {
                if !context.synced {
                    return Ok(ClientAction::Wait);
                }
                self.phase = ClientPhase::Connection;
                Ok(
                    ClientAction::Connect {
                        prefer_random: false,
                        own_addr_type: OwnAddrType::Public,
                        peer_addr_type: PEER_ADDR_TYPE,
                        peer: context.peer,
                    },
                )
            },
            ClientPhase::Connection => {
                if context.conn_handle.is_none() && !context.failed {
                    return Ok(ClientAction::Wait);
                }
                match context.connected_handle() {
                    Some(conn) => {
                        self.phase = ClientPhase::Services { conn };
                        Ok(ClientAction::DiscoverServices { conn })
                    },
                    None => Err(ErrorCode::NoNetworkInterface),
                }
            },
            ClientPhase::Services { conn } => {
                if !context.services_done && !context.failed {
                    return Ok(ClientAction::Wait);
                }
                match context.matter_range {
                    Some((start_handle, end_handle)) => {
                        self.phase = ClientPhase::Characteristics { conn };
                        Ok(
                            ClientAction::DiscoverCharacteristics {
                                conn,
                                start_handle,
                                end_handle,
                            },
                        )
                    },
                    None => Err(ErrorCode::NoNetworkInterface),
                }
            },
            ClientPhase::Characteristics { conn } => {
                if !context.chars_done && !context.failed {
                    return Ok(ClientAction::Wait);
                }
                match (context.c1_val, context.c2_val) {
                    (Some(c1_val), Some(c2_val)) => {
                        self.phase = ClientPhase::Subscription { conn, c1_val };
                        Ok(
                            ClientAction::Subscribe {
                                conn,
                                attr_handle: c2_val + 1,
                                value: [0x02u8, 0x00u8],
                            },
                        )
                    },
                    _ => Err(ErrorCode::NoNetworkInterface),
                }
            },
            ClientPhase::Subscription { conn, c1_val } => {
                if !context.subscribed && !context.failed {
                    return Ok(ClientAction::Wait);
                }
                if context.failed {
                    return Err(ErrorCode::NoNetworkInterface);
                }
                self.phase = ClientPhase::Session { conn, c1_val };
                Ok(ClientAction::Pump { conn, c1_val })
            },
            ClientPhase::Session { conn, c1_val } => Ok(ClientAction::Pump { conn, c1_val }),
        }
    }
}

} // verus!
