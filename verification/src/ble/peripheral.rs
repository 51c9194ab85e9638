//! The GATT peripheral (accessory) side of BTP.
//!
//! The event hooks of the BLE host feed [`EspBtpGattContext`]; two pumps drain it. The incoming
//! pump hands the packets written to `C1` to the BTP engine, the outgoing pump indicates on `C2`
//! what the engine produces and restarts advertising. Each hook answers which of the two pumps
//! has to be woken.

use vstd::prelude::*;

use crate::ble::{
    BleUuid, BtAddr, HostEvent, OwnAddrType, C2_CHARACTERISTIC_UUID, MAX_ADV_DATA_SIZE,
    MAX_MTU_SIZE,
};
use crate::error::{to_matter_err_ble, ErrorCode};

verus! {

/// The state of the connection to the (single) peer we are talking to.
#[derive(Debug, Clone, Copy, PartialEq, Eq)]
pub struct Connection {
    pub peer: BtAddr,
    pub conn_handle: u16,
    /// Whether the peer has subscribed to the indications of `C2`.
    pub subscribed: bool,
    pub mtu: Option<u16>,
}

/// A connection event.
#[derive(Debug, Clone, Copy, PartialEq, Eq)]
pub enum GapEvent {
    /// A connection attempt ended. `peer` and `mtu` are what the host knows of the peer by then.
    Connect { conn_handle: u16, connected: bool, peer: Option<BtAddr>, mtu: Option<u16> },
    Disconnect { conn_handle: u16, reason: i32 },
    Mtu { conn_handle: u16, value: u16 },
    Other,
}

/// What the host registered while it assigned the attribute handles.
#[derive(Debug, Clone, Copy, PartialEq, Eq, Structural)]
pub enum BleGattRegister {
    Service { uuid: BleUuid, handle: u16 },
    Characteristic { uuid: BleUuid, def_handle: u16, val_handle: u16 },
    Descriptor { uuid: BleUuid, handle: u16 },
    Other,
}

/// A GATT-server event.
#[derive(Debug, Clone, Copy, PartialEq, Eq)]
pub enum GattsEvent<'a> {
    Register(BleGattRegister),
    /// The peer reads `C3`.
    Read,
    /// The peer wrote to `C1`. `buffer` is a buffer of [`MAX_MTU_SIZE`] bytes after the written
    /// value was copied into it, and `copied` the number of bytes copied, if the copy succeeded.
    Write { buffer: &'a [u8], copied: Option<usize> },
    SubscriptionChanged { conn_handle: u16, attr_handle: u16, cur_indicate: bool },
    /// An indication or a notification of ours completed. For an indication, a zero `status`
    /// only says that it was sent.
    NotifyComplete { indication: bool, status: i32 },
}

/// The ATT status with which a GATT-server event is answered.
#[derive(Debug, Clone, Copy, PartialEq, Eq, Structural)]
pub enum AttStatus {
    Success,
    InsufficientResources,
}

/// The pumps to wake after an event.
#[derive(Debug, Clone, Copy, PartialEq, Eq, Structural)]
pub struct Wake {
    pub incoming: bool,
    pub outgoing: bool,
}

/// A packet for the BTP engine.
#[derive(Debug, Clone, Copy, PartialEq, Eq)]
pub struct Delivery<'a> {
    pub mtu: Option<u16>,
    pub peer: BtAddr,
    pub data: &'a [u8],
}

/// What the incoming pump has to do next: reset the BTP engine, if so asked, then deliver. With
/// nothing to deliver it waits.
#[derive(Debug, Clone, Copy, PartialEq, Eq)]
pub struct IncomingStep<'a> {
    pub reset_btp: bool,
    pub delivery: Option<Delivery<'a>>,
}

/// Where the next BTP segment may go, if the engine has one.
#[derive(Debug, Clone, Copy, PartialEq, Eq)]
pub struct OutgoingSlot {
    pub mtu: Option<u16>,
    pub conn_handle: u16,
    pub attr_handle: u16,
}

/// An indication to send.
#[derive(Debug, PartialEq, Eq)]
pub struct Indication {
    pub conn_handle: u16,
    pub attr_handle: u16,
    pub data: Vec<u8>,
}

/// A step of the start of a run.
#[derive(Debug, Clone, Copy, PartialEq, Eq, Structural)]
pub enum StartCommand {
    /// Publish the context, so that the event hooks can reach it.
    PublishContext,
    /// Wire the event hooks.
    SubscribeHooks,
    /// Set the name of the device to that of the service.
    SetDeviceName,
    /// Start the task of the host.
    StartHost,
}

/// Whom the device lets connect while it advertises.
#[derive(Debug, Clone, Copy, PartialEq, Eq, Structural)]
pub enum ConnMode {
    /// Nobody.
    NotConnectable,
    /// Anybody.
    Undirected,
}

/// By whom the device can be discovered while it advertises.
#[derive(Debug, Clone, Copy, PartialEq, Eq, Structural)]
pub enum DiscMode {
    /// By nobody.
    NotDiscoverable,
    /// By anybody, at any time.
    General,
}

/// A step to (re)start advertising.
#[derive(Debug, PartialEq, Eq)]
pub enum AdvertiseCommand {
    /// Make sure of an address of our own, a random one only if that is preferred.
    EnsureAddr { prefer_random: bool },
    /// Set the raw advertising payload.
    SetData { adv_data: Vec<u8> },
    /// Start to advertise.
    Start { own_addr_type: OwnAddrType, conn_mode: ConnMode, disc_mode: DiscMode },
}

/// The mathematical content of an [`EspBtpGattContext`].
#[verifier::ext_equal]
pub struct PeripheralModel {
    pub connection: Option<Connection>,
    /// Counts the connections, modulo the size of `usize`.
    pub conn_gen: usize,
    /// The packet written by the peer that the incoming pump has not delivered yet.
    pub in_data: Seq<u8>,
    /// The buffer that the BTP engine last filled.
    pub out_data: Seq<u8>,
    /// Whether advertising has to be (re)started.
    pub need_advertise: bool,
    /// The raw advertising payload.
    pub adv_data: Seq<u8>,
    /// Whether the last indication still awaits the acknowledgment of the peer.
    pub out_nack: bool,
}

/// The UUID of `C2`.
pub open spec fn c2_uuid() -> BleUuid {
    BleUuid::Uuid128(C2_CHARACTERISTIC_UUID)
}

impl PeripheralModel {
    /// Nobody is connected and nothing is pending.
    pub open spec fn fresh() -> Self {
        PeripheralModel {
            connection: None,
            conn_gen: 0,
            in_data: Seq::empty(),
            out_data: Seq::empty(),
            need_advertise: false,
            adv_data: Seq::empty(),
            out_nack: false,
        }
    }

    /// Everything that belongs to one session is dropped. The connection count and a pending
    /// request to advertise stay.
    pub open spec fn reset(self) -> Self {
        PeripheralModel {
            connection: None,
            in_data: Seq::empty(),
            out_data: Seq::empty(),
            adv_data: Seq::empty(),
            out_nack: false,
            ..self
        }
    }

    pub open spec fn advertise_requested(self) -> Self {
        PeripheralModel { need_advertise: true, ..self }
    }

    /// A peer has connected: a new session with empty buffers, not subscribed yet.
    pub open spec fn connected(
        self,
        conn_handle: u16,
        peer: Option<BtAddr>,
        mtu: Option<u16>,
    ) -> Self {
        PeripheralModel {
            connection: Some(
                Connection {
                    peer: if peer is Some {
                        peer->0
                    } else {
                        BtAddr([0u8, 0, 0, 0, 0, 0])
                    },
                    conn_handle,
                    subscribed: false,
                    mtu,
                },
            ),
            conn_gen: if self.conn_gen == usize::MAX {
                0
            } else {
                (self.conn_gen + 1) as usize
            },
            in_data: Seq::empty(),
            out_data: Seq::empty(),
            out_nack: false,
            ..self
        }
    }

    /// The peer is gone: no session, and the device has to become discoverable again.
    pub open spec fn disconnected(self) -> Self {
        PeripheralModel {
            connection: None,
            in_data: Seq::empty(),
            out_data: Seq::empty(),
            need_advertise: true,
            out_nack: false,
            ..self
        }
    }

    /// Whether `conn_handle` is the handle of the current connection.
    pub open spec fn is_connection(self, conn_handle: u16) -> bool {
        self.connection is Some && self.connection->0.conn_handle == conn_handle
    }

    pub open spec fn mtu_negotiated(self, conn_handle: u16, value: u16) -> Self {
        if self.is_connection(conn_handle) {
            PeripheralModel {
                connection: Some(Connection { mtu: Some(value), ..self.connection->0 }),
                ..self
            }
        } else {
            self
        }
    }

    pub open spec fn subscription_changed(self, conn_handle: u16, cur_indicate: bool) -> Self {
        if self.is_connection(conn_handle) {
            PeripheralModel {
                connection: Some(Connection { subscribed: cur_indicate, ..self.connection->0 }),
                ..self
            }
        } else {
            self
        }
    }

    /// The state after a connection event.
    pub open spec fn after_gap(self, event: GapEvent) -> Self {
        match event {
            GapEvent::Connect { conn_handle, connected, peer, mtu } => if connected {
                self.connected(conn_handle, peer, mtu)
            } else {
                self.advertise_requested()
            },
            GapEvent::Disconnect { .. } => self.disconnected(),
            GapEvent::Mtu { conn_handle, value } => self.mtu_negotiated(conn_handle, value),
            GapEvent::Other => self,
        }
    }

    /// Whether a written packet finds room: the previous one has been delivered.
    pub open spec fn write_fits(self) -> bool {
        self.in_data.len() == 0
    }

    /// The state after the peer wrote to `C1`. A write that comes before the previous one was
    /// delivered is dropped. Of one whose bytes could not be copied, the whole buffer is kept.
    pub open spec fn written(self, buffer: Seq<u8>, copied: Option<usize>) -> Self {
        if !self.write_fits() {
            self
        } else if copied is Some && copied->0 <= buffer.len() {
            PeripheralModel { in_data: buffer.take(copied->0 as int), ..self }
        } else {
            PeripheralModel { in_data: buffer, ..self }
        }
    }

    /// Whether the completion of an indication frees the way for the next one.
    pub open spec fn acknowledges(indication: bool, status: i32) -> bool {
        indication && status != 0
    }

    /// The state after a GATT-server event, where `c2` is the value handle of `C2`.
    pub open spec fn after_gatts(self, c2: u16, event: GattsEvent) -> Self {
        match event {
            GattsEvent::Register(_) => self,
            GattsEvent::Read => self,
            GattsEvent::Write { buffer, copied } => self.written(buffer@, copied),
            GattsEvent::SubscriptionChanged { conn_handle, attr_handle, cur_indicate } => if
            attr_handle == c2 {
                self.subscription_changed(conn_handle, cur_indicate)
            } else {
                self
            },
            GattsEvent::NotifyComplete { indication, status } => if Self::acknowledges(
                indication,
                status,
            ) {
                PeripheralModel { out_nack: false, ..self }
            } else {
                self
            },
        }
    }

    /// Whether a GATT-server event is answered with success.
    pub open spec fn accepts(self, event: GattsEvent) -> bool {
        event matches GattsEvent::Write { buffer, copied } ==> self.write_fits() && copied is Some
    }

    /// The state after the BTP engine took the packet that was delivered.
    pub open spec fn delivered(self) -> Self {
        PeripheralModel { in_data: Seq::empty(), ..self }
    }

    /// The state after a request to advertise was consumed.
    pub open spec fn advertise_taken(self) -> Self {
        PeripheralModel { need_advertise: false, ..self }
    }

    /// The state after the BTP engine filled the buffer that it was given and produced `len` bytes
    /// of it. Those, if there are any, count as not acknowledged.
    pub open spec fn segment_filled(self, buffer: Seq<u8>, len: usize) -> Self {
        PeripheralModel { out_data: buffer, out_nack: self.out_nack || len > 0, ..self }
    }

    /// The state after the send of an indication failed.
    pub open spec fn send_failed(self) -> Self {
        PeripheralModel { out_nack: false, ..self }
    }

    /// Whether the incoming pump, which has last served the connection `generation`, has
    /// something to do.
    pub open spec fn incoming_due(self, generation: Option<usize>) -> bool {
        self.connection is Some && (generation != Some(self.conn_gen) || self.in_data.len() > 0)
    }

    /// Whether an indication may go out: the peer listens, the last one was acknowledged and the
    /// handle of `C2` is known.
    pub open spec fn may_indicate(self, c2: u16) -> bool {
        self.connection is Some && self.connection->0.subscribed && !self.out_nack && c2 != 0
    }

    /// Whether the outgoing pump has something to do, given data to send.
    pub open spec fn outgoing_due(self, c2: u16) -> bool {
        self.need_advertise || self.may_indicate(c2)
    }
}

/// The value handle of `C2` after a GATT-server event.
pub open spec fn c2_after_gatts(c2: u16, event: GattsEvent) -> u16 {
    match event {
        GattsEvent::Register(BleGattRegister::Characteristic { uuid, val_handle, .. }) => if uuid
            == c2_uuid() {
            val_handle
        } else {
            c2
        },
        _ => c2,
    }
}

/// The pumps that a host event wakes.
pub open spec fn host_wake(event: HostEvent) -> Wake {
    Wake { incoming: false, outgoing: event is Sync }
}

/// The pumps that a connection event wakes.
pub open spec fn gap_wake(event: GapEvent) -> Wake {
    match event {
        GapEvent::Connect { connected, .. } => Wake { incoming: connected, outgoing: !connected },
        GapEvent::Disconnect { .. } => Wake { incoming: true, outgoing: true },
        _ => Wake { incoming: false, outgoing: false },
    }
}

/// The pumps that a GATT-server event wakes.
pub open spec fn gatts_wake(s: PeripheralModel, c2: u16, event: GattsEvent) -> Wake {
    match event {
        GattsEvent::Write { .. } => Wake { incoming: s.accepts(event), outgoing: false },
        GattsEvent::SubscriptionChanged { attr_handle, .. } => Wake {
            incoming: false,
            outgoing: attr_handle == c2,
        },
        GattsEvent::NotifyComplete { indication, status } => Wake {
            incoming: false,
            outgoing: PeripheralModel::acknowledges(indication, status),
        },
        _ => Wake { incoming: false, outgoing: false },
    }
}

/// The state of the peripheral that outlives a single run of it.
pub struct EspBtpGattContext {
    connection: Option<Connection>,
    conn_gen: usize,
    in_data: Vec<u8>,
    out_data: Vec<u8>,
    need_advertise: bool,
    adv_data: Vec<u8>,
    out_nack: bool,
}

impl View for EspBtpGattContext {
    type V = PeripheralModel;

    closed spec fn view(&self) -> PeripheralModel {
        PeripheralModel {
            connection: self.connection,
            conn_gen: self.conn_gen,
            in_data: self.in_data@,
            out_data: self.out_data@,
            need_advertise: self.need_advertise,
            adv_data: self.adv_data@,
            out_nack: self.out_nack,
        }
    }
}

impl EspBtpGattContext {
    /// The buffers never outgrow what they are meant for.
    pub open spec fn wf(&self) -> bool {
        &&& self@.in_data.len() <= MAX_MTU_SIZE
        &&& self@.out_data.len() <= MAX_MTU_SIZE
        &&& self@.adv_data.len() <= MAX_ADV_DATA_SIZE
    }

    /// Creates a new instance.
    pub fn new() -> (context: Self)
        ensures
            context.wf(),
            context@ == PeripheralModel::fresh(),
    {
        EspBtpGattContext {
            connection: None,
            conn_gen: 0,
            in_data: Vec::new(),
            out_data: Vec::new(),
            need_advertise: false,
            adv_data: Vec::new(),
            out_nack: false,
        }
    }

    /// Initializes an instance in place.
    pub fn init(slot: &mut Self)
        ensures
            final(slot).wf(),
            final(slot)@ == PeripheralModel::fresh(),
    {
        *slot = EspBtpGattContext::new();
    }

    /// Drops the session, its buffers and the advertising payload.
    pub fn reset(&mut self)
        requires
            old(self).wf(),
        ensures
            final(self).wf(),
            final(self)@ == old(self)@.reset(),
    {
        self.connection = None;
        self.in_data.clear();
        self.out_data.clear();
        self.adv_data.clear();
        self.out_nack = false;
    }

    /// Replaces the advertising payload. One that is too long is cut off, and refused.
    pub fn set_adv_data(&mut self, service_adv_data: &[u8]) -> (result: Result<(), ErrorCode>)
        requires
            old(self).wf(),
        ensures
            final(self).wf(),
            service_adv_data@.len() <= MAX_ADV_DATA_SIZE ==> result is Ok && final(self)@ == (
            PeripheralModel { adv_data: service_adv_data@, ..old(self)@ }),
            service_adv_data@.len() > MAX_ADV_DATA_SIZE ==> result == Err::<(), ErrorCode>(
                ErrorCode::NoSpace,
            ) && final(self)@ == (PeripheralModel {
                adv_data: service_adv_data@.take(MAX_ADV_DATA_SIZE as int),
                ..old(self)@
            }),
    {
        self.adv_data.clear();
        let mut i: usize = 0;
        while i < service_adv_data.len()
            invariant
                i <= service_adv_data@.len(),
                i <= MAX_ADV_DATA_SIZE,
                self.adv_data@ == service_adv_data@.take(i as int),
                self@ == (PeripheralModel { adv_data: self.adv_data@, ..old(self)@ }),
                old(self).wf(),
            decreases service_adv_data@.len() - i,
        {
            if self.adv_data.len() >= MAX_ADV_DATA_SIZE {
                return Err(ErrorCode::NoSpace);
            }
            self.adv_data.push(service_adv_data[i]);
            i = i + 1;
            assert(self.adv_data@ == service_adv_data@.take(i as int));
        }
        assert(service_adv_data@.take(i as int) == service_adv_data@);
        Ok(())
    }

    /// Advertises once the host is in sync, and again after every reset of the stack.
    pub fn on_host_event(&mut self, event: HostEvent) -> (wake: Wake)
        requires
            old(self).wf(),
        ensures
            final(self).wf(),
            final(self)@ == if event is Sync {
                old(self)@.advertise_requested()
            } else {
                old(self)@
            },
            wake == host_wake(event),
    {
        match event {
            HostEvent::Sync => {
                self.need_advertise = true;
                Wake { incoming: false, outgoing: true }
            },
            HostEvent::Reset { .. } => Wake { incoming: false, outgoing: false },
        }
    }

    /// Follows the lifecycle of the connection.
    pub fn on_gap_event(&mut self, event: GapEvent) -> (wake: Wake)
        requires
            old(self).wf(),
        ensures
            final(self).wf(),
            final(self)@ == old(self)@.after_gap(event),
            wake == gap_wake(event),
    {
        match event {
            GapEvent::Connect { conn_handle, connected, peer, mtu } => {
                if !connected {
                    // The attempt failed, so we have to advertise again.
                    self.need_advertise = true;
                    return Wake { incoming: false, outgoing: true };
                }
                let peer = match peer {
                    Some(peer) => peer,
                    None => BtAddr([0u8, 0, 0, 0, 0, 0]),
                };
                self.conn_gen = self.conn_gen.wrapping_add(1);
                self.in_data.clear();
                self.out_data.clear();
                self.connection = Some(Connection { peer, conn_handle, subscribed: false, mtu });
                self.out_nack = false;
                Wake { incoming: true, outgoing: false }
            },
            GapEvent::Disconnect { .. } => {
                self.connection = None;
                self.in_data.clear();
                self.out_data.clear();
                // Nobody is connected anymore, so become discoverable again.
                self.need_advertise = true;
                self.out_nack = false;
                Wake { incoming: true, outgoing: true }
            },
            GapEvent::Mtu { conn_handle, value } => {
                if let Some(connection) = self.connection {
                    if connection.conn_handle == conn_handle {
                        self.connection = Some(Connection { mtu: Some(value), ..connection });
                    }
                }
                Wake { incoming: false, outgoing: false }
            },
            GapEvent::Other => Wake { incoming: false, outgoing: false },
        }
    }

    /// Learns the handle of `C2`, takes in the writes to `C1`, answers the reads of `C3` with
    /// nothing, and tracks the subscription to `C2` and the completion of its indications.
    pub fn on_gatts_event(&mut self, event: GattsEvent, c2_val_handle: &mut u16) -> (reply: (
        AttStatus,
        Wake,
    ))
        requires
            old(self).wf(),
            event matches GattsEvent::Write { buffer, .. } ==> buffer@.len() == MAX_MTU_SIZE,
        ensures
            final(self).wf(),
            final(self)@ == old(self)@.after_gatts(*old(c2_val_handle), event),
            *final(c2_val_handle) == c2_after_gatts(*old(c2_val_handle), event),
            reply.0 == if old(self)@.accepts(event) {
                AttStatus::Success
            } else {
                AttStatus::InsufficientResources
            },
            reply.1 == gatts_wake(old(self)@, *old(c2_val_handle), event),
    {
        let idle = Wake { incoming: false, outgoing: false };
        match event {
            GattsEvent::Register(register) => {
                if let BleGattRegister::Characteristic { uuid, val_handle, .. } = register {
                    if uuid == BleUuid::Uuid128(C2_CHARACTERISTIC_UUID) {
                        *c2_val_handle = val_handle;
                    }
                }
                (AttStatus::Success, idle)
            },
            GattsEvent::Read => (AttStatus::Success, idle),
            GattsEvent::Write { buffer, copied } => {
                if self.in_data.len() != 0 {
                    // The previous write has not been processed yet.
                    return (AttStatus::InsufficientResources, idle);
                }
                self.in_data.extend_from_slice(buffer);
                assert(self.in_data@ == buffer@);
                match copied {
                    Some(len) => {
                        self.in_data.truncate(len);
                        (AttStatus::Success, Wake { incoming: true, outgoing: false })
                    },
                    None => (AttStatus::InsufficientResources, idle),
                }
            },
            GattsEvent::SubscriptionChanged { conn_handle, attr_handle, cur_indicate } => {
                if attr_handle == *c2_val_handle {
                    if let Some(connection) = self.connection {
                        if connection.conn_handle == conn_handle {
                            self.connection = Some(
                                Connection { subscribed: cur_indicate, ..connection },
                            );
                        }
                    }
                    (AttStatus::Success, Wake { incoming: false, outgoing: true })
                } else {
                    (AttStatus::Success, idle)
                }
            },
            GattsEvent::NotifyComplete { indication, status } => {
                if indication && status != 0 {
                    // The peer confirmed the indication, or it failed; the next one may go out.
                    self.out_nack = false;
                    (AttStatus::Success, Wake { incoming: false, outgoing: true })
                } else {
                    (AttStatus::Success, idle)
                }
            },
        }
    }

    /// Takes note of what became of a delivery. A packet that the BTP engine took makes room for
    /// the next one; the failure of the engine is passed on.
    pub fn incoming_processed<E>(&mut self, result: Result<(), E>) -> (processed: Result<bool, E>)
        requires
            old(self).wf(),
        ensures
            final(self).wf(),
            result is Ok ==> {
                &&& processed == Ok::<bool, E>(true)
                &&& final(self)@ == old(self)@.delivered()
            },
            result matches Err(e) ==> {
                &&& processed == Err::<bool, E>(e)
                &&& final(self)@ == old(self)@
            },
    {
        match result {
            Ok(()) => {
                // The host has already acknowledged the write.
                self.in_data.clear();
                Ok(true)
            },
            Err(e) => Err(e),
        }
    }

    /// Whether advertising has to be (re)started now. The request is consumed.
    pub fn take_need_advertise(&mut self) -> (need_advertise: bool)
        requires
            old(self).wf(),
        ensures
            final(self).wf(),
            need_advertise == old(self)@.need_advertise,
            final(self)@ == old(self)@.advertise_taken(),
    {
        let need_advertise = self.need_advertise;
        self.need_advertise = false;
        need_advertise
    }

    /// Whether the BTP engine may be asked for a segment, and where that would go.
    pub fn poll_outgoing(&self, c2_val_handle: u16) -> (slot: Option<OutgoingSlot>)
        ensures
            slot is Some <==> self@.may_indicate(c2_val_handle),
            slot matches Some(slot) ==> slot == (OutgoingSlot {
                mtu: self@.connection->0.mtu,
                conn_handle: self@.connection->0.conn_handle,
                attr_handle: c2_val_handle,
            }),
    {
        match self.connection {
            // Peer is connected and subscribed to indications.
            Some(connection) if connection.subscribed => {
                if self.out_nack || c2_val_handle == 0 {
                    None
                } else {
                    Some(
                        OutgoingSlot {
                            mtu: connection.mtu,
                            conn_handle: connection.conn_handle,
                            attr_handle: c2_val_handle,
                        },
                    )
                }
            },
            _ => None,
        }
    }

    /// Takes over the buffer that the BTP engine was given and the number of bytes that it
    /// produced. Those bytes, if there are any, are to be indicated, and count as not
    /// acknowledged from here on, since the completion may come before the send returns.
    pub fn outgoing_filled<E>(
        &mut self,
        slot: OutgoingSlot,
        buffer: &[u8],
        produced: Result<usize, E>,
    ) -> (indication: Result<Option<Indication>, E>)
        requires
            old(self).wf(),
            buffer@.len() == MAX_MTU_SIZE,
            produced matches Ok(len) ==> len <= MAX_MTU_SIZE,
        ensures
            final(self).wf(),
            final(self)@ == old(self)@.segment_filled(
                buffer@,
                match produced {
                    Ok(len) => len,
                    Err(_) => 0,
                },
            ),
            produced matches Err(e) ==> indication == Err::<Option<Indication>, E>(e),
            produced matches Ok(len) ==> indication is Ok && (indication->Ok_0 is Some <==> len > 0),
            indication matches Ok(Some(sent)) ==> {
                &&& sent.conn_handle == slot.conn_handle
                &&& sent.attr_handle == slot.attr_handle
                &&& sent.data@ == buffer@.take(produced->Ok_0 as int)
            },
    {
        self.out_data.clear();
        self.out_data.extend_from_slice(buffer);
        assert(self.out_data@ == buffer@);
        match produced {
            Err(e) => Err(e),
            Ok(len) => {
                if len == 0 {
                    return Ok(None);
                }
                self.out_nack = true;
                let mut data: Vec<u8> = Vec::new();
                data.extend_from_slice(buffer);
                assert(data@ == buffer@);
                data.truncate(len);
                Ok(
                    Some(
                        Indication {
                            conn_handle: slot.conn_handle,
                            attr_handle: slot.attr_handle,
                            data,
                        },
                    ),
                )
            },
        }
    }

    /// Takes note of what became of the send of an indication. One that failed will never be
    /// acknowledged, so it must not block the next one.
    pub fn indication_sent(&mut self, result: Result<(), i32>) -> (processed: Result<
        bool,
        ErrorCode,
    >)
        requires
            old(self).wf(),
        ensures
            final(self).wf(),
            result is Ok ==> processed == Ok::<bool, ErrorCode>(true) && final(self)@ == old(
                self,
            )@,
            result is Err ==> processed == Err::<bool, ErrorCode>(ErrorCode::NoNetworkInterface)
                && final(self)@ == old(self)@.send_failed(),
    {
        match result {
            Ok(()) => Ok(true),
            Err(code) => {
                self.out_nack = false;
                Err(to_matter_err_ble(code))
            },
        }
    }

    /// The advertising payload.
    pub fn adv_data(&self) -> (adv_data: &[u8])
        ensures
            adv_data@ == self@.adv_data,
    {
        self.adv_data.as_slice()
    }

    /// The steps to (re)start connectable, undirected advertising with the payload of the run, in
    /// order. The first failure is the last step.
    pub fn advertise_commands(&self) -> (commands: Vec<AdvertiseCommand>)
        ensures
            commands@.len() == 3,
            commands@[0] == (AdvertiseCommand::EnsureAddr { prefer_random: false }),
            commands@[1] matches AdvertiseCommand::SetData { adv_data } && adv_data@
                == self@.adv_data,
            commands@[2] == (AdvertiseCommand::Start {
                own_addr_type: OwnAddrType::Public,
                conn_mode: ConnMode::Undirected,
                disc_mode: DiscMode::General,
            }),
    {
        let mut adv_data: Vec<u8> = Vec::new();
        adv_data.extend_from_slice(self.adv_data.as_slice());
        assert(adv_data@ == self.adv_data@);
        let mut commands: Vec<AdvertiseCommand> = Vec::new();
        commands.push(AdvertiseCommand::EnsureAddr { prefer_random: false });
        commands.push(AdvertiseCommand::SetData { adv_data });
        commands.push(
            AdvertiseCommand::Start {
                own_addr_type: OwnAddrType::Public,
                conn_mode: ConnMode::Undirected,
                disc_mode: DiscMode::General,
            },
        );
        commands
    }

    /// The connection to the peer, if there is one.
    pub fn connection(&self) -> (connection: Option<Connection>)
        ensures
            connection == self@.connection,
    {
        self.connection
    }
}

impl Default for EspBtpGattContext {
    fn default() -> (context: Self)
        ensures
            context.wf(),
            context@ == PeripheralModel::fresh(),
    {
        Self::new()
    }
}

/// A run of the peripheral.
pub struct EspBtpGattPeripheral {
    /// The connection that the incoming pump served last.
    generation: Option<usize>,
}

impl EspBtpGattPeripheral {
    /// The connection that the incoming pump served last, by its number.
    pub closed spec fn generation(&self) -> Option<usize> {
        self.generation
    }

    /// Creates a new instance. Whatever the context holds of an earlier peripheral is dropped.
    pub fn new(context: &mut EspBtpGattContext) -> (peripheral: Self)
        requires
            old(context).wf(),
        ensures
            final(context).wf(),
            final(context)@ == old(context)@.reset(),
            peripheral.generation() is None,
    {
        context.reset();
        EspBtpGattPeripheral { generation: None }
    }

    /// Begins a run, in which the given payload is advertised. A payload that is too long is cut
    /// off, and refused. The incoming pump has served no connection yet.
    pub fn run(&mut self, context: &mut EspBtpGattContext, service_adv_data: &[u8]) -> (result:
        Result<(), ErrorCode>)
        requires
            old(context).wf(),
        ensures
            final(context).wf(),
            final(self).generation() is None,
            service_adv_data@.len() <= MAX_ADV_DATA_SIZE ==> result is Ok && final(context)@ == (
            PeripheralModel { adv_data: service_adv_data@, ..old(context)@ }),
            service_adv_data@.len() > MAX_ADV_DATA_SIZE ==> result == Err::<(), ErrorCode>(
                ErrorCode::NoSpace,
            ) && final(context)@ == (PeripheralModel {
                adv_data: service_adv_data@.take(MAX_ADV_DATA_SIZE as int),
                ..old(context)@
            }),
    {
        self.generation = None;
        context.set_adv_data(service_adv_data)
    }

    /// The steps to start a run once its payload is set, in order. The first failure is the last
    /// step; after the last one the two pumps run.
    pub fn start_commands(&self) -> (commands: [StartCommand; 4])
        ensures
            commands@ == seq![
                StartCommand::PublishContext,
                StartCommand::SubscribeHooks,
                StartCommand::SetDeviceName,
                StartCommand::StartHost,
            ],
    {
        let commands = [
            StartCommand::PublishContext,
            StartCommand::SubscribeHooks,
            StartCommand::SetDeviceName,
            StartCommand::StartHost,
        ];
        assert(commands@ =~= seq![
            StartCommand::PublishContext,
            StartCommand::SubscribeHooks,
            StartCommand::SetDeviceName,
            StartCommand::StartHost,
        ]);
        commands
    }

    /// Looks for a packet that the peer has written. On a connection that the incoming pump has
    /// not served yet the BTP engine has to start over.
    pub fn poll_incoming<'a>(&mut self, context: &'a EspBtpGattContext) -> (step: IncomingStep<'a>)
        ensures
            context@.connection is Some ==> {
                &&& final(self).generation() == Some(context@.conn_gen)
                &&& step.reset_btp == (old(self).generation() != Some(context@.conn_gen))
            },
            context@.connection is None ==> {
                &&& final(self).generation() == old(self).generation()
                &&& !step.reset_btp
            },
            step.delivery is Some <==> context@.connection is Some && context@.in_data.len() > 0,
            step.delivery matches Some(delivery) ==> {
                &&& delivery.mtu == context@.connection->0.mtu
                &&& delivery.peer == context@.connection->0.peer
                &&& delivery.data@ == context@.in_data
            },
            step.reset_btp || step.delivery is Some <==> context@.incoming_due(
                old(self).generation(),
            ),
    {
        if let Some(connection) = context.connection {
            let served = match self.generation {
                Some(generation) => generation == context.conn_gen,
                None => false,
            };
            self.generation = Some(context.conn_gen);
            let delivery = if context.in_data.len() != 0 {
                Some(
                    Delivery {
                        mtu: connection.mtu,
                        peer: connection.peer,
                        data: context.in_data.as_slice(),
                    },
                )
            } else {
                None
            };
            IncomingStep { reset_btp: !served, delivery }
        } else {
            IncomingStep { reset_btp: false, delivery: None }
        }
    }
}

} // verus!
