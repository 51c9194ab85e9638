//! What holds of the central over any course of events.

use vstd::prelude::*;

use crate::ble::central::{
    gap_wake, gattc_wake, host_wake, phase_action, phase_fruitful, phase_over, phase_successor,
    CentralModel, ClientAction, ClientPhase, GapEvent, GattcEvent, Wake,
};
use crate::ble::{
    BleUuid, HostEvent, OwnAddrType, C1_CHARACTERISTIC_UUID, C2_CHARACTERISTIC_UUID,
    MATTER_BLE_SERVICE_UUID16,
};

verus! {

/// An event of any of the three hooks.
pub enum CentralInput<'a> {
    Host(HostEvent),
    Gap(GapEvent),
    Gattc(GattcEvent<'a>),
}

impl<'a> CentralInput<'a> {
    /// Whether the event tells of a link that could not be set up or is lost.
    pub open spec fn fails(self) -> bool {
        match self {
            CentralInput::Gap(GapEvent::Connect { connected, .. }) => !connected,
            CentralInput::Gap(GapEvent::Disconnect { .. }) => true,
            _ => false,
        }
    }

    /// The handle of the connection that the event tells of.
    pub open spec fn connects(self) -> Option<u16> {
        match self {
            CentralInput::Gap(GapEvent::Connect { conn_handle, connected }) => if connected {
                Some(conn_handle)
            } else {
                None
            },
            _ => None,
        }
    }

    /// The MTU of the current connection that the event tells of.
    pub open spec fn mtu(self, s: CentralModel) -> Option<u16> {
        match self {
            CentralInput::Gap(GapEvent::Mtu { conn_handle, value }) => if s.conn_handle == Some(
                conn_handle,
            ) {
                Some(value)
            } else {
                None
            },
            _ => None,
        }
    }

    /// The handle range of the Matter service that the event tells of.
    pub open spec fn matter_range(self) -> Option<(u16, u16)> {
        match self {
            CentralInput::Gattc(GattcEvent::Service { service: Some(service) }) => if service.uuid
                == BleUuid::Uuid16(MATTER_BLE_SERVICE_UUID16) {
                Some((service.start_handle, service.end_handle))
            } else {
                None
            },
            _ => None,
        }
    }

    /// The value handle of the characteristic with this UUID that the event tells of.
    pub open spec fn chr(self, uuid: u128) -> Option<u16> {
        match self {
            CentralInput::Gattc(GattcEvent::Characteristic { chr: Some(chr) }) => if chr.uuid
                == BleUuid::Uuid128(uuid) {
                Some(chr.val_handle)
            } else {
                None
            },
            _ => None,
        }
    }

    /// Whether the event is the end marker of the discovery of services.
    pub open spec fn ends_services(self) -> bool {
        match self {
            CentralInput::Gattc(GattcEvent::Service { service }) => service is None,
            _ => false,
        }
    }

    /// Whether the event is the end marker of the discovery of characteristics.
    pub open spec fn ends_chars(self) -> bool {
        match self {
            CentralInput::Gattc(GattcEvent::Characteristic { chr }) => chr is None,
            _ => false,
        }
    }
}

/// The last value that is told, or, if none is, the one before.
pub open spec fn last_told<T>(told: Seq<Option<T>>, before: Option<T>) -> Option<T>
    decreases told.len(),
{
    if told.len() == 0 {
        before
    } else if told.last() is Some {
        told.last()
    } else {
        last_told(told.drop_last(), before)
    }
}

/// The state after one event.
pub open spec fn central_step(s: CentralModel, input: CentralInput) -> CentralModel {
    match input {
        CentralInput::Host(event) => s.after_host(event),
        CentralInput::Gap(event) => s.after_gap(event),
        CentralInput::Gattc(event) => s.after_gattc(event),
    }
}

/// Whom one event wakes.
pub open spec fn central_wake(s: CentralModel, input: CentralInput) -> Wake {
    match input {
        CentralInput::Host(event) => host_wake(event),
        CentralInput::Gap(event) => gap_wake(event),
        CentralInput::Gattc(event) => gattc_wake(s, event),
    }
}

/// The state after a course of events.
pub open spec fn central_run(s: CentralModel, inputs: Seq<CentralInput>) -> CentralModel
    decreases inputs.len(),
{
    if inputs.len() == 0 {
        s
    } else {
        central_step(central_run(s, inputs.drop_last()), inputs.last())
    }
}

/// A session that failed stays failed, whatever happens, until the context is reset.
pub proof fn law_failure_is_final(s: CentralModel, inputs: Seq<CentralInput>)
    requires
        s.failed,
    ensures
        central_run(s, inputs).failed,
    decreases inputs.len(),
{
    if inputs.len() > 0 {
        law_failure_is_final(s, inputs.drop_last());
    }
}

/// What has been learned of the peer is not unlearned by any event.
pub proof fn law_discovery_is_kept(s: CentralModel, inputs: Seq<CentralInput>)
    ensures
        s.synced ==> central_run(s, inputs).synced,
        s.conn_handle is Some ==> central_run(s, inputs).conn_handle is Some,
        s.matter_range is Some ==> central_run(s, inputs).matter_range is Some,
        s.services_done ==> central_run(s, inputs).services_done,
        s.c1_val is Some ==> central_run(s, inputs).c1_val is Some,
        s.c2_val is Some ==> central_run(s, inputs).c2_val is Some,
        s.chars_done ==> central_run(s, inputs).chars_done,
        central_run(s, inputs).peer == s.peer,
    decreases inputs.len(),
{
    if inputs.len() > 0 {
        law_discovery_is_kept(s, inputs.drop_last());
    }
}

/// The link has failed exactly if a failed connect or a disconnect was seen. The connection is that
/// of the last successful connect. The MTU is the last one that was told of the connection of its
/// time.
pub proof fn law_link_follows_events(s: CentralModel, inputs: Seq<CentralInput>)
    ensures
        central_run(s, inputs).failed <==> s.failed || exists|i: int|
            0 <= i < inputs.len() && (#[trigger] inputs[i]).fails(),
        central_run(s, inputs).conn_handle == last_told(
            Seq::new(inputs.len(), |i: int| inputs[i].connects()),
            s.conn_handle,
        ),
        central_run(s, inputs).mtu == last_told(
            Seq::new(inputs.len(), |i: int| inputs[i].mtu(central_run(s, inputs.take(i)))),
            s.mtu,
        ),
    decreases inputs.len(),
{
    if inputs.len() > 0 {
        let before = inputs.drop_last();
        let n = before.len() as int;
        law_link_follows_events(s, before);
        assert(inputs.take(n) =~= before);
        assert(inputs[n] == inputs.last());
        assert(forall|i: int| 0 <= i < n ==> #[trigger] before[i] == inputs[i]);
        assert(forall|i: int| 0 <= i <= n ==> #[trigger] before.take(i) =~= inputs.take(i));
        let handles = Seq::new(inputs.len(), |i: int| inputs[i].connects());
        assert(handles.drop_last() =~= Seq::new(before.len(), |i: int| before[i].connects()));
        let mtus = Seq::new(inputs.len(), |i: int| inputs[i].mtu(central_run(s, inputs.take(i))));
        assert(mtus.drop_last() =~= Seq::new(
            before.len(),
            |i: int| before[i].mtu(central_run(s, before.take(i))),
        ));
        lemma_seen_before_or_last(inputs, |input: CentralInput| input.fails());
    }
}

/// Of what the discovery tells, the last match wins: the last Matter service, and the last
/// characteristic with the UUID of `C1` and of `C2`. Each discovery is done exactly if its end
/// marker was seen.
pub proof fn law_discovery_keeps_last_match(s: CentralModel, inputs: Seq<CentralInput>)
    ensures
        central_run(s, inputs).matter_range == last_told(
            Seq::new(inputs.len(), |i: int| inputs[i].matter_range()),
            s.matter_range,
        ),
        central_run(s, inputs).c1_val == last_told(
            Seq::new(inputs.len(), |i: int| inputs[i].chr(C1_CHARACTERISTIC_UUID)),
            s.c1_val,
        ),
        central_run(s, inputs).c2_val == last_told(
            Seq::new(inputs.len(), |i: int| inputs[i].chr(C2_CHARACTERISTIC_UUID)),
            s.c2_val,
        ),
        central_run(s, inputs).services_done <==> s.services_done || exists|i: int|
            0 <= i < inputs.len() && (#[trigger] inputs[i]).ends_services(),
        central_run(s, inputs).chars_done <==> s.chars_done || exists|i: int|
            0 <= i < inputs.len() && (#[trigger] inputs[i]).ends_chars(),
    decreases inputs.len(),
{
    if inputs.len() > 0 {
        let before = inputs.drop_last();
        let n = before.len() as int;
        law_discovery_keeps_last_match(s, before);
        assert(inputs[n] == inputs.last());
        assert(forall|i: int| 0 <= i < n ==> #[trigger] before[i] == inputs[i]);
        let ranges = Seq::new(inputs.len(), |i: int| inputs[i].matter_range());
        assert(ranges.drop_last() =~= Seq::new(before.len(), |i: int| before[i].matter_range()));
        let c1s = Seq::new(inputs.len(), |i: int| inputs[i].chr(C1_CHARACTERISTIC_UUID));
        assert(c1s.drop_last() =~= Seq::new(
            before.len(),
            |i: int| before[i].chr(C1_CHARACTERISTIC_UUID),
        ));
        let c2s = Seq::new(inputs.len(), |i: int| inputs[i].chr(C2_CHARACTERISTIC_UUID));
        assert(c2s.drop_last() =~= Seq::new(
            before.len(),
            |i: int| before[i].chr(C2_CHARACTERISTIC_UUID),
        ));
        lemma_seen_before_or_last(inputs, |input: CentralInput| input.ends_services());
        lemma_seen_before_or_last(inputs, |input: CentralInput| input.ends_chars());
    }
}

/// An indication that waits for delivery is neither changed nor lost: later ones do not get at
/// it.
pub proof fn law_pending_indication_is_kept(s: CentralModel, inputs: Seq<CentralInput>)
    requires
        s.in_data.len() > 0,
    ensures
        central_run(s, inputs).in_data == s.in_data,
    decreases inputs.len(),
{
    if inputs.len() > 0 {
        law_pending_indication_is_kept(s, inputs.drop_last());
    }
}

/// An indication of `C2` that finds room is kept byte for byte; one of anything else is ignored.
pub proof fn law_indication_is_delivered(
    s: CentralModel,
    attr_handle: u16,
    buffer: &[u8],
    len: usize,
)
    requires
        s.in_data.len() == 0,
        len <= buffer@.len(),
    ensures
        s.after_gattc(GattcEvent::Notify { attr_handle, buffer, copied: Some(len) }) == if s.c2_val
            == Some(attr_handle) {
            CentralModel { in_data: buffer@.take(len as int), ..s }
        } else {
            s
        },
{
}

/// A step of the central: an event of the hooks, or a turn of a pump.
pub enum CentralStep<'a> {
    Event(CentralInput<'a>),
    /// The incoming pump has its turn, and the BTP engine takes what is delivered.
    Deliver,
    /// The outgoing pump has its turn. If the BTP engine is asked for a segment, it fills `buffer`
    /// and produces `len` bytes, and `written` says whether their write is started.
    Write { buffer: Seq<u8>, len: usize, written: bool },
}

impl<'a> CentralStep<'a> {
    /// Whether the step puts a segment in flight.
    pub open spec fn sends(self, s: CentralModel) -> bool {
        self matches CentralStep::Write { len, written, .. } && len > 0 && written && s.may_write()
    }

    /// Whether the step completes the write of a segment.
    pub open spec fn completes(self, s: CentralModel) -> bool {
        self matches CentralStep::Event(
            CentralInput::Gattc(GattcEvent::WriteComplete { attr_handle, .. }),
        ) && s.c1_val == Some(attr_handle) && !s.is_cccd(attr_handle)
    }
}

/// The central together with the indications that were kept and those that were delivered to the
/// BTP engine so far.
pub struct CentralFlow {
    pub state: CentralModel,
    pub kept: Seq<Seq<u8>>,
    pub delivered: Seq<Seq<u8>>,
}

impl CentralFlow {
    /// The flow after an event. An indication is kept if it is one of `C2` with any bytes, which
    /// could be copied, and none waits.
    pub open spec fn after_event(self, input: CentralInput) -> CentralFlow {
        let state = central_step(self.state, input);
        let kept = match input {
            CentralInput::Gattc(
                GattcEvent::Notify { attr_handle, buffer, copied: Some(len) },
            ) => if self.state.c2_val == Some(attr_handle) && self.state.in_data.len() == 0 && 0
                < len <= buffer@.len() {
                self.kept.push(buffer@.take(len as int))
            } else {
                self.kept
            },
            _ => self.kept,
        };
        CentralFlow { state, kept, delivered: self.delivered }
    }

    /// The flow after the incoming pump had its turn.
    pub open spec fn after_delivery(self) -> CentralFlow {
        if !self.state.failed && self.state.in_data.len() > 0 {
            CentralFlow {
                state: self.state.delivered(),
                delivered: self.delivered.push(self.state.in_data),
                ..self
            }
        } else {
            self
        }
    }

    /// The flow after the outgoing pump had its turn.
    pub open spec fn after_write(self, buffer: Seq<u8>, len: usize, written: bool) -> CentralFlow {
        if self.state.may_write() {
            let filled = self.state.segment_filled(buffer);
            CentralFlow {
                state: if len > 0 && written {
                    filled.segment_started()
                } else {
                    filled
                },
                ..self
            }
        } else {
            self
        }
    }

    /// The flow after a course of steps.
    pub open spec fn after(self, steps: Seq<CentralStep>) -> CentralFlow
        decreases steps.len(),
    {
        if steps.len() == 0 {
            self
        } else {
            let before = self.after(steps.drop_last());
            match steps.last() {
                CentralStep::Event(input) => before.after_event(input),
                CentralStep::Deliver => before.after_delivery(),
                CentralStep::Write { buffer, len, written } => before.after_write(
                    buffer,
                    len,
                    written,
                ),
            }
        }
    }

    /// The indication that waits for delivery, if there is one.
    pub open spec fn waiting(self) -> Seq<Seq<u8>> {
        if self.state.in_data.len() > 0 {
            seq![self.state.in_data]
        } else {
            Seq::empty()
        }
    }
}

/// The indications that were kept are delivered to the BTP engine, each of them once, in order and
/// unchanged; only the last one may still wait.
pub proof fn law_indications_are_delivered_in_order(flow: CentralFlow, steps: Seq<CentralStep>)
    requires
        flow.kept == flow.delivered + flow.waiting(),
        forall|i: int|
            0 <= i < steps.len() ==> (#[trigger] steps[i] matches CentralStep::Event(
                CentralInput::Gattc(GattcEvent::Notify { buffer, copied: Some(len), .. }),
            ) ==> len <= buffer@.len()),
    ensures
        flow.after(steps).kept == flow.after(steps).delivered + flow.after(steps).waiting(),
    decreases steps.len(),
{
    if steps.len() > 0 {
        let before = steps.drop_last();
        assert forall|i: int| 0 <= i < before.len() implies (#[trigger] before[i] matches
            CentralStep::Event(
            CentralInput::Gattc(GattcEvent::Notify { buffer, copied: Some(len), .. }),
        ) ==> len <= buffer@.len()) by {
            assert(before[i] == steps[i]);
        }
        law_indications_are_delivered_in_order(flow, before);
        assert(steps[steps.len() - 1] == steps.last());
        let after = flow.after(steps);
        assert(after.kept =~= after.delivered + after.waiting());
    }
}

/// There is one segment in flight at a time: after one was written, only the completion of a
/// write to `C1` lets the next one out, whatever the hooks and the pumps do.
pub proof fn law_one_segment_in_flight(flow: CentralFlow, steps: Seq<CentralStep>)
    requires
        flow.state.out_inflight,
        forall|i: int|
            0 <= i < steps.len() ==> !(#[trigger] steps[i]).completes(
                flow.after(steps.take(i)).state,
            ),
    ensures
        flow.after(steps).state.out_inflight,
        !flow.after(steps).state.may_write(),
    decreases steps.len(),
{
    if steps.len() > 0 {
        let before = steps.drop_last();
        assert forall|i: int| 0 <= i < before.len() implies !(#[trigger] before[i]).completes(
            flow.after(before.take(i)).state,
        ) by {
            assert(before[i] == steps[i]);
            assert(before.take(i) == steps.take(i));
        }
        law_one_segment_in_flight(flow, before);
        assert(steps.take(steps.len() - 1) == before);
        assert(steps[steps.len() - 1] == steps.last());
    }
}

/// Between any two segments that are put in flight the write of a segment completes.
pub proof fn law_segments_take_turns(
    flow: CentralFlow,
    steps: Seq<CentralStep>,
    first: int,
    second: int,
)
    requires
        0 <= first < second < steps.len(),
        steps[first].sends(flow.after(steps.take(first)).state),
        steps[second].sends(flow.after(steps.take(second)).state),
    ensures
        exists|k: int|
            first < k < second && (#[trigger] steps[k]).completes(flow.after(steps.take(k)).state),
{
    if forall|k: int|
        first < k < second ==> !(#[trigger] steps[k]).completes(flow.after(steps.take(k)).state) {
        let sent = flow.after(steps.take(first + 1));
        assert(steps.take(first + 1).drop_last() =~= steps.take(first));
        assert(sent.state.out_inflight);
        let between = steps.subrange(first + 1, second);
        assert forall|i: int| 0 <= i < between.len() implies !(#[trigger] between[i]).completes(
            sent.after(between.take(i)).state,
        ) by {
            lemma_flow_goes_on(flow, steps.take(first + 1), between.take(i));
            assert(steps.take(first + 1) + between.take(i) =~= steps.take(first + 1 + i));
            assert(between[i] == steps[first + 1 + i]);
        }
        law_one_segment_in_flight(sent, between);
        lemma_flow_goes_on(flow, steps.take(first + 1), between);
        assert(steps.take(first + 1) + between =~= steps.take(second));
    }
}

proof fn lemma_flow_goes_on(flow: CentralFlow, a: Seq<CentralStep>, b: Seq<CentralStep>)
    ensures
        flow.after(a + b) == flow.after(a).after(b),
    decreases b.len(),
{
    if b.len() == 0 {
        assert(a + b =~= a);
    } else {
        lemma_flow_goes_on(flow, a, b.drop_last());
        assert((a + b).drop_last() =~= a + b.drop_last());
        assert((a + b).last() == b.last());
    }
}

/// No wake-up is lost: an event that lets the setup sequence go on, or gives a pump something to
/// do, wakes it. The exception is a failed attempt to connect, which only the setup sequence is
/// told of: the pumps do not run yet.
pub proof fn law_no_lost_wakeup(s: CentralModel, input: CentralInput, phase: ClientPhase)
    ensures
        phase_over(phase, central_step(s, input)) && !phase_over(phase, s) ==> central_wake(
            s,
            input,
        ).progress,
        !(input matches CentralInput::Gap(GapEvent::Connect { connected, .. }) && !connected) ==> {
            let after = central_step(s, input);
            &&& (after.failed || after.in_data.len() > 0) && !(s.failed || s.in_data.len() > 0)
                ==> central_wake(s, input).incoming
            &&& (after.failed || !after.out_inflight) && !(s.failed || !s.out_inflight)
                ==> central_wake(s, input).outgoing
        },
{
}

/// The pumps only start on a link that stands and on which the subscription to `C2` is complete.
pub proof fn law_pumps_need_subscription(s: CentralModel, conn: u16, c1_val: u16)
    ensures
        phase_over(ClientPhase::Subscription { conn, c1_val }, s) && phase_fruitful(
            ClientPhase::Subscription { conn, c1_val },
            s,
        ) <==> s.subscribed && !s.failed,
{
}

/// A step of a run of the central: an event of the hooks, or a call for the next action, with what
/// came of the previous one.
pub enum ClientStep<'a> {
    Event(CentralInput<'a>),
    Next { outcome: Result<(), i32> },
}

/// An action that was given out, and the state that it was given out in.
pub struct GivenAction {
    pub action: ClientAction,
    pub state: CentralModel,
}

/// A run of the central together with what it has given out so far, apart from waits.
pub struct ClientFlow {
    pub state: CentralModel,
    pub phase: ClientPhase,
    /// The run has ended with an error.
    pub ended: bool,
    pub given: Seq<GivenAction>,
}

impl ClientFlow {
    /// A run that begins.
    pub open spec fn begin(state: CentralModel) -> ClientFlow {
        ClientFlow { state, phase: ClientPhase::Sync, ended: false, given: Seq::empty() }
    }

    /// The flow after a call for the next action.
    pub open spec fn after_next(self, outcome: Result<(), i32>) -> ClientFlow {
        if self.ended {
            self
        } else if outcome is Err || (phase_over(self.phase, self.state) && !phase_fruitful(
            self.phase,
            self.state,
        )) {
            ClientFlow { ended: true, ..self }
        } else if phase_over(self.phase, self.state) {
            ClientFlow {
                phase: phase_successor(self.phase, self.state),
                given: self.given.push(
                    GivenAction {
                        action: phase_action(self.phase, self.state),
                        state: self.state,
                    },
                ),
                ..self
            }
        } else {
            self
        }
    }

    /// The flow after a course of steps.
    pub open spec fn after(self, steps: Seq<ClientStep>) -> ClientFlow
        decreases steps.len(),
    {
        if steps.len() == 0 {
            self
        } else {
            let before = self.after(steps.drop_last());
            match steps.last() {
                ClientStep::Event(input) => ClientFlow {
                    state: central_step(before.state, input),
                    ..before
                },
                ClientStep::Next { outcome } => before.after_next(outcome),
            }
        }
    }

    /// The connection that was known when the connection attempt had ended.
    pub open spec fn conn(self) -> u16 {
        self.given[1].state.conn_handle->0
    }

    /// The `C1` that was known when the characteristics were discovered.
    pub open spec fn c1_val(self) -> u16 {
        self.given[3].state.c1_val->0
    }

    /// The actions are given out in the one order in which they make sense, each with what was
    /// known at its time.
    pub open spec fn in_order(self) -> bool {
        &&& self.given.len() > 0 ==> {
            &&& self.given[0].state.synced
            &&& self.given[0].action == (ClientAction::Connect {
                prefer_random: false,
                own_addr_type: OwnAddrType::Public,
                peer_addr_type: 0,
                peer: self.given[0].state.peer,
            })
        }
        &&& self.given.len() > 1 ==> {
            &&& self.given[1].state.conn_handle is Some
            &&& self.given[1].action == (ClientAction::DiscoverServices { conn: self.conn() })
        }
        &&& self.given.len() > 2 ==> {
            &&& self.given[2].state.services_done || self.given[2].state.failed
            &&& self.given[2].state.matter_range is Some
            &&& self.given[2].action matches ClientAction::DiscoverCharacteristics {
                conn,
                start_handle,
                end_handle,
            }
            &&& conn == self.conn()
            &&& (start_handle, end_handle) == self.given[2].state.matter_range->0
        }
        &&& self.given.len() > 3 ==> {
            &&& self.given[3].state.chars_done || self.given[3].state.failed
            &&& self.given[3].state.c1_val is Some
            &&& self.given[3].state.c2_val is Some
            &&& self.given[3].action matches ClientAction::Subscribe { conn, attr_handle, value }
            &&& conn == self.conn()
            &&& self.given[3].state.c2_val->0 < u16::MAX ==> attr_handle
                - self.given[3].state.c2_val->0 == 1
            &&& value == [0x02u8, 0x00u8]
        }
        &&& self.given.len() > 4 ==> self.given[4].state.subscribed && !self.given[4].state.failed
        &&& forall|k: int|
            4 <= k < self.given.len() ==> (#[trigger] self.given[k]).action == (
            ClientAction::Pump { conn: self.conn(), c1_val: self.c1_val() })
    }
}

/// Whatever the hooks tell and whenever the next action is asked for, a run gives out its actions
/// in one order: it connects, discovers the services, discovers the characteristics and
/// subscribes, each of these once, and only then runs the pumps. When these start, the
/// subscription is complete and the link stands. The session is that of the connection and of the
/// `C1` that were known when their phases ended.
pub proof fn law_session_follows_setup(s: CentralModel, steps: Seq<ClientStep>)
    ensures
        ({
            let flow = ClientFlow::begin(s).after(steps);
            &&& flow.in_order()
            &&& match flow.phase {
                ClientPhase::Sync => flow.given.len() == 0,
                ClientPhase::Connection => flow.given.len() == 1,
                ClientPhase::Services { conn } => flow.given.len() == 2 && conn == flow.conn(),
                ClientPhase::Characteristics { conn } => flow.given.len() == 3 && conn
                    == flow.conn(),
                ClientPhase::Subscription { conn, c1_val } => flow.given.len() == 4 && conn
                    == flow.conn() && c1_val == flow.c1_val(),
                ClientPhase::Session { conn, c1_val } => flow.given.len() >= 5 && conn
                    == flow.conn() && c1_val == flow.c1_val(),
            }
        }),
    decreases steps.len(),
{
    if steps.len() > 0 {
        law_session_follows_setup(s, steps.drop_last());
        let before = ClientFlow::begin(s).after(steps.drop_last());
        let after = ClientFlow::begin(s).after(steps);
        assert(forall|k: int| 0 <= k < before.given.len() ==> after.given[k] == before.given[k]);
    }
}

/// The phase reached from `phase` by `n` fruitful steps over a settled state.
pub open spec fn phase_after(phase: ClientPhase, s: CentralModel, n: nat) -> ClientPhase
    decreases n,
{
    if n == 0 {
        phase
    } else {
        phase_successor(phase_after(phase, s, (n - 1) as nat), s)
    }
}

/// Once everything was found on the peer and the subscription stands, a run goes through its
/// actions in the one order in which they make sense, and ends up writing to the `C1` that was
/// found.
pub proof fn law_run_reaches_session(s: CentralModel)
    requires
        s.synced,
        !s.failed,
        s.conn_handle is Some,
        s.services_done,
        s.matter_range is Some,
        s.chars_done,
        s.c1_val is Some,
        s.c2_val is Some,
        s.subscribed,
    ensures
        forall|n: nat|
            phase_over(#[trigger] phase_after(ClientPhase::Sync, s, n), s) && phase_fruitful(
                phase_after(ClientPhase::Sync, s, n),
                s,
            ),
        phase_action(phase_after(ClientPhase::Sync, s, 0), s) == (ClientAction::Connect {
            prefer_random: false,
            own_addr_type: OwnAddrType::Public,
            peer_addr_type: 0,
            peer: s.peer,
        }),
        phase_action(phase_after(ClientPhase::Sync, s, 1), s) == (ClientAction::DiscoverServices {
            conn: s.conn_handle->0,
        }),
        phase_action(phase_after(ClientPhase::Sync, s, 2), s) matches
            ClientAction::DiscoverCharacteristics { conn, start_handle, end_handle } && conn
            == s.conn_handle->0 && (start_handle, end_handle) == s.matter_range->0,
        phase_action(phase_after(ClientPhase::Sync, s, 3), s) matches ClientAction::Subscribe {
            conn,
            attr_handle,
            ..
        } && conn == s.conn_handle->0 && (s.c2_val->0 < u16::MAX ==> attr_handle - s.c2_val->0
            == 1),
        forall|n: nat|
            n >= 4 ==> #[trigger] phase_action(phase_after(ClientPhase::Sync, s, n), s) == (
            ClientAction::Pump { conn: s.conn_handle->0, c1_val: s.c1_val->0 }),
{
    reveal_with_fuel(phase_after, 6);
    assert forall|n: nat| n >= 5 implies #[trigger] phase_after(ClientPhase::Sync, s, n) == (
    ClientPhase::Session { conn: s.conn_handle->0, c1_val: s.c1_val->0 }) by {
        lemma_session_lasts(s, n);
    }
    assert forall|n: nat|
        phase_over(#[trigger] phase_after(ClientPhase::Sync, s, n), s) && phase_fruitful(
            phase_after(ClientPhase::Sync, s, n),
            s,
        ) by {
        if n >= 5 {
            lemma_session_lasts(s, n);
        }
    }
}

proof fn lemma_session_lasts(s: CentralModel, n: nat)
    requires
        n >= 5,
    ensures
        phase_after(ClientPhase::Sync, s, n) == (ClientPhase::Session {
            conn: s.conn_handle->0,
            c1_val: s.c1_val->0,
        }),
    decreases n,
{
    reveal_with_fuel(phase_after, 6);
    if n > 5 {
        lemma_session_lasts(s, (n - 1) as nat);
    }
}

proof fn lemma_seen_before_or_last<'a>(
    inputs: Seq<CentralInput<'a>>,
    seen: spec_fn(CentralInput<'a>) -> bool,
)
    requires
        inputs.len() > 0,
    ensures
        (exists|i: int| 0 <= i < inputs.len() && seen(#[trigger] inputs[i])) <==> seen(
            inputs.last(),
        ) || exists|i: int|
            0 <= i < inputs.drop_last().len() && seen(#[trigger] inputs.drop_last()[i]),
{
    let before = inputs.drop_last();
    if seen(inputs.last()) {
        assert(seen(inputs[inputs.len() - 1]));
    } else if exists|i: int| 0 <= i < inputs.len() && seen(#[trigger] inputs[i]) {
        let i = choose|i: int| 0 <= i < inputs.len() && seen(#[trigger] inputs[i]);
        assert(seen(before[i]));
    }
    if exists|i: int| 0 <= i < before.len() && seen(#[trigger] before[i]) {
        let i = choose|i: int| 0 <= i < before.len() && seen(#[trigger] before[i]);
        assert(seen(inputs[i]));
    }
}

/// The subscription is written to the attribute whose handle is that of the value of `C2` plus one,
/// and it is complete exactly if the write of that very attribute completes with status zero. The
/// completion of any other write leaves it as it was.
pub proof fn law_subscription_is_next_after_c2(
    s: CentralModel,
    conn: u16,
    c1_val: u16,
    c2_val: u16,
    attr_handle: u16,
    status: u16,
)
    requires
        s.c1_val == Some(c1_val),
        s.c2_val == Some(c2_val),
        c2_val < u16::MAX,
    ensures
        phase_action(ClientPhase::Characteristics { conn }, s) matches ClientAction::Subscribe {
            conn: to,
            attr_handle: cccd,
            value,
        } && to == conn && cccd - c2_val == 1 && value@ == seq![2u8, 0u8],
        ({
            let after = s.after_gattc(GattcEvent::WriteComplete { attr_handle, status });
            &&& attr_handle - c2_val == 1 ==> (after.subscribed <==> status == 0)
            &&& attr_handle - c2_val != 1 ==> after.subscribed == s.subscribed
            &&& after.out_inflight <==> s.out_inflight && (attr_handle != c1_val || attr_handle
                - c2_val == 1)
            &&& gattc_wake(s, GattcEvent::WriteComplete { attr_handle, status }).progress
                <==> attr_handle - c2_val == 1
            &&& gattc_wake(s, GattcEvent::WriteComplete { attr_handle, status }).outgoing
                <==> attr_handle == c1_val && attr_handle - c2_val != 1
            &&& !gattc_wake(s, GattcEvent::WriteComplete { attr_handle, status }).incoming
        }),
{
}

/// Each event touches only the part of the state that it tells of. The peer and the outgoing buffer
/// are touched by none. A synchronization is remembered. Only the completion of a write changes
/// the subscription and what is in flight, and only an indication changes what waits for delivery:
/// one of `C2` whose bytes could be copied, if nothing waits.
pub proof fn law_events_touch_their_part(s: CentralModel, input: CentralInput)
    ensures
        ({
            let after = central_step(s, input);
            &&& after.peer == s.peer
            &&& after.out_data == s.out_data
            &&& after.synced <==> s.synced || input == CentralInput::Host(HostEvent::Sync)
            &&& after.subscribed != s.subscribed ==> {
                &&& input matches CentralInput::Gattc(
                    GattcEvent::WriteComplete { attr_handle, status },
                )
                &&& s.c2_val is Some
                &&& attr_handle - s.c2_val->0 == 1
                &&& after.subscribed <==> status == 0
            }
            &&& after.out_inflight != s.out_inflight ==> {
                &&& !after.out_inflight
                &&& input matches CentralInput::Gattc(
                    GattcEvent::WriteComplete { attr_handle, .. },
                )
                &&& s.c1_val == Some(attr_handle)
            }
            &&& match input {
                CentralInput::Gattc(
                    GattcEvent::Notify { attr_handle, buffer, copied: Some(len) },
                ) if s.c2_val == Some(attr_handle) && s.in_data.len() == 0 => {
                    let kept = if len <= buffer@.len() {
                        len as nat
                    } else {
                        buffer@.len()
                    };
                    &&& after.in_data.len() == kept
                    &&& forall|i: int| 0 <= i < kept ==> after.in_data[i] == buffer@[i]
                },
                _ => after.in_data == s.in_data,
            }
        }),
{
}

/// The completion of a write is that of the subscription exactly if `C2` is known and the handle is
/// the next one after that of its value; then the setup is woken. Otherwise it is that of a segment
/// exactly if the handle is that of `C1`; then the flight of the segment ends, and the outgoing pump
/// is woken. In no other case does it do anything.
pub proof fn law_completed_write_ends_flight(s: CentralModel, attr_handle: u16, status: u16)
    ensures
        ({
            let event = GattcEvent::WriteComplete { attr_handle, status };
            let after = s.after_gattc(event);
            let subscription = s.c2_val is Some && attr_handle - s.c2_val->0 == 1;
            let segment = s.c1_val == Some(attr_handle) && !subscription;
            &&& after.subscribed <==> if subscription {
                status == 0
            } else {
                s.subscribed
            }
            &&& after.out_inflight <==> s.out_inflight && !segment
            &&& gattc_wake(s, event) == (Wake {
                progress: subscription,
                incoming: false,
                outgoing: segment,
            })
        }),
{
}

/// The setup is told of a synchronization, of every end of an attempt to connect and of the end of
/// each discovery; everybody is told of a disconnect; the incoming pump is told of every indication
/// of `C2`. Nobody is told of anything else, but for the completion of writes.
pub proof fn law_wakes_follow_events(s: CentralModel, input: CentralInput)
    requires
        !(input matches CentralInput::Gattc(GattcEvent::WriteComplete { .. })),
    ensures
        ({
            let lost = input matches CentralInput::Gap(GapEvent::Disconnect { .. });
            &&& central_wake(s, input).progress <==> {
                ||| lost
                ||| input == CentralInput::Host(HostEvent::Sync)
                ||| input matches CentralInput::Gap(GapEvent::Connect { .. })
                ||| input.ends_services()
                ||| input.ends_chars()
            }
            &&& central_wake(s, input).incoming <==> {
                ||| lost
                ||| input matches CentralInput::Gattc(GattcEvent::Notify { attr_handle, .. })
                    && s.c2_val == Some(attr_handle)
            }
            &&& central_wake(s, input).outgoing <==> lost
        }),
{
}

/// A new context knows nothing: every flag is down, nothing was found, the peer's address is all
/// zero and the buffers are empty.
pub proof fn law_new_context_knows_nothing()
    ensures
        ({
            let s = CentralModel::fresh();
            &&& !s.synced && !s.failed && !s.services_done && !s.chars_done && !s.subscribed
                && !s.out_inflight
            &&& s.conn_handle is None && s.mtu is None && s.matter_range is None
            &&& s.c1_val is None && s.c2_val is None
            &&& s.peer.0@ == seq![0u8, 0u8, 0u8, 0u8, 0u8, 0u8]
            &&& s.in_data.len() == 0 && s.out_data.len() == 0
        }),
{
}

/// Each turn of a pump touches only its own part: a delivery empties what waits, a segment fills
/// the outgoing buffer, and its write is in flight once it is started. A segment is asked for
/// exactly if the link stands and none is in flight.
pub proof fn law_pumps_touch_their_part(s: CentralModel, buffer: Seq<u8>)
    ensures
        s.delivered().in_data.len() == 0,
        s.delivered() == (CentralModel { in_data: s.delivered().in_data, ..s }),
        s.segment_filled(buffer) == (CentralModel { out_data: buffer, ..s }),
        s.segment_started() == (CentralModel { out_inflight: true, ..s }),
        s.may_write() <==> !(s.failed || s.out_inflight),
{
}

/// What each phase of the setup waits for, and what it has to have brought for the run to go on.
pub proof fn law_phases_wait_for_events(s: CentralModel, conn: u16, c1_val: u16)
    ensures
        phase_over(ClientPhase::Sync, s) <==> s.synced,
        phase_over(ClientPhase::Connection, s) <==> !(s.conn_handle is None && !s.failed),
        phase_over(ClientPhase::Services { conn }, s) <==> !(!s.services_done && !s.failed),
        phase_over(ClientPhase::Characteristics { conn }, s) <==> !(!s.chars_done && !s.failed),
        phase_over(ClientPhase::Subscription { conn, c1_val }, s) <==> !(!s.subscribed
            && !s.failed),
        phase_over(ClientPhase::Session { conn, c1_val }, s),
        phase_fruitful(ClientPhase::Sync, s),
        phase_fruitful(ClientPhase::Connection, s) <==> s.conn_handle !is None,
        phase_fruitful(ClientPhase::Services { conn }, s) <==> s.matter_range !is None,
        phase_fruitful(ClientPhase::Characteristics { conn }, s) <==> !(s.c1_val is None || s.c2_val
            is None),
        phase_fruitful(ClientPhase::Subscription { conn, c1_val }, s) <==> !s.failed,
        phase_fruitful(ClientPhase::Session { conn, c1_val }, s),
{
}

} // verus!
