//! What holds of the peripheral over any course of events.

use vstd::prelude::*;

use crate::ble::peripheral::{
    c2_after_gatts, gap_wake, gatts_wake, host_wake, BleGattRegister, GapEvent, GattsEvent,
    PeripheralModel, Wake,
};
use crate::ble::{
    BleUuid, BtAddr, HostEvent, C1_CHARACTERISTIC_UUID, C2_CHARACTERISTIC_UUID,
    C3_CHARACTERISTIC_UUID, MATTER_BLE_SERVICE_UUID16, MAX_ADV_DATA_SIZE, MAX_MTU_SIZE,
};

verus! {

/// An event of any of the three hooks.
pub enum PeripheralInput<'a> {
    Host(HostEvent),
    Gap(GapEvent),
    Gatts(GattsEvent<'a>),
}

impl<'a> PeripheralInput<'a> {
    /// Whether the event begins or ends a session.
    pub open spec fn changes_session(self) -> bool {
        match self {
            PeripheralInput::Gap(GapEvent::Connect { connected, .. }) => connected,
            PeripheralInput::Gap(GapEvent::Disconnect { .. }) => true,
            _ => false,
        }
    }

    /// Whether the event completes an indication for good.
    pub open spec fn acknowledges(self) -> bool {
        match self {
            PeripheralInput::Gatts(
                GattsEvent::NotifyComplete { indication, status },
            ) => PeripheralModel::acknowledges(indication, status),
            _ => false,
        }
    }

    /// Whether the event subscribes the peer to indications.
    pub open spec fn subscribes(self) -> bool {
        match self {
            PeripheralInput::Gatts(
                GattsEvent::SubscriptionChanged { cur_indicate, .. },
            ) => cur_indicate,
            _ => false,
        }
    }
}

/// The state and the value handle of `C2` after one event.
pub open spec fn peripheral_step(
    s: PeripheralModel,
    c2: u16,
    input: PeripheralInput,
) -> (PeripheralModel, u16) {
    match input {
        PeripheralInput::Host(event) => (
            if event is Sync {
                s.advertise_requested()
            } else {
                s
            },
            c2,
        ),
        PeripheralInput::Gap(event) => (s.after_gap(event), c2),
        PeripheralInput::Gatts(event) => (s.after_gatts(c2, event), c2_after_gatts(c2, event)),
    }
}

/// The state and the value handle of `C2` after a course of events.
pub open spec fn peripheral_run(
    s: PeripheralModel,
    c2: u16,
    inputs: Seq<PeripheralInput>,
) -> (PeripheralModel, u16)
    decreases inputs.len(),
{
    if inputs.len() == 0 {
        (s, c2)
    } else {
        let (before, c2_before) = peripheral_run(s, c2, inputs.drop_last());
        peripheral_step(before, c2_before, inputs.last())
    }
}

/// A packet that waits for delivery is neither changed nor lost while its session lasts: later
/// writes do not get at it.
pub proof fn law_pending_packet_is_kept(
    s: PeripheralModel,
    c2: u16,
    inputs: Seq<PeripheralInput>,
)
    requires
        s.in_data.len() > 0,
        forall|i: int| 0 <= i < inputs.len() ==> !(#[trigger] inputs[i]).changes_session(),
    ensures
        peripheral_run(s, c2, inputs).0.in_data == s.in_data,
    decreases inputs.len(),
{
    if inputs.len() > 0 {
        let before = inputs.drop_last();
        assert forall|i: int| 0 <= i < before.len() implies !(
        #[trigger] before[i]).changes_session() by {
            assert(before[i] == inputs[i]);
        }
        law_pending_packet_is_kept(s, c2, before);
        assert(!inputs[inputs.len() - 1].changes_session());
    }
}

/// A write that comes while a packet waits is refused and changes nothing; any other write whose
/// bytes could be copied is accepted, and exactly those bytes wait for delivery.
pub proof fn law_write_is_delivered_or_refused(
    s: PeripheralModel,
    c2: u16,
    buffer: &[u8],
    len: usize,
)
    requires
        len <= buffer@.len(),
    ensures
        ({
            let event = GattsEvent::Write { buffer, copied: Some(len) };
            let after = s.after_gatts(c2, event);
            if s.in_data.len() > 0 {
                !s.accepts(event) && after == s
            } else {
                s.accepts(event) && after == (PeripheralModel {
                    in_data: buffer@.take(len as int),
                    ..s
                })
            }
        }),
{
}

/// A step of the peripheral: an event of the hooks, or a turn of a pump.
pub enum PeripheralStep<'a> {
    Event(PeripheralInput<'a>),
    /// The incoming pump has its turn, and the BTP engine takes what is delivered.
    Deliver,
    /// The outgoing pump consumes a request to advertise, if it does not wait for a send.
    Advertise,
    /// The outgoing pump has its turn, if it does not wait for a send. If the BTP engine is asked
    /// for a segment, it fills `buffer` and produces `len` bytes, which are to be indicated.
    Fill { buffer: Seq<u8>, len: usize },
    /// The send that the outgoing pump waits for returns, if there is one.
    Sent { ok: bool },
}

impl<'a> PeripheralStep<'a> {
    /// Whether the step gives out an indication.
    pub open spec fn sends(self, flow: PeripheralFlow) -> bool {
        self matches PeripheralStep::Fill { len, .. } && len > 0 && !flow.sending
            && flow.state.may_indicate(flow.c2)
    }

    /// Whether the step ends the flight of an indication: it was acknowledged, its send failed, or
    /// its session is over.
    pub open spec fn releases(self, flow: PeripheralFlow) -> bool {
        match self {
            PeripheralStep::Event(input) => input.changes_session() || input.acknowledges(),
            PeripheralStep::Sent { ok } => flow.sending && !ok,
            _ => false,
        }
    }
}

/// A call of the BTP engine: with a packet, or, without one, to reset it. `session` is the number
/// of the connection that it is made for.
pub struct EngineCall {
    pub session: nat,
    pub packet: Option<Seq<u8>>,
}

/// The peripheral together with what has happened so far.
pub struct PeripheralFlow {
    pub state: PeripheralModel,
    pub c2: u16,
    /// Whether the outgoing pump waits for the send of an indication to return.
    pub sending: bool,
    /// The number of connections. Unlike the count that the state keeps, it never comes round.
    pub session: nat,
    /// The connection that the incoming pump served last, by the count that the state keeps.
    pub generation: Option<usize>,
    /// The calls of the BTP engine.
    pub engine: Seq<EngineCall>,
    /// The packets that were accepted from the peer.
    pub accepted: Seq<Seq<u8>>,
    /// The packets that were delivered to the BTP engine.
    pub delivered: Seq<Seq<u8>>,
}

impl PeripheralFlow {
    /// The flow after an event.
    pub open spec fn after_event(self, input: PeripheralInput) -> PeripheralFlow {
        let (state, c2) = peripheral_step(self.state, self.c2, input);
        let accepted = match input {
            PeripheralInput::Gatts(event) if event is Write && self.state.accepts(event)
                && state.in_data.len() > 0 => self.accepted.push(state.in_data),
            _ => self.accepted,
        };
        let session = match input {
            PeripheralInput::Gap(GapEvent::Connect { connected, .. }) if connected => self.session
                + 1,
            _ => self.session,
        };
        PeripheralFlow { state, c2, session, accepted, ..self }
    }

    /// The calls of the BTP engine once it is reset, if it has to start over.
    pub open spec fn engine_ready(self) -> Seq<EngineCall> {
        if self.generation != Some(self.state.conn_gen) {
            self.engine.push(EngineCall { session: self.session, packet: None })
        } else {
            self.engine
        }
    }

    /// Whether the count of connections that the state keeps has come round: the connection looks
    /// like the one that the incoming pump served last, but is another one.
    pub open spec fn came_round(self) -> bool {
        &&& self.state.connection is Some
        &&& self.generation == Some(self.state.conn_gen)
        &&& self.engine.len() > 0
        &&& self.engine.last().session != self.session
    }

    /// The flow after the incoming pump had its turn.
    pub open spec fn after_delivery(self) -> PeripheralFlow {
        if self.state.connection is None {
            self
        } else if self.state.in_data.len() > 0 {
            PeripheralFlow {
                state: self.state.delivered(),
                generation: Some(self.state.conn_gen),
                engine: self.engine_ready().push(
                    EngineCall { session: self.session, packet: Some(self.state.in_data) },
                ),
                delivered: self.delivered.push(self.state.in_data),
                ..self
            }
        } else {
            PeripheralFlow {
                generation: Some(self.state.conn_gen),
                engine: self.engine_ready(),
                ..self
            }
        }
    }

    /// The flow after the outgoing pump had its turn.
    pub open spec fn after_fill(self, buffer: Seq<u8>, len: usize) -> PeripheralFlow {
        if !self.sending && self.state.may_indicate(self.c2) {
            PeripheralFlow {
                state: self.state.segment_filled(buffer, len),
                sending: len > 0,
                ..self
            }
        } else {
            self
        }
    }

    /// The flow after the send that the outgoing pump waits for has returned.
    pub open spec fn after_send(self, ok: bool) -> PeripheralFlow {
        if self.sending {
            PeripheralFlow {
                state: if ok {
                    self.state
                } else {
                    self.state.send_failed()
                },
                sending: false,
                ..self
            }
        } else {
            self
        }
    }

    /// The flow after a course of steps.
    pub open spec fn after(self, steps: Seq<PeripheralStep>) -> PeripheralFlow
        decreases steps.len(),
    {
        if steps.len() == 0 {
            self
        } else {
            let before = self.after(steps.drop_last());
            match steps.last() {
                PeripheralStep::Event(input) => before.after_event(input),
                PeripheralStep::Deliver => before.after_delivery(),
                PeripheralStep::Advertise => if before.sending {
                    before
                } else {
                    PeripheralFlow { state: before.state.advertise_taken(), ..before }
                },
                PeripheralStep::Fill { buffer, len } => before.after_fill(buffer, len),
                PeripheralStep::Sent { ok } => before.after_send(ok),
            }
        }
    }

    /// The packet that waits for delivery, if there is one.
    pub open spec fn waiting(self) -> Seq<Seq<u8>> {
        if self.state.in_data.len() > 0 {
            seq![self.state.in_data]
        } else {
            Seq::empty()
        }
    }
}

/// Within a session the packets that were accepted from the peer are delivered to the BTP engine,
/// each of them once, in order and unchanged; only the last one may still wait. (A write without
/// any bytes is not a packet. One whose bytes could not be copied is left out: it is refused, but
/// occupies the buffer.)
pub proof fn law_packets_are_delivered_in_order(flow: PeripheralFlow, steps: Seq<PeripheralStep>)
    requires
        flow.accepted == flow.delivered + flow.waiting(),
        forall|i: int|
            0 <= i < steps.len() ==> (#[trigger] steps[i] matches PeripheralStep::Event(input) ==> {
                &&& !input.changes_session()
                &&& input matches PeripheralInput::Gatts(GattsEvent::Write { copied, .. })
                    ==> copied is Some
            }),
    ensures
        flow.after(steps).accepted == flow.after(steps).delivered + flow.after(steps).waiting(),
    decreases steps.len(),
{
    if steps.len() > 0 {
        let before = steps.drop_last();
        assert forall|i: int| 0 <= i < before.len() implies (#[trigger] before[i] matches
            PeripheralStep::Event(input) ==> {
            &&& !input.changes_session()
            &&& input matches PeripheralInput::Gatts(GattsEvent::Write { copied, .. })
                ==> copied is Some
        }) by {
            assert(before[i] == steps[i]);
        }
        law_packets_are_delivered_in_order(flow, before);
        assert(steps[steps.len() - 1] == steps.last());
        let after = flow.after(steps);
        assert(after.accepted =~= after.delivered + after.waiting());
    }
}

/// Whether the calls for one connection follow those for the one before, and the first of them,
/// and no other, is a reset.
#[verifier::opaque]
pub open spec fn calls_in_order(calls: Seq<EngineCall>) -> bool {
    &&& forall|i: int, j: int|
        0 <= i <= j < calls.len() ==> (#[trigger] calls[i]).session <= (#[trigger] calls[j]).session
    &&& forall|i: int|
        0 <= i < calls.len() ==> ((#[trigger] calls[i]).packet is None <==> (forall|j: int|
            0 <= j < i ==> (#[trigger] calls[j]).session < calls[i].session))
}

/// The BTP engine is reset exactly once for each connection that the incoming pump serves, before
/// anything is delivered to it: the calls for one connection follow those for the one before, and
/// the first of them, and no other, is a reset. After a turn of the pump on a connection there is
/// such a call. (The pump tells connections apart by a count that comes round after as many
/// connections as a `usize` has values. A turn that falls on just that is left out.)
pub proof fn law_engine_is_reset_once_per_connection(
    flow: PeripheralFlow,
    steps: Seq<PeripheralStep>,
)
    requires
        flow.generation is None,
        flow.engine.len() == 0,
        forall|i: int|
            0 <= i < steps.len() && #[trigger] steps[i] is Deliver ==> !flow.after(
                steps.take(i),
            ).came_round(),
    ensures
        ({
            let calls = flow.after(steps).engine;
            &&& calls_in_order(calls)
            &&& steps.len() > 0 && steps.last() is Deliver && flow.after(
                steps,
            ).state.connection is Some ==> calls.len() > 0 && calls.last().session == flow.after(
                steps,
            ).session
        }),
    decreases steps.len(),
{
    if steps.len() == 0 {
        reveal(calls_in_order);
    } else {
        let before = steps.drop_last();
        assert forall|i: int| 0 <= i < before.len() && #[trigger] before[i] is Deliver implies !(
        flow.after(before.take(i)).came_round()) by {
            assert(before[i] == steps[i]);
            assert(before.take(i) =~= steps.take(i));
        }
        law_engine_is_reset_once_per_connection(flow, before);
        lemma_engine_follows_connections(flow, before);
        assert(steps.take(steps.len() - 1) =~= before);
        assert(steps[steps.len() - 1] == steps.last());
        let at = flow.after(before);
        if steps.last() is Deliver && at.state.connection is Some {
            let ready = at.engine_ready();
            if ready.len() > at.engine.len() {
                lemma_calls_grow(at.engine, EngineCall { session: at.session, packet: None });
            }
            if at.state.in_data.len() > 0 {
                lemma_calls_grow(
                    ready,
                    EngineCall { session: at.session, packet: Some(at.state.in_data) },
                );
            }
        }
    }
}

proof fn lemma_calls_grow(calls: Seq<EngineCall>, call: EngineCall)
    requires
        calls_in_order(calls),
        calls.len() > 0 ==> calls.last().session <= call.session,
        call.packet is None <==> (calls.len() == 0 || calls.last().session < call.session),
    ensures
        calls_in_order(calls.push(call)),
{
    reveal(calls_in_order);
    let grown = calls.push(call);
    let n = calls.len() as int;
    assert(forall|k: int| 0 <= k < n ==> #[trigger] grown[k] == calls[k]);
    assert(grown[n] == call);
    assert forall|i: int, j: int| 0 <= i <= j < grown.len() implies (#[trigger] grown[i]).session
        <= (#[trigger] grown[j]).session by {
        if j < n {
            assert(calls[i].session <= calls[j].session);
        } else if i < n {
            assert(calls[i].session <= calls[n - 1].session);
        }
    }
    assert forall|i: int| 0 <= i < grown.len() implies ((#[trigger] grown[i]).packet is None <==> (
    forall|j: int| 0 <= j < i ==> (#[trigger] grown[j]).session < grown[i].session)) by {
        if i < n {
            assert(calls[i].packet is None <==> (forall|j: int|
                0 <= j < i ==> (#[trigger] calls[j]).session < calls[i].session));
            if calls[i].packet is None {
                assert forall|j: int| 0 <= j < i implies (#[trigger] grown[j]).session
                    < grown[i].session by {
                    assert(calls[j].session < calls[i].session);
                }
            } else {
                let j = choose|j: int|
                    0 <= j < i && !((#[trigger] calls[j]).session < calls[i].session);
                assert(!(grown[j].session < grown[i].session));
            }
        } else if n > 0 {
            if call.packet is None {
                assert forall|j: int| 0 <= j < i implies (#[trigger] grown[j]).session
                    < grown[i].session by {
                    assert(calls[j].session <= calls[n - 1].session);
                }
            } else {
                assert(!(grown[n - 1].session < grown[i].session));
            }
        }
    }
}

/// The number of the connection that follows `distance` connections after the one with this
/// number, where numbers come round.
spec fn counted_on(conn_gen: usize, distance: int) -> int {
    if conn_gen + distance <= usize::MAX {
        conn_gen + distance
    } else {
        conn_gen + distance - usize::MAX - 1
    }
}

proof fn lemma_engine_follows_connections(flow: PeripheralFlow, steps: Seq<PeripheralStep>)
    requires
        flow.generation is None,
        flow.engine.len() == 0,
    ensures
        ({
            let after = flow.after(steps);
            &&& after.generation is None <==> after.engine.len() == 0
            &&& after.engine.len() > 0 ==> {
                let distance = after.session - after.engine.last().session;
                &&& distance >= 0
                &&& distance <= usize::MAX ==> after.state.conn_gen == counted_on(
                    after.generation->0,
                    distance,
                )
            }
        }),
    decreases steps.len(),
{
    if steps.len() > 0 {
        lemma_engine_follows_connections(flow, steps.drop_last());
    }
}

/// The count of connections comes round only if there were more connections since the incoming
/// pump last served one than a `usize` can count.
pub proof fn law_connections_are_told_apart(flow: PeripheralFlow, steps: Seq<PeripheralStep>)
    requires
        flow.generation is None,
        flow.engine.len() == 0,
        flow.after(steps).came_round(),
    ensures
        flow.after(steps).session - flow.after(steps).engine.last().session > usize::MAX,
{
    lemma_engine_follows_connections(flow, steps);
}

/// There is one indication in flight at a time: after one went out, none may go out until it was
/// acknowledged, its send failed or its session ended, whatever the hooks and the pumps do.
pub proof fn law_one_indication_in_flight(
    flow: PeripheralFlow,
    steps: Seq<PeripheralStep>,
    handle: u16,
)
    requires
        flow.state.out_nack,
        forall|i: int|
            0 <= i < steps.len() ==> !(#[trigger] steps[i]).releases(flow.after(steps.take(i))),
    ensures
        flow.after(steps).state.out_nack,
        !flow.after(steps).state.may_indicate(handle),
    decreases steps.len(),
{
    if steps.len() > 0 {
        let before = steps.drop_last();
        assert forall|i: int| 0 <= i < before.len() implies !(#[trigger] before[i]).releases(
            flow.after(before.take(i)),
        ) by {
            assert(before[i] == steps[i]);
            assert(before.take(i) =~= steps.take(i));
        }
        law_one_indication_in_flight(flow, before, handle);
        assert(steps.take(steps.len() - 1) =~= before);
        assert(steps[steps.len() - 1] == steps.last());
    }
}

/// Between any two indications that go out, the flight of an indication ends: it was acknowledged,
/// its send failed, or its session was over.
pub proof fn law_indications_take_turns(
    flow: PeripheralFlow,
    steps: Seq<PeripheralStep>,
    first: int,
    second: int,
)
    requires
        0 <= first < second < steps.len(),
        steps[first].sends(flow.after(steps.take(first))),
        steps[second].sends(flow.after(steps.take(second))),
    ensures
        exists|k: int|
            first < k < second && (#[trigger] steps[k]).releases(flow.after(steps.take(k))),
{
    if forall|k: int|
        first < k < second ==> !(#[trigger] steps[k]).releases(flow.after(steps.take(k))) {
        let sent = flow.after(steps.take(first + 1));
        assert(steps.take(first + 1).drop_last() =~= steps.take(first));
        assert(sent.state.out_nack);
        let between = steps.subrange(first + 1, second);
        assert forall|i: int| 0 <= i < between.len() implies !(#[trigger] between[i]).releases(
            sent.after(between.take(i)),
        ) by {
            lemma_flow_goes_on(flow, steps.take(first + 1), between.take(i));
            assert(steps.take(first + 1) + between.take(i) =~= steps.take(first + 1 + i));
            assert(between[i] == steps[first + 1 + i]);
        }
        let at = flow.after(steps.take(second));
        law_one_indication_in_flight(sent, between, at.c2);
        lemma_flow_goes_on(flow, steps.take(first + 1), between);
        assert(steps.take(first + 1) + between =~= steps.take(second));
    }
}

proof fn lemma_flow_goes_on(
    flow: PeripheralFlow,
    a: Seq<PeripheralStep>,
    b: Seq<PeripheralStep>,
)
    ensures
        flow.after(a + b) == flow.after(a).after(b),
    decreases b.len(),
{
    if b.len() == 0 {
        assert(a + b =~= a);
    } else {
        lemma_flow_goes_on(flow, a, b.drop_last());
        assert((a + b).drop_last() =~= a + b.drop_last());
        assert((a + b).last() == b.last());
    }
}

/// A session starts clean: nothing of the one before is delivered or blocks it, nothing is
/// indicated before the peer subscribes, and the incoming pump resets the BTP engine.
pub proof fn law_session_starts_clean(
    s: PeripheralModel,
    event: GapEvent,
    handle: u16,
)
    requires
        event matches GapEvent::Connect { connected, .. } && connected,
    ensures
        s.after_gap(event).connection is Some,
        s.after_gap(event).in_data.len() == 0,
        s.after_gap(event).out_data.len() == 0,
        !s.after_gap(event).out_nack,
        !s.after_gap(event).may_indicate(handle),
        s.after_gap(event).conn_gen != s.conn_gen,
        s.after_gap(event).incoming_due(Some(s.conn_gen)),
        s.after_gap(event).incoming_due(None),
{
}

/// Nothing is ever indicated to a peer that has not subscribed.
pub proof fn law_unsubscribed_peer_gets_nothing(
    s: PeripheralModel,
    c2: u16,
    inputs: Seq<PeripheralInput>,
    handle: u16,
)
    requires
        s.connection is Some ==> !s.connection->0.subscribed,
        forall|i: int| 0 <= i < inputs.len() ==> !(#[trigger] inputs[i]).subscribes(),
    ensures
        !peripheral_run(s, c2, inputs).0.may_indicate(handle),
        peripheral_run(s, c2, inputs).0.connection matches Some(connection)
            ==> !connection.subscribed,
    decreases inputs.len(),
{
    if inputs.len() > 0 {
        let before = inputs.drop_last();
        assert forall|i: int| 0 <= i < before.len() implies !(
        #[trigger] before[i]).subscribes() by {
            assert(before[i] == inputs[i]);
        }
        law_unsubscribed_peer_gets_nothing(s, c2, before, handle);
        assert(!inputs[inputs.len() - 1].subscribes());
    }
}

/// Once the peripheral has to advertise, no event takes that back.
pub proof fn law_advertise_request_stands(
    s: PeripheralModel,
    c2: u16,
    inputs: Seq<PeripheralInput>,
)
    requires
        s.need_advertise,
    ensures
        peripheral_run(s, c2, inputs).0.need_advertise,
        s.reset().need_advertise,
    decreases inputs.len(),
{
    if inputs.len() > 0 {
        law_advertise_request_stands(s, c2, inputs.drop_last());
    }
}

/// The end of a session, a failed attempt to begin one and every synchronization of the host ask
/// for advertising, and wake the pump that starts it.
pub proof fn law_lost_peer_asks_for_advertising(
    s: PeripheralModel,
    c2: u16,
    input: PeripheralInput,
)
    requires
        match input {
            PeripheralInput::Host(event) => event is Sync,
            PeripheralInput::Gap(GapEvent::Connect { connected, .. }) => !connected,
            PeripheralInput::Gap(GapEvent::Disconnect { .. }) => true,
            _ => false,
        },
    ensures
        peripheral_step(s, c2, input).0.need_advertise,
        match input {
            PeripheralInput::Host(event) => host_wake(event).outgoing,
            PeripheralInput::Gap(event) => gap_wake(event).outgoing,
            PeripheralInput::Gatts(event) => gatts_wake(s, c2, event).outgoing,
        },
{
}

/// No wake-up is lost: an event that gives a pump something to do wakes it. The exceptions are a
/// write whose bytes could not be copied, and a handle of `C2` learned only after the peer had
/// already subscribed.
pub proof fn law_no_lost_wakeup(
    s: PeripheralModel,
    c2: u16,
    input: PeripheralInput,
    generation: Option<usize>,
)
    requires
        input matches PeripheralInput::Gatts(GattsEvent::Write { copied, .. }) ==> copied is Some
            || s.in_data.len() > 0 || s.connection is None,
        input matches PeripheralInput::Gatts(GattsEvent::Register(_)) ==> c2 != 0
            || !(s.connection is Some && s.connection->0.subscribed),
    ensures
        ({
            let (after, c2_after) = peripheral_step(s, c2, input);
            let wake = match input {
                PeripheralInput::Host(event) => host_wake(event),
                PeripheralInput::Gap(event) => gap_wake(event),
                PeripheralInput::Gatts(event) => gatts_wake(s, c2, event),
            };
            &&& after.incoming_due(generation) && !s.incoming_due(generation) ==> wake.incoming
            &&& after.outgoing_due(c2_after) && !s.outgoing_due(c2) ==> wake.outgoing
        }),
{
}

/// The value handle that the event gives to the characteristic with the UUID of `C2`.
pub open spec fn c2_registered(input: PeripheralInput) -> Option<u16> {
    match input {
        PeripheralInput::Gatts(
            GattsEvent::Register(BleGattRegister::Characteristic { uuid, val_handle, .. }),
        ) => if uuid == BleUuid::Uuid128(0x18EE2EF5263D4559959F4F9C429F9D12) {
            Some(val_handle)
        } else {
            None
        },
        _ => None,
    }
}

/// After any course of events the value handle of `C2` is that of the characteristic with its UUID
/// that was registered last. It is what it was before if there was none: nothing else changes it.
pub proof fn law_c2_is_registered_last(s: PeripheralModel, c2: u16, inputs: Seq<PeripheralInput>)
    ensures
        forall|i: int|
            #![trigger inputs[i]]
            0 <= i < inputs.len() && c2_registered(inputs[i]) is Some && (forall|j: int|
                i < j < inputs.len() ==> c2_registered(#[trigger] inputs[j]) is None)
                ==> peripheral_run(s, c2, inputs).1 == c2_registered(inputs[i])->0,
        (forall|i: int| 0 <= i < inputs.len() ==> c2_registered(#[trigger] inputs[i]) is None)
            ==> peripheral_run(s, c2, inputs).1 == c2,
    decreases inputs.len(),
{
    if inputs.len() > 0 {
        let before = inputs.drop_last();
        let n = before.len() as int;
        law_c2_is_registered_last(s, c2, before);
        assert(inputs[n] == inputs.last());
        assert(forall|i: int| 0 <= i < n ==> #[trigger] before[i] == inputs[i]);
        let after = peripheral_run(s, c2, inputs).1;
        assert(after == if c2_registered(inputs.last()) is Some {
            c2_registered(inputs.last())->0
        } else {
            peripheral_run(s, c2, before).1
        });
        assert forall|i: int|
            #![trigger inputs[i]]
            0 <= i < inputs.len() && c2_registered(inputs[i]) is Some && (forall|j: int|
                i < j < inputs.len() ==> c2_registered(
                    #[trigger] inputs[j],
                ) is None) implies after == c2_registered(inputs[i])->0 by {
            if i < n {
                assert(c2_registered(inputs[n]) is None);
                assert(c2_registered(before[i]) is Some);
                assert forall|j: int| i < j < before.len() implies c2_registered(
                    #[trigger] before[j],
                ) is None by {
                    assert(c2_registered(inputs[j]) is None);
                }
            }
        }
        if forall|i: int| 0 <= i < inputs.len() ==> c2_registered(#[trigger] inputs[i]) is None {
            assert(c2_registered(inputs[n]) is None);
            assert forall|i: int| 0 <= i < before.len() implies c2_registered(
                #[trigger] before[i],
            ) is None by {
                assert(c2_registered(inputs[i]) is None);
            }
        }
    }
}

/// A new context has no connection, has counted none, holds no bytes and asks for nothing. A reset
/// leaves the count and a request to advertise, and drops everything else.
pub proof fn law_reset_leaves_count_and_request(s: PeripheralModel)
    ensures
        PeripheralModel::fresh() == (PeripheralModel {
            connection: None,
            conn_gen: 0,
            in_data: seq![],
            out_data: seq![],
            need_advertise: false,
            adv_data: seq![],
            out_nack: false,
        }),
        s.reset() == (PeripheralModel {
            connection: None,
            conn_gen: s.conn_gen,
            in_data: seq![],
            out_data: seq![],
            need_advertise: s.need_advertise,
            adv_data: seq![],
            out_nack: false,
        }),
{
}

/// A connection is the one that the event tells of, with its handle, its MTU and its peer, whose
/// address is all zero if it is not known. It is counted as the next one, is not subscribed, and
/// its buffers are empty. What is advertised, and whether, stays. Only the incoming pump is woken.
pub proof fn law_connection_is_as_told(
    s: PeripheralModel,
    conn_handle: u16,
    peer: Option<BtAddr>,
    mtu: Option<u16>,
)
    ensures
        ({
            let event = GapEvent::Connect { conn_handle, connected: true, peer, mtu };
            let after = s.after_gap(event);
            &&& after.connection matches Some(connection)
            &&& connection.conn_handle == conn_handle
            &&& connection.mtu == mtu
            &&& !connection.subscribed
            &&& peer matches Some(peer) ==> connection.peer == peer
            &&& peer is None ==> connection.peer.0@ == seq![0u8, 0u8, 0u8, 0u8, 0u8, 0u8]
            &&& s.conn_gen < usize::MAX ==> after.conn_gen == s.conn_gen + 1
            &&& s.conn_gen == usize::MAX ==> after.conn_gen == 0
            &&& after.in_data.len() == 0 && after.out_data.len() == 0 && !after.out_nack
            &&& after.need_advertise == s.need_advertise && after.adv_data == s.adv_data
            &&& gap_wake(event).incoming && !gap_wake(event).outgoing
        }),
{
}

/// A failed attempt to connect asks for advertising and changes nothing else. Only the outgoing
/// pump is woken.
pub proof fn law_failed_attempt_only_asks_for_advertising(
    s: PeripheralModel,
    conn_handle: u16,
    peer: Option<BtAddr>,
    mtu: Option<u16>,
)
    ensures
        ({
            let event = GapEvent::Connect { conn_handle, connected: false, peer, mtu };
            let after = s.after_gap(event);
            &&& after.need_advertise
            &&& after.connection == s.connection && after.conn_gen == s.conn_gen
            &&& after.in_data == s.in_data && after.out_data == s.out_data
            &&& after.adv_data == s.adv_data && after.out_nack == s.out_nack
            &&& gap_wake(event).outgoing && !gap_wake(event).incoming
        }),
{
}

/// A disconnect drops the connection and its buffers, asks for advertising, and wakes both pumps.
/// The count and the payload stay.
pub proof fn law_disconnect_drops_session(s: PeripheralModel, conn_handle: u16, reason: i32)
    ensures
        ({
            let event = GapEvent::Disconnect { conn_handle, reason };
            let after = s.after_gap(event);
            &&& after.connection is None
            &&& after.in_data.len() == 0 && after.out_data.len() == 0 && !after.out_nack
            &&& after.need_advertise
            &&& after.conn_gen == s.conn_gen && after.adv_data == s.adv_data
            &&& gap_wake(event).incoming && gap_wake(event).outgoing
        }),
{
}

/// An MTU that is told of the current connection becomes its MTU; one that is told of another does
/// not. Nothing else changes, and nobody is woken.
pub proof fn law_mtu_is_that_of_connection(s: PeripheralModel, conn_handle: u16, value: u16)
    ensures
        ({
            let event = GapEvent::Mtu { conn_handle, value };
            let after = s.after_gap(event);
            &&& after.connection is Some <==> s.connection is Some
            &&& s.connection matches Some(connection) ==> {
                &&& after.connection->0.conn_handle == connection.conn_handle
                &&& after.connection->0.peer == connection.peer
                &&& after.connection->0.subscribed == connection.subscribed
                &&& connection.conn_handle == conn_handle ==> after.connection->0.mtu == Some(value)
                &&& connection.conn_handle != conn_handle ==> after.connection->0.mtu
                    == connection.mtu
            }
            &&& same_but_connection(s, after)
            &&& !gap_wake(event).incoming && !gap_wake(event).outgoing
            &&& s.after_gap(GapEvent::Other) == s
            &&& !gap_wake(GapEvent::Other).incoming && !gap_wake(GapEvent::Other).outgoing
        }),
{
}

/// Whether two states differ at most in their connection.
pub open spec fn same_but_connection(s: PeripheralModel, t: PeripheralModel) -> bool {
    &&& s.conn_gen == t.conn_gen
    &&& s.in_data == t.in_data
    &&& s.out_data == t.out_data
    &&& s.need_advertise == t.need_advertise
    &&& s.adv_data == t.adv_data
    &&& s.out_nack == t.out_nack
}

/// A change of the subscription to `C2` by the current connection is what its event says; one of
/// another attribute or another connection changes nothing. The outgoing pump is woken exactly by
/// one of `C2`.
pub proof fn law_subscription_is_that_of_peer(
    s: PeripheralModel,
    c2: u16,
    conn_handle: u16,
    attr_handle: u16,
    cur_indicate: bool,
)
    ensures
        ({
            let event = GattsEvent::SubscriptionChanged { conn_handle, attr_handle, cur_indicate };
            let after = s.after_gatts(c2, event);
            &&& after.connection is Some <==> s.connection is Some
            &&& s.connection matches Some(connection) ==> {
                &&& after.connection->0.conn_handle == connection.conn_handle
                &&& after.connection->0.peer == connection.peer
                &&& after.connection->0.mtu == connection.mtu
                &&& after.connection->0.subscribed == if attr_handle == c2
                    && connection.conn_handle == conn_handle {
                    cur_indicate
                } else {
                    connection.subscribed
                }
            }
            &&& same_but_connection(s, after)
            &&& s.accepts(event)
            &&& gatts_wake(s, c2, event).outgoing <==> attr_handle == c2
            &&& !gatts_wake(s, c2, event).incoming
        }),
{
}

/// A write is accepted, and wakes the incoming pump, exactly if none waits and its bytes could be
/// copied. It touches nothing but the waiting packet: that becomes the bytes that were copied, or
/// the whole buffer if they could not be, unless one waits.
pub proof fn law_write_touches_only_packet(
    s: PeripheralModel,
    c2: u16,
    buffer: &[u8],
    copied: Option<usize>,
)
    ensures
        ({
            let event = GattsEvent::Write { buffer, copied };
            let after = s.after_gatts(c2, event);
            &&& s.accepts(event) <==> s.in_data.len() == 0 && copied is Some
            &&& gatts_wake(s, c2, event).incoming <==> s.in_data.len() == 0 && copied is Some
            &&& !gatts_wake(s, c2, event).outgoing
            &&& s.in_data.len() > 0 ==> after.in_data == s.in_data
            &&& s.in_data.len() == 0 && copied is None ==> after.in_data == buffer@
            &&& s.in_data.len() == 0 && copied is Some ==> {
                let len = if copied->0 <= buffer@.len() {
                    copied->0 as nat
                } else {
                    buffer@.len()
                };
                &&& after.in_data.len() == len
                &&& forall|i: int| 0 <= i < len ==> after.in_data[i] == buffer@[i]
            }
            &&& after.connection == s.connection && after.conn_gen == s.conn_gen
            &&& after.out_data == s.out_data && after.out_nack == s.out_nack
            &&& after.need_advertise == s.need_advertise && after.adv_data == s.adv_data
        }),
{
}

/// The completion of an indication with any status but zero lets the next one out and wakes the
/// outgoing pump. Any other completion does nothing, and none touches anything else.
pub proof fn law_completion_frees_indication(
    s: PeripheralModel,
    c2: u16,
    indication: bool,
    status: i32,
)
    ensures
        ({
            let event = GattsEvent::NotifyComplete { indication, status };
            let after = s.after_gatts(c2, event);
            &&& after.out_nack <==> s.out_nack && !(indication && status != 0)
            &&& after.connection == s.connection && after.conn_gen == s.conn_gen
            &&& after.in_data == s.in_data && after.out_data == s.out_data
            &&& after.need_advertise == s.need_advertise && after.adv_data == s.adv_data
            &&& s.accepts(event)
            &&& gatts_wake(s, c2, event).outgoing <==> indication && status != 0
            &&& !gatts_wake(s, c2, event).incoming
        }),
{
}

/// A registration and a read touch nothing of the state, are answered with success and wake
/// nobody. A host event only asks for advertising, and does so, and wakes the outgoing pump,
/// exactly if it is a synchronization.
pub proof fn law_other_events_leave_state(
    s: PeripheralModel,
    c2: u16,
    register: BleGattRegister,
    event: HostEvent,
)
    ensures
        s.after_gatts(c2, GattsEvent::Register(register)) == s,
        s.after_gatts(c2, GattsEvent::Read) == s,
        s.accepts(GattsEvent::Register(register)),
        s.accepts(GattsEvent::Read),
        gatts_wake(s, c2, GattsEvent::Register(register)) == (Wake {
            incoming: false,
            outgoing: false,
        }),
        gatts_wake(s, c2, GattsEvent::Read) == (Wake { incoming: false, outgoing: false }),
        host_wake(event).outgoing <==> event == HostEvent::Sync,
        !host_wake(event).incoming,
        s.advertise_requested().need_advertise,
        s.advertise_requested().connection == s.connection,
        s.advertise_requested().conn_gen == s.conn_gen,
        s.advertise_requested().in_data == s.in_data,
        s.advertise_requested().out_data == s.out_data,
        s.advertise_requested().adv_data == s.adv_data,
        s.advertise_requested().out_nack == s.out_nack,
{
}

/// Each turn of a pump touches only its own part: a delivery empties the waiting packet, a start of
/// advertising consumes the request, a segment fills the outgoing buffer and counts as not
/// acknowledged if it has any bytes, and a failed send takes that back.
pub proof fn law_pumps_touch_their_part(s: PeripheralModel, buffer: Seq<u8>, len: usize)
    ensures
        s.delivered().in_data.len() == 0,
        s.delivered() == (PeripheralModel { in_data: s.delivered().in_data, ..s }),
        !s.advertise_taken().need_advertise,
        s.advertise_taken() == (PeripheralModel { need_advertise: false, ..s }),
        s.segment_filled(buffer, len).out_data == buffer,
        s.segment_filled(buffer, len).out_nack <==> s.out_nack || len != 0,
        s.segment_filled(buffer, len) == (PeripheralModel {
            out_data: buffer,
            out_nack: s.segment_filled(buffer, len).out_nack,
            ..s
        }),
        !s.send_failed().out_nack,
        s.send_failed() == (PeripheralModel { out_nack: false, ..s }),
{
}

/// An indication may go out exactly if a peer is connected and subscribed, none is in flight and
/// the value handle of `C2` is known. The incoming pump has something to do exactly if a peer is
/// connected that it has not served yet, or that has written a packet.
pub proof fn law_pumps_are_due(s: PeripheralModel, c2: u16, generation: Option<usize>)
    ensures
        s.may_indicate(c2) <==> {
            &&& s.connection matches Some(connection)
            &&& connection.subscribed
            &&& !s.out_nack
            &&& c2 > 0
        },
        s.outgoing_due(c2) <==> s.need_advertise || s.may_indicate(c2),
        s.incoming_due(generation) <==> s.connection is Some && !(generation == Some(s.conn_gen)
            && s.in_data.len() == 0),
{
}

/// The identifiers and sizes of BTP over GATT.
pub proof fn law_btp_constants()
    ensures
        MAX_MTU_SIZE == 512,
        MAX_ADV_DATA_SIZE == 32,
        MATTER_BLE_SERVICE_UUID16 == 0xFFF6,
        C1_CHARACTERISTIC_UUID == 0x18EE2EF5263D4559959F4F9C429F9D11,
        C2_CHARACTERISTIC_UUID == 0x18EE2EF5263D4559959F4F9C429F9D12,
        C3_CHARACTERISTIC_UUID == 0x64630238877245F2B87D748A83218F04,
{
}

} // verus!
