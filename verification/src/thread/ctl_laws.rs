//! What holds of every attempt to join a Thread network, and of every wait for a change.

use vstd::prelude::*;

use crate::error::{ErrorCode, NetCtlError, NetError};
use crate::thread::ctl::{
    connect_action, connect_next, event_fits, l2_connected, observed, operational, role_connected,
    ConnectAction, ConnectEvent, ConnectPhase, Role, CONNECT_WAIT_MILLIS, POLL_CONNECT_WAIT_MILLIS,
};
use crate::time::TICKS_PER_MILLI;

verus! {

/// The phase that an attempt is in after these events.
pub open spec fn connect_run(events: Seq<ConnectEvent>) -> ConnectPhase
    decreases events.len(),
{
    if events.len() == 0 {
        ConnectPhase::Stopping
    } else {
        connect_next(connect_run(events.drop_last()), events.last())
    }
}

/// Each event is one that can come of the action before it.
pub open spec fn connect_fits(events: Seq<ConnectEvent>) -> bool
    decreases events.len(),
{
    events.len() > 0 ==> {
        &&& connect_fits(events.drop_last())
        &&& event_fits(connect_run(events.drop_last()), events.last())
    }
}

/// What the driver was told to do by the time of these events, in order.
pub open spec fn connect_commands<'a>(events: Seq<ConnectEvent>, dataset_tlv: &'a [u8]) -> Seq<
    ConnectAction<'a>,
>
    decreases events.len(),
{
    if events.len() == 0 {
        Seq::empty()
    } else {
        let before = connect_commands(events.drop_last(), dataset_tlv);
        let action = connect_action(connect_run(events.drop_last()), dataset_tlv);
        if action is EnableThread || action is SetDataset {
            before.push(action)
        } else {
            before
        }
    }
}

/// All that an attempt may tell the driver to do.
pub open spec fn connect_schedule<'a>(dataset_tlv: &'a [u8]) -> Seq<ConnectAction<'a>> {
    seq![
        ConnectAction::EnableThread { enabled: false },
        ConnectAction::SetDataset { dataset_tlv },
        ConnectAction::EnableThread { enabled: true },
        ConnectAction::EnableThread { enabled: false },
    ]
}

/// The number of times that the interface was looked at.
pub open spec fn connect_looks(events: Seq<ConnectEvent>) -> nat
    decreases events.len(),
{
    if events.len() == 0 {
        0
    } else if events.last() is Fetched {
        connect_looks(events.drop_last()) + 1
    } else {
        connect_looks(events.drop_last())
    }
}

/// The length of the part of the schedule that is behind an attempt in this phase, and whether the
/// phase tells it.
spec fn commands_done(phase: ConnectPhase, done: int) -> bool {
    match phase {
        ConnectPhase::Stopping => done == 0,
        ConnectPhase::Applying => done == 1,
        ConnectPhase::Starting => done == 2,
        ConnectPhase::Polling | ConnectPhase::Pausing | ConnectPhase::Abandoning => done == 3,
        ConnectPhase::Over(Ok(())) => done == 3,
        ConnectPhase::Over(Err(NetCtlError::AuthFailure)) => done == 4,
        ConnectPhase::Over(Err(_)) => 2 <= done <= 3,
    }
}

/// The dataset is applied only after Thread was told to stop, and Thread is told to start only
/// after that. An attempt that succeeds tells the driver nothing else. One that gives up tells
/// Thread to stop again, so that the stack does not churn on a network that it failed to join.
pub proof fn law_dataset_is_applied_with_thread_stopped<'a>(
    events: Seq<ConnectEvent>,
    dataset_tlv: &'a [u8],
)
    requires
        connect_fits(events),
    ensures
        connect_commands(events, dataset_tlv).is_prefix_of(connect_schedule(dataset_tlv)),
        connect_run(events) == ConnectPhase::Over(Ok(())) ==> connect_commands(events, dataset_tlv)
            == connect_schedule(dataset_tlv).take(3),
        connect_run(events) == ConnectPhase::Over(Err(NetCtlError::AuthFailure))
            ==> connect_commands(events, dataset_tlv) == connect_schedule(dataset_tlv),
{
    lemma_commands_follow_schedule(events, dataset_tlv);
    let commands = connect_commands(events, dataset_tlv);
    let schedule = connect_schedule(dataset_tlv);
    assert(schedule.take(4) =~= schedule);
    assert(commands =~= schedule.take(commands.len() as int));
}

proof fn lemma_commands_follow_schedule<'a>(events: Seq<ConnectEvent>, dataset_tlv: &'a [u8])
    requires
        connect_fits(events),
    ensures
        commands_done(connect_run(events), connect_commands(events, dataset_tlv).len() as int),
        connect_commands(events, dataset_tlv).len() <= 4,
        connect_commands(events, dataset_tlv) == connect_schedule(dataset_tlv).take(
            connect_commands(events, dataset_tlv).len() as int,
        ),
    decreases events.len(),
{
    let schedule = connect_schedule(dataset_tlv);
    if events.len() == 0 {
        assert(connect_commands(events, dataset_tlv) =~= schedule.take(0));
    } else {
        lemma_commands_follow_schedule(events.drop_last(), dataset_tlv);
        let before = connect_commands(events.drop_last(), dataset_tlv);
        let commands = connect_commands(events, dataset_tlv);
        if commands.len() > before.len() {
            assert(commands =~= schedule.take(commands.len() as int));
        }
    }
}

/// An attempt succeeds exactly if the last look at the interface found it operational. It fails to
/// authenticate exactly if the last look found it not operational although the time was up.
pub proof fn law_outcome_goes_by_last_look(events: Seq<ConnectEvent>)
    requires
        connect_fits(events),
        connect_run(events) is Over,
    ensures
        connect_run(events) == ConnectPhase::Over(Ok(())) <==> {
            events.last() matches ConnectEvent::Fetched { operational: Ok(true), .. }
        },
        connect_run(events) == ConnectPhase::Over(Err(NetCtlError::AuthFailure)) <==> {
            &&& events.len() >= 2
            &&& events[events.len() - 2] matches ConnectEvent::Fetched {
                operational: Ok(false),
                elapsed_ticks,
            }
            &&& elapsed_ticks > CONNECT_WAIT_MILLIS * TICKS_PER_MILLI
        },
{
    let before = events.drop_last();
    assert(connect_fits(before));
    if before.len() > 0 {
        assert(before.last() == events[events.len() - 2]);
        assert(connect_fits(before.drop_last()));
    }
}

/// If the waits between the looks are honoured, an attempt is over after at most 32 looks.
pub proof fn law_attempt_is_bounded(events: Seq<ConnectEvent>)
    requires
        connect_fits(events),
        forall|i: int|
            0 <= i < events.len() ==> (#[trigger] events[i] matches ConnectEvent::Fetched {
                elapsed_ticks,
                ..
            } ==> elapsed_ticks >= connect_looks(events.take(i)) * POLL_CONNECT_WAIT_MILLIS
                * TICKS_PER_MILLI),
    ensures
        connect_looks(events) <= 32,
        connect_looks(events) == 32 ==> connect_run(events) is Over || connect_run(
            events,
        ) is Abandoning,
    decreases events.len(),
{
    if events.len() > 0 {
        let before = events.drop_last();
        assert forall|i: int| 0 <= i < before.len() implies (#[trigger] before[i] matches
            ConnectEvent::Fetched { elapsed_ticks, .. } ==> elapsed_ticks >= connect_looks(
            before.take(i),
        ) * POLL_CONNECT_WAIT_MILLIS * TICKS_PER_MILLI) by {
            assert(before.take(i) =~= events.take(i));
            assert(before[i] == events[i]);
        }
        law_attempt_is_bounded(before);
        assert(events.take(events.len() - 1) =~= before);
        assert(events[events.len() - 1] == events.last());
    }
}

/// Whether none of these looks at the interface, one after the other, tells anything new.
pub open spec fn nothing_changes(known: bool, looks: Seq<Result<bool, i32>>) -> bool
    decreases looks.len(),
{
    looks.len() > 0 ==> {
        &&& nothing_changes(known, looks.drop_last())
        &&& last_known(known, looks.drop_last()) == observed(looks.last())
    }
}

/// What is known of the interface after these looks.
pub open spec fn last_known(known: bool, looks: Seq<Result<bool, i32>>) -> bool {
    if looks.len() == 0 {
        known
    } else {
        observed(looks.last())
    }
}

/// A wait for a change goes on exactly as long as every look finds the interface as it was known
/// when the wait began.
pub proof fn law_wait_ends_with_first_change(known: bool, looks: Seq<Result<bool, i32>>)
    ensures
        nothing_changes(known, looks) <==> forall|i: int|
            0 <= i < looks.len() ==> observed(#[trigger] looks[i]) == known,
    decreases looks.len(),
{
    if looks.len() > 0 {
        let before = looks.drop_last();
        law_wait_ends_with_first_change(known, before);
        assert(forall|i: int| 0 <= i < before.len() ==> #[trigger] before[i] == looks[i]);
        if nothing_changes(known, looks) {
            assert forall|i: int| 0 <= i < looks.len() implies observed(#[trigger] looks[i])
                == known by {
                if i < before.len() {
                    assert(before[i] == looks[i]);
                } else if before.len() > 0 {
                    assert(before[before.len() - 1] == before.last());
                }
            }
        }
        if forall|i: int| 0 <= i < looks.len() ==> observed(#[trigger] looks[i]) == known {
            assert(looks[looks.len() - 1] == looks.last());
            if before.len() > 0 {
                assert(looks[before.len() - 1] == before.last());
            }
        }
    }
}

/// The interface is operational exactly if it has an IPv6 address and the device is a child, a
/// router or the leader. Where the addresses cannot be told, their error is passed on; a role that
/// cannot be told counts as not attached.
pub proof fn law_operational_is_attached_with_address(
    role: Result<Role, i32>,
    has_ipv6: Result<bool, i32>,
)
    ensures
        operational(role, has_ipv6) == Ok::<bool, i32>(true) <==> has_ipv6 == Ok::<bool, i32>(true)
            && (role == Ok::<Role, i32>(Role::Child) || role == Ok::<Role, i32>(Role::Router)
            || role == Ok::<Role, i32>(Role::Leader)),
        operational(role, has_ipv6) is Ok <==> has_ipv6 is Ok,
        has_ipv6 matches Err(code) ==> operational(role, has_ipv6) == Err::<bool, i32>(code),
        l2_connected(role) <==> role == Ok::<Role, i32>(Role::Child) || role == Ok::<Role, i32>(
            Role::Router,
        ) || role == Ok::<Role, i32>(Role::Leader),
{
}

/// The device is attached in every role in which it takes part in a network, and in no other.
pub proof fn law_attached_roles()
    ensures
        role_connected(Role::Child),
        role_connected(Role::Router),
        role_connected(Role::Leader),
        !role_connected(Role::Detached),
        !role_connected(Role::Disabled),
{
}

/// A look at the interface tells that it is operational exactly if it says so; a look that fails
/// does not.
pub proof fn law_look_tells_what_it_says(fetched: Result<bool, i32>)
    ensures
        observed(fetched) <==> fetched == Ok::<bool, i32>(true),
{
}

/// Whether Thread could be stopped does not matter. A dataset that is refused, and Thread that does
/// not start, end the attempt, the one as out of bounds and the other with the code of the driver.
pub proof fn law_setup_stops_at_first_failure(returned: Result<(), i32>, code: i32)
    ensures
        connect_next(ConnectPhase::Stopping, ConnectEvent::Returned(returned))
            == ConnectPhase::Applying,
        connect_next(ConnectPhase::Applying, ConnectEvent::Returned(Ok(())))
            == ConnectPhase::Starting,
        connect_next(ConnectPhase::Applying, ConnectEvent::Returned(Err(code)))
            == ConnectPhase::Over(
            Err(NetCtlError::Other(NetError::Code(ErrorCode::ConstraintError))),
        ),
        connect_next(ConnectPhase::Starting, ConnectEvent::Returned(Ok(())))
            == ConnectPhase::Polling,
        connect_next(ConnectPhase::Starting, ConnectEvent::Returned(Err(code)))
            == ConnectPhase::Over(Err(NetCtlError::Other(NetError::Net(code)))),
        connect_next(ConnectPhase::Abandoning, ConnectEvent::Returned(returned))
            == ConnectPhase::Over(Err(NetCtlError::AuthFailure)),
        connect_next(ConnectPhase::Pausing, ConnectEvent::Waited) == ConnectPhase::Polling,
{
}

/// A look that finds the interface operational ends the attempt with success, however late it is. A
/// look that fails ends it with the code of the driver. Any other look gives up after more than
/// thirty seconds, and until then is repeated; a tick is a microsecond.
pub proof fn law_look_decides(operational: Result<bool, i32>, elapsed_ticks: u64)
    ensures
        ({
            let after = connect_next(
                ConnectPhase::Polling,
                ConnectEvent::Fetched { operational, elapsed_ticks },
            );
            &&& after == ConnectPhase::Over(Ok(())) <==> operational == Ok::<bool, i32>(true)
            &&& operational matches Err(code) ==> after == ConnectPhase::Over(
                Err(NetCtlError::Other(NetError::Net(code))),
            )
            &&& after is Abandoning <==> operational == Ok::<bool, i32>(false) && elapsed_ticks
                > 30_000_000
            &&& after is Pausing <==> operational == Ok::<bool, i32>(false) && elapsed_ticks
                <= 30_000_000
        }),
{
}

/// What the driver is told in each phase, and how long an attempt waits between two looks.
pub proof fn law_phases_act(dataset_tlv: &[u8], result: Result<(), NetCtlError>)
    ensures
        connect_action(ConnectPhase::Stopping, dataset_tlv) == (ConnectAction::EnableThread {
            enabled: false,
        }),
        connect_action(ConnectPhase::Applying, dataset_tlv) matches ConnectAction::SetDataset {
            dataset_tlv: applied,
        } && applied@ == dataset_tlv@,
        connect_action(ConnectPhase::Starting, dataset_tlv) == (ConnectAction::EnableThread {
            enabled: true,
        }),
        connect_action(ConnectPhase::Polling, dataset_tlv) is FetchOperational,
        connect_action(ConnectPhase::Pausing, dataset_tlv) == (ConnectAction::Wait {
            millis: 1000,
        }),
        connect_action(ConnectPhase::Abandoning, dataset_tlv) == (ConnectAction::EnableThread {
            enabled: false,
        }),
        connect_action(ConnectPhase::Over(result), dataset_tlv) == (ConnectAction::Return {
            result,
        }),
{
}

/// The answer of the driver fits every phase that calls it, a look fits the phase that looks, and
/// the end of a wait fits the phase that waits. Nothing fits an attempt that is over.
pub proof fn law_answers_fit_their_phase(phase: ConnectPhase, event: ConnectEvent)
    ensures
        event is Returned ==> (event_fits(phase, event) <==> phase is Stopping || phase is Applying
            || phase is Starting || phase is Abandoning),
        event is Fetched ==> (event_fits(phase, event) <==> phase is Polling),
        event is Waited ==> (event_fits(phase, event) <==> phase is Pausing),
{
}

} // verus!
