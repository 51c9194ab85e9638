//! What holds of every update of the registered services, and of every registration.

use vstd::prelude::*;

use crate::error::ErrorCode;
use crate::storage::string_chars;
use crate::thread::srp::{
    action_due, hex, hex_digit, registrations, removals, srp_event_fits, srp_next,
    MatterLocalService, SrpAction, SrpEvent, SrpFailure, SrpModel, SrpRunModel, SrpStep,
    MAX_MATTER_SERVICES,
};

verus! {

/// The registered services without their slots.
pub open spec fn service_names(services: Seq<(MatterLocalService, usize)>) -> Seq<
    MatterLocalService,
> {
    services.map_values(|entry: (MatterLocalService, usize)| entry.0)
}

/// Different addresses of the same length give different host names, of two digits for each byte.
pub proof fn law_host_name_is_unique(a: Seq<u8>, b: Seq<u8>)
    requires
        a.len() == b.len(),
    ensures
        hex(a).len() == 2 * a.len(),
        hex(a) == hex(b) ==> a == b,
{
    reveal_strlit("0123456789ABCDEF");
    if hex(a) == hex(b) {
        assert forall|i: int| 0 <= i < a.len() implies a[i] == b[i] by {
            assert((2 * i) / 2 == i && (2 * i + 1) / 2 == i);
            assert(hex(a)[2 * i] == hex_digit(a[i] as int / 16));
            assert(hex(b)[2 * i] == hex_digit(b[i] as int / 16));
            assert(hex(a)[2 * i + 1] == hex_digit(a[i] as int % 16));
            assert(hex(b)[2 * i + 1] == hex_digit(b[i] as int % 16));
            lemma_hex_digit_is_unique(a[i] as int / 16, b[i] as int / 16);
            lemma_hex_digit_is_unique(a[i] as int % 16, b[i] as int % 16);
        }
        assert(a =~= b);
    }
}

proof fn lemma_hex_digit_is_unique(a: int, b: int)
    requires
        0 <= a < 16,
        0 <= b < 16,
        hex_digit(a) == hex_digit(b),
    ensures
        a == b,
{
    reveal_strlit("0123456789ABCDEF");
}

/// As long as no service occurs twice, an update makes no calls exactly if the wanted services are
/// the registered ones.
pub proof fn law_update_goes_by_set_of_services(srp: SrpModel, wanted: Seq<MatterLocalService>)
    requires
        wanted.no_duplicates(),
        service_names(srp.services).no_duplicates(),
    ensures
        srp.update_plan(wanted).len() == 0 <==> forall|service: MatterLocalService|
            srp.registers(service) <==> #[trigger] wanted.contains(service),
{
    let names = service_names(srp.services);
    assert forall|service: MatterLocalService| srp.registers(service) <==> #[trigger] names.contains(
        service,
    ) by {
        lemma_registers_is_by_name(srp, service);
    }
    wanted.unique_seq_to_set();
    names.unique_seq_to_set();
    if srp.up_to_date(wanted) {
        assert(wanted.to_set().subset_of(names.to_set())) by {
            assert forall|service: MatterLocalService| wanted.to_set().contains(
                service,
            ) implies names.to_set().contains(service) by {
                let i = choose|i: int| 0 <= i < wanted.len() && wanted[i] == service;
                assert(srp.registers(wanted[i]));
                assert(names.contains(service));
            }
        }
        vstd::set_lib::lemma_subset_equality(wanted.to_set(), names.to_set());
        assert forall|service: MatterLocalService| srp.registers(service)
            <==> #[trigger] wanted.contains(service) by {
            assert(names.contains(service) <==> names.to_set().contains(service));
            assert(wanted.contains(service) <==> wanted.to_set().contains(service));
        }
    }
    if forall|service: MatterLocalService|
        srp.registers(service) <==> #[trigger] wanted.contains(service) {
        assert(wanted.to_set() =~= names.to_set());
        assert forall|i: int| 0 <= i < wanted.len() implies srp.registers(#[trigger] wanted[i]) by {
            assert(wanted.contains(wanted[i]));
        }
        assert(srp.up_to_date(wanted));
    }
}

/// An update that makes any calls removes each registered service and registers each wanted one,
/// and the removals come first. A service is removed locally only if it is wanted, and so
/// registered anew in the same update; one that is not wanted is withdrawn from the server.
pub proof fn law_update_describes_host_completely(
    srp: SrpModel,
    wanted: Seq<MatterLocalService>,
)
    requires
        srp.update_plan(wanted).len() > 0,
    ensures
        srp.update_plan(wanted).len() == srp.services.len() + wanted.len(),
        forall|j: int|
            0 <= j < srp.services.len() ==> #[trigger] srp.update_plan(wanted)[j]
                == (SrpStep::Remove {
                slot: srp.services[j].1,
                immediate: wanted.contains(srp.services[j].0),
            }),
        forall|i: int|
            0 <= i < wanted.len() ==> srp.update_plan(wanted)[srp.services.len() + i]
                == (SrpStep::Register { service: #[trigger] wanted[i] }),
{
    let plan = srp.update_plan(wanted);
    assert(plan == removals(srp.services, wanted) + registrations(wanted));
    assert forall|i: int| 0 <= i < wanted.len() implies plan[srp.services.len() + i] == (
    SrpStep::Register { service: #[trigger] wanted[i] }) by {
        assert(plan[srp.services.len() + i] == registrations(wanted)[i]);
    }
}

/// The client and how far the registration has come after these events.
pub open spec fn srp_after<E>(
    srp: SrpModel,
    run: SrpRunModel,
    events: Seq<SrpEvent<'_, E>>,
) -> (SrpModel, SrpRunModel)
    decreases events.len(),
{
    if events.len() == 0 {
        (srp, run)
    } else {
        let (srp, run) = srp_after(srp, run, events.drop_last());
        let (srp, run, _) = srp_next(srp, run, events.last());
        (srp, run)
    }
}

/// Each event is one that can come of the action before it.
pub open spec fn srp_fits<E>(
    srp: SrpModel,
    run: SrpRunModel,
    events: Seq<SrpEvent<'_, E>>,
) -> bool
    decreases events.len(),
{
    events.len() > 0 ==> {
        &&& srp_fits(srp, run, events.drop_last())
        &&& srp_event_fits(srp_after(srp, run, events.drop_last()).1, events.last())
    }
}

/// A registration is over exactly if it has failed.
pub proof fn law_every_failure_ends_registration<E>(
    srp: SrpModel,
    run: SrpRunModel,
    event: SrpEvent<'_, E>,
)
    requires
        srp_event_fits(run, event),
        run matches SrpRunModel::Update { pending } ==> pending.len() > 0,
    ensures
        srp_next(srp, run, event).2 is Err <==> srp_next(srp, run, event).1 is Over,
{
}

/// Before any service is listed, everything that was registered before is dropped and the host
/// name is set. The host name goes by the EUI-64 that the client was given, and else by the
/// address that was read.
pub proof fn law_registration_starts_from_clean_slate<E>(
    srp: SrpModel,
    events: Seq<SrpEvent<'_, E>>,
)
    requires
        srp_fits(srp, SrpRunModel::first(srp.host_eui64), events),
    ensures
        ({
            let (after, run) = srp_after(srp, SrpRunModel::first(srp.host_eui64), events);
            &&& after.host_eui64 == srp.host_eui64
            &&& run matches SrpRunModel::Configure { eui64 } ==> {
                &&& after.services.len() == 0
                &&& match srp.host_eui64 {
                    Some(host_eui64) => eui64 == host_eui64,
                    None => events[0] == SrpEvent::<E>::Address(Ok(eui64)),
                }
            }
            &&& run is Collect && events.last() is Returned ==> after.services.len() == 0
        }),
    decreases events.len(),
{
    let first = SrpRunModel::first(srp.host_eui64);
    if events.len() > 0 {
        let before = events.drop_last();
        law_registration_starts_from_clean_slate(srp, before);
        lemma_clear_goes_by_address(srp, before);
        if before.len() > 0 {
            assert(before[0] == events[0]);
        }
    }
}

proof fn lemma_clear_goes_by_address<E>(srp: SrpModel, events: Seq<SrpEvent<'_, E>>)
    requires
        srp_fits(srp, SrpRunModel::first(srp.host_eui64), events),
    ensures
        ({
            let (after, run) = srp_after(srp, SrpRunModel::first(srp.host_eui64), events);
            &&& run is ReadAddress ==> events.len() == 0
            &&& run matches SrpRunModel::Clear { eui64 } ==> match srp.host_eui64 {
                Some(host_eui64) => eui64 == host_eui64,
                None => events.len() > 0 && events[0] == SrpEvent::<E>::Address(Ok(eui64)),
            }
            &&& run matches SrpRunModel::Update { pending } ==> pending.len() > 0
        }),
    decreases events.len(),
{
    if events.len() > 0 {
        let before = events.drop_last();
        lemma_clear_goes_by_address(srp, before);
    }
}

/// An update whose calls all succeed ends with the wanted services registered, in their order and
/// each in the slot that its registration returned. The same update has then nothing to do.
pub proof fn law_update_registers_wanted<E>(
    srp: SrpModel,
    wanted: Seq<MatterLocalService>,
    events: Seq<SrpEvent<'_, E>>,
)
    requires
        !srp.up_to_date(wanted),
        events.len() == srp.update_plan(wanted).len(),
        srp_fits(
            srp.update_planned(wanted),
            SrpRunModel::pending(srp.update_plan(wanted)),
            events,
        ),
        !(srp_after(
            srp.update_planned(wanted),
            SrpRunModel::pending(srp.update_plan(wanted)),
            events,
        ).1 is Over),
    ensures
        ({
            let (after, run) = srp_after(
                srp.update_planned(wanted),
                SrpRunModel::pending(srp.update_plan(wanted)),
                events,
            );
            &&& run is Wait
            &&& service_names(after.services) == wanted
            &&& forall|i: int|
                0 <= i < wanted.len() ==> events[srp.services.len() + i]
                    == SrpEvent::<E>::Registered(Ok((#[trigger] after.services[i]).1))
            &&& after.update_plan(wanted).len() == 0
        }),
{
    lemma_update_progress(srp, wanted, events);
    let (after, run) = srp_after(
        srp.update_planned(wanted),
        SrpRunModel::pending(srp.update_plan(wanted)),
        events,
    );
    assert(service_names(after.services) =~= wanted);
    assert forall|i: int| 0 <= i < wanted.len() implies after.registers(#[trigger] wanted[i]) by {
        assert(after.services[i].0 == wanted[i]);
    }
}

proof fn lemma_update_progress<E>(
    srp: SrpModel,
    wanted: Seq<MatterLocalService>,
    events: Seq<SrpEvent<'_, E>>,
)
    requires
        !srp.up_to_date(wanted),
        events.len() <= srp.update_plan(wanted).len(),
        srp_fits(
            srp.update_planned(wanted),
            SrpRunModel::pending(srp.update_plan(wanted)),
            events,
        ),
        !(srp_after(
            srp.update_planned(wanted),
            SrpRunModel::pending(srp.update_plan(wanted)),
            events,
        ).1 is Over),
    ensures
        ({
            let plan = srp.update_plan(wanted);
            let (after, run) = srp_after(
                srp.update_planned(wanted),
                SrpRunModel::pending(plan),
                events,
            );
            let done = events.len() - srp.services.len();
            &&& run == SrpRunModel::pending(plan.skip(events.len() as int))
            &&& after.services.len() == if done > 0 {
                done
            } else {
                0
            }
            &&& forall|i: int|
                0 <= i < after.services.len() ==> (#[trigger] after.services[i]).0 == wanted[i]
                    && events[srp.services.len() + i] == SrpEvent::<E>::Registered(
                    Ok(after.services[i].1),
                )
        }),
    decreases events.len(),
{
    let plan = srp.update_plan(wanted);
    let begun = SrpRunModel::pending(plan);
    if events.len() == 0 {
        assert(plan.skip(0) =~= plan);
    } else {
        let before = events.drop_last();
        let (srp_before, run_before) = srp_after(srp.update_planned(wanted), begun, before);
        lemma_update_progress(srp, wanted, before);
        let at = before.len() as int;
        assert(plan.skip(at).drop_first() =~= plan.skip(at + 1));
        assert(plan.skip(at).first() == plan[at]);
        if at < srp.services.len() {
            assert(plan[at] == removals(srp.services, wanted)[at]);
        } else {
            assert(plan[at] == registrations(wanted)[at - srp.services.len()]);
        }
        assert(forall|k: int| 0 <= k < before.len() ==> #[trigger] before[k] == events[k]);
        assert(events[at] == events.last());
    }
}

/// Once the services to publish were listed and the calls that this makes due have succeeded (or
/// none was due), the listed services are registered, and no others.
pub proof fn law_listed_services_get_registered<E>(
    srp: SrpModel,
    wanted: &[MatterLocalService],
    events: Seq<SrpEvent<'_, E>>,
)
    requires
        wanted@.no_duplicates(),
        events.len() > 0,
        events[0] == SrpEvent::<E>::Services(Ok(wanted)),
        srp_fits(srp, SrpRunModel::Collect, events),
        forall|i: int| 0 < i < events.len() ==> !(#[trigger] events[i] is Changed),
        srp_after(srp, SrpRunModel::Collect, events).1 is Wait,
    ensures
        ({
            let after = srp_after(srp, SrpRunModel::Collect, events).0;
            &&& after.services.len() == wanted@.len()
            &&& forall|i: int|
                0 <= i < wanted@.len() ==> service_names(after.services).contains(
                    #[trigger] wanted@[i],
                )
            &&& forall|j: int|
                0 <= j < after.services.len() ==> wanted@.contains(
                    (#[trigger] after.services[j]).0,
                )
        }),
{
    let planned = srp.update_planned(wanted@);
    let plan = srp.update_plan(wanted@);
    let begun = SrpRunModel::pending(plan);
    let rest = events.drop_first();
    let after = srp_after(srp, SrpRunModel::Collect, events).0;
    lemma_first_event(srp, SrpRunModel::Collect, events);
    assert(srp_next(srp, SrpRunModel::Collect, events[0]) == (
        planned,
        begun,
        Ok::<(), SrpFailure<E>>(()),
    ));
    if srp.up_to_date(wanted@) {
        if rest.len() > 0 {
            lemma_event_fits_at(planned, begun, rest, 0);
            assert(rest.take(0) =~= Seq::empty());
            assert(events[1] == rest[0]);
        }
        assert(after == srp);
        lemma_up_to_date_is_same_set(srp, wanted@);
    } else {
        let n = plan.len() as int;
        if rest.len() > n {
            lemma_event_fits_at(planned, begun, rest, n);
            lemma_update_progress(srp, wanted@, rest.take(n));
            assert(plan.skip(n).len() == 0);
            assert(events[n + 1] == rest[n]);
        } else {
            lemma_update_progress(srp, wanted@, rest);
            assert(plan.skip(rest.len() as int).len() == n - rest.len());
            law_update_registers_wanted(srp, wanted@, rest);
            assert forall|i: int| 0 <= i < wanted@.len() implies service_names(
                after.services,
            ).contains(#[trigger] wanted@[i]) by {
                assert(service_names(after.services)[i] == wanted@[i]);
            }
            assert forall|j: int| 0 <= j < after.services.len() implies wanted@.contains(
                (#[trigger] after.services[j]).0,
            ) by {
                assert(service_names(after.services)[j] == after.services[j].0);
                assert(wanted@[j] == after.services[j].0);
            }
        }
    }
}

proof fn lemma_up_to_date_is_same_set(srp: SrpModel, wanted: Seq<MatterLocalService>)
    requires
        wanted.no_duplicates(),
        srp.up_to_date(wanted),
    ensures
        srp.services.len() == wanted.len(),
        forall|i: int|
            0 <= i < wanted.len() ==> service_names(srp.services).contains(#[trigger] wanted[i]),
        forall|j: int|
            0 <= j < srp.services.len() ==> wanted.contains((#[trigger] srp.services[j]).0),
{
    let names = service_names(srp.services);
    wanted.unique_seq_to_set();
    names.lemma_cardinality_of_set();
    vstd::seq_lib::seq_to_set_is_finite(wanted);
    vstd::seq_lib::seq_to_set_is_finite(names);
    assert forall|i: int| 0 <= i < wanted.len() implies names.contains(#[trigger] wanted[i]) by {
        assert(srp.registers(wanted[i]));
        lemma_registers_is_by_name(srp, wanted[i]);
    }
    assert forall|service: MatterLocalService| wanted.to_set().contains(
        service,
    ) implies names.to_set().contains(service) by {
        let i = choose|i: int| 0 <= i < wanted.len() && wanted[i] == service;
        assert(names.contains(wanted[i]));
    }
    vstd::set_lib::lemma_len_subset(wanted.to_set(), names.to_set());
    vstd::set_lib::lemma_subset_equality(wanted.to_set(), names.to_set());
    assert forall|j: int| 0 <= j < srp.services.len() implies wanted.contains(
        (#[trigger] srp.services[j]).0,
    ) by {
        assert(names[j] == srp.services[j].0);
        assert(names.to_set().contains(names[j]));
        assert(wanted.to_set().contains(names[j]));
    }
}

proof fn lemma_registers_is_by_name(srp: SrpModel, service: MatterLocalService)
    ensures
        srp.registers(service) <==> service_names(srp.services).contains(service),
{
    let names = service_names(srp.services);
    if srp.registers(service) {
        let j = choose|j: int|
            0 <= j < srp.services.len() && (#[trigger] srp.services[j]).0 == service;
        assert(names[j] == service);
    }
    if names.contains(service) {
        let j = choose|j: int| 0 <= j < names.len() && names[j] == service;
        assert(srp.services[j].0 == service);
    }
}

proof fn lemma_first_event<E>(srp: SrpModel, run: SrpRunModel, events: Seq<SrpEvent<'_, E>>)
    requires
        events.len() > 0,
        srp_fits(srp, run, events),
    ensures
        ({
            let (first_srp, first_run, _) = srp_next(srp, run, events[0]);
            &&& srp_after(srp, run, events) == srp_after(first_srp, first_run, events.drop_first())
            &&& srp_fits(first_srp, first_run, events.drop_first())
        }),
    decreases events.len(),
{
    let rest = events.drop_first();
    if events.len() == 1 {
        assert(events.drop_last() =~= Seq::empty());
        assert(rest =~= Seq::empty());
        assert(events.last() == events[0]);
    } else {
        lemma_first_event(srp, run, events.drop_last());
        assert(events.drop_last().drop_first() =~= rest.drop_last());
        assert(events.drop_last()[0] == events[0]);
        assert(rest.last() == events.last());
    }
}

proof fn lemma_event_fits_at<E>(
    srp: SrpModel,
    run: SrpRunModel,
    events: Seq<SrpEvent<'_, E>>,
    k: int,
)
    requires
        0 <= k < events.len(),
        srp_fits(srp, run, events),
    ensures
        srp_fits(srp, run, events.take(k)),
        srp_event_fits(srp_after(srp, run, events.take(k)).1, events[k]),
    decreases events.len(),
{
    let before = events.drop_last();
    if k == before.len() {
        assert(events.take(k) =~= before);
        assert(events[k] == events.last());
    } else {
        lemma_event_fits_at(srp, run, before, k);
        assert(before.take(k) =~= events.take(k));
        assert(before[k] == events[k]);
    }
}

/// A listing makes no calls due, and leaves the registered services, exactly if as many services
/// are wanted as are registered and each of those that are wanted is registered. Otherwise it makes
/// due, for each registered service in order, its removal from its slot, which is a local one
/// exactly if the service is wanted, and then, for each wanted service in order, its registration.
/// No service counts as registered then.
pub proof fn law_listing_makes_calls_due<E>(srp: SrpModel, wanted: &[MatterLocalService])
    ensures
        ({
            let n = srp.services.len() as int;
            let (after, run, result) = srp_next(
                srp,
                SrpRunModel::Collect,
                SrpEvent::<E>::Services(Ok(wanted)),
            );
            let same = wanted@.len() == n && forall|i: int|
                0 <= i < wanted@.len() ==> service_names(srp.services).contains(
                    #[trigger] wanted@[i],
                );
            &&& result is Ok
            &&& after.host_eui64 == srp.host_eui64
            &&& same ==> run is Wait && after.services == srp.services
            &&& !same ==> {
                &&& after.services.len() == 0
                &&& run matches SrpRunModel::Update { pending }
                &&& pending.len() == n + wanted@.len()
                &&& forall|j: int|
                    0 <= j < n ==> {
                        &&& (#[trigger] pending[j]) matches SrpStep::Remove { slot, immediate }
                        &&& slot == srp.services[j].1
                        &&& immediate <==> wanted@.contains(srp.services[j].0)
                    }
                &&& forall|i: int|
                    0 <= i < wanted@.len() ==> pending[n + i] == (SrpStep::Register {
                        service: #[trigger] wanted@[i],
                    })
            }
        }),
{
    let n = srp.services.len() as int;
    assert forall|i: int| 0 <= i < wanted@.len() implies (srp.registers(#[trigger] wanted@[i])
        <==> service_names(srp.services).contains(wanted@[i])) by {
        lemma_registers_is_by_name(srp, wanted@[i]);
    }
    if !srp.up_to_date(wanted@) {
        let plan = srp.update_plan(wanted@);
        assert(plan.len() == n + wanted@.len());
        if plan.len() == 0 {
            assert(srp.up_to_date(wanted@));
        }
        law_update_describes_host_completely(srp, wanted@);
    }
}

/// An update takes no calls, and leaves the registered services, exactly if as many services are
/// wanted as are registered and each of those that are wanted is registered. As soon as it takes
/// any, no service counts as registered.
pub proof fn law_update_is_needed_unless_same(srp: SrpModel, wanted: Seq<MatterLocalService>)
    ensures
        ({
            let same = wanted.len() == srp.services.len() && forall|i: int|
                0 <= i < wanted.len() ==> service_names(srp.services).contains(
                    #[trigger] wanted[i],
                );
            &&& srp.update_plan(wanted).len() == 0 <==> same
            &&& srp.update_planned(wanted).host_eui64 == srp.host_eui64
            &&& same ==> srp.update_planned(wanted).services == srp.services
            &&& !same ==> srp.update_planned(wanted).services.len() == 0
        }),
{
    assert forall|i: int| 0 <= i < wanted.len() implies (srp.registers(#[trigger] wanted[i])
        <==> service_names(srp.services).contains(wanted[i])) by {
        lemma_registers_is_by_name(srp, wanted[i]);
    }
}

/// The calls of an update are made one after the other: one that succeeds leaves the others to be
/// made, and the last one leaves a wait for a change. A registration is noted with its service and
/// its slot behind the others, if there are fewer than six; a seventh is refused.
pub proof fn law_update_goes_call_by_call<E>(
    srp: SrpModel,
    pending: Seq<SrpStep>,
    service: MatterLocalService,
    slot: usize,
)
    requires
        pending.len() > 0,
    ensures
        ({
            let run = SrpRunModel::Update { pending };
            let (after, next, result) = srp_next(srp, run, SrpEvent::<E>::Returned(Ok(())));
            &&& after == srp && result is Ok
            &&& pending.len() == 1 ==> next is Wait
            &&& pending.len() > 1 ==> next == (SrpRunModel::Update {
                pending: pending.subrange(1, pending.len() as int),
            })
        }),
        pending[0] == (SrpStep::Register { service }) ==> {
            let run = SrpRunModel::Update { pending };
            let (after, next, result) = srp_next(srp, run, SrpEvent::<E>::Registered(Ok(slot)));
            &&& after.host_eui64 == srp.host_eui64
            &&& srp.services.len() < 6 ==> {
                &&& result is Ok
                &&& after.services.len() == srp.services.len() + 1
                &&& after.services.last() == (service, slot)
                &&& forall|j: int|
                    0 <= j < srp.services.len() ==> after.services[j] == srp.services[j]
                &&& pending.len() == 1 ==> next is Wait
                &&& pending.len() > 1 ==> next == (SrpRunModel::Update {
                    pending: pending.subrange(1, pending.len() as int),
                })
            }
            &&& srp.services.len() >= 6 ==> {
                &&& result == Err::<(), SrpFailure<E>>(
                    SrpFailure::Code(ErrorCode::ConstraintError),
                )
                &&& after.services == srp.services
                &&& next is Over
            }
        },
{
    assert(pending.drop_first() =~= pending.subrange(1, pending.len() as int));
    assert(MAX_MATTER_SERVICES == 6);
}

/// A registration starts with the address, if it was given none, and goes on to drop what was
/// registered before, to set the host name that goes by that very address, and to list the
/// services. After a change it lists them again.
pub proof fn law_registration_goes_on<E>(srp: SrpModel, eui64: [u8; 8])
    ensures
        SrpRunModel::first(None) is ReadAddress,
        SrpRunModel::first(Some(eui64)) == (SrpRunModel::Clear { eui64 }),
        srp_next(srp, SrpRunModel::ReadAddress, SrpEvent::<E>::Address(Ok(eui64))) == (
            srp,
            SrpRunModel::Clear { eui64 },
            Ok::<(), SrpFailure<E>>(()),
        ),
        ({
            let (after, next, result) = srp_next(
                srp,
                SrpRunModel::Clear { eui64 },
                SrpEvent::<E>::Returned(Ok(())),
            );
            &&& after.services.len() == 0
            &&& after.host_eui64 == srp.host_eui64
            &&& next == (SrpRunModel::Configure { eui64 })
            &&& result is Ok
        }),
        srp_next(srp, SrpRunModel::Configure { eui64 }, SrpEvent::<E>::Returned(Ok(()))) == (
            srp,
            SrpRunModel::Collect,
            Ok::<(), SrpFailure<E>>(()),
        ),
        srp_next(srp, SrpRunModel::Wait, SrpEvent::<E>::Changed) == (
            srp,
            SrpRunModel::Collect,
            Ok::<(), SrpFailure<E>>(()),
        ),
{
}

/// A failure is passed on as it is, whatever the registration was about, and leaves the registered
/// services as they were.
pub proof fn law_failure_is_passed_on<E>(
    srp: SrpModel,
    run: SrpRunModel,
    code: i32,
    err: E,
    failure: SrpFailure<E>,
)
    requires
        !(run is Wait),
    ensures
        srp_next(srp, run, SrpEvent::<E>::Address(Err(code))) == (
            srp,
            SrpRunModel::Over,
            Err::<(), SrpFailure<E>>(SrpFailure::Net(code)),
        ),
        srp_next(srp, run, SrpEvent::<E>::Returned(Err(code))) == (
            srp,
            SrpRunModel::Over,
            Err::<(), SrpFailure<E>>(SrpFailure::Net(code)),
        ),
        srp_next(srp, run, SrpEvent::<E>::Services(Err(err))) == (
            srp,
            SrpRunModel::Over,
            Err::<(), SrpFailure<E>>(SrpFailure::Matter(err)),
        ),
        srp_next(srp, run, SrpEvent::<E>::Registered(Err(failure))) == (
            srp,
            SrpRunModel::Over,
            Err::<(), SrpFailure<E>>(failure),
        ),
{
}

/// What is due at each point, and that the answers to it, and only these, fit. Everything that was
/// registered is dropped locally, the host gets the name that goes by the address and no addresses
/// of its own, and the first call that is to be made is made as it stands.
pub proof fn law_due_actions<E>(run: SrpRunModel, action: SrpAction, event: SrpEvent<'_, E>)
    requires
        action_due(run, action),
        run matches SrpRunModel::Update { pending } ==> pending.len() > 0,
    ensures
        action is ReadAddress <==> run is ReadAddress,
        action is RemoveAll <==> run is Clear,
        action matches SrpAction::RemoveAll { immediate } ==> immediate,
        action is SetConf <==> run is Configure,
        action matches SrpAction::SetConf { host_name, host_addrs } ==> {
            &&& string_chars(host_name) == hex(run->Configure_eui64@)
            &&& host_addrs@.len() == 0
        },
        action is CollectServices <==> run is Collect,
        action is WaitChange <==> run is Wait,
        action is Return <==> run is Over,
        action is RemoveService || action is AddService <==> run is Update,
        action matches SrpAction::RemoveService { slot, immediate } ==> run->pending[0] == (
        SrpStep::Remove { slot, immediate }),
        action matches SrpAction::AddService { service } ==> run->pending[0] == (
        SrpStep::Register { service }),
        srp_event_fits(run, event) <==> {
            ||| action is ReadAddress && event is Address
            ||| (action is RemoveAll || action is SetConf || action is RemoveService)
                && event is Returned
            ||| action is CollectServices && event is Services
            ||| action is AddService && event is Registered
            ||| action is WaitChange && event is Changed
        },
{
}

/// Each byte is spelled by two upper-case hexadecimal digits, the more significant one first.
pub proof fn law_host_name_spells_bytes(bytes: Seq<u8>, i: int)
    requires
        0 <= i < bytes.len(),
    ensures
        ({
            let high = bytes[i] as int / 16;
            let low = bytes[i] as int % 16;
            &&& hex(bytes).len() == 2 * bytes.len()
            &&& hex(bytes)[2 * i] as int == if high < 10 {
                0x30 + high
            } else {
                0x41 + (high - 10)
            }
            &&& hex(bytes)[2 * i + 1] as int == if low < 10 {
                0x30 + low
            } else {
                0x41 + (low - 10)
            }
        }),
{
    reveal_strlit("0123456789ABCDEF");
    assert((2 * i) / 2 == i && (2 * i + 1) / 2 == i);
    assert(hex(bytes)[2 * i] == hex_digit(bytes[i] as int / 16));
    assert(hex(bytes)[2 * i + 1] == hex_digit(bytes[i] as int % 16));
}

/// A new client has registered nothing and goes by the EUI-64 that it was given. There is room for
/// six services.
pub proof fn law_new_client_has_nothing(host_eui64: Option<[u8; 8]>)
    ensures
        SrpModel::fresh(host_eui64).host_eui64 == host_eui64,
        SrpModel::fresh(host_eui64).services.len() == 0,
        MAX_MATTER_SERVICES == 6,
{
}

/// A service is registered exactly if it is in some slot, and noting other services changes nothing
/// but them.
pub proof fn law_registered_is_in_some_slot(
    srp: SrpModel,
    service: MatterLocalService,
    services: Seq<(MatterLocalService, usize)>,
)
    ensures
        srp.registers(service) <==> exists|slot: usize|
            #[trigger] srp.services.contains((service, slot)),
        srp.with_services(services).services == services,
        srp.with_services(services).host_eui64 == srp.host_eui64,
{
    if srp.registers(service) {
        let j = choose|j: int|
            0 <= j < srp.services.len() && (#[trigger] srp.services[j]).0 == service;
        assert(srp.services[j] == (service, srp.services[j].1));
        assert(srp.services.contains((service, srp.services[j].1)));
    }
    if exists|slot: usize| #[trigger] srp.services.contains((service, slot)) {
        let slot = choose|slot: usize| #[trigger] srp.services.contains((service, slot));
        let j = choose|j: int| 0 <= j < srp.services.len() && srp.services[j] == (service, slot);
        assert(srp.services[j].0 == service);
    }
}

} // verus!
