use esp_idf_matter::error::ErrorCode;
use esp_idf_matter::thread::srp::{
    collect_service, host_name, EspMatterThreadSrp, MatterLocalService, SrpAction, SrpEvent,
    SrpFailure, SrpRun, SrpStep, MAX_MATTER_SERVICES,
};

const EUI64: [u8; 8] = [0x01, 0x23, 0x45, 0x67, 0x89, 0xAB, 0xCD, 0xEF];

const COMMISSIONABLE: MatterLocalService =
    MatterLocalService::Commissionable { id: 9, discriminator: 3840, enhanced: false };

type Event<'a> = SrpEvent<'a, &'static str>;

fn fabric(node_id: u64) -> MatterLocalService {
    MatterLocalService::Commissioned { compressed_fabric_id: 77, node_id }
}

fn step(run: &mut SrpRun, srp: &mut EspMatterThreadSrp, event: Event) {
    assert!(run.next(srp, event).is_ok());
}

fn collecting(srp: &mut EspMatterThreadSrp) -> SrpRun {
    let mut run = srp.run();
    if matches!(run.action(), SrpAction::ReadAddress) {
        step(&mut run, srp, SrpEvent::Address(Ok(EUI64)));
    }
    step(&mut run, srp, SrpEvent::Returned(Ok(())));
    step(&mut run, srp, SrpEvent::Returned(Ok(())));
    assert!(matches!(run.action(), SrpAction::CollectServices));
    run
}

fn update(run: &mut SrpRun, srp: &mut EspMatterThreadSrp, wanted: &[MatterLocalService]) {
    step(run, srp, SrpEvent::Services(Ok(wanted)));
    let mut slot = 100;
    loop {
        match run.action() {
            SrpAction::RemoveService { .. } => step(run, srp, SrpEvent::Returned(Ok(()))),
            SrpAction::AddService { .. } => {
                step(run, srp, SrpEvent::Registered(Ok(slot)));
                slot += 1;
            }
            SrpAction::WaitChange => break,
            _ => panic!("not an update"),
        }
    }
}

#[test]
fn a_host_name_has_two_digits_for_each_byte() {
    assert_eq!(host_name(&EUI64).as_str(), "0123456789ABCDEF");
    assert_eq!(host_name(&[0; 8]).as_str(), "0000000000000000");
    assert_eq!(host_name(&[0xFF, 0xA0, 0x0A, 9, 10, 15, 16, 0x9F]).as_str(), "FFA00A090A0F109F");
    assert_ne!(host_name(&[1; 8]).as_str(), host_name(&[2; 8]).as_str());
}

#[test]
fn a_run_goes_by_the_address_that_it_is_given() {
    let mut srp = EspMatterThreadSrp::new_with_host_eui64(Some(EUI64));
    let mut run = srp.run();
    assert!(matches!(run.action(), SrpAction::RemoveAll { immediate: true }));
    step(&mut run, &mut srp, SrpEvent::Returned(Ok(())));
    match run.action() {
        SrpAction::SetConf { host_name, host_addrs } => {
            assert_eq!(host_name.as_str(), "0123456789ABCDEF");
            assert!(host_addrs.is_empty());
        }
        _ => panic!("no host name"),
    }
    step(&mut run, &mut srp, SrpEvent::Returned(Ok(())));
    assert!(matches!(run.action(), SrpAction::CollectServices));
}

#[test]
fn a_run_goes_by_the_factory_address_otherwise() {
    let mut srp = EspMatterThreadSrp::new();
    let mut run = srp.run();
    assert!(matches!(run.action(), SrpAction::ReadAddress));
    step(&mut run, &mut srp, SrpEvent::Address(Ok([0xAB; 8])));
    step(&mut run, &mut srp, SrpEvent::Returned(Ok(())));
    match run.action() {
        SrpAction::SetConf { host_name, host_addrs } => {
            assert_eq!(host_name.as_str(), "ABABABABABABABAB");
            assert!(host_addrs.is_empty());
        }
        _ => panic!("no host name"),
    }
}

#[test]
fn a_client_is_initialized_in_place() {
    let mut srp = EspMatterThreadSrp::default();
    let mut run = collecting(&mut srp);
    update(&mut run, &mut srp, &[COMMISSIONABLE]);
    EspMatterThreadSrp::init_with_host_eui64(&mut srp, Some(EUI64));
    assert!(srp.services().is_empty());
    assert!(matches!(srp.run().action(), SrpAction::RemoveAll { immediate: true }));
    EspMatterThreadSrp::init(&mut srp);
    assert!(matches!(srp.run().action(), SrpAction::ReadAddress));
}

#[test]
fn wanted_services_are_registered() {
    let mut srp = EspMatterThreadSrp::new();
    let mut run = collecting(&mut srp);
    step(&mut run, &mut srp, SrpEvent::Services(Ok(&[COMMISSIONABLE, fabric(1)])));
    match run.action() {
        SrpAction::AddService { service } => assert_eq!(service, COMMISSIONABLE),
        _ => panic!("nothing is registered"),
    }
    step(&mut run, &mut srp, SrpEvent::Registered(Ok(4)));
    match run.action() {
        SrpAction::AddService { service } => assert_eq!(service, fabric(1)),
        _ => panic!("nothing is registered"),
    }
    step(&mut run, &mut srp, SrpEvent::Registered(Ok(6)));
    assert!(matches!(run.action(), SrpAction::WaitChange));
    assert_eq!(srp.services(), &[(COMMISSIONABLE, 4), (fabric(1), 6)]);
    step(&mut run, &mut srp, SrpEvent::Changed);
    assert!(matches!(run.action(), SrpAction::CollectServices));
}

#[test]
fn an_update_to_the_same_services_does_nothing() {
    let mut srp = EspMatterThreadSrp::new();
    let mut run = collecting(&mut srp);
    update(&mut run, &mut srp, &[COMMISSIONABLE, fabric(1)]);
    step(&mut run, &mut srp, SrpEvent::Changed);
    step(&mut run, &mut srp, SrpEvent::Services(Ok(&[fabric(1), COMMISSIONABLE])));
    assert!(matches!(run.action(), SrpAction::WaitChange));
    assert_eq!(srp.services(), &[(COMMISSIONABLE, 100), (fabric(1), 101)]);
    assert!(srp.update_services(&[COMMISSIONABLE, fabric(1)]).is_empty());
    assert_eq!(srp.services().len(), 2);
}

#[test]
fn an_update_describes_the_host_completely() {
    let mut srp = EspMatterThreadSrp::new();
    let mut run = collecting(&mut srp);
    update(&mut run, &mut srp, &[COMMISSIONABLE, fabric(1)]);
    let steps = srp.update_services(&[fabric(1), fabric(2)]);
    assert_eq!(
        steps,
        vec![
            SrpStep::Remove { slot: 100, immediate: false },
            SrpStep::Remove { slot: 101, immediate: true },
            SrpStep::Register { service: fabric(1) },
            SrpStep::Register { service: fabric(2) },
        ]
    );
    assert!(srp.services().is_empty());
}

#[test]
fn a_changed_service_is_another_one() {
    let mut srp = EspMatterThreadSrp::new();
    let mut run = collecting(&mut srp);
    update(&mut run, &mut srp, &[COMMISSIONABLE]);
    let enhanced =
        MatterLocalService::Commissionable { id: 9, discriminator: 3840, enhanced: true };
    assert_eq!(
        srp.update_services(&[enhanced]),
        vec![
            SrpStep::Remove { slot: 100, immediate: false },
            SrpStep::Register { service: enhanced },
        ]
    );
}

#[test]
fn all_services_can_be_withdrawn() {
    let mut srp = EspMatterThreadSrp::new();
    let mut run = collecting(&mut srp);
    update(&mut run, &mut srp, &[COMMISSIONABLE]);
    step(&mut run, &mut srp, SrpEvent::Changed);
    step(&mut run, &mut srp, SrpEvent::Services(Ok(&[])));
    assert!(matches!(run.action(), SrpAction::RemoveService { slot: 100, immediate: false }));
    step(&mut run, &mut srp, SrpEvent::Returned(Ok(())));
    assert!(matches!(run.action(), SrpAction::WaitChange));
    assert!(srp.services().is_empty());
}

#[test]
fn a_new_run_starts_from_a_clean_slate() {
    let mut srp = EspMatterThreadSrp::new();
    let mut run = collecting(&mut srp);
    update(&mut run, &mut srp, &[COMMISSIONABLE]);
    let mut run = collecting(&mut srp);
    assert!(srp.services().is_empty());
    update(&mut run, &mut srp, &[COMMISSIONABLE]);
    assert_eq!(srp.services(), &[(COMMISSIONABLE, 100)]);
}

#[test]
fn every_failure_ends_the_run() {
    let mut srp = EspMatterThreadSrp::new();
    let mut run = srp.run();
    let failed: Event = SrpEvent::Address(Err(1));
    assert_eq!(run.next(&mut srp, failed), Err(SrpFailure::Net(1)));
    assert!(matches!(run.action(), SrpAction::Return));

    let mut srp = EspMatterThreadSrp::new_with_host_eui64(Some(EUI64));
    let mut run = srp.run();
    let failed: Event = SrpEvent::Returned(Err(2));
    assert_eq!(run.next(&mut srp, failed), Err(SrpFailure::Net(2)));
    assert!(matches!(run.action(), SrpAction::Return));

    let mut run = srp.run();
    step(&mut run, &mut srp, SrpEvent::Returned(Ok(())));
    let failed: Event = SrpEvent::Returned(Err(3));
    assert_eq!(run.next(&mut srp, failed), Err(SrpFailure::Net(3)));
    assert!(matches!(run.action(), SrpAction::Return));

    let mut run = collecting(&mut srp);
    let failed: Event = SrpEvent::Services(Err("listing"));
    assert_eq!(run.next(&mut srp, failed), Err(SrpFailure::Matter("listing")));
    assert!(matches!(run.action(), SrpAction::Return));
}

#[test]
fn a_failed_update_ends_the_run() {
    let mut srp = EspMatterThreadSrp::new();
    let mut run = collecting(&mut srp);
    update(&mut run, &mut srp, &[COMMISSIONABLE, fabric(1)]);
    step(&mut run, &mut srp, SrpEvent::Changed);
    step(&mut run, &mut srp, SrpEvent::Services(Ok(&[fabric(2)])));
    let failed: Event = SrpEvent::Returned(Err(4));
    assert_eq!(run.next(&mut srp, failed), Err(SrpFailure::Net(4)));
    assert!(matches!(run.action(), SrpAction::Return));
    assert!(srp.services().is_empty());

    let mut run = collecting(&mut srp);
    step(&mut run, &mut srp, SrpEvent::Services(Ok(&[fabric(2), fabric(3)])));
    step(&mut run, &mut srp, SrpEvent::Registered(Ok(0)));
    let failed: Event = SrpEvent::Registered(Err(SrpFailure::Matter("record")));
    assert_eq!(run.next(&mut srp, failed), Err(SrpFailure::Matter("record")));
    assert!(matches!(run.action(), SrpAction::Return));
    assert_eq!(srp.services(), &[(fabric(2), 0)]);
}

#[test]
fn there_is_room_for_six_services() {
    assert_eq!(MAX_MATTER_SERVICES, 6);
    let mut services = Vec::new();
    for node_id in 0..6 {
        assert_eq!(collect_service(&mut services, fabric(node_id)), Ok(()));
    }
    assert_eq!(collect_service(&mut services, fabric(6)), Err(ErrorCode::ConstraintError));
    assert_eq!(services.len(), 6);
    assert_eq!(services[5], fabric(5));
}

#[test]
fn a_seventh_service_is_refused() {
    let mut srp = EspMatterThreadSrp::new();
    let mut run = collecting(&mut srp);
    let wanted: Vec<MatterLocalService> = (0..7).map(fabric).collect();
    step(&mut run, &mut srp, SrpEvent::Services(Ok(&wanted)));
    for slot in 0..6 {
        step(&mut run, &mut srp, SrpEvent::Registered(Ok(slot)));
    }
    let seventh: Event = SrpEvent::Registered(Ok(6));
    assert_eq!(
        run.next(&mut srp, seventh),
        Err(SrpFailure::Code(ErrorCode::ConstraintError))
    );
    assert_eq!(srp.services().len(), 6);
    assert_eq!(srp.registered(fabric(6), 6), Err(ErrorCode::ConstraintError));
}
