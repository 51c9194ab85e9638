use esp_idf_matter::error::NetError;
use esp_idf_matter::wireless::{quiesce, BringUpAction, EspMatterThread, RadioCommand};

#[test]
fn a_radio_is_brought_up_in_order() {
    let mut bring_up = EspMatterThread::new().run();
    let expected = [
        BringUpAction::Create,
        BringUpAction::Command(RadioCommand::DropDataset),
        BringUpAction::Command(RadioCommand::EnableIpv6 { enabled: true }),
        BringUpAction::Command(RadioCommand::SrpAutostart),
        BringUpAction::Command(RadioCommand::Start),
    ];
    for action in expected {
        assert_eq!(bring_up.action(), action);
        bring_up.next(Ok(()));
    }
    assert_eq!(bring_up.action(), BringUpAction::RunTask { srp_host_eui64: None });
}

#[test]
fn the_host_name_of_the_task_can_be_given() {
    let mut bring_up = EspMatterThread::wrap().with_srp_host_eui64([7; 8]).run();
    for _ in 0..5 {
        bring_up.next(Ok(()));
    }
    assert_eq!(bring_up.action(), BringUpAction::RunTask { srp_host_eui64: Some([7; 8]) });
}

#[test]
fn the_first_failure_is_the_last_call() {
    for good in 0..5 {
        let mut bring_up = EspMatterThread::default().run();
        for _ in 0..good {
            bring_up.next(Ok(()));
        }
        bring_up.next(Err(257));
        assert_eq!(bring_up.action(), BringUpAction::Return { err: NetError::Net(257) });
    }
}

#[test]
fn the_radio_is_put_to_rest_in_order() {
    assert_eq!(
        quiesce(),
        [
            RadioCommand::EnableThread { enabled: false },
            RadioCommand::SrpStop,
            RadioCommand::EnableIpv6 { enabled: false },
        ]
    );
}
