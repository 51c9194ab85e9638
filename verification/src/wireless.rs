//! The life of the Thread radio of a Matter device.

use vstd::prelude::*;

use crate::error::NetError;

verus! {

/// A Thread radio for the Matter stack.
pub struct EspMatterThread {
    srp_host_eui64: Option<[u8; 8]>,
}

impl View for EspMatterThread {
    type V = Option<[u8; 8]>;

    closed spec fn view(&self) -> Option<[u8; 8]> {
        self.srp_host_eui64
    }
}

impl EspMatterThread {
    /// A radio whose SRP host name goes by the factory-programmed IEEE 802.15.4 address.
    pub fn new() -> (thread: Self)
        ensures
            thread@ is None,
    {
        Self::wrap()
    }

    /// A radio whose SRP host name goes by the factory-programmed IEEE 802.15.4 address.
    pub fn wrap() -> (thread: Self)
        ensures
            thread@ is None,
    {
        EspMatterThread { srp_host_eui64: None }
    }

    /// The same radio with an SRP host name that goes by `eui64`.
    ///
    /// A device should keep its factory-programmed address, as the SRP host name is meant to be
    /// stable. One that forgets the key which its records on the SRP server are signed with is
    /// better off with a new host name: under the old one the server refuses it until the records
    /// expire.
    pub fn with_srp_host_eui64(self, eui64: [u8; 8]) -> (thread: Self)
        ensures
            thread@ == Some(eui64),
    {
        EspMatterThread { srp_host_eui64: Some(eui64) }
    }

    /// Starts to bring up the radio.
    pub fn run(&self) -> (bring_up: BringUp)
        ensures
            bring_up@ == BringUpPhase::Creating,
            bring_up.srp_host_eui64() == self@,
    {
        BringUp { phase: BringUpPhase::Creating, srp_host_eui64: self.srp_host_eui64 }
    }
}

impl Default for EspMatterThread {
    fn default() -> (thread: Self)
        ensures
            thread@ is None,
    {
        EspMatterThread::new()
    }
}

/// A call on the Thread driver.
#[derive(Debug, Clone, Copy, PartialEq, Eq, Structural)]
pub enum RadioCommand {
    /// Set an empty Operational Dataset.
    DropDataset,
    /// Enable or disable IPv6.
    EnableIpv6 { enabled: bool },
    /// Enable or disable Thread.
    EnableThread { enabled: bool },
    /// Have the SRP client start by itself.
    SrpAutostart,
    /// Stop the SRP client.
    SrpStop,
    /// Start the driver.
    Start,
}

/// How far the radio is brought up.
#[derive(Debug, Clone, Copy, PartialEq, Eq, Structural)]
pub enum BringUpPhase {
    /// The driver is to be created.
    Creating,
    /// The dataset of a previous run is to be dropped. It would let the traffic of a network
    /// through that the Matter stack may no longer know of.
    DroppingDataset,
    /// IPv6 is to be enabled.
    EnablingIpv6,
    /// The SRP client is to start by itself.
    StartingSrp,
    /// The driver is to be started.
    Starting,
    /// The task is to be run.
    Running,
    /// The radio could not be brought up.
    Failed(NetError),
}

/// What to do next to bring up the radio.
#[derive(Debug, Clone, Copy, PartialEq, Eq)]
pub enum BringUpAction {
    /// Create the driver, and report how that went.
    Create,
    /// Make this call on the driver, and report how that went.
    Command(RadioCommand),
    /// Run the task, with the SRP host name going by this EUI-64 if there is one. However the task
    /// ends, put the radio to rest after it.
    RunTask { srp_host_eui64: Option<[u8; 8]> },
    /// Return the error.
    Return { err: NetError },
}

/// The phase that follows on what came of an action.
pub open spec fn bring_up_next(phase: BringUpPhase, returned: Result<(), i32>) -> BringUpPhase {
    match returned {
        Ok(()) => match phase {
            BringUpPhase::Creating => BringUpPhase::DroppingDataset,
            BringUpPhase::DroppingDataset => BringUpPhase::EnablingIpv6,
            BringUpPhase::EnablingIpv6 => BringUpPhase::StartingSrp,
            BringUpPhase::StartingSrp => BringUpPhase::Starting,
            _ => BringUpPhase::Running,
        },
        Err(code) => BringUpPhase::Failed(NetError::Net(code)),
    }
}

/// The action of a phase.
pub open spec fn bring_up_action(
    phase: BringUpPhase,
    srp_host_eui64: Option<[u8; 8]>,
) -> BringUpAction {
    match phase {
        BringUpPhase::Creating => BringUpAction::Create,
        BringUpPhase::DroppingDataset => BringUpAction::Command(RadioCommand::DropDataset),
        BringUpPhase::EnablingIpv6 => BringUpAction::Command(
            RadioCommand::EnableIpv6 { enabled: true },
        ),
        BringUpPhase::StartingSrp => BringUpAction::Command(RadioCommand::SrpAutostart),
        BringUpPhase::Starting => BringUpAction::Command(RadioCommand::Start),
        BringUpPhase::Running => BringUpAction::RunTask { srp_host_eui64 },
        BringUpPhase::Failed(err) => BringUpAction::Return { err },
    }
}

/// A radio that is being brought up.
pub struct BringUp {
    phase: BringUpPhase,
    srp_host_eui64: Option<[u8; 8]>,
}

impl View for BringUp {
    type V = BringUpPhase;

    closed spec fn view(&self) -> BringUpPhase {
        self.phase
    }
}

impl BringUp {
    /// What the SRP host name goes by.
    pub closed spec fn srp_host_eui64(&self) -> Option<[u8; 8]> {
        self.srp_host_eui64
    }

    /// What to do next.
    pub fn action(&self) -> (action: BringUpAction)
        ensures
            action == bring_up_action(self@, self.srp_host_eui64()),
    {
        match self.phase {
            BringUpPhase::Creating => BringUpAction::Create,
            BringUpPhase::DroppingDataset => BringUpAction::Command(RadioCommand::DropDataset),
            BringUpPhase::EnablingIpv6 => BringUpAction::Command(
                RadioCommand::EnableIpv6 { enabled: true },
            ),
            BringUpPhase::StartingSrp => BringUpAction::Command(RadioCommand::SrpAutostart),
            BringUpPhase::Starting => BringUpAction::Command(RadioCommand::Start),
            BringUpPhase::Running => BringUpAction::RunTask { srp_host_eui64: self.srp_host_eui64 },
            BringUpPhase::Failed(err) => BringUpAction::Return { err },
        }
    }

    /// Goes on after the driver was created or called. The first failure is the last call.
    pub fn next(&mut self, returned: Result<(), i32>)
        requires
            !(old(self)@ is Running || old(self)@ is Failed),
        ensures
            final(self)@ == bring_up_next(old(self)@, returned),
            final(self).srp_host_eui64() == old(self).srp_host_eui64(),
    {
        self.phase = match returned {
            Ok(()) => match self.phase {
                BringUpPhase::Creating => BringUpPhase::DroppingDataset,
                BringUpPhase::DroppingDataset => BringUpPhase::EnablingIpv6,
                BringUpPhase::EnablingIpv6 => BringUpPhase::StartingSrp,
                BringUpPhase::StartingSrp => BringUpPhase::Starting,
                _ => BringUpPhase::Running,
            },
            Err(code) => BringUpPhase::Failed(NetError::Net(code)),
        };
    }
}

/// The calls that put the radio to rest once the task is over, in order. What comes of them does
/// not matter.
pub open spec fn quiesce_commands() -> Seq<RadioCommand> {
    seq![
        RadioCommand::EnableThread { enabled: false },
        RadioCommand::SrpStop,
        RadioCommand::EnableIpv6 { enabled: false },
    ]
}

/// The calls that put the radio to rest once the task is over, in order.
pub fn quiesce() -> (commands: [RadioCommand; 3])
    ensures
        commands@ == quiesce_commands(),
{
    let commands = [
        RadioCommand::EnableThread { enabled: false },
        RadioCommand::SrpStop,
        RadioCommand::EnableIpv6 { enabled: false },
    ];
    assert(commands@ =~= quiesce_commands());
    commands
}

/// What the calls on the driver have an effect on.
pub struct RadioModel {
    pub thread: bool,
    pub ipv6: bool,
    pub srp: bool,
    pub started: bool,
    pub dataset: bool,
}

impl RadioModel {
    /// The radio of a driver that was just created. It has the dataset of a previous run, if
    /// there was one.
    pub open spec fn created(dataset: bool) -> RadioModel {
        RadioModel { thread: false, ipv6: false, srp: false, started: false, dataset }
    }

    /// The radio after a call that succeeds.
    pub open spec fn after(self, command: RadioCommand) -> RadioModel {
        match command {
            RadioCommand::DropDataset => RadioModel { dataset: false, ..self },
            RadioCommand::EnableIpv6 { enabled } => RadioModel { ipv6: enabled, ..self },
            RadioCommand::EnableThread { enabled } => RadioModel { thread: enabled, ..self },
            RadioCommand::SrpAutostart => RadioModel { srp: true, ..self },
            RadioCommand::SrpStop => RadioModel { srp: false, ..self },
            RadioCommand::Start => RadioModel { started: true, ..self },
        }
    }

    /// The radio after these calls, if they all succeed.
    pub open spec fn after_all(self, commands: Seq<RadioCommand>) -> RadioModel
        decreases commands.len(),
    {
        if commands.len() == 0 {
            self
        } else {
            self.after_all(commands.drop_last()).after(commands.last())
        }
    }
}

/// How far the radio is brought up after the driver has returned this.
pub open spec fn bring_up_run(returned: Seq<Result<(), i32>>) -> BringUpPhase
    decreases returned.len(),
{
    if returned.len() == 0 {
        BringUpPhase::Creating
    } else {
        bring_up_next(bring_up_run(returned.drop_last()), returned.last())
    }
}

/// Each answer of the driver is one to an action of bringing up the radio.
pub open spec fn bring_up_fits(returned: Seq<Result<(), i32>>) -> bool
    decreases returned.len(),
{
    returned.len() > 0 ==> {
        &&& bring_up_fits(returned.drop_last())
        &&& !(bring_up_run(returned.drop_last()) is Running)
        &&& !(bring_up_run(returned.drop_last()) is Failed)
    }
}

/// The calls that have succeeded so far, in order.
pub open spec fn bring_up_calls(returned: Seq<Result<(), i32>>) -> Seq<RadioCommand>
    decreases returned.len(),
{
    if returned.len() == 0 {
        Seq::empty()
    } else {
        let before = bring_up_calls(returned.drop_last());
        match bring_up_action(bring_up_run(returned.drop_last()), None) {
            BringUpAction::Command(command) if returned.last() is Ok => before.push(command),
            _ => before,
        }
    }
}

/// The task is run exactly if the driver was created and all four calls have succeeded. By then
/// the stale dataset is dropped, IPv6 and the SRP client are enabled, and the driver is started,
/// while Thread itself stays disabled.
pub proof fn law_task_runs_on_radio_that_is_up(returned: Seq<Result<(), i32>>, dataset: bool)
    requires
        bring_up_fits(returned),
    ensures
        bring_up_run(returned) is Running <==> returned == seq![
            Ok::<(), i32>(()),
            Ok(()),
            Ok(()),
            Ok(()),
            Ok(()),
        ],
        bring_up_run(returned) is Running ==> RadioModel::created(dataset).after_all(
            bring_up_calls(returned),
        ) == (RadioModel { thread: false, ipv6: true, srp: true, started: true, dataset: false }),
{
    lemma_bring_up_progress(returned, dataset);
    let all = seq![Ok::<(), i32>(()), Ok(()), Ok(()), Ok(()), Ok(())];
    if bring_up_run(returned) is Running {
        assert forall|i: int| 0 <= i < 5 implies #[trigger] returned[i] == all[i] by {
            assert(returned[i] is Ok && returned[i]->Ok_0 == ());
            assert(all[i] == Ok::<(), i32>(()));
        }
        assert(returned =~= all);
    }
    if returned == all {
        assert(bring_up_run(returned.take(5)) is Running) by {
            assert(returned.take(5) =~= returned);
        }
    }
}

/// IPv6 is enabled only once the dataset of a previous run is dropped.
pub proof fn law_stale_dataset_is_dropped_first(returned: Seq<Result<(), i32>>, dataset: bool)
    requires
        bring_up_fits(returned),
    ensures
        ({
            let radio = RadioModel::created(dataset).after_all(bring_up_calls(returned));
            radio.ipv6 ==> !radio.dataset
        }),
{
    lemma_bring_up_progress(returned, dataset);
}

/// The number of answers that lead to a phase, if they all are good.
spec fn bring_up_rank(phase: BringUpPhase) -> int {
    match phase {
        BringUpPhase::Creating => 0,
        BringUpPhase::DroppingDataset => 1,
        BringUpPhase::EnablingIpv6 => 2,
        BringUpPhase::StartingSrp => 3,
        BringUpPhase::Starting => 4,
        BringUpPhase::Running => 5,
        BringUpPhase::Failed(_) => -1,
    }
}

proof fn lemma_bring_up_progress(returned: Seq<Result<(), i32>>, dataset: bool)
    requires
        bring_up_fits(returned),
    ensures
        ({
            let phase = bring_up_run(returned);
            let radio = RadioModel::created(dataset).after_all(bring_up_calls(returned));
            &&& !(phase is Failed) ==> {
                &&& bring_up_rank(phase) == returned.len()
                &&& forall|i: int| 0 <= i < returned.len() ==> #[trigger] returned[i] is Ok
                &&& !radio.thread
                &&& radio.dataset <==> dataset && returned.len() < 2
                &&& radio.ipv6 <==> returned.len() >= 3
                &&& radio.srp <==> returned.len() >= 4
                &&& radio.started <==> returned.len() >= 5
            }
            &&& phase is Failed ==> returned.last() is Err
            &&& radio.ipv6 ==> !radio.dataset
        }),
    decreases returned.len(),
{
    if returned.len() > 0 {
        let before = returned.drop_last();
        lemma_bring_up_progress(before, dataset);
        assert forall|i: int| 0 <= i < returned.len() && !(bring_up_run(
            returned,
        ) is Failed) implies #[trigger] returned[i] is Ok by {
            if i < before.len() {
                assert(before[i] is Ok);
            }
        }
        let calls = bring_up_calls(returned);
        if calls.len() > bring_up_calls(before).len() {
            assert(calls.drop_last() =~= bring_up_calls(before));
        }
    }
}

/// Whatever the task has left behind, the calls that follow it leave Thread, the SRP client and
/// IPv6 disabled.
pub proof fn law_quiesce_puts_radio_to_rest(radio: RadioModel)
    ensures
        radio.after_all(quiesce_commands()) == (RadioModel {
            thread: false,
            srp: false,
            ipv6: false,
            ..radio
        }),
{
    reveal_with_fuel(RadioModel::after_all, 4);
}

/// The radio is brought up in one order: the driver is created, the dataset is dropped, IPv6 is
/// enabled, the SRP client is let start, and the driver is started. Then the task is run, with the
/// host name that was asked for. A failure on the way is returned with its code.
pub proof fn law_bring_up_order(srp_host_eui64: Option<[u8; 8]>, good: nat, code: i32)
    requires
        good <= 5,
    ensures
        ({
            let answers = Seq::new(good, |i: int| Ok::<(), i32>(()));
            let action = bring_up_action(bring_up_run(answers), srp_host_eui64);
            &&& good == 0 ==> action is Create
            &&& good == 1 ==> action == BringUpAction::Command(RadioCommand::DropDataset)
            &&& good == 2 ==> action == BringUpAction::Command(
                RadioCommand::EnableIpv6 { enabled: true },
            )
            &&& good == 3 ==> action == BringUpAction::Command(RadioCommand::SrpAutostart)
            &&& good == 4 ==> action == BringUpAction::Command(RadioCommand::Start)
            &&& good == 5 ==> action == (BringUpAction::RunTask { srp_host_eui64 })
            &&& good < 5 ==> bring_up_action(
                bring_up_run(answers.push(Err(code))),
                srp_host_eui64,
            ) == (BringUpAction::Return { err: NetError::Net(code) })
        }),
    decreases good,
{
    let answers = Seq::new(good, |i: int| Ok::<(), i32>(()));
    if good > 0 {
        law_bring_up_order(srp_host_eui64, (good - 1) as nat, code);
        assert(answers.drop_last() =~= Seq::new((good - 1) as nat, |i: int| Ok::<(), i32>(())));
    }
    assert(answers.push(Err(code)).drop_last() =~= answers);
}

/// The radio is put to rest by three calls: Thread is disabled, then the SRP client is stopped,
/// then IPv6 is disabled.
pub proof fn law_quiesce_order()
    ensures
        quiesce_commands().len() == 3,
        quiesce_commands()[0] == (RadioCommand::EnableThread { enabled: false }),
        quiesce_commands()[1] == RadioCommand::SrpStop,
        quiesce_commands()[2] == (RadioCommand::EnableIpv6 { enabled: false }),
{
}

} // verus!
