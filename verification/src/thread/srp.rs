//! The registration of the Matter services with the SRP server of the Thread network.

use vstd::prelude::*;

use crate::error::ErrorCode;
use crate::storage::{str_from_utf8, string_chars, string_try_from};

verus! {

/// The number of fabrics that a device can be part of.
pub const MAX_FABRICS: usize = 5;

/// The number of services that can be registered: one for each fabric, and one for a device that
/// is open for commissioning.
pub const MAX_MATTER_SERVICES: usize = MAX_FABRICS + 1;

/// A Matter service of the device.
#[derive(Debug, Clone, Copy, PartialEq, Eq, Structural)]
pub enum MatterLocalService {
    /// The device as a part of a fabric.
    Commissioned { compressed_fabric_id: u64, node_id: u64 },
    /// The device as one that is open for commissioning.
    Commissionable { id: u64, discriminator: u16, enhanced: bool },
}

/// The digit of a number below sixteen.
pub open spec fn hex_digit(value: int) -> char {
    "0123456789ABCDEF"@[value]
}

/// Two digits for each byte.
pub open spec fn hex(bytes: Seq<u8>) -> Seq<char> {
    Seq::new(
        2 * bytes.len(),
        |i: int|
            hex_digit(
                if i % 2 == 0 {
                    bytes[i / 2] as int / 16
                } else {
                    bytes[i / 2] as int % 16
                },
            ),
    )
}

/// Spells a digit in ASCII.
fn hex_digit_ascii(value: u8) -> (digit: u8)
    requires
        value < 16,
    ensures
        digit == hex_digit(value as int) as u8,
        '\0' <= hex_digit(value as int) <= '\u{7f}',
{
    proof {
        reveal_strlit("0123456789ABCDEF");
    }
    if value < 10 {
        48 + value
    } else {
        55 + value
    }
}

/// The host name that goes with an EUI-64.
pub fn host_name(eui64: &[u8; 8]) -> (name: heapless::String<16>)
    ensures
        string_chars(name) == hex(eui64@),
{
    let ghost chars = hex(eui64@);
    let mut ascii: Vec<u8> = Vec::new();
    let mut i: usize = 0;
    while i < 8
        invariant
            i <= 8,
            eui64@.len() == 8,
            chars == hex(eui64@),
            ascii@.len() == 2 * i,
            forall|k: int|
                0 <= k < 2 * i ==> ascii@[k] == #[trigger] chars[k] as u8 && '\0' <= chars[k]
                    <= '\u{7f}',
        decreases 8 - i,
    {
        let byte: u8 = eui64[i];
        let high: u8 = hex_digit_ascii(byte / 16);
        let low: u8 = hex_digit_ascii(byte % 16);
        assert(chars[2 * i as int] == hex_digit(byte as int / 16)) by {
            assert((2 * i as int) / 2 == i);
        }
        assert(chars[2 * i as int + 1] == hex_digit(byte as int % 16)) by {
            assert((2 * i as int + 1) / 2 == i);
        }
        ascii.push(high);
        ascii.push(low);
        i = i + 1;
    }
    proof {
        assert(vstd::utf8::is_ascii_chars(chars));
        vstd::utf8::is_ascii_chars_encode_utf8(chars);
        assert(ascii@ =~= vstd::utf8::encode_utf8(chars));
        vstd::utf8::encode_utf8_valid_utf8(chars);
        vstd::utf8::encode_utf8_decode_utf8(chars);
    }
    let name = str_from_utf8(ascii.as_slice()).unwrap();
    proof {
        vstd::utf8::encode_utf8_decode_utf8(name@);
    }
    string_try_from(name).unwrap()
}

/// One call of an update of the registered services.
#[derive(Debug, Clone, Copy, PartialEq, Eq, Structural)]
pub enum SrpStep {
    /// Remove the service in this slot, only locally if that is `immediate`.
    Remove { slot: usize, immediate: bool },
    /// Register this service.
    Register { service: MatterLocalService },
}

/// What is known of the SRP client.
#[verifier::ext_equal]
pub struct SrpModel {
    /// What the host name goes by, unless it is the factory-programmed address.
    pub host_eui64: Option<[u8; 8]>,
    /// The registered services, each with the slot that it is in.
    pub services: Seq<(MatterLocalService, usize)>,
}

impl SrpModel {
    /// A client that has registered nothing.
    pub open spec fn fresh(host_eui64: Option<[u8; 8]>) -> SrpModel {
        SrpModel { host_eui64, services: Seq::empty() }
    }

    /// The same client with these services.
    pub open spec fn with_services(self, services: Seq<(MatterLocalService, usize)>) -> SrpModel {
        SrpModel { host_eui64: self.host_eui64, services }
    }

    /// Whether there is nothing to update: as many services are wanted as are registered, and
    /// each of those that are wanted is registered.
    pub open spec fn up_to_date(self, wanted: Seq<MatterLocalService>) -> bool {
        &&& wanted.len() == self.services.len()
        &&& forall|i: int| 0 <= i < wanted.len() ==> self.registers(#[trigger] wanted[i])
    }

    /// Whether a service is registered.
    pub open spec fn registers(self, service: MatterLocalService) -> bool {
        exists|j: int| 0 <= j < self.services.len() && (#[trigger] self.services[j]).0 == service
    }

    /// The calls that an update takes. Every service that should stay published is registered
    /// anew, together with the removals, so that all of it goes out in one SRP update which
    /// describes the host completely. A service that stays is removed locally only.
    pub open spec fn update_plan(self, wanted: Seq<MatterLocalService>) -> Seq<SrpStep> {
        if self.up_to_date(wanted) {
            Seq::empty()
        } else {
            removals(self.services, wanted) + registrations(wanted)
        }
    }

    /// The client once an update is planned.
    pub open spec fn update_planned(self, wanted: Seq<MatterLocalService>) -> SrpModel {
        if self.up_to_date(wanted) {
            self
        } else {
            self.with_services(Seq::empty())
        }
    }
}

/// The removal of each registered service.
pub open spec fn removals(
    services: Seq<(MatterLocalService, usize)>,
    wanted: Seq<MatterLocalService>,
) -> Seq<SrpStep> {
    services.map_values(
        |entry: (MatterLocalService, usize)|
            SrpStep::Remove { slot: entry.1, immediate: wanted.contains(entry.0) },
    )
}

/// The registration of each wanted service.
pub open spec fn registrations(wanted: Seq<MatterLocalService>) -> Seq<SrpStep> {
    wanted.map_values(|service: MatterLocalService| SrpStep::Register { service })
}

/// Whether a service is among others.
fn contains_service(services: &[MatterLocalService], service: MatterLocalService) -> (found: bool)
    ensures
        found <==> services@.contains(service),
{
    let mut i: usize = 0;
    while i < services.len()
        invariant
            i <= services@.len(),
            forall|k: int| 0 <= k < i ==> services@[k] != service,
        decreases services@.len() - i,
    {
        if services[i] == service {
            return true;
        }
        i = i + 1;
    }
    false
}

/// Takes note of a service to publish. There is room for as many as can be registered.
pub fn collect_service(
    services: &mut Vec<MatterLocalService>,
    service: MatterLocalService,
) -> (result: Result<(), ErrorCode>)
    ensures
        old(services)@.len() < MAX_MATTER_SERVICES ==> result is Ok && final(services)@ == old(
            services,
        )@.push(service),
        old(services)@.len() >= MAX_MATTER_SERVICES ==> result == Err::<(), ErrorCode>(
            ErrorCode::ConstraintError,
        ) && final(services)@ == old(services)@,
{
    if services.len() < MAX_MATTER_SERVICES {
        services.push(service);
        Ok(())
    } else {
        Err(ErrorCode::ConstraintError)
    }
}

/// The client that registers the Matter services of the device with the SRP server.
pub struct EspMatterThreadSrp {
    host_eui64: Option<[u8; 8]>,
    services: Vec<(MatterLocalService, usize)>,
}

impl View for EspMatterThreadSrp {
    type V = SrpModel;

    closed spec fn view(&self) -> SrpModel {
        SrpModel { host_eui64: self.host_eui64, services: self.services@ }
    }
}

impl EspMatterThreadSrp {
    /// There are never more services than can be registered.
    pub open spec fn wf(&self) -> bool {
        self@.services.len() <= MAX_MATTER_SERVICES
    }

    /// A client whose host name goes by the factory-programmed IEEE 802.15.4 address.
    pub fn new() -> (srp: Self)
        ensures
            srp.wf(),
            srp@ == SrpModel::fresh(None),
    {
        Self::new_with_host_eui64(None)
    }

    /// A client whose host name goes by this EUI-64, or by the factory-programmed IEEE 802.15.4
    /// address.
    pub fn new_with_host_eui64(host_eui64: Option<[u8; 8]>) -> (srp: Self)
        ensures
            srp.wf(),
            srp@ == SrpModel::fresh(host_eui64),
    {
        EspMatterThreadSrp { host_eui64, services: Vec::new() }
    }

    /// Initializes in place a client whose host name goes by the factory-programmed IEEE 802.15.4
    /// address.
    pub fn init(slot: &mut Self)
        ensures
            final(slot).wf(),
            final(slot)@ == SrpModel::fresh(None),
    {
        Self::init_with_host_eui64(slot, None)
    }

    /// Initializes in place a client whose host name goes by this EUI-64, or by the
    /// factory-programmed IEEE 802.15.4 address.
    pub fn init_with_host_eui64(slot: &mut Self, host_eui64: Option<[u8; 8]>)
        ensures
            final(slot).wf(),
            final(slot)@ == SrpModel::fresh(host_eui64),
    {
        *slot = EspMatterThreadSrp::new_with_host_eui64(host_eui64);
    }

    /// The registered services, each with the slot that it is in.
    pub fn services(&self) -> (services: &[(MatterLocalService, usize)])
        ensures
            services@ == self@.services,
    {
        self.services.as_slice()
    }

    /// Whether a service is registered.
    fn registers(&self, service: MatterLocalService) -> (found: bool)
        ensures
            found <==> self@.registers(service),
    {
        let mut j: usize = 0;
        while j < self.services.len()
            invariant
                j <= self.services@.len(),
                forall|k: int| 0 <= k < j ==> (#[trigger] self@.services[k]).0 != service,
            decreases self.services@.len() - j,
        {
            let (registered, _) = self.services[j];
            if registered == service {
                assert(self@.services[j as int].0 == service);
                return true;
            }
            j = j + 1;
        }
        false
    }

    /// Whether the wanted services are the registered ones.
    fn up_to_date(&self, wanted: &[MatterLocalService]) -> (same: bool)
        ensures
            same <==> self@.up_to_date(wanted@),
    {
        if wanted.len() != self.services.len() {
            return false;
        }
        let mut i: usize = 0;
        while i < wanted.len()
            invariant
                i <= wanted@.len(),
                wanted@.len() == self@.services.len(),
                forall|k: int| 0 <= k < i ==> self@.registers(#[trigger] wanted@[k]),
            decreases wanted@.len() - i,
        {
            if !self.registers(wanted[i]) {
                return false;
            }
            i = i + 1;
        }
        true
    }

    /// Plans the calls that make the wanted services the registered ones. If any are needed, then
    /// no service counts as registered until its call was made.
    pub fn update_services(&mut self, wanted: &[MatterLocalService]) -> (steps: Vec<SrpStep>)
        requires
            old(self).wf(),
        ensures
            final(self).wf(),
            final(self)@ == old(self)@.update_planned(wanted@),
            steps@ == old(self)@.update_plan(wanted@),
    {
        let mut steps: Vec<SrpStep> = Vec::new();
        if self.up_to_date(wanted) {
            return steps;
        }
        let ghost services = self.services@;
        let mut j: usize = 0;
        while j < self.services.len()
            invariant
                j <= self.services@.len(),
                services == self.services@,
                steps@ == removals(services, wanted@).take(j as int),
            decreases self.services@.len() - j,
        {
            let (service, slot) = self.services[j];
            steps.push(SrpStep::Remove { slot, immediate: contains_service(wanted, service) });
            j = j + 1;
            assert(steps@ =~= removals(services, wanted@).take(j as int));
        }
        self.services.clear();
        assert(steps@ =~= removals(services, wanted@));
        let mut i: usize = 0;
        assert(steps@ =~= removals(services, wanted@) + registrations(wanted@).take(0));
        while i < wanted.len()
            invariant
                i <= wanted@.len(),
                steps@ == removals(services, wanted@) + registrations(wanted@).take(i as int),
            decreases wanted@.len() - i,
        {
            steps.push(SrpStep::Register { service: wanted[i] });
            i = i + 1;
            assert(steps@ =~= removals(services, wanted@) + registrations(wanted@).take(i as int));
        }
        assert(steps@ =~= removals(services, wanted@) + registrations(wanted@));
        steps
    }

    /// Takes note of a service that was registered. There has to be room for it.
    pub fn registered(&mut self, service: MatterLocalService, slot: usize) -> (result: Result<
        (),
        ErrorCode,
    >)
        requires
            old(self).wf(),
        ensures
            final(self).wf(),
            old(self)@.services.len() < MAX_MATTER_SERVICES ==> result is Ok && final(self)@ == old(
                self,
            )@.with_services(old(self)@.services.push((service, slot))),
            old(self)@.services.len() >= MAX_MATTER_SERVICES ==> result == Err::<(), ErrorCode>(
                ErrorCode::ConstraintError,
            ) && final(self)@ == old(self)@,
    {
        if self.services.len() < MAX_MATTER_SERVICES {
            self.services.push((service, slot));
            Ok(())
        } else {
            Err(ErrorCode::ConstraintError)
        }
    }

    /// Starts to register the services. This is done anew every time the network changes.
    pub fn run(&self) -> (run: SrpRun)
        ensures
            run.wf(),
            run@ == SrpRunModel::first(self@.host_eui64),
    {
        let phase = match self.host_eui64 {
            Some(eui64) => SrpPhase::Clear { eui64 },
            None => SrpPhase::ReadAddress,
        };
        SrpRun { phase, steps: Vec::new(), at: 0 }
    }
}

impl Default for EspMatterThreadSrp {
    fn default() -> (srp: Self)
        ensures
            srp.wf(),
            srp@ == SrpModel::fresh(None),
    {
        EspMatterThreadSrp::new()
    }
}

/// How far the registration has come.
#[derive(Debug, Clone, Copy, PartialEq, Eq)]
enum SrpPhase {
    ReadAddress,
    Clear { eui64: [u8; 8] },
    Configure { eui64: [u8; 8] },
    Collect,
    Update,
    Wait,
    Over,
}

/// How far the registration has come.
#[verifier::ext_equal]
pub enum SrpRunModel {
    /// The factory-programmed address is to be read.
    ReadAddress,
    /// What was registered before is to be dropped.
    Clear { eui64: [u8; 8] },
    /// The host name is to be set.
    Configure { eui64: [u8; 8] },
    /// The services to publish are to be listed.
    Collect,
    /// These calls are to be made.
    Update { pending: Seq<SrpStep> },
    /// The services to publish are to change.
    Wait,
    /// The registration has failed.
    Over,
}

impl SrpRunModel {
    /// Where the registration starts.
    pub open spec fn first(host_eui64: Option<[u8; 8]>) -> SrpRunModel {
        match host_eui64 {
            Some(eui64) => SrpRunModel::Clear { eui64 },
            None => SrpRunModel::ReadAddress,
        }
    }

    /// Where the registration goes on with these calls to be made.
    pub open spec fn pending(steps: Seq<SrpStep>) -> SrpRunModel {
        if steps.len() == 0 {
            SrpRunModel::Wait
        } else {
            SrpRunModel::Update { pending: steps }
        }
    }
}

/// What to do next.
pub enum SrpAction {
    /// Read the factory-programmed IEEE 802.15.4 address.
    ReadAddress,
    /// Drop the host and all services, only locally if that is `immediate`.
    RemoveAll { immediate: bool },
    /// Set the host name and the IPv6 addresses of the host. Without any addresses the SRP client
    /// takes those of the interface.
    SetConf { host_name: heapless::String<16>, host_addrs: Vec<[u8; 16]> },
    /// List the services to publish.
    CollectServices,
    /// Remove the service in this slot, only locally if that is `immediate`.
    RemoveService { slot: usize, immediate: bool },
    /// Register this service.
    AddService { service: MatterLocalService },
    /// Wait until the services to publish have changed.
    WaitChange,
    /// Return the failure.
    Return,
}

/// Whether this is the action that is due.
pub open spec fn action_due(run: SrpRunModel, action: SrpAction) -> bool {
    match run {
        SrpRunModel::ReadAddress => action is ReadAddress,
        SrpRunModel::Clear { .. } => action == (SrpAction::RemoveAll { immediate: true }),
        SrpRunModel::Configure { eui64 } => {
            action matches SrpAction::SetConf { host_name, host_addrs } && string_chars(host_name)
                == hex(eui64@) && host_addrs@ == Seq::<[u8; 16]>::empty()
        },
        SrpRunModel::Collect => action is CollectServices,
        SrpRunModel::Update { pending } => action == (match pending.first() {
            SrpStep::Remove { slot, immediate } => SrpAction::RemoveService { slot, immediate },
            SrpStep::Register { service } => SrpAction::AddService { service },
        }),
        SrpRunModel::Wait => action is WaitChange,
        SrpRunModel::Over => action is Return,
    }
}

/// Why a registration has failed. `E` is the error of the Matter stack.
#[derive(Debug, PartialEq, Eq)]
pub enum SrpFailure<E> {
    /// An ESP-IDF call failed with this `esp_err_t` code.
    Net(i32),
    /// The operation was refused on the library's own account.
    Code(ErrorCode),
    /// The Matter stack failed.
    Matter(E),
}

/// What came of an action.
#[derive(Debug, PartialEq, Eq)]
pub enum SrpEvent<'a, E> {
    /// The address that was read.
    Address(Result<[u8; 8], i32>),
    /// The driver returned this, or failed with this `esp_err_t` code.
    Returned(Result<(), i32>),
    /// The services to publish.
    Services(Result<&'a [MatterLocalService], E>),
    /// The slot of the service that was registered.
    Registered(Result<usize, SrpFailure<E>>),
    /// The services to publish have changed.
    Changed,
}

/// Whether an event of this kind is what comes of the action that is due.
pub open spec fn srp_event_fits<E>(run: SrpRunModel, event: SrpEvent<'_, E>) -> bool {
    match run {
        SrpRunModel::ReadAddress => event is Address,
        SrpRunModel::Clear { .. } | SrpRunModel::Configure { .. } => event is Returned,
        SrpRunModel::Collect => event is Services,
        SrpRunModel::Update { pending } => match pending.first() {
            SrpStep::Remove { .. } => event is Returned,
            SrpStep::Register { .. } => event is Registered,
        },
        SrpRunModel::Wait => event is Changed,
        SrpRunModel::Over => false,
    }
}

/// The client, how far the registration has come, and whether it has failed, after an event.
pub open spec fn srp_next<E>(srp: SrpModel, run: SrpRunModel, event: SrpEvent<'_, E>) -> (
    SrpModel,
    SrpRunModel,
    Result<(), SrpFailure<E>>,
) {
    match (run, event) {
        (SrpRunModel::ReadAddress, SrpEvent::Address(Ok(eui64))) => (
            srp,
            SrpRunModel::Clear { eui64 },
            Ok(()),
        ),
        (SrpRunModel::Clear { eui64 }, SrpEvent::Returned(Ok(()))) => (
            srp.with_services(Seq::empty()),
            SrpRunModel::Configure { eui64 },
            Ok(()),
        ),
        (SrpRunModel::Configure { .. }, SrpEvent::Returned(Ok(()))) => (
            srp,
            SrpRunModel::Collect,
            Ok(()),
        ),
        (SrpRunModel::Collect, SrpEvent::Services(Ok(wanted))) => (
            srp.update_planned(wanted@),
            SrpRunModel::pending(srp.update_plan(wanted@)),
            Ok(()),
        ),
        (SrpRunModel::Update { pending }, SrpEvent::Returned(Ok(()))) => (
            srp,
            SrpRunModel::pending(pending.drop_first()),
            Ok(()),
        ),
        (SrpRunModel::Update { pending }, SrpEvent::Registered(Ok(slot))) => {
            if srp.services.len() < MAX_MATTER_SERVICES {
                (
                    srp.with_services(srp.services.push((pending.first()->service, slot))),
                    SrpRunModel::pending(pending.drop_first()),
                    Ok(()),
                )
            } else {
                (srp, SrpRunModel::Over, Err(SrpFailure::Code(ErrorCode::ConstraintError)))
            }
        },
        (SrpRunModel::Wait, _) => (srp, SrpRunModel::Collect, Ok(())),
        (_, SrpEvent::Address(Err(code))) => (
            srp,
            SrpRunModel::Over,
            Err(SrpFailure::Net(code)),
        ),
        (_, SrpEvent::Returned(Err(code))) => (
            srp,
            SrpRunModel::Over,
            Err(SrpFailure::Net(code)),
        ),
        (_, SrpEvent::Services(Err(err))) => (
            srp,
            SrpRunModel::Over,
            Err(SrpFailure::Matter(err)),
        ),
        (_, SrpEvent::Registered(Err(failure))) => (srp, SrpRunModel::Over, Err(failure)),
        _ => (srp, run, Ok(())),
    }
}

/// A registration under way.
pub struct SrpRun {
    phase: SrpPhase,
    steps: Vec<SrpStep>,
    at: usize,
}

impl View for SrpRun {
    type V = SrpRunModel;

    closed spec fn view(&self) -> SrpRunModel {
        match self.phase {
            SrpPhase::ReadAddress => SrpRunModel::ReadAddress,
            SrpPhase::Clear { eui64 } => SrpRunModel::Clear { eui64 },
            SrpPhase::Configure { eui64 } => SrpRunModel::Configure { eui64 },
            SrpPhase::Collect => SrpRunModel::Collect,
            SrpPhase::Update => SrpRunModel::Update { pending: self.steps@.skip(self.at as int) },
            SrpPhase::Wait => SrpRunModel::Wait,
            SrpPhase::Over => SrpRunModel::Over,
        }
    }
}

impl SrpRun {
    /// During an update there is a call to be made.
    pub closed spec fn wf(&self) -> bool {
        self.phase is Update ==> self.at < self.steps@.len()
    }

    /// What to do next.
    pub fn action(&self) -> (action: SrpAction)
        requires
            self.wf(),
        ensures
            action_due(self@, action),
    {
        match self.phase {
            SrpPhase::ReadAddress => SrpAction::ReadAddress,
            SrpPhase::Clear { .. } => SrpAction::RemoveAll { immediate: true },
            SrpPhase::Configure { eui64 } => SrpAction::SetConf {
                host_name: host_name(&eui64),
                host_addrs: Vec::new(),
            },
            SrpPhase::Collect => SrpAction::CollectServices,
            SrpPhase::Update => match self.steps[self.at] {
                SrpStep::Remove { slot, immediate } => SrpAction::RemoveService { slot, immediate },
                SrpStep::Register { service } => SrpAction::AddService { service },
            },
            SrpPhase::Wait => SrpAction::WaitChange,
            SrpPhase::Over => SrpAction::Return,
        }
    }

    /// Goes on with the next call of an update.
    fn advance(&mut self)
        requires
            old(self).wf(),
            old(self)@ is Update,
        ensures
            final(self).wf(),
            final(self)@ == SrpRunModel::pending(old(self)@->pending.drop_first()),
    {
        let len: usize = self.steps.len();
        self.at = self.at + 1;
        if self.at == len {
            self.phase = SrpPhase::Wait;
        }
        assert(self.steps@.skip(self.at as int) =~= old(self)@->pending.drop_first());
    }

    /// Goes on after an action was performed. Every failure ends the registration.
    pub fn next<E>(&mut self, srp: &mut EspMatterThreadSrp, event: SrpEvent<'_, E>) -> (result:
        Result<(), SrpFailure<E>>)
        requires
            old(self).wf(),
            old(srp).wf(),
            srp_event_fits(old(self)@, event),
        ensures
            final(self).wf(),
            final(srp).wf(),
            (final(srp)@, final(self)@, result) == srp_next(old(srp)@, old(self)@, event),
    {
        let result = match (self.phase, event) {
            (SrpPhase::ReadAddress, SrpEvent::Address(Ok(eui64))) => {
                self.phase = SrpPhase::Clear { eui64 };
                Ok(())
            },
            (SrpPhase::Clear { eui64 }, SrpEvent::Returned(Ok(()))) => {
                srp.services.clear();
                self.phase = SrpPhase::Configure { eui64 };
                Ok(())
            },
            (SrpPhase::Configure { .. }, SrpEvent::Returned(Ok(()))) => {
                self.phase = SrpPhase::Collect;
                Ok(())
            },
            (SrpPhase::Collect, SrpEvent::Services(Ok(wanted))) => {
                self.steps = srp.update_services(wanted);
                self.at = 0;
                self.phase = if self.steps.len() == 0 {
                    SrpPhase::Wait
                } else {
                    SrpPhase::Update
                };
                assert(self.steps@.skip(0) =~= self.steps@);
                Ok(())
            },
            (SrpPhase::Update, SrpEvent::Returned(Ok(()))) => {
                self.advance();
                Ok(())
            },
            (SrpPhase::Update, SrpEvent::Registered(Ok(slot))) => {
                if let SrpStep::Register { service } = self.steps[self.at] {
                    match srp.registered(service, slot) {
                        Ok(()) => {
                            self.advance();
                            Ok(())
                        },
                        Err(code) => Err(SrpFailure::Code(code)),
                    }
                } else {
                    Ok(())
                }
            },
            (SrpPhase::Wait, _) => {
                self.phase = SrpPhase::Collect;
                Ok(())
            },
            (_, SrpEvent::Address(Err(code))) => Err(SrpFailure::Net(code)),
            (_, SrpEvent::Returned(Err(code))) => Err(SrpFailure::Net(code)),
            (_, SrpEvent::Services(Err(err))) => Err(SrpFailure::Matter(err)),
            (_, SrpEvent::Registered(Err(failure))) => Err(failure),
            _ => Ok(()),
        };
        if result.is_err() {
            self.phase = SrpPhase::Over;
        }
        result
    }
}

} // verus!
