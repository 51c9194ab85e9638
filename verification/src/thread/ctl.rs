//! The network controller of a Thread device.

use vstd::prelude::*;

use crate::error::{to_net_constr_error, to_net_ctl_error, ErrorCode, NetCtlError, NetError};
use crate::time::{millis_to_ticks, TICKS_PER_MILLI};

verus! {

/// How long a network may take to be joined.
pub const CONNECT_WAIT_MILLIS: u64 = 30000;

/// How long to wait between two looks at whether a network is joined.
pub const POLL_CONNECT_WAIT_MILLIS: u64 = 1000;

/// The role of the device in the Thread network.
#[derive(Debug, Clone, Copy, PartialEq, Eq, Structural)]
pub enum Role {
    Disabled,
    Detached,
    Child,
    Router,
    Leader,
}

/// The kind of a network.
#[derive(Debug, Clone, Copy, PartialEq, Eq, Structural)]
pub enum NetworkType {
    Ethernet,
    Wifi,
    Thread,
}

/// The credentials of a wireless network.
#[derive(Debug, Clone, Copy, PartialEq, Eq)]
pub enum WirelessCreds<'a> {
    Wifi { ssid: &'a [u8], pass: &'a [u8] },
    /// The Operational Dataset, in the Thread TLV format.
    Thread { dataset_tlv: &'a [u8] },
}

/// Whether a device in this role is attached to a Thread network.
pub open spec fn role_connected(role: Role) -> bool {
    role != Role::Detached && role != Role::Disabled
}

/// Whether the device is attached to a Thread network, where a role that cannot be told counts as
/// not attached.
pub open spec fn l2_connected(role: Result<Role, i32>) -> bool {
    match role {
        Ok(role) => role_connected(role),
        Err(_) => false,
    }
}

/// Whether the interface is operational: attached, and with an IPv6 address. This cannot be told
/// where the addresses cannot.
pub open spec fn operational(role: Result<Role, i32>, has_ipv6: Result<bool, i32>) -> Result<
    bool,
    i32,
> {
    match has_ipv6 {
        Ok(has_ipv6) => Ok(l2_connected(role) && has_ipv6),
        Err(code) => Err(code),
    }
}

/// The network controller of a Thread device. It remembers whether the interface was operational
/// when it last looked.
pub struct EspMatterThreadCtl {
    operational: bool,
}

impl View for EspMatterThreadCtl {
    type V = bool;

    closed spec fn view(&self) -> bool {
        self.operational
    }
}

impl EspMatterThreadCtl {
    /// A controller of an interface that nobody has looked at yet.
    pub fn new() -> (ctl: Self)
        ensures
            !ctl@,
    {
        EspMatterThreadCtl { operational: false }
    }

    /// Whether the device is attached to a Thread network, by its role in it.
    pub fn fetch_is_thread_connected(role: Result<Role, i32>) -> (connected: Result<bool, i32>)
        ensures
            connected == (match role {
                Ok(role) => Ok::<bool, i32>(role_connected(role)),
                Err(code) => Err(code),
            }),
    {
        match role {
            Ok(role) => Ok(!matches!(role, Role::Detached | Role::Disabled)),
            Err(code) => Err(code),
        }
    }

    /// Whether the device is attached to a Thread network, for access to its interface.
    pub fn access_connected(role: Result<Role, i32>) -> (connected: bool)
        ensures
            connected == l2_connected(role),
    {
        match Self::fetch_is_thread_connected(role) {
            Ok(connected) => connected,
            Err(_) => false,
        }
    }

    /// Whether the interface is operational, by the role of the device in the Thread network and
    /// by whether the interface has an IPv6 address.
    pub fn fetch_is_operational(
        role: Result<Role, i32>,
        has_ipv6: Result<bool, i32>,
    ) -> (result: Result<bool, i32>)
        ensures
            result == operational(role, has_ipv6),
            result == Ok::<bool, i32>(true) <==> has_ipv6 == Ok::<bool, i32>(true) && (role == Ok::<
                Role,
                i32,
            >(Role::Child) || role == Ok::<Role, i32>(Role::Router) || role == Ok::<Role, i32>(
                Role::Leader,
            )),
    {
        let connected = Self::access_connected(role);
        match has_ipv6 {
            Ok(has_ipv6) => Ok(connected && has_ipv6),
            Err(code) => Err(code),
        }
    }

    /// The kind of network that this controls.
    pub fn net_type(&self) -> (net_type: NetworkType)
        ensures
            net_type == NetworkType::Thread,
    {
        NetworkType::Thread
    }

    /// Whether the interface was operational when the controller last looked.
    pub fn connected(&self) -> (connected: bool)
        ensures
            connected == self@,
    {
        self.operational
    }

    /// Looks at the interface once more. An interface of which nothing can be told counts as not
    /// operational. Returns whether anything has changed, and so whether a wait for a change is
    /// over.
    pub fn wait_changed(&mut self, fetched: Result<bool, i32>) -> (changed: bool)
        ensures
            final(self)@ == observed(fetched),
            changed <==> old(self)@ != final(self)@,
    {
        let new_operational = match fetched {
            Ok(fetched) => fetched,
            Err(_) => false,
        };
        if self.operational != new_operational {
            self.operational = new_operational;
            true
        } else {
            false
        }
    }

    /// Starts to join the network that the credentials are for. It has to be a Thread network.
    pub fn connect<'a>(&self, creds: WirelessCreds<'a>) -> (connect: Result<
        Connect<'a>,
        NetCtlError,
    >)
        ensures
            creds matches WirelessCreds::Thread { dataset_tlv } ==> {
                &&& connect is Ok
                &&& connect->Ok_0.dataset() == dataset_tlv
                &&& connect->Ok_0@ == ConnectPhase::Stopping
            },
            creds is Wifi ==> connect == Err::<Connect<'a>, NetCtlError>(
                NetCtlError::Other(NetError::Code(ErrorCode::InvalidData)),
            ),
    {
        match creds {
            WirelessCreds::Thread { dataset_tlv } => Ok(
                Connect { dataset_tlv, phase: ConnectPhase::Stopping },
            ),
            WirelessCreds::Wifi { .. } => Err(
                NetCtlError::Other(NetError::Code(ErrorCode::InvalidData)),
            ),
        }
    }
}

impl Default for EspMatterThreadCtl {
    fn default() -> (ctl: Self)
        ensures
            !ctl@,
    {
        EspMatterThreadCtl::new()
    }
}

/// What a look at the interface tells.
pub open spec fn observed(fetched: Result<bool, i32>) -> bool {
    match fetched {
        Ok(operational) => operational,
        Err(_) => false,
    }
}

/// How far the attempt to join a network has come.
#[derive(Debug, Clone, Copy, PartialEq, Eq)]
pub enum ConnectPhase {
    /// Thread is to be stopped, so that the dataset is not swapped underneath an attached stack.
    Stopping,
    /// The dataset is to be applied.
    Applying,
    /// Thread is to be started.
    Starting,
    /// The interface is to be looked at.
    Polling,
    /// The next look at the interface has to wait.
    Pausing,
    /// The network was not joined in time, and Thread is to be stopped.
    Abandoning,
    /// The attempt is over.
    Over(Result<(), NetCtlError>),
}

/// What to do next to join a network.
#[derive(Debug, Clone, Copy, PartialEq, Eq)]
pub enum ConnectAction<'a> {
    /// Start or stop Thread, and report how that went.
    EnableThread { enabled: bool },
    /// Apply the Operational Dataset, and report how that went.
    SetDataset { dataset_tlv: &'a [u8] },
    /// Find out whether the interface is operational and how long Thread has been started, and
    /// report both.
    FetchOperational,
    /// Wait, and report that this was done.
    Wait { millis: u64 },
    /// Return the result.
    Return { result: Result<(), NetCtlError> },
}

/// What came of an action.
#[derive(Debug, Clone, Copy, PartialEq, Eq)]
pub enum ConnectEvent {
    /// The driver returned this, or failed with this `esp_err_t` code.
    Returned(Result<(), i32>),
    /// Whether the interface is operational, and the time since Thread was started.
    Fetched { operational: Result<bool, i32>, elapsed_ticks: u64 },
    /// The wait is over.
    Waited,
}

/// Whether an event of this kind is what comes of the action of this phase.
pub open spec fn event_fits(phase: ConnectPhase, event: ConnectEvent) -> bool {
    match phase {
        ConnectPhase::Stopping
        | ConnectPhase::Applying
        | ConnectPhase::Starting
        | ConnectPhase::Abandoning => event is Returned,
        ConnectPhase::Polling => event is Fetched,
        ConnectPhase::Pausing => event is Waited,
        ConnectPhase::Over(_) => false,
    }
}

/// The phase that follows on an event.
pub open spec fn connect_next(phase: ConnectPhase, event: ConnectEvent) -> ConnectPhase {
    match (phase, event) {
        (ConnectPhase::Stopping, _) => ConnectPhase::Applying,
        (ConnectPhase::Applying, ConnectEvent::Returned(Ok(()))) => ConnectPhase::Starting,
        (ConnectPhase::Applying, ConnectEvent::Returned(Err(_))) => ConnectPhase::Over(
            Err(NetCtlError::Other(NetError::Code(ErrorCode::ConstraintError))),
        ),
        (ConnectPhase::Starting, ConnectEvent::Returned(Ok(()))) => ConnectPhase::Polling,
        (ConnectPhase::Starting, ConnectEvent::Returned(Err(code))) => ConnectPhase::Over(
            Err(NetCtlError::Other(NetError::Net(code))),
        ),
        (ConnectPhase::Polling, ConnectEvent::Fetched { operational, elapsed_ticks }) => {
            match operational {
                Ok(true) => ConnectPhase::Over(Ok(())),
                Ok(false) => if elapsed_ticks > CONNECT_WAIT_MILLIS * TICKS_PER_MILLI {
                    ConnectPhase::Abandoning
                } else {
                    ConnectPhase::Pausing
                },
                Err(code) => ConnectPhase::Over(Err(NetCtlError::Other(NetError::Net(code)))),
            }
        },
        (ConnectPhase::Pausing, _) => ConnectPhase::Polling,
        (ConnectPhase::Abandoning, _) => ConnectPhase::Over(Err(NetCtlError::AuthFailure)),
        _ => phase,
    }
}

/// The action of a phase of the attempt to join the network with this dataset.
pub open spec fn connect_action<'a>(phase: ConnectPhase, dataset_tlv: &'a [u8]) -> ConnectAction<
    'a,
> {
    match phase {
        ConnectPhase::Stopping | ConnectPhase::Abandoning => ConnectAction::EnableThread {
            enabled: false,
        },
        ConnectPhase::Applying => ConnectAction::SetDataset { dataset_tlv },
        ConnectPhase::Starting => ConnectAction::EnableThread { enabled: true },
        ConnectPhase::Polling => ConnectAction::FetchOperational,
        ConnectPhase::Pausing => ConnectAction::Wait { millis: POLL_CONNECT_WAIT_MILLIS },
        ConnectPhase::Over(result) => ConnectAction::Return { result },
    }
}

/// An attempt to join a Thread network.
pub struct Connect<'a> {
    dataset_tlv: &'a [u8],
    phase: ConnectPhase,
}

impl<'a> View for Connect<'a> {
    type V = ConnectPhase;

    closed spec fn view(&self) -> ConnectPhase {
        self.phase
    }
}

impl<'a> Connect<'a> {
    /// The Operational Dataset of the network.
    pub closed spec fn dataset(&self) -> &'a [u8] {
        self.dataset_tlv
    }

    /// What to do next.
    pub fn action(&self) -> (action: ConnectAction<'a>)
        ensures
            action == connect_action(self@, self.dataset()),
    {
        match self.phase {
            ConnectPhase::Stopping | ConnectPhase::Abandoning => ConnectAction::EnableThread {
                enabled: false,
            },
            ConnectPhase::Applying => ConnectAction::SetDataset { dataset_tlv: self.dataset_tlv },
            ConnectPhase::Starting => ConnectAction::EnableThread { enabled: true },
            ConnectPhase::Polling => ConnectAction::FetchOperational,
            ConnectPhase::Pausing => ConnectAction::Wait { millis: POLL_CONNECT_WAIT_MILLIS },
            ConnectPhase::Over(result) => ConnectAction::Return { result },
        }
    }

    /// Goes on after an action was performed. Once the network is joined, the controller knows
    /// that the interface is operational.
    ///
    /// That Thread could not be stopped is not an error.
    pub fn next(&mut self, ctl: &mut EspMatterThreadCtl, event: ConnectEvent)
        requires
            event_fits(old(self)@, event),
        ensures
            final(self)@ == connect_next(old(self)@, event),
            final(self).dataset() == old(self).dataset(),
            final(ctl)@ == (old(ctl)@ || final(self)@ == ConnectPhase::Over(Ok(()))),
    {
        let phase = match (self.phase, event) {
            (ConnectPhase::Stopping, _) => ConnectPhase::Applying,
            (ConnectPhase::Applying, ConnectEvent::Returned(returned)) => match returned {
                Ok(()) => ConnectPhase::Starting,
                Err(code) => ConnectPhase::Over(Err(to_net_constr_error(code))),
            },
            (ConnectPhase::Starting, ConnectEvent::Returned(returned)) => match returned {
                Ok(()) => ConnectPhase::Polling,
                Err(code) => ConnectPhase::Over(Err(to_net_ctl_error(code))),
            },
            (ConnectPhase::Polling, ConnectEvent::Fetched { operational, elapsed_ticks }) => {
                match operational {
                    Ok(operational) => if operational {
                        ConnectPhase::Over(Ok(()))
                    } else if elapsed_ticks > millis_to_ticks(CONNECT_WAIT_MILLIS) {
                        ConnectPhase::Abandoning
                    } else {
                        ConnectPhase::Pausing
                    },
                    Err(code) => ConnectPhase::Over(Err(to_net_ctl_error(code))),
                }
            },
            (ConnectPhase::Pausing, _) => ConnectPhase::Polling,
            (ConnectPhase::Abandoning, _) => ConnectPhase::Over(Err(NetCtlError::AuthFailure)),
            (phase, _) => phase,
        };
        self.phase = phase;
        if let ConnectPhase::Over(Ok(())) = phase {
            ctl.operational = true;
        }
    }
}

} // verus!
