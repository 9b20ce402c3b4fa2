//! Advertising: the one service record that announces this node.
//!
//! The record is registered in three calls after the connection is open:
//! reserve a group of entries, add the record to it, commit the group. The
//! connection stays open for as long as the advertisement lasts.

use crate::discovery::Lifecycle;
use crate::discovery::ANY_INTERFACE;
use crate::discovery::ANY_PROTOCOL;
use crate::discovery::SERVICE_TYPE;
use crate::error::Error;
use crate::error::ErrorView;
use vstd::prelude::*;
use vstd::string::*;

verus! {

/// The calls that register an advertisement, in the order in which they are
/// made.
#[derive(Clone, Copy, Debug, PartialEq, Eq, Structural)]
pub enum AdvertiseStep {
    Connect,
    ReserveGroup,
    AddService,
    Commit,
}

/// Where an advertiser stands.
#[derive(Clone, Copy, Debug, PartialEq, Eq, Structural)]
pub enum AdvertiserPhase {
    /// Being registered; holds the call that is due.
    Starting(AdvertiseStep),
    /// Registered; the connection is held open.
    Active,
    /// Shut down.
    Terminated,
}

/// What the driver of an advertiser has to do next.
#[derive(Clone, Copy, Debug, PartialEq, Eq, Structural)]
pub enum AdvertiseAction {
    /// Open a connection to the system bus.
    Connect,
    /// Ask the daemon for a new, empty entry group.
    ReserveGroup,
    /// Add `service_record()` to the group.
    AddService,
    /// Commit the group.
    Commit,
    /// Keep the connection open until the advertiser is terminated.
    HoldConnection,
    /// Let go of the connection, which retracts the registration.
    ReleaseConnection,
    /// Nothing: no connection is open.
    Rest,
}

/// What the task that holds the connection learns when its wait for the
/// termination signal ends.
#[derive(Clone, Copy, Debug, PartialEq, Eq, Structural)]
pub enum TerminationSignal {
    /// The advertiser was terminated.
    Sent,
    /// The advertiser went away without being terminated.
    SenderLost,
}

/// What becomes of the connection.
#[derive(Clone, Copy, Debug, PartialEq, Eq, Structural)]
pub enum ConnectionFate {
    /// It is closed.
    Close,
    /// It is left open and never closed.
    Leak,
}

/// The service record that is registered.
#[derive(Debug)]
pub struct ServiceRecord {
    pub interface: i32,
    pub protocol: i32,
    pub flags: u32,
    pub name: String,
    pub service_type: String,
    pub domain: String,
    pub host: String,
    pub port: u16,
    pub txt: Vec<Vec<u8>>,
}

/// The state of an advertiser, as contracts see it.
pub struct AdvertiserView {
    pub hostname: Seq<char>,
    pub port: u16,
    pub phase: AdvertiserPhase,
}

impl AdvertiseStep {
    /// The phase that follows when this call has succeeded.
    pub open spec fn successor(self) -> AdvertiserPhase {
        match self {
            AdvertiseStep::Connect => AdvertiserPhase::Starting(AdvertiseStep::ReserveGroup),
            AdvertiseStep::ReserveGroup => AdvertiserPhase::Starting(AdvertiseStep::AddService),
            AdvertiseStep::AddService => AdvertiserPhase::Starting(AdvertiseStep::Commit),
            AdvertiseStep::Commit => AdvertiserPhase::Active,
        }
    }

    /// The action that makes this call.
    pub open spec fn action(self) -> AdvertiseAction {
        match self {
            AdvertiseStep::Connect => AdvertiseAction::Connect,
            AdvertiseStep::ReserveGroup => AdvertiseAction::ReserveGroup,
            AdvertiseStep::AddService => AdvertiseAction::AddService,
            AdvertiseStep::Commit => AdvertiseAction::Commit,
        }
    }
}

impl AdvertiserPhase {
    /// What is due in this phase.
    pub open spec fn action(self) -> AdvertiseAction {
        match self {
            AdvertiserPhase::Starting(step) => step.action(),
            AdvertiserPhase::Active => AdvertiseAction::HoldConnection,
            AdvertiserPhase::Terminated => AdvertiseAction::Rest,
        }
    }

    /// Whether a connection is open in this phase.
    pub open spec fn holds_connection(self) -> bool {
        match self {
            AdvertiserPhase::Starting(step) => step != AdvertiseStep::Connect,
            AdvertiserPhase::Active => true,
            AdvertiserPhase::Terminated => false,
        }
    }

    /// The stage of its life that an advertiser in this phase is in.
    pub open spec fn lifecycle(self) -> Lifecycle {
        match self {
            AdvertiserPhase::Starting(_) => Lifecycle::Starting,
            AdvertiserPhase::Active => Lifecycle::Active,
            AdvertiserPhase::Terminated => Lifecycle::Terminated,
        }
    }

    /// What is left to do when an advertiser in this phase is terminated.
    pub open spec fn shutdown_action(self) -> AdvertiseAction {
        if self.holds_connection() {
            AdvertiseAction::ReleaseConnection
        } else {
            AdvertiseAction::Rest
        }
    }
}

impl AdvertiserView {
    /// The state after the answer to the call that was due. A failure shuts
    /// the advertiser down. An advertiser that is not being registered is
    /// due no call and ignores the answer.
    pub open spec fn after_reply(self, succeeded: bool) -> AdvertiserView {
        match self.phase {
            AdvertiserPhase::Starting(step) => AdvertiserView {
                phase: if succeeded {
                    step.successor()
                } else {
                    AdvertiserPhase::Terminated
                },
                ..self
            },
            _ => self,
        }
    }
}

/// Registration is four calls in a fixed order: connect, reserve a group,
/// add the record, commit the group. When all have succeeded the
/// advertisement is active; a call that fails shuts the advertiser down.
pub proof fn law_registration_order(advertiser: AdvertiserView, step: AdvertiseStep)
    requires
        advertiser.phase == AdvertiserPhase::Starting(AdvertiseStep::Connect),
    ensures
        advertiser.phase.action() == AdvertiseAction::Connect,
        advertiser.after_reply(true).phase.action() == AdvertiseAction::ReserveGroup,
        advertiser.after_reply(true).after_reply(true).phase.action()
            == AdvertiseAction::AddService,
        advertiser.after_reply(true).after_reply(true).after_reply(true).phase.action()
            == AdvertiseAction::Commit,
        advertiser.after_reply(true).after_reply(true).after_reply(true).after_reply(
            true,
        ).phase.lifecycle() == Lifecycle::Active,
        (AdvertiserView { phase: AdvertiserPhase::Starting(step), ..advertiser }).after_reply(
            false,
        ).phase.lifecycle() == Lifecycle::Terminated,
{
}

/// An advertiser that is shut down stays shut down, and holds no
/// connection.
pub proof fn law_terminated_advertiser_is_final(advertiser: AdvertiserView, succeeded: bool)
    requires
        advertiser.phase is Terminated,
    ensures
        advertiser.after_reply(succeeded) == advertiser,
        advertiser.phase.shutdown_action() == AdvertiseAction::Rest,
{
}

/// What becomes of the connection when the wait for the termination signal
/// ends: after a termination it is closed; where the advertiser went away
/// without one, it is leaked, so that the registration is not retracted
/// behind the daemon's back.
pub fn connection_fate(signal: TerminationSignal) -> (fate: ConnectionFate)
    ensures
        fate == match signal {
            TerminationSignal::Sent => ConnectionFate::Close,
            TerminationSignal::SenderLost => ConnectionFate::Leak,
        },
{
    match signal {
        TerminationSignal::Sent => ConnectionFate::Close,
        TerminationSignal::SenderLost => ConnectionFate::Leak,
    }
}

/// The state of an advertisement: whom it announces and how far its
/// registration has come.
pub struct Advertiser {
    hostname: String,
    port: u16,
    phase: AdvertiserPhase,
}

impl View for Advertiser {
    type V = AdvertiserView;

    closed spec fn view(&self) -> AdvertiserView {
        AdvertiserView { hostname: self.hostname@, port: self.port, phase: self.phase }
    }
}

impl Advertiser {
    /// An advertiser for this node's hostname and listening port, at the
    /// start of its registration.
    pub fn new(hostname: &str, port: u16) -> (advertiser: Self)
        ensures
            advertiser@ == (AdvertiserView {
                hostname: hostname@,
                port,
                phase: AdvertiserPhase::Starting(AdvertiseStep::Connect),
            }),
    {
        Advertiser {
            hostname: hostname.to_owned(),
            port,
            phase: AdvertiserPhase::Starting(AdvertiseStep::Connect),
        }
    }

    /// The stage of its life that the advertiser is in.
    pub fn lifecycle(&self) -> (stage: Lifecycle)
        ensures
            stage == self@.phase.lifecycle(),
    {
        match self.phase {
            AdvertiserPhase::Starting(_) => Lifecycle::Starting,
            AdvertiserPhase::Active => Lifecycle::Active,
            AdvertiserPhase::Terminated => Lifecycle::Terminated,
        }
    }

    /// What the driver has to do next.
    pub fn next_action(&self) -> (action: AdvertiseAction)
        ensures
            action == self@.phase.action(),
    {
        match self.phase {
            AdvertiserPhase::Starting(AdvertiseStep::Connect) => AdvertiseAction::Connect,
            AdvertiserPhase::Starting(AdvertiseStep::ReserveGroup) => AdvertiseAction::ReserveGroup,
            AdvertiserPhase::Starting(AdvertiseStep::AddService) => AdvertiseAction::AddService,
            AdvertiserPhase::Starting(AdvertiseStep::Commit) => AdvertiseAction::Commit,
            AdvertiserPhase::Active => AdvertiseAction::HoldConnection,
            AdvertiserPhase::Terminated => AdvertiseAction::Rest,
        }
    }

    /// The record to register: the hostname as the instance name, the cache
    /// service's type, the listening port, every interface and protocol, the
    /// default domain and host, and no text records.
    pub fn service_record(&self) -> (record: ServiceRecord)
        ensures
            record.interface == ANY_INTERFACE,
            record.protocol == ANY_PROTOCOL,
            record.flags == 0,
            record.name@ == self@.hostname,
            record.service_type@ == SERVICE_TYPE@,
            record.domain@ == Seq::<char>::empty(),
            record.host@ == Seq::<char>::empty(),
            record.port == self@.port,
            record.txt@ == Seq::<Vec<u8>>::empty(),
    {
        ServiceRecord {
            interface: ANY_INTERFACE,
            protocol: ANY_PROTOCOL,
            flags: 0,
            name: self.hostname.clone(),
            service_type: String::from_str(SERVICE_TYPE),
            domain: String::new(),
            host: String::new(),
            port: self.port,
            txt: Vec::new(),
        }
    }

    /// Takes the answer to the call that was due. After a success the next
    /// call is due, or the advertisement is active; a failure shuts the
    /// advertiser down and is reported as `RegistrationFailed`.
    pub fn on_reply(&mut self, succeeded: bool) -> (result: Result<AdvertiseAction, Error>)
        ensures
            final(self)@ == old(self)@.after_reply(succeeded),
            match result {
                Ok(action) => action == final(self)@.phase.action() && (succeeded || !(
                old(self)@.phase is Starting)),
                Err(error) => error@ == ErrorView::RegistrationFailed && !succeeded
                    && old(self)@.phase is Starting,
            },
    {
        match self.phase {
            AdvertiserPhase::Starting(step) => {
                if succeeded {
                    self.phase =
                    match step {
                        AdvertiseStep::Connect => AdvertiserPhase::Starting(
                            AdvertiseStep::ReserveGroup,
                        ),
                        AdvertiseStep::ReserveGroup => AdvertiserPhase::Starting(
                            AdvertiseStep::AddService,
                        ),
                        AdvertiseStep::AddService => AdvertiserPhase::Starting(
                            AdvertiseStep::Commit,
                        ),
                        AdvertiseStep::Commit => AdvertiserPhase::Active,
                    };
                    Ok(self.next_action())
                } else {
                    self.phase = AdvertiserPhase::Terminated;
                    Err(Error::RegistrationFailed)
                }
            },
            _ => Ok(self.next_action()),
        }
    }

    /// Ends the advertisement. Returns what is left to do: to let go of the
    /// connection, if one is open.
    pub fn terminate(self) -> (action: AdvertiseAction)
        ensures
            action == self@.phase.shutdown_action(),
    {
        match self.phase {
            AdvertiserPhase::Starting(AdvertiseStep::Connect) => AdvertiseAction::Rest,
            AdvertiserPhase::Starting(_) => AdvertiseAction::ReleaseConnection,
            AdvertiserPhase::Active => AdvertiseAction::ReleaseConnection,
            AdvertiserPhase::Terminated => AdvertiseAction::Rest,
        }
    }

    /// Hands the advertiser to a handle that terminates it when it is
    /// released.
    #[must_use]
    pub fn terminate_handle(self) -> (handle: AdvertiserTerminateHandle)
        ensures
            handle@ == Some(self@),
    {
        AdvertiserTerminateHandle { advertiser: Some(self) }
    }
}

/// Holds an advertiser until it is released, and terminates it then. A
/// handle terminates its advertiser once.
pub struct AdvertiserTerminateHandle {
    advertiser: Option<Advertiser>,
}

impl View for AdvertiserTerminateHandle {
    type V = Option<AdvertiserView>;

    closed spec fn view(&self) -> Option<AdvertiserView> {
        match self.advertiser {
            Some(advertiser) => Some(advertiser@),
            None => None,
        }
    }
}

impl AdvertiserTerminateHandle {
    /// Terminates the advertiser that the handle holds, if it still holds
    /// one, and returns what is left to do.
    pub fn release(&mut self) -> (action: AdvertiseAction)
        ensures
            final(self)@ is None,
            action == match old(self)@ {
                Some(advertiser) => advertiser.phase.shutdown_action(),
                None => AdvertiseAction::Rest,
            },
    {
        match self.advertiser.take() {
            Some(advertiser) => advertiser.terminate(),
            None => AdvertiseAction::Rest,
        }
    }
}

} // verus!
