//! Finding the neighbours: advertising this node's cache service on the
//! local network and keeping track of the nodes that advertise theirs.
//!
//! Both halves talk to the network's service-discovery daemon over a message
//! bus. The calls themselves are made by whoever drives these types; what is
//! decided here is which call comes next and what each answer or
//! announcement does to the state.

pub mod advertise;
pub mod browse;

use vstd::prelude::*;

verus! {

/// The bus name of the service-discovery daemon.
pub const DESTINATION: &'static str = "org.freedesktop.Avahi";

/// The service type under which nodes that share their cache are announced.
pub const SERVICE_TYPE: &'static str = "_cacheman._tcp";

/// The daemon's value for "any network interface".
pub const ANY_INTERFACE: i32 = -1;

/// The daemon's value for "any protocol".
pub const ANY_PROTOCOL: i32 = -1;

/// The stages in the life of an advertisement or of a browser.
#[derive(Clone, Copy, Debug, PartialEq, Eq, Structural)]
pub enum Lifecycle {
    /// Being set up; not yet registered with the daemon.
    Starting,
    /// Registered and running.
    Active,
    /// Running, but the daemon has reported a failure.
    Failed,
    /// Shut down, for good.
    Terminated,
}

} // verus!
