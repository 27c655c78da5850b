//! The address resolver's rule: which address, if any, a routing probe yields.
//!
//! The probe itself belongs to the caller: it opens a connectionless socket on
//! any local interface, connects it to [`probe_target`] without sending
//! anything, and reads back the local end that the operating system chose.

use vstd::prelude::*;
use vstd::string::StringExecFns;
use crate::address::Ipv4Address;

verus! {

/// The local end of a socket after the operating system chose a route.
#[derive(Clone, Copy, Debug, PartialEq, Eq, Structural)]
pub enum LocalEndpoint {
    V4(Ipv4Address),
    V6,
}

/// Why the machine's address could not be determined.
#[derive(Debug, PartialEq, Eq)]
pub enum ResolutionError {
    /// A socket operation of the probe failed; `detail` is the system's message.
    Socket { detail: String },
    /// The route's local end is not an IPv4 address.
    NotIpv4,
}

impl ResolutionError {
    /// What went wrong, in words.
    pub open spec fn description(self) -> Seq<char> {
        match self {
            ResolutionError::Socket { detail } => detail@,
            ResolutionError::NotIpv4 => "IPV6 addresses are not currently supported"@,
        }
    }

    /// A message for the log.
    pub fn describe(&self) -> (text: String)
        ensures
            text@ == self.description(),
    {
        match self {
            ResolutionError::Socket { detail } => detail.clone(),
            ResolutionError::NotIpv4 => String::from_str(
                "IPV6 addresses are not currently supported",
            ),
        }
    }
}

/// The address that the routing probe points at. No packet is ever sent to it.
pub fn probe_target() -> (target: (Ipv4Address, u16))
    ensures
        target == (Ipv4Address { a: 10, b: 255, c: 255, d: 255 }, 1u16),
{
    (Ipv4Address { a: 10, b: 255, c: 255, d: 255 }, 1)
}

/// What a probe's outcome says of the machine's address.
pub open spec fn resolved(probe: Result<LocalEndpoint, String>) -> Result<
    Ipv4Address,
    ResolutionError,
> {
    match probe {
        Ok(LocalEndpoint::V4(address)) => Ok(address),
        Ok(LocalEndpoint::V6) => Err(ResolutionError::NotIpv4),
        Err(detail) => Err(ResolutionError::Socket { detail }),
    }
}

/// Turns the outcome of a routing probe into the machine's current address.
/// An IPv6 endpoint is rejected, never mapped; a failed socket operation is
/// passed on with its message.
pub fn resolve(probe: Result<LocalEndpoint, String>) -> (outcome: Result<
    Ipv4Address,
    ResolutionError,
>)
    ensures
        outcome == resolved(probe),
{
    match probe {
        Ok(LocalEndpoint::V4(address)) => Ok(address),
        Ok(LocalEndpoint::V6) => Err(ResolutionError::NotIpv4),
        Err(detail) => Err(ResolutionError::Socket { detail }),
    }
}

} // verus!
