//! The service's endpoints: the address it binds, the secondary port, and the
//! verdict on an attempt to bind.

use crate::errors::DatabaseError;
use vstd::prelude::*;

verus! {

/// An internet address, by its groups.
#[derive(Debug, Clone, Copy, PartialEq, Eq, Structural, Hash)]
pub enum IpAddress {
    V4(u8, u8, u8, u8),
    V6(u16, u16, u16, u16, u16, u16, u16, u16),
}

/// An address and a port.
#[derive(Debug, Clone, Copy, PartialEq, Eq, Structural, Hash)]
pub struct SocketAddress {
    pub ip: IpAddress,
    pub port: u16,
}

/// The port the service answers REST requests on unless another is chosen.
pub const REST_PORT: u16 = 8079;

/// The secondary port unless another is chosen.
pub const GRCP_PORT: u16 = 50060;

/// The loopback host.
pub open spec fn loopback() -> IpAddress {
    IpAddress::V4(127, 0, 0, 1)
}

/// The address the service binds unless another is chosen: the loopback host
/// and the default REST port.
pub open spec fn default_address() -> SocketAddress {
    SocketAddress { ip: loopback(), port: REST_PORT }
}

/// The bind address of a configuration: the chosen one, else the default.
pub open spec fn resolved_address(chosen: Option<SocketAddress>) -> SocketAddress {
    match chosen {
        Some(addr) => addr,
        None => default_address(),
    }
}

/// The secondary port of a configuration: the chosen one, else the default.
pub open spec fn resolved_port(chosen: Option<u16>) -> u16 {
    match chosen {
        Some(port) => port,
        None => GRCP_PORT,
    }
}

impl SocketAddress {
    /// An address from its two parts.
    pub fn new(ip: IpAddress, port: u16) -> (addr: SocketAddress)
        ensures
            addr == (SocketAddress { ip, port }),
    {
        SocketAddress { ip, port }
    }

    /// The default bind address.
    pub fn localhost() -> (addr: SocketAddress)
        ensures
            addr == default_address(),
    {
        SocketAddress { ip: IpAddress::V4(127, 0, 0, 1), port: REST_PORT }
    }

    /// An address on the default REST port.
    pub fn on_default_port(ip: IpAddress) -> (addr: SocketAddress)
        ensures
            addr == (SocketAddress { ip, port: REST_PORT }),
    {
        SocketAddress { ip, port: REST_PORT }
    }

    /// The bind address of a configuration.
    pub fn resolve(chosen: Option<SocketAddress>) -> (addr: SocketAddress)
        ensures
            addr == resolved_address(chosen),
    {
        match chosen {
            Some(addr) => addr,
            None => SocketAddress::localhost(),
        }
    }
}

/// The secondary port of a configuration.
pub fn resolve_port(chosen: Option<u16>) -> (port: u16)
    ensures
        port == resolved_port(chosen),
{
    match chosen {
        Some(port) => port,
        None => GRCP_PORT,
    }
}

/// Why the operating system did not bind an address.
#[derive(Debug, Clone, Copy, PartialEq, Eq, Structural, Hash)]
pub enum OsFailure {
    /// The connection was refused.
    ConnectionRefused,
    /// The caller may not bind the address.
    PermissionDenied,
    /// The address is in use.
    AddrInUse,
    /// The address is not one of this host.
    AddrNotAvailable,
    /// Any other failure.
    Other,
}

/// What the operating system answered to an attempt to bind an address.
#[derive(Debug, Clone, Copy, PartialEq, Eq, Structural, Hash)]
pub enum BindAttempt {
    /// The listener was bound (and released again).
    Bound,
    /// The attempt failed.
    Failed(OsFailure),
}

/// The verdict on an attempt to bind: available when the listener was bound,
/// unavailable when the connection was refused, and an error for every other
/// failure.
pub open spec fn bind_verdict(attempt: BindAttempt) -> Result<bool, DatabaseError> {
    match attempt {
        BindAttempt::Bound => Ok(true),
        BindAttempt::Failed(OsFailure::ConnectionRefused) => Ok(false),
        BindAttempt::Failed(_) => Err(DatabaseError::TcpError),
    }
}

/// Whether an address can be bound, from the system's answer.
pub fn can_bind(attempt: BindAttempt) -> (r: Result<bool, DatabaseError>)
    ensures
        r == bind_verdict(attempt),
{
    match attempt {
        BindAttempt::Bound => Ok(true),
        BindAttempt::Failed(OsFailure::ConnectionRefused) => Ok(false),
        BindAttempt::Failed(_) => Err(DatabaseError::TcpError),
    }
}

} // verus!
