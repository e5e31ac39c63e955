//! What differs between operating systems: how the socket is set up, and
//! which multicast groups it can join.
//!
//! Nothing here touches a socket. Each function returns what is to be done,
//! as a [`SocketSetup`] or a [`SocketCommand`], or the reason why it cannot
//! be done.

use std::time::Duration;
use vstd::prelude::*;
use crate::error::Error;
use crate::net::{IpAddress, Ipv4Address, Ipv6Address, SockAddress, SocketAddress};

verus! {

/// The two families of operating systems that the receiver runs on.
#[derive(Clone, Copy, Debug, PartialEq, Eq, Hash, Structural)]
pub enum Platform {
    /// Linux and its relatives: multicast over IPv4 and IPv6.
    Unix,
    /// Windows: multicast over IPv4 only.
    Windows,
}

/// The address family of a socket.
#[derive(Clone, Copy, Debug, PartialEq, Eq, Hash, Structural)]
pub enum Domain {
    Ipv4,
    Ipv6,
}

/// How a socket carries its data.
#[derive(Clone, Copy, Debug, PartialEq, Eq, Hash, Structural)]
pub enum SocketType {
    /// As a stream of bytes over a connection.
    Stream,
    /// As single datagrams.
    Datagram,
}

/// The protocol that a socket speaks.
#[derive(Clone, Copy, Debug, PartialEq, Eq, Hash, Structural)]
pub enum Protocol {
    Tcp,
    Udp,
}

/// How to create the receiver's socket: its kind, the options to set, in the
/// order of the fields, and the address to bind it to.
#[derive(Clone, Copy, Debug, PartialEq, Eq, Hash, Structural)]
pub struct SocketSetup {
    /// The family of the socket.
    pub domain: Domain,
    /// How the socket carries its data: E1.31 is sent as datagrams.
    pub socket_type: SocketType,
    /// The protocol of the socket: E1.31 is sent over UDP.
    pub protocol: Protocol,
    /// Whether several sockets may share the port.
    pub reuse_port: bool,
    /// Whether several sockets may share the address.
    pub reuse_address: bool,
    /// Where the socket is bound.
    pub bind_addr: SockAddress,
}

/// A multicast group on an interface.
#[allow(inconsistent_fields)]
#[derive(Clone, Copy, Debug, PartialEq, Eq, Hash, Structural)]
pub enum Membership {
    /// An IPv4 group on the interface with the given address.
    V4 { group: Ipv4Address, interface: Ipv4Address },
    /// An IPv6 group on the interface with the given index; 0 is any.
    V6 { group: Ipv6Address, interface: u32 },
}

/// One call to make on the receiver's socket.
#[derive(Clone, Copy, Debug, PartialEq, Eq, Hash)]
pub enum SocketCommand {
    /// Join the group.
    JoinMulticast(Membership),
    /// Leave the group.
    LeaveMulticast(Membership),
    /// Restrict the socket to IPv6, or open it to IPv4 as well.
    SetOnlyV6(bool),
    /// Let a read wait this long; `None` lets it wait for ever.
    SetReadTimeout(Option<Duration>),
}

/// The family of `addr`.
pub open spec fn domain_of(addr: SocketAddress) -> Domain {
    if addr.ip is V4 {
        Domain::Ipv4
    } else {
        Domain::Ipv6
    }
}

/// What `create_unix_socket` returns.
pub open spec fn spec_create_unix_socket(addr: SocketAddress) -> SocketSetup {
    SocketSetup {
        domain: domain_of(addr),
        socket_type: SocketType::Datagram,
        protocol: Protocol::Udp,
        reuse_port: true,
        reuse_address: true,
        bind_addr: SockAddress::spec_from_std(addr),
    }
}

/// What `create_win_socket` returns.
pub open spec fn spec_create_win_socket(addr: SocketAddress) -> SocketSetup {
    SocketSetup {
        domain: domain_of(addr),
        socket_type: SocketType::Datagram,
        protocol: Protocol::Udp,
        reuse_port: false,
        reuse_address: true,
        bind_addr: SockAddress::spec_from_std(addr),
    }
}

/// The group that a Unix socket joins or leaves for `addr`, on the interface
/// with the address `interface_addr`.
pub open spec fn spec_unix_membership(addr: SockAddress, interface_addr: IpAddress) -> Result<
    Membership,
    Error,
> {
    match addr {
        SockAddress::Inet(group, _) => match interface_addr {
            IpAddress::V4(interface) => Ok(Membership::V4 { group, interface }),
            IpAddress::V6(_) => Err(Error::IpVersionError),
        },
        SockAddress::Inet6(group, _) => match interface_addr {
            IpAddress::V4(_) => Err(Error::IpVersionError),
            IpAddress::V6(_) => Ok(Membership::V6 { group, interface: 0 }),
        },
        SockAddress::Other(family) => Err(Error::UnsupportedIpVersion(family)),
    }
}

/// The group that a Windows socket joins or leaves for `addr`.
pub open spec fn spec_win_membership(addr: SockAddress) -> Result<Membership, Error> {
    match addr {
        SockAddress::Inet(group, _) => Ok(
            Membership::V4 { group, interface: Ipv4Address { bits: 0 } },
        ),
        SockAddress::Inet6(_, _) => Err(Error::OsOperationUnsupported),
        SockAddress::Other(family) => Err(Error::UnsupportedIpVersion(family)),
    }
}

/// A result with `JoinMulticast` around its group.
pub open spec fn joining(m: Result<Membership, Error>) -> Result<SocketCommand, Error> {
    match m {
        Ok(m) => Ok(SocketCommand::JoinMulticast(m)),
        Err(e) => Err(e),
    }
}

/// A result with `LeaveMulticast` around its group.
pub open spec fn leaving(m: Result<Membership, Error>) -> Result<SocketCommand, Error> {
    match m {
        Ok(m) => Ok(SocketCommand::LeaveMulticast(m)),
        Err(e) => Err(e),
    }
}

/// The socket of a Unix receiver for `addr`: a UDP datagram socket of the
/// family of `addr`, port and address shared with other listeners, bound to
/// `addr` itself.
pub fn create_unix_socket(addr: SocketAddress) -> (r: SocketSetup)
    ensures
        r == spec_create_unix_socket(addr),
        r.bind_addr.spec_as_std() == Some(addr),
{
    let domain = if addr.is_ipv4() {
        Domain::Ipv4
    } else {
        Domain::Ipv6
    };
    SocketSetup {
        domain,
        socket_type: SocketType::Datagram,
        protocol: Protocol::Udp,
        reuse_port: true,
        reuse_address: true,
        bind_addr: SockAddress::from_std(addr),
    }
}

/// The socket of a Windows receiver for `addr`: a UDP datagram socket of the
/// family of `addr`, address shared with other listeners, bound to `addr`
/// itself.
pub fn create_win_socket(addr: SocketAddress) -> (r: SocketSetup)
    ensures
        r == spec_create_win_socket(addr),
        r.bind_addr.spec_as_std() == Some(addr),
{
    let domain = if addr.is_ipv4() {
        Domain::Ipv4
    } else {
        Domain::Ipv6
    };
    SocketSetup {
        domain,
        socket_type: SocketType::Datagram,
        protocol: Protocol::Udp,
        reuse_port: false,
        reuse_address: true,
        bind_addr: SockAddress::from_std(addr),
    }
}

/// The group of the multicast address `addr` on a Unix socket whose
/// interface has the address `interface_addr`.
///
/// Fails with `IpVersionError` when the two are of different families, and
/// with `UnsupportedIpVersion` when `addr` is of neither internet family.
fn unix_membership(addr: SockAddress, interface_addr: IpAddress) -> (r: Result<Membership, Error>)
    ensures
        r == spec_unix_membership(addr, interface_addr),
{
    match addr {
        SockAddress::Inet(group, _) => match interface_addr {
            IpAddress::V4(interface) => Ok(Membership::V4 { group, interface }),
            IpAddress::V6(_) => Err(Error::IpVersionError),
        },
        SockAddress::Inet6(group, _) => match interface_addr {
            IpAddress::V4(_) => Err(Error::IpVersionError),
            IpAddress::V6(_) => Ok(Membership::V6 { group, interface: 0 }),
        },
        SockAddress::Other(family) => Err(Error::UnsupportedIpVersion(family)),
    }
}

/// The group of the multicast address `addr` on a Windows socket.
///
/// Fails with `OsOperationUnsupported` for an IPv6 group, and with
/// `UnsupportedIpVersion` when `addr` is of neither internet family.
fn win_membership(addr: SockAddress) -> (r: Result<Membership, Error>)
    ensures
        r == spec_win_membership(addr),
{
    match addr {
        SockAddress::Inet(group, _) => Ok(
            Membership::V4 { group, interface: Ipv4Address::unspecified() },
        ),
        SockAddress::Inet6(_, _) => Err(Error::OsOperationUnsupported),
        SockAddress::Other(family) => Err(Error::UnsupportedIpVersion(family)),
    }
}

/// The command that joins a Unix socket to the group `addr`.
///
/// For an IPv4 group the interface is the one with the address
/// `interface_addr`; for an IPv6 group it is left to the system. Fails with
/// `IpVersionError` when group and interface are of different families, and
/// with `UnsupportedIpVersion` when `addr` is of neither internet family.
pub fn join_unix_multicast(addr: SockAddress, interface_addr: IpAddress) -> (r: Result<
    SocketCommand,
    Error,
>)
    ensures
        r == joining(spec_unix_membership(addr, interface_addr)),
{
    match unix_membership(addr, interface_addr) {
        Ok(m) => Ok(SocketCommand::JoinMulticast(m)),
        Err(e) => Err(e),
    }
}

/// The command that takes a Unix socket out of the group `addr`; the
/// counterpart of `join_unix_multicast`, with the same failures.
pub fn leave_unix_multicast(addr: SockAddress, interface_addr: IpAddress) -> (r: Result<
    SocketCommand,
    Error,
>)
    ensures
        r == leaving(spec_unix_membership(addr, interface_addr)),
{
    match unix_membership(addr, interface_addr) {
        Ok(m) => Ok(SocketCommand::LeaveMulticast(m)),
        Err(e) => Err(e),
    }
}

/// The command that joins a Windows socket to the group `addr`, on any
/// interface.
///
/// Fails with `OsOperationUnsupported` for an IPv6 group, and with
/// `UnsupportedIpVersion` when `addr` is of neither internet family.
pub fn join_win_multicast(addr: SockAddress) -> (r: Result<SocketCommand, Error>)
    ensures
        r == joining(spec_win_membership(addr)),
{
    match win_membership(addr) {
        Ok(m) => Ok(SocketCommand::JoinMulticast(m)),
        Err(e) => Err(e),
    }
}

/// The command that takes a Windows socket out of the group `addr`; the
/// counterpart of `join_win_multicast`, with the same failures.
pub fn leave_win_multicast(addr: SockAddress) -> (r: Result<SocketCommand, Error>)
    ensures
        r == leaving(spec_win_membership(addr)),
{
    match win_membership(addr) {
        Ok(m) => Ok(SocketCommand::LeaveMulticast(m)),
        Err(e) => Err(e),
    }
}

impl Platform {
    /// Whether sockets of this platform can join multicast groups of the
    /// family of `addr`.
    pub open spec fn spec_supports_multicast(self, addr: SocketAddress) -> bool {
        self == Platform::Unix || addr.ip is V4
    }

    /// What `create_socket` returns.
    pub open spec fn spec_create_socket(self, addr: SocketAddress) -> SocketSetup {
        match self {
            Platform::Unix => spec_create_unix_socket(addr),
            Platform::Windows => spec_create_win_socket(addr),
        }
    }

    /// The group that a socket of this platform joins or leaves for `addr`.
    pub open spec fn spec_membership(self, addr: SockAddress, interface_addr: IpAddress) -> Result<
        Membership,
        Error,
    > {
        match self {
            Platform::Unix => spec_unix_membership(addr, interface_addr),
            Platform::Windows => spec_win_membership(addr),
        }
    }

    /// Whether sockets of this platform can join multicast groups of the
    /// family of `addr`: on Windows only IPv4 groups.
    pub fn supports_multicast(&self, addr: &SocketAddress) -> (r: bool)
        ensures
            r == self.spec_supports_multicast(*addr),
    {
        match self {
            Platform::Unix => true,
            Platform::Windows => addr.is_ipv4(),
        }
    }

    /// How to create the socket of a receiver for `addr` on this platform.
    pub fn create_socket(&self, addr: SocketAddress) -> (r: SocketSetup)
        ensures
            r == self.spec_create_socket(addr),
            r.domain == domain_of(addr),
            r.socket_type == SocketType::Datagram,
            r.protocol == Protocol::Udp,
            r.reuse_address,
            r.bind_addr.spec_as_std() == Some(addr),
    {
        match self {
            Platform::Unix => create_unix_socket(addr),
            Platform::Windows => create_win_socket(addr),
        }
    }

    /// The command that joins the group `addr` on this platform. Only Unix
    /// looks at `interface_addr`.
    pub fn join_multicast(&self, addr: SockAddress, interface_addr: IpAddress) -> (r: Result<
        SocketCommand,
        Error,
    >)
        ensures
            r == joining(self.spec_membership(addr, interface_addr)),
    {
        match self {
            Platform::Unix => join_unix_multicast(addr, interface_addr),
            Platform::Windows => join_win_multicast(addr),
        }
    }

    /// The command that leaves the group `addr` on this platform. Only Unix
    /// looks at `interface_addr`.
    pub fn leave_multicast(&self, addr: SockAddress, interface_addr: IpAddress) -> (r: Result<
        SocketCommand,
        Error,
    >)
        ensures
            r == leaving(self.spec_membership(addr, interface_addr)),
    {
        match self {
            Platform::Unix => leave_unix_multicast(addr, interface_addr),
            Platform::Windows => leave_win_multicast(addr),
        }
    }
}

} // verus!
