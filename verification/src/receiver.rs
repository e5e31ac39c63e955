//! The receiver: one bound socket, and what may be asked of it.
//!
//! The socket itself stays with the caller. A [`SacnNetworkReceiver`] holds
//! what the decisions depend on (the platform, the bound address, whether
//! multicast is enabled) and answers every request with the
//! [`SocketCommand`] to carry out, or with the reason for refusing it.

use std::time::Duration;
use vstd::prelude::*;
use vstd::slice::slice_subrange;
use crate::error::{io_result, Error, IoErrorKind};
use crate::net::{SockAddress, SocketAddress};
use crate::platform::{
    joining, leaving, Platform, Protocol, SocketCommand, SocketSetup, SocketType,
};
use crate::universe::{
    spec_universe_to_ipv4_multicast_addr, spec_universe_to_ipv6_multicast_addr, universe_in_range,
    universe_to_ipv4_multicast_addr, universe_to_ipv6_multicast_addr,
};

verus! {

/// The size of the buffer that data is received into: the largest E1.31
/// packet has 1143 bytes, which is 1144 when aligned to 64 bits.
pub const RCV_BUF_DEFAULT_SIZE: usize = 1144;

/// The size of a DMX payload: the start code and 512 values.
pub const DMX_PAYLOAD_SIZE: usize = 513;

/// Whether `d` spans no time.
pub uninterp spec fn duration_is_zero(d: Duration) -> bool;

/// `Duration::is_zero` of the standard library tells whether a duration
/// spans no time, and depends on nothing but the duration.
pub assume_specification[ Duration::is_zero ](d: &Duration) -> (r: bool)
    ensures
        r == duration_is_zero(*d),
;

/// The command for a read timeout of `timeout`, where `zero` tells whether
/// the duration in it spans no time.
///
/// A timeout of zero fails with an `InvalidInput` I/O error; any other, and
/// no timeout at all, becomes the command that sets it.
pub fn timeout_command(timeout: Option<Duration>, zero: bool) -> (r: Result<SocketCommand, Error>)
    ensures
        (timeout is Some && zero) ==> r == Err::<SocketCommand, Error>(
            Error::Io(IoErrorKind::InvalidInput),
        ),
        !(timeout is Some && zero) ==> r == Ok::<SocketCommand, Error>(
            SocketCommand::SetReadTimeout(timeout),
        ),
{
    if timeout.is_some() && zero {
        Err(Error::Io(IoErrorKind::InvalidInput))
    } else {
        Ok(SocketCommand::SetReadTimeout(timeout))
    }
}

/// The state of a receiver of multicast E1.31 data on one socket.
#[derive(Debug)]
pub struct SacnNetworkReceiver {
    /// The kind of operating system that the socket lives on.
    platform: Platform,
    /// The address that the receiver was created for.
    addr: SocketAddress,
    /// Whether the receiver is to join multicast groups.
    is_multicast_enabled: bool,
}

impl SacnNetworkReceiver {
    /// Multicast is enabled only where the platform supports it for the
    /// receiver's address family.
    #[verifier::type_invariant]
    spec fn enabled_only_where_supported(&self) -> bool {
        self.is_multicast_enabled ==> self.platform.spec_supports_multicast(self.addr)
    }

    /// The platform of the receiver.
    pub closed spec fn spec_platform(&self) -> Platform {
        self.platform
    }

    /// The address that the receiver was created for.
    pub closed spec fn spec_addr(&self) -> SocketAddress {
        self.addr
    }

    /// Whether multicast is enabled.
    pub closed spec fn spec_is_multicast_enabled(&self) -> bool {
        self.is_multicast_enabled
    }

    /// Whether the receiver was created for an IPv6 address.
    pub open spec fn spec_is_ipv6(&self) -> bool {
        self.spec_addr().ip is V6
    }

    /// Whether the platform supports multicast for the receiver's family.
    pub open spec fn spec_supports_multicast(&self) -> bool {
        self.spec_platform().spec_supports_multicast(self.spec_addr())
    }

    /// The multicast address of `universe` in the receiver's family.
    pub open spec fn spec_group_addr(&self, universe: u16) -> Result<SockAddress, Error> {
        if self.spec_addr().ip is V4 {
            spec_universe_to_ipv4_multicast_addr(universe)
        } else {
            spec_universe_to_ipv6_multicast_addr(universe)
        }
    }

    /// What `listen_multicast_universe` returns.
    pub open spec fn spec_listen_multicast_universe(&self, universe: u16) -> Result<
        SocketCommand,
        Error,
    > {
        match self.spec_group_addr(universe) {
            Ok(group) => joining(self.spec_platform().spec_membership(group, self.spec_addr().ip)),
            Err(e) => Err(e),
        }
    }

    /// What `mute_multicast_universe` returns.
    pub open spec fn spec_mute_multicast_universe(&self, universe: u16) -> Result<
        SocketCommand,
        Error,
    > {
        match self.spec_group_addr(universe) {
            Ok(group) => leaving(self.spec_platform().spec_membership(group, self.spec_addr().ip)),
            Err(e) => Err(e),
        }
    }

    /// Where the platform supports multicast for the receiver's family, a
    /// universe in range can be joined and left again: neither request is
    /// refused, and both name the same group.
    pub proof fn lemma_listen_then_mute(&self, universe: u16)
        requires
            self.spec_supports_multicast(),
            universe_in_range(universe),
        ensures
            self.spec_listen_multicast_universe(universe) matches Ok(
                SocketCommand::JoinMulticast(joined),
            ) && self.spec_mute_multicast_universe(universe) == Ok::<SocketCommand, Error>(
                SocketCommand::LeaveMulticast(joined),
            ),
    {
    }

    /// A receiver on `platform` for the address `ip`, and how to create its
    /// socket: a UDP datagram socket bound to `ip` as it was given.
    ///
    /// Multicast is enabled from the start exactly where the platform
    /// supports it for the family of `ip`.
    pub fn new(platform: Platform, ip: SocketAddress) -> (r: (SacnNetworkReceiver, SocketSetup))
        ensures
            r.0.spec_platform() == platform,
            r.0.spec_addr() == ip,
            r.0.spec_is_multicast_enabled() == platform.spec_supports_multicast(ip),
            r.1 == platform.spec_create_socket(ip),
            r.1.bind_addr == SockAddress::spec_from_std(ip),
            r.1.socket_type == SocketType::Datagram,
            r.1.protocol == Protocol::Udp,
    {
        let setup = platform.create_socket(ip);
        let receiver = SacnNetworkReceiver {
            platform,
            addr: ip,
            is_multicast_enabled: platform.supports_multicast(&ip),
        };
        (receiver, setup)
    }

    /// The multicast address of `universe` in the receiver's family.
    fn group_addr(&self, universe: u16) -> (r: Result<SockAddress, Error>)
        ensures
            r == self.spec_group_addr(universe),
    {
        if self.addr.is_ipv4() {
            universe_to_ipv4_multicast_addr(universe)
        } else {
            universe_to_ipv6_multicast_addr(universe)
        }
    }

    /// The command that lets the socket receive the data of `universe`: it
    /// joins the universe's multicast group in the receiver's family.
    ///
    /// Fails with `InvalidUniverse` for a universe outside 1 to 63999, and
    /// with `OsOperationUnsupported` on a platform that cannot join groups of
    /// the receiver's family. Whether multicast is enabled plays no part.
    pub fn listen_multicast_universe(&self, universe: u16) -> (r: Result<SocketCommand, Error>)
        ensures
            r == self.spec_listen_multicast_universe(universe),
            r is Ok <==> universe_in_range(universe) && self.spec_supports_multicast(),
            !universe_in_range(universe) ==> r == Err::<SocketCommand, Error>(
                Error::InvalidUniverse(universe),
            ),
            universe_in_range(universe) && !self.spec_supports_multicast() ==> r == Err::<
                SocketCommand,
                Error,
            >(Error::OsOperationUnsupported),
    {
        match self.group_addr(universe) {
            Ok(group) => self.platform.join_multicast(group, self.addr.ip()),
            Err(e) => Err(e),
        }
    }

    /// The command that stops the socket receiving the data of `universe`:
    /// it leaves the group that `listen_multicast_universe` joins, and fails
    /// on the same inputs with the same errors.
    pub fn mute_multicast_universe(&mut self, universe: u16) -> (r: Result<SocketCommand, Error>)
        ensures
            *final(self) == *old(self),
            r == old(self).spec_mute_multicast_universe(universe),
            r is Ok <==> universe_in_range(universe) && old(self).spec_supports_multicast(),
            !universe_in_range(universe) ==> r == Err::<SocketCommand, Error>(
                Error::InvalidUniverse(universe),
            ),
            universe_in_range(universe) && !old(self).spec_supports_multicast() ==> r == Err::<
                SocketCommand,
                Error,
            >(Error::OsOperationUnsupported),
    {
        match self.group_addr(universe) {
            Ok(group) => self.platform.leave_multicast(group, self.addr.ip()),
            Err(e) => Err(e),
        }
    }

    /// Enables or disables multicast.
    ///
    /// Enabling fails with `OsOperationUnsupported`, and changes nothing,
    /// where the platform does not support multicast for the receiver's
    /// family. Disabling always succeeds; groups that were joined stay
    /// joined until the caller leaves them.
    pub fn set_is_multicast_enabled(&mut self, val: bool) -> (r: Result<(), Error>)
        ensures
            final(self).spec_platform() == old(self).spec_platform(),
            final(self).spec_addr() == old(self).spec_addr(),
            val && !old(self).spec_supports_multicast() ==> r == Err::<(), Error>(
                Error::OsOperationUnsupported,
            ) && *final(self) == *old(self),
            !val || old(self).spec_supports_multicast() ==> r == Ok::<(), Error>(())
                && final(self).spec_is_multicast_enabled() == val,
    {
        if val && !self.platform.supports_multicast(&self.addr) {
            return Err(Error::OsOperationUnsupported);
        }
        self.is_multicast_enabled = val;
        Ok(())
    }

    /// Whether multicast is enabled. It never is where the platform does
    /// not support multicast for the receiver's family.
    #[verifier::when_used_as_spec(spec_is_multicast_enabled)]
    pub fn is_multicast_enabled(&self) -> (r: bool)
        ensures
            r == self.spec_is_multicast_enabled(),
            r ==> self.spec_supports_multicast(),
    {
        proof {
            use_type_invariant(self);
        }
        self.is_multicast_enabled
    }

    /// The command that restricts the socket to IPv6 (`val` true) or opens it
    /// to IPv4 as well.
    ///
    /// Fails with `IpVersionError`, and issues no command, for a receiver
    /// that was created for an IPv4 address.
    pub fn set_only_v6(&mut self, val: bool) -> (r: Result<SocketCommand, Error>)
        ensures
            *final(self) == *old(self),
            !old(self).spec_is_ipv6() ==> r == Err::<SocketCommand, Error>(Error::IpVersionError),
            old(self).spec_is_ipv6() ==> r == Ok::<SocketCommand, Error>(
                SocketCommand::SetOnlyV6(val),
            ),
    {
        if self.addr.is_ipv4() {
            Err(Error::IpVersionError)
        } else {
            Ok(SocketCommand::SetOnlyV6(val))
        }
    }

    /// Completes a read: `received` is what the socket returned after
    /// reading one datagram into `buf`.
    ///
    /// After a failed read the failure is passed on as it is; when nothing
    /// arrived in time it is `WouldBlock` or `TimedOut`. After a read of `n`
    /// bytes the result is the part of `buf` that was filled, its first `n`
    /// bytes, which is what the packet is parsed from. A datagram longer
    /// than `buf` arrives cut off at the length of `buf`.
    pub fn recv<'a>(&self, buf: &'a [u8], received: Result<usize, IoErrorKind>) -> (r: Result<
        &'a [u8],
        Error,
    >)
        ensures
            match received {
                Ok(n) => r matches Ok(data) && data@ == buf@.subrange(
                    0,
                    if n <= buf@.len() {
                        n as int
                    } else {
                        buf@.len() as int
                    },
                ),
                Err(kind) => r == Err::<&[u8], Error>(Error::Io(kind)),
            },
    {
        match io_result(received) {
            Ok(n) => {
                let filled: usize = if n <= buf.len() {
                    n
                } else {
                    buf.len()
                };
                Ok(slice_subrange(buf, 0, filled))
            },
            Err(e) => Err(e),
        }
    }

    /// The command that sets how long a read waits for a datagram; `None`
    /// lets it wait for ever.
    ///
    /// A timeout of zero fails with an `InvalidInput` I/O error and issues no
    /// command, so that the timeout set before stays in effect.
    pub fn set_timeout(&mut self, timeout: Option<Duration>) -> (r: Result<SocketCommand, Error>)
        ensures
            *final(self) == *old(self),
            (timeout matches Some(d) && duration_is_zero(d)) ==> r == Err::<SocketCommand, Error>(
                Error::Io(IoErrorKind::InvalidInput),
            ),
            !(timeout matches Some(d) && duration_is_zero(d)) ==> r == Ok::<SocketCommand, Error>(
                SocketCommand::SetReadTimeout(timeout),
            ),
    {
        let zero = match timeout {
            Some(d) => d.is_zero(),
            None => false,
        };
        timeout_command(timeout, zero)
    }

    /// Whether the receiver was created for an IPv6 address.
    #[verifier::when_used_as_spec(spec_is_ipv6)]
    pub fn is_ipv6(&self) -> (r: bool)
        ensures
            r == self.spec_is_ipv6(),
    {
        self.addr.is_ipv6()
    }
}

} // verus!
