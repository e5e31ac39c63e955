//! Internet addresses as plain values.

use vstd::prelude::*;

verus! {

/// The number whose big-endian bytes are `a.b.c.d`.
pub open spec fn ipv4_bits(a: u8, b: u8, c: u8, d: u8) -> int {
    a * 0x100_0000 + b * 0x1_0000 + c * 0x100 + d
}

/// The number whose big-endian 16-bit groups are `a:b:c:d:e:f:g:h`.
pub open spec fn ipv6_bits(a: u16, b: u16, c: u16, d: u16, e: u16, f: u16, g: u16, h: u16) -> int {
    a * 0x1_0000_0000_0000_0000_0000_0000_0000 + b * 0x1_0000_0000_0000_0000_0000_0000 + c
        * 0x1_0000_0000_0000_0000_0000 + d * 0x1_0000_0000_0000_0000 + e * 0x1_0000_0000_0000 + f
        * 0x1_0000_0000 + g * 0x1_0000 + h
}

/// An IPv4 address, held as its 32-bit number.
#[derive(Clone, Copy, Debug, PartialEq, Eq, Hash, Structural)]
pub struct Ipv4Address {
    pub bits: u32,
}

/// An IPv6 address, held as its 128-bit number.
#[derive(Clone, Copy, Debug, PartialEq, Eq, Hash, Structural)]
pub struct Ipv6Address {
    pub bits: u128,
}

impl Ipv4Address {
    /// `0.0.0.0`: any interface.
    pub fn unspecified() -> (r: Ipv4Address)
        ensures
            r.bits == 0,
    {
        Ipv4Address { bits: 0 }
    }

    /// The address `a.b.c.d`.
    pub fn new(a: u8, b: u8, c: u8, d: u8) -> (r: Ipv4Address)
        ensures
            r.bits == ipv4_bits(a, b, c, d),
    {
        let bits: u32 = ((a as u32) << 24) | ((b as u32) << 16) | ((c as u32) << 8) | (d as u32);
        assert(bits == (a as u32) * 0x100_0000 + (b as u32) * 0x1_0000 + (c as u32) * 0x100 + (
        d as u32)) by (bit_vector)
            requires
                bits == ((a as u32) << 24) | ((b as u32) << 16) | ((c as u32) << 8) | (d as u32),
        ;
        Ipv4Address { bits }
    }

    /// The four bytes of the address, most significant first.
    pub fn octets(&self) -> (o: [u8; 4])
        ensures
            ipv4_bits(o[0], o[1], o[2], o[3]) == self.bits,
    {
        let bits: u32 = self.bits;
        let a: u8 = (bits >> 24) as u8;
        let b: u8 = ((bits >> 16) & 0xff) as u8;
        let c: u8 = ((bits >> 8) & 0xff) as u8;
        let d: u8 = (bits & 0xff) as u8;
        assert(bits == (a as u32) * 0x100_0000 + (b as u32) * 0x1_0000 + (c as u32) * 0x100 + (
        d as u32)) by (bit_vector)
            requires
                a == (bits >> 24) as u8,
                b == ((bits >> 16) & 0xff) as u8,
                c == ((bits >> 8) & 0xff) as u8,
                d == (bits & 0xff) as u8,
        ;
        [a, b, c, d]
    }

    /// Whether the address is `0.0.0.0`.
    pub fn is_unspecified(&self) -> (r: bool)
        ensures
            r == (self.bits == 0),
    {
        self.bits == 0
    }
}

impl Ipv6Address {
    /// `::`: any interface.
    pub fn unspecified() -> (r: Ipv6Address)
        ensures
            r.bits == 0,
    {
        Ipv6Address { bits: 0 }
    }

    /// The address `a:b:c:d:e:f:g:h`.
    pub fn new(a: u16, b: u16, c: u16, d: u16, e: u16, f: u16, g: u16, h: u16) -> (r: Ipv6Address)
        ensures
            r.bits == ipv6_bits(a, b, c, d, e, f, g, h),
    {
        let bits: u128 = ((a as u128) << 112) | ((b as u128) << 96) | ((c as u128) << 80) | ((
        d as u128) << 64) | ((e as u128) << 48) | ((f as u128) << 32) | ((g as u128) << 16) | (
        h as u128);
        assert(bits == (a as u128) * 0x1_0000_0000_0000_0000_0000_0000_0000 + (b as u128)
            * 0x1_0000_0000_0000_0000_0000_0000 + (c as u128) * 0x1_0000_0000_0000_0000_0000 + (
        d as u128) * 0x1_0000_0000_0000_0000 + (e as u128) * 0x1_0000_0000_0000 + (f as u128)
            * 0x1_0000_0000 + (g as u128) * 0x1_0000 + (h as u128)) by (bit_vector)
            requires
                bits == ((a as u128) << 112) | ((b as u128) << 96) | ((c as u128) << 80) | ((
                d as u128) << 64) | ((e as u128) << 48) | ((f as u128) << 32) | ((g as u128) << 16)
                    | (h as u128),
        ;
        Ipv6Address { bits }
    }

    /// The eight 16-bit groups of the address, most significant first.
    pub fn segments(&self) -> (s: [u16; 8])
        ensures
            ipv6_bits(s[0], s[1], s[2], s[3], s[4], s[5], s[6], s[7]) == self.bits,
    {
        let bits: u128 = self.bits;
        let a: u16 = (bits >> 112) as u16;
        let b: u16 = ((bits >> 96) & 0xffff) as u16;
        let c: u16 = ((bits >> 80) & 0xffff) as u16;
        let d: u16 = ((bits >> 64) & 0xffff) as u16;
        let e: u16 = ((bits >> 48) & 0xffff) as u16;
        let f: u16 = ((bits >> 32) & 0xffff) as u16;
        let g: u16 = ((bits >> 16) & 0xffff) as u16;
        let h: u16 = (bits & 0xffff) as u16;
        assert(bits == (a as u128) * 0x1_0000_0000_0000_0000_0000_0000_0000 + (b as u128)
            * 0x1_0000_0000_0000_0000_0000_0000 + (c as u128) * 0x1_0000_0000_0000_0000_0000 + (
        d as u128) * 0x1_0000_0000_0000_0000 + (e as u128) * 0x1_0000_0000_0000 + (f as u128)
            * 0x1_0000_0000 + (g as u128) * 0x1_0000 + (h as u128)) by (bit_vector)
            requires
                a == (bits >> 112) as u16,
                b == ((bits >> 96) & 0xffff) as u16,
                c == ((bits >> 80) & 0xffff) as u16,
                d == ((bits >> 64) & 0xffff) as u16,
                e == ((bits >> 48) & 0xffff) as u16,
                f == ((bits >> 32) & 0xffff) as u16,
                g == ((bits >> 16) & 0xffff) as u16,
                h == (bits & 0xffff) as u16,
        ;
        [a, b, c, d, e, f, g, h]
    }

    /// Whether the address is `::`.
    pub fn is_unspecified(&self) -> (r: bool)
        ensures
            r == (self.bits == 0),
    {
        self.bits == 0
    }
}

/// An address of either family.
#[derive(Clone, Copy, Debug, PartialEq, Eq, Hash, Structural)]
pub enum IpAddress {
    V4(Ipv4Address),
    V6(Ipv6Address),
}

impl IpAddress {
    /// Whether this is an IPv4 address.
    pub fn is_ipv4(&self) -> (r: bool)
        ensures
            r == (*self is V4),
    {
        match self {
            IpAddress::V4(_) => true,
            IpAddress::V6(_) => false,
        }
    }

    /// Whether this is an IPv6 address.
    pub fn is_ipv6(&self) -> (r: bool)
        ensures
            r == (*self is V6),
    {
        match self {
            IpAddress::V4(_) => false,
            IpAddress::V6(_) => true,
        }
    }
}

/// An internet address and a port: where a socket is bound.
#[derive(Clone, Copy, Debug, PartialEq, Eq, Hash, Structural)]
pub struct SocketAddress {
    pub ip: IpAddress,
    pub port: u16,
}

impl SocketAddress {
    /// The address `ip` at `port`.
    pub fn new(ip: IpAddress, port: u16) -> (r: SocketAddress)
        ensures
            r == (SocketAddress { ip, port }),
    {
        SocketAddress { ip, port }
    }

    /// The address without the port.
    pub fn ip(&self) -> (r: IpAddress)
        ensures
            r == self.ip,
    {
        self.ip
    }

    /// The port.
    pub fn port(&self) -> (r: u16)
        ensures
            r == self.port,
    {
        self.port
    }

    /// Whether the address is an IPv4 address.
    pub fn is_ipv4(&self) -> (r: bool)
        ensures
            r == (self.ip is V4),
    {
        self.ip.is_ipv4()
    }

    /// Whether the address is an IPv6 address.
    pub fn is_ipv6(&self) -> (r: bool)
        ensures
            r == (self.ip is V6),
    {
        self.ip.is_ipv6()
    }
}

/// A socket address as the operating system tags it: by family. Only the two
/// internet families are decoded; of any other family the number alone is
/// kept.
#[derive(Clone, Copy, Debug, PartialEq, Eq, Hash, Structural)]
pub enum SockAddress {
    /// An IPv4 address and port.
    Inet(Ipv4Address, u16),
    /// An IPv6 address and port.
    Inet6(Ipv6Address, u16),
    /// An address of the family with this number.
    Other(i32),
}

impl SockAddress {
    /// The address as the operating system tags `addr`.
    pub open spec fn spec_from_std(addr: SocketAddress) -> SockAddress {
        match addr.ip {
            IpAddress::V4(ip) => SockAddress::Inet(ip, addr.port),
            IpAddress::V6(ip) => SockAddress::Inet6(ip, addr.port),
        }
    }

    /// The internet address that this one decodes to, if it is of an
    /// internet family.
    pub open spec fn spec_as_std(self) -> Option<SocketAddress> {
        match self {
            SockAddress::Inet(ip, port) => Some(SocketAddress { ip: IpAddress::V4(ip), port }),
            SockAddress::Inet6(ip, port) => Some(SocketAddress { ip: IpAddress::V6(ip), port }),
            SockAddress::Other(_) => None,
        }
    }

    /// Tags an internet address with its family.
    pub fn from_std(addr: SocketAddress) -> (r: SockAddress)
        ensures
            r == Self::spec_from_std(addr),
            r.spec_as_std() == Some(addr),
    {
        match addr.ip {
            IpAddress::V4(ip) => SockAddress::Inet(ip, addr.port),
            IpAddress::V6(ip) => SockAddress::Inet6(ip, addr.port),
        }
    }

    /// The internet address, or `None` for any other family.
    pub fn as_std(&self) -> (r: Option<SocketAddress>)
        ensures
            r == self.spec_as_std(),
    {
        match *self {
            SockAddress::Inet(ip, port) => Some(SocketAddress { ip: IpAddress::V4(ip), port }),
            SockAddress::Inet6(ip, port) => Some(SocketAddress { ip: IpAddress::V6(ip), port }),
            SockAddress::Other(_) => None,
        }
    }
}

} // verus!
