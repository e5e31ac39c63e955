//! From a universe to the multicast group on which its data is sent.
//!
//! E1.31 gives every universe one IPv4 group, `239.255.x.y`, and one IPv6
//! group, `ff18::83:00:x:y`, where `x` and `y` are the high and the low byte
//! of the universe's number.

use vstd::prelude::*;
use crate::error::Error;
use crate::net::{ipv4_bits, ipv6_bits, Ipv4Address, Ipv6Address, SockAddress};

verus! {

/// The lowest universe that data is sent on.
pub const E131_MIN_MULTICAST_UNIVERSE: u16 = 1;

/// The highest universe that data is sent on.
pub const E131_MAX_MULTICAST_UNIVERSE: u16 = 63999;

/// The UDP port on which E1.31 is received.
pub const ACN_SDT_MULTICAST_PORT: u16 = 5568;

/// The first address of the IPv4 block `239.255.0.0/16`.
pub const IPV4_MULTICAST_BLOCK: u32 = 0xEFFF_0000;

/// The first address of the IPv6 block `ff18::83:00:0:0/112`.
pub const IPV6_MULTICAST_BLOCK: u128 = 0xFF18_0000_0000_0000_0000_0000_8300_0000;

/// Whether data may be sent on `universe`.
pub open spec fn universe_in_range(universe: u16) -> bool {
    E131_MIN_MULTICAST_UNIVERSE <= universe <= E131_MAX_MULTICAST_UNIVERSE
}

/// Whether `ip` lies in `239.255.0.0/16`.
pub open spec fn in_ipv4_multicast_block(ip: Ipv4Address) -> bool {
    IPV4_MULTICAST_BLOCK <= ip.bits <= IPV4_MULTICAST_BLOCK + 0xFFFF
}

/// Whether `ip` lies in `ff18::83:00:0:0/112`.
pub open spec fn in_ipv6_multicast_block(ip: Ipv6Address) -> bool {
    IPV6_MULTICAST_BLOCK <= ip.bits <= IPV6_MULTICAST_BLOCK + 0xFFFF
}

/// The IPv4 group of `universe`: `239.255.x.y`.
pub open spec fn ipv4_multicast_group(universe: u16) -> Ipv4Address {
    Ipv4Address {
        bits: ipv4_bits(239, 255, (universe / 256) as u8, (universe % 256) as u8) as u32,
    }
}

/// The IPv6 group of `universe`: `ff18::83:00:x:y`.
pub open spec fn ipv6_multicast_group(universe: u16) -> Ipv6Address {
    Ipv6Address { bits: ipv6_bits(0xFF18, 0, 0, 0, 0, 0, 0x8300, universe) as u128 }
}

/// What `universe_to_ipv4_multicast_addr` returns.
pub open spec fn spec_universe_to_ipv4_multicast_addr(universe: u16) -> Result<SockAddress, Error> {
    if universe_in_range(universe) {
        Ok(SockAddress::Inet(ipv4_multicast_group(universe), ACN_SDT_MULTICAST_PORT))
    } else {
        Err(Error::InvalidUniverse(universe))
    }
}

/// What `universe_to_ipv6_multicast_addr` returns.
pub open spec fn spec_universe_to_ipv6_multicast_addr(universe: u16) -> Result<SockAddress, Error> {
    if universe_in_range(universe) {
        Ok(SockAddress::Inet6(ipv6_multicast_group(universe), ACN_SDT_MULTICAST_PORT))
    } else {
        Err(Error::InvalidUniverse(universe))
    }
}

/// The groups are the universe's number added to the first address of the
/// block, so they lie in the block.
pub proof fn lemma_multicast_group_offset(universe: u16)
    ensures
        ipv4_multicast_group(universe).bits == IPV4_MULTICAST_BLOCK + universe,
        ipv6_multicast_group(universe).bits == IPV6_MULTICAST_BLOCK + universe,
        in_ipv4_multicast_block(ipv4_multicast_group(universe)),
        in_ipv6_multicast_block(ipv6_multicast_group(universe)),
{
}

/// Two different universes never share a group, in either family.
pub proof fn lemma_multicast_groups_distinct(u1: u16, u2: u16)
    requires
        universe_in_range(u1),
        universe_in_range(u2),
        u1 != u2,
    ensures
        ipv4_multicast_group(u1) != ipv4_multicast_group(u2),
        ipv6_multicast_group(u1) != ipv6_multicast_group(u2),
        spec_universe_to_ipv4_multicast_addr(u1) != spec_universe_to_ipv4_multicast_addr(u2),
        spec_universe_to_ipv6_multicast_addr(u1) != spec_universe_to_ipv6_multicast_addr(u2),
{
    lemma_multicast_group_offset(u1);
    lemma_multicast_group_offset(u2);
}

/// Accepts the universes that data is sent on, 1 to 63999, and rejects every
/// other with `InvalidUniverse`.
pub fn is_universe_in_range(universe: u16) -> (r: Result<(), Error>)
    ensures
        universe_in_range(universe) ==> r == Ok::<(), Error>(()),
        !universe_in_range(universe) ==> r == Err::<(), Error>(Error::InvalidUniverse(universe)),
{
    if universe < E131_MIN_MULTICAST_UNIVERSE || universe > E131_MAX_MULTICAST_UNIVERSE {
        return Err(Error::InvalidUniverse(universe));
    }
    Ok(())
}

/// The IPv4 multicast address of `universe`, at the E1.31 port.
///
/// Fails with `InvalidUniverse` exactly when the universe is outside 1 to
/// 63999.
pub fn universe_to_ipv4_multicast_addr(universe: u16) -> (r: Result<SockAddress, Error>)
    ensures
        r == spec_universe_to_ipv4_multicast_addr(universe),
        r is Ok <==> universe_in_range(universe),
        r matches Ok(addr) ==> addr matches SockAddress::Inet(ip, port) && in_ipv4_multicast_block(
            ip,
        ) && ip.bits == IPV4_MULTICAST_BLOCK + universe && port == ACN_SDT_MULTICAST_PORT,
{
    match is_universe_in_range(universe) {
        Err(e) => { return Err(e); },
        Ok(_) => {},
    }
    let high_byte: u8 = ((universe >> 8) & 0xff) as u8;
    let low_byte: u8 = (universe & 0xff) as u8;
    assert(high_byte == (universe / 256) as u8 && low_byte == (universe % 256) as u8)
        by (bit_vector)
        requires
            high_byte == ((universe >> 8) & 0xff) as u8,
            low_byte == (universe & 0xff) as u8,
    ;
    proof {
        lemma_multicast_group_offset(universe);
    }
    Ok(SockAddress::Inet(Ipv4Address::new(239, 255, high_byte, low_byte), ACN_SDT_MULTICAST_PORT))
}

/// The IPv6 multicast address of `universe`, at the E1.31 port.
///
/// Fails with `InvalidUniverse` exactly when the universe is outside 1 to
/// 63999.
pub fn universe_to_ipv6_multicast_addr(universe: u16) -> (r: Result<SockAddress, Error>)
    ensures
        r == spec_universe_to_ipv6_multicast_addr(universe),
        r is Ok <==> universe_in_range(universe),
        r matches Ok(addr) ==> addr matches SockAddress::Inet6(ip, port) && in_ipv6_multicast_block(
            ip,
        ) && ip.bits == IPV6_MULTICAST_BLOCK + universe && port == ACN_SDT_MULTICAST_PORT,
{
    match is_universe_in_range(universe) {
        Err(e) => { return Err(e); },
        Ok(_) => {},
    }
    proof {
        lemma_multicast_group_offset(universe);
    }
    Ok(
        SockAddress::Inet6(
            Ipv6Address::new(0xFF18, 0, 0, 0, 0, 0, 0x8300, universe),
            ACN_SDT_MULTICAST_PORT,
        ),
    )
}

} // verus!
