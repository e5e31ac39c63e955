use sacn_receiver::{
    create_unix_socket, create_win_socket, join_unix_multicast, join_win_multicast,
    leave_unix_multicast, leave_win_multicast, Domain, Error, IpAddress, Ipv4Address, Ipv6Address,
    Membership, Platform, Protocol, SockAddress, SocketAddress, SocketCommand, SocketSetup,
    SocketType,
};

fn v4(a: u8, b: u8, c: u8, d: u8, port: u16) -> SocketAddress {
    SocketAddress::new(IpAddress::V4(Ipv4Address::new(a, b, c, d)), port)
}

fn v6(last: u16, port: u16) -> SocketAddress {
    SocketAddress::new(IpAddress::V6(Ipv6Address::new(0xFE80, 0, 0, 0, 0, 0, 0, last)), port)
}

#[test]
fn unix_socket_binds_the_given_address() {
    assert_eq!(
        create_unix_socket(v4(192, 168, 1, 3, 9000)),
        SocketSetup {
            domain: Domain::Ipv4,
            socket_type: SocketType::Datagram,
            protocol: Protocol::Udp,
            reuse_port: true,
            reuse_address: true,
            bind_addr: SockAddress::Inet(Ipv4Address::new(192, 168, 1, 3), 9000),
        }
    );
    assert_eq!(
        create_unix_socket(v6(1, 9000)),
        SocketSetup {
            domain: Domain::Ipv6,
            socket_type: SocketType::Datagram,
            protocol: Protocol::Udp,
            reuse_port: true,
            reuse_address: true,
            bind_addr: SockAddress::Inet6(Ipv6Address::new(0xFE80, 0, 0, 0, 0, 0, 0, 1), 9000),
        }
    );
}

#[test]
fn unix_socket_keeps_an_ephemeral_port() {
    let setup = create_unix_socket(v4(127, 0, 0, 1, 0));
    assert_eq!(setup.bind_addr, SockAddress::Inet(Ipv4Address::new(127, 0, 0, 1), 0));
    assert_eq!(setup.bind_addr.as_std(), Some(v4(127, 0, 0, 1, 0)));
    let setup = create_unix_socket(v4(0, 0, 0, 0, 0));
    assert_eq!(setup.bind_addr, SockAddress::Inet(Ipv4Address::new(0, 0, 0, 0), 0));
    let setup = create_unix_socket(v4(0, 0, 0, 0, 5568));
    assert_eq!(setup.bind_addr, SockAddress::Inet(Ipv4Address::new(0, 0, 0, 0), 5568));
}

#[test]
fn windows_socket_binds_the_given_address() {
    assert_eq!(
        create_win_socket(v4(192, 168, 1, 3, 9000)),
        SocketSetup {
            domain: Domain::Ipv4,
            socket_type: SocketType::Datagram,
            protocol: Protocol::Udp,
            reuse_port: false,
            reuse_address: true,
            bind_addr: SockAddress::Inet(Ipv4Address::new(192, 168, 1, 3), 9000),
        }
    );
    assert_eq!(
        create_win_socket(v6(1, 0)),
        SocketSetup {
            domain: Domain::Ipv6,
            socket_type: SocketType::Datagram,
            protocol: Protocol::Udp,
            reuse_port: false,
            reuse_address: true,
            bind_addr: SockAddress::Inet6(Ipv6Address::new(0xFE80, 0, 0, 0, 0, 0, 0, 1), 0),
        }
    );
}

#[test]
fn every_socket_is_a_udp_datagram_socket() {
    for platform in [Platform::Unix, Platform::Windows] {
        for addr in [v4(10, 0, 0, 1, 7000), v6(2, 0)] {
            let setup = platform.create_socket(addr);
            assert_eq!(setup.socket_type, SocketType::Datagram);
            assert_eq!(setup.protocol, Protocol::Udp);
            assert!(setup.reuse_address);
            assert_eq!(setup.bind_addr.as_std(), Some(addr));
        }
    }
}

#[test]
fn platform_picks_its_socket_setup() {
    let addr = v4(10, 0, 0, 1, 7000);
    assert_eq!(Platform::Unix.create_socket(addr), create_unix_socket(addr));
    assert_eq!(Platform::Windows.create_socket(addr), create_win_socket(addr));
    assert_ne!(Platform::Unix.create_socket(addr), Platform::Windows.create_socket(addr));
}

#[test]
fn multicast_support_by_platform_and_family() {
    assert!(Platform::Unix.supports_multicast(&v4(10, 0, 0, 1, 1)));
    assert!(Platform::Unix.supports_multicast(&v6(1, 1)));
    assert!(Platform::Windows.supports_multicast(&v4(10, 0, 0, 1, 1)));
    assert!(!Platform::Windows.supports_multicast(&v6(1, 1)));
}

#[test]
fn unix_joins_ipv4_group_on_the_interface() {
    let group = SockAddress::Inet(Ipv4Address::new(239, 255, 0, 1), 5568);
    let interface = IpAddress::V4(Ipv4Address::new(192, 168, 1, 3));
    let membership = Membership::V4 {
        group: Ipv4Address::new(239, 255, 0, 1),
        interface: Ipv4Address::new(192, 168, 1, 3),
    };
    assert_eq!(join_unix_multicast(group, interface), Ok(SocketCommand::JoinMulticast(membership)));
    assert_eq!(
        leave_unix_multicast(group, interface),
        Ok(SocketCommand::LeaveMulticast(membership))
    );
}

#[test]
fn unix_joins_ipv6_group_on_any_interface() {
    let ip = Ipv6Address::new(0xFF18, 0, 0, 0, 0, 0, 0x8300, 7);
    let group = SockAddress::Inet6(ip, 5568);
    let interface = IpAddress::V6(Ipv6Address::new(0xFE80, 0, 0, 0, 0, 0, 0, 1));
    let membership = Membership::V6 { group: ip, interface: 0 };
    assert_eq!(join_unix_multicast(group, interface), Ok(SocketCommand::JoinMulticast(membership)));
    assert_eq!(
        leave_unix_multicast(group, interface),
        Ok(SocketCommand::LeaveMulticast(membership))
    );
}

#[test]
fn unix_refuses_mixed_families() {
    let group_v4 = SockAddress::Inet(Ipv4Address::new(239, 255, 0, 1), 5568);
    let group_v6 = SockAddress::Inet6(Ipv6Address::new(0xFF18, 0, 0, 0, 0, 0, 0x8300, 1), 5568);
    let interface_v4 = IpAddress::V4(Ipv4Address::new(192, 168, 1, 3));
    let interface_v6 = IpAddress::V6(Ipv6Address::new(0xFE80, 0, 0, 0, 0, 0, 0, 1));
    assert_eq!(join_unix_multicast(group_v4, interface_v6), Err(Error::IpVersionError));
    assert_eq!(leave_unix_multicast(group_v4, interface_v6), Err(Error::IpVersionError));
    assert_eq!(join_unix_multicast(group_v6, interface_v4), Err(Error::IpVersionError));
    assert_eq!(leave_unix_multicast(group_v6, interface_v4), Err(Error::IpVersionError));
}

#[test]
fn unix_refuses_other_families() {
    let interface = IpAddress::V4(Ipv4Address::new(192, 168, 1, 3));
    assert_eq!(
        join_unix_multicast(SockAddress::Other(1), interface),
        Err(Error::UnsupportedIpVersion(1))
    );
    assert_eq!(
        leave_unix_multicast(SockAddress::Other(17), interface),
        Err(Error::UnsupportedIpVersion(17))
    );
}

#[test]
fn windows_joins_ipv4_group_on_any_interface() {
    let group = SockAddress::Inet(Ipv4Address::new(239, 255, 0, 1), 5568);
    let membership = Membership::V4 {
        group: Ipv4Address::new(239, 255, 0, 1),
        interface: Ipv4Address::new(0, 0, 0, 0),
    };
    assert_eq!(join_win_multicast(group), Ok(SocketCommand::JoinMulticast(membership)));
    assert_eq!(leave_win_multicast(group), Ok(SocketCommand::LeaveMulticast(membership)));
}

#[test]
fn windows_has_no_ipv6_multicast() {
    let group = SockAddress::Inet6(Ipv6Address::new(0xFF18, 0, 0, 0, 0, 0, 0x8300, 1), 5568);
    assert_eq!(join_win_multicast(group), Err(Error::OsOperationUnsupported));
    assert_eq!(leave_win_multicast(group), Err(Error::OsOperationUnsupported));
}

#[test]
fn windows_refuses_other_families() {
    assert_eq!(join_win_multicast(SockAddress::Other(1)), Err(Error::UnsupportedIpVersion(1)));
    assert_eq!(leave_win_multicast(SockAddress::Other(-3)), Err(Error::UnsupportedIpVersion(-3)));
}

#[test]
fn platform_dispatches_join_and_leave() {
    let group = SockAddress::Inet(Ipv4Address::new(239, 255, 0, 9), 5568);
    let interface = IpAddress::V4(Ipv4Address::new(10, 1, 2, 3));
    assert_eq!(
        Platform::Unix.join_multicast(group, interface),
        join_unix_multicast(group, interface)
    );
    assert_eq!(
        Platform::Unix.leave_multicast(group, interface),
        leave_unix_multicast(group, interface)
    );
    assert_eq!(Platform::Windows.join_multicast(group, interface), join_win_multicast(group));
    assert_eq!(Platform::Windows.leave_multicast(group, interface), leave_win_multicast(group));
    assert_ne!(
        Platform::Unix.join_multicast(group, interface),
        Platform::Windows.join_multicast(group, interface)
    );
}
