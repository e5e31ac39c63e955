//! Transport core of a streaming-ACN (E1.31) receiver, written without I/O.
//!
//! The crate decides; its caller performs. Every operation that reaches the
//! operating system is returned as a plain value (a [`SocketSetup`] or a
//! [`SocketCommand`]) that the caller carries out on the socket it owns. What
//! the socket reports comes back as plain values as well.

pub mod error;
pub mod net;
pub mod platform;
pub mod receiver;
pub mod universe;

pub use error::{io_result, Error, IoErrorKind};
pub use net::{IpAddress, Ipv4Address, Ipv6Address, SockAddress, SocketAddress};
pub use platform::{
    create_unix_socket, create_win_socket, join_unix_multicast, join_win_multicast,
    leave_unix_multicast, leave_win_multicast, Domain, Membership, Platform, Protocol,
    SocketCommand, SocketSetup, SocketType,
};
pub use receiver::{
    timeout_command, SacnNetworkReceiver, DMX_PAYLOAD_SIZE, RCV_BUF_DEFAULT_SIZE,
};
pub use universe::{
    is_universe_in_range, universe_to_ipv4_multicast_addr, universe_to_ipv6_multicast_addr,
    ACN_SDT_MULTICAST_PORT, E131_MAX_MULTICAST_UNIVERSE, E131_MIN_MULTICAST_UNIVERSE,
};
