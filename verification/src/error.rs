//! The failures that the receiver reports.

use vstd::prelude::*;

verus! {

/// How the operating system classified a failed socket call.
#[derive(Clone, Copy, Debug, PartialEq, Eq, Structural)]
pub enum IoErrorKind {
    /// A non-blocking read found no datagram.
    WouldBlock,
    /// The read timeout passed without a datagram.
    TimedOut,
    /// An argument was refused before the call reached the socket.
    InvalidInput,
    /// The address is already bound and cannot be shared.
    AddrInUse,
    /// The address does not belong to this host.
    AddrNotAvailable,
    /// The process may not perform the call.
    PermissionDenied,
    /// The call was interrupted and may be repeated.
    Interrupted,
    /// Any other failure.
    Other,
}

/// A failure of the receiver.
#[derive(Clone, Copy, Debug, PartialEq, Eq, Structural)]
pub enum Error {
    /// Creating, binding, configuring or reading the socket failed.
    Io(IoErrorKind),
    /// IPv4 and IPv6 were mixed in one operation.
    IpVersionError,
    /// A socket address of a family that is neither IPv4 nor IPv6; the field
    /// is the family's number.
    UnsupportedIpVersion(i32),
    /// The platform cannot do this for the address family.
    OsOperationUnsupported,
    /// The universe, held in the field, lies outside the multicast range.
    InvalidUniverse(u16),
}

impl Error {
    /// True when the error only says that no datagram was available.
    pub open spec fn spec_is_timeout(self) -> bool {
        self == Error::Io(IoErrorKind::WouldBlock) || self == Error::Io(IoErrorKind::TimedOut)
    }

    /// Whether no datagram was available within the configured timeout.
    pub fn is_timeout(&self) -> (r: bool)
        ensures
            r == self.spec_is_timeout(),
    {
        match self {
            Error::Io(IoErrorKind::WouldBlock) => true,
            Error::Io(IoErrorKind::TimedOut) => true,
            _ => false,
        }
    }
}

/// What a socket call returned, as the receiver reports it: a failure of the
/// call becomes the `Io` error of the same kind, and a success stays as it
/// is.
pub fn io_result<T>(outcome: Result<T, IoErrorKind>) -> (r: Result<T, Error>)
    ensures
        match outcome {
            Ok(value) => r == Ok::<T, Error>(value),
            Err(kind) => r == Err::<T, Error>(Error::Io(kind)),
        },
{
    match outcome {
        Ok(value) => Ok(value),
        Err(kind) => Err(Error::Io(kind)),
    }
}

} // verus!
