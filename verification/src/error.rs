//! The ways in which a session, or a call on the client, can fail.

use crate::packet::ConnectReturnCode;
use vstd::prelude::*;

verus! {

/// `std::io::Error`, the failure of a sink. The library carries it through
/// as it is and claims nothing of what it holds.
#[verifier::external_type_specification]
#[verifier::external_body]
pub struct ExIoError(std::io::Error);

/// Failure of a call on the library that no network is part of.
#[derive(Clone, Copy, Debug, PartialEq, Eq, Structural)]
pub enum Error {
    /// The topic is empty, too long, or holds a wildcard.
    InvalidTopic,
    /// As many publications are unacknowledged as the queue admits.
    QueueFull,
    /// The event loop is gone.
    Closed,
}

pub type Result<T> = std::result::Result<T, Error>;

/// Failure of a session. All but `Interleave` end the run of the event loop.
#[derive(Debug)]
pub enum NetworkError {
    /// The transport could not be established.
    Transport,
    /// The sink of the transport failed.
    Io(std::io::Error),
    /// A packet was malformed, unexpected, or named an unknown identifier.
    Protocol,
    /// The broker refused CONNECT.
    ConnectionRefused(ConnectReturnCode),
    /// No PINGRESP came within the keep-alive interval.
    KeepAliveTimeout,
    /// The inbound side of the transport ended.
    NetworkClosed,
    /// The user asked for a disconnect; the session may be set up again.
    UserDisconnect,
    /// The user asked for the end of the client.
    Shutdown,
    /// No failure: the control plane has nothing to say and the data plane is polled.
    Interleave,
}

} // verus!
