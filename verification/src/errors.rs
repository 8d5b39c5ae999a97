//! Error taxonomy of the client: session establishment failures and
//! metadata-retrieval failures are kept apart so that callers can tell
//! lifecycle misuse, absent objects and infrastructure trouble from each other.

use vstd::prelude::*;

verus! {

/// Why `connect` failed. Connection failures are never retried internally:
/// repeated connects are cheap and idempotent, so retry policy belongs to the
/// caller.
#[derive(Clone, Copy, Debug, PartialEq, Eq, Structural)]
pub enum ConnectionError {
    /// No socket address was given and no default was available.
    AddressUnresolved,
    /// The daemon socket exists but this process may not open it.
    PermissionDenied,
    /// The socket is missing or the daemon did not answer the handshake.
    DaemonUnreachable,
    /// The daemon speaks an incompatible protocol version.
    HandshakeVersionMismatch,
    /// The caller's deadline expired before the handshake completed.
    Timeout,
}

/// Why `get_meta_data` failed. `NotConnected` marks lifecycle misuse,
/// `NotFound` a valid query for an absent object, the rest infrastructure
/// trouble; retry logic may treat `NotFound` as terminal and `Transport` as
/// retryable.
#[derive(Clone, Copy, Debug, PartialEq, Eq, Structural)]
pub enum MetaError {
    /// The client is Disconnected; no request was issued.
    NotConnected,
    /// The daemon reports that no object has the requested id.
    NotFound,
    /// The channel failed: socket closed or the response never arrived.
    Transport,
    /// The daemon's response could not be decoded into a metadata record.
    Protocol,
    /// The caller's deadline expired before the response arrived.
    Timeout,
}

} // verus!
