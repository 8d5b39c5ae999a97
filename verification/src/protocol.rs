//! Plain-value events between the client and the transport that the embedding
//! program drives.
//!
//! The client never touches a socket. When an operation needs a round trip,
//! it hands the embedding a step value saying what to do on the wire; the
//! embedding performs the exchange and hands back an outcome value. Every
//! decision about what an outcome means for the session and the cache is then
//! verified code.

use vstd::prelude::*;
use crate::errors::MetaError;
use crate::object::{MetaView, ObjectID, ObjectMeta};

verus! {

/// Outcome of the handshake exchange that opens a session: the transport was
/// opened to the resolved address and one handshake message was exchanged to
/// validate protocol compatibility and obtain a session identifier.
#[derive(Clone, Copy, Debug, PartialEq, Eq, Structural)]
pub enum HandshakeOutcome {
    /// The daemon accepted the protocol version and granted this session id.
    Established(u64),
    /// The daemon answered with an incompatible protocol version.
    VersionMismatch,
    /// The socket is missing or the daemon did not answer.
    Unreachable,
    /// The socket exists but this process may not open it.
    AccessDenied,
    /// The caller's deadline expired before the handshake completed.
    TimedOut,
}

/// What `connect` asks the embedding to do.
#[derive(Debug)]
pub enum ConnectStep {
    /// The client is already Connected under this session id; reconnecting is
    /// an idempotent no-op success and nothing happens on the wire.
    AlreadyConnected(u64),
    /// Open a transport to this resolved address, perform the handshake, and
    /// hand the outcome to `finish_connect`.
    Handshake(String),
    /// No address could be resolved; `connect` fails without touching the
    /// wire.
    Refused(crate::errors::ConnectionError),
}

/// Mathematical value of a [`ConnectStep`].
#[verifier::ext_equal]
pub ghost enum ConnectDecision {
    AlreadyConnected(u64),
    Handshake(Seq<char>),
    Refused(crate::errors::ConnectionError),
}

impl View for ConnectStep {
    type V = ConnectDecision;

    open spec fn view(&self) -> ConnectDecision {
        match self {
            ConnectStep::AlreadyConnected(sid) => ConnectDecision::AlreadyConnected(*sid),
            ConnectStep::Handshake(addr) => ConnectDecision::Handshake(addr@),
            ConnectStep::Refused(e) => ConnectDecision::Refused(*e),
        }
    }
}

/// Outcome of one metadata round trip: a request keyed by an [`ObjectID`] was
/// sent and its response awaited.
#[derive(Debug)]
pub enum FetchOutcome {
    /// The daemon returned this serialized metadata payload.
    Found(String),
    /// The daemon reports that no object has the requested id.
    Missing,
    /// The channel failed: socket closed or the request could not complete.
    ChannelFailed,
    /// A response arrived but could not be decoded into a metadata record.
    Malformed,
    /// The caller's deadline expired before the response arrived.
    TimedOut,
}

/// Mathematical value of a [`FetchOutcome`].
#[verifier::ext_equal]
pub ghost enum FetchReport {
    Found(Seq<char>),
    Missing,
    ChannelFailed,
    Malformed,
    TimedOut,
}

impl View for FetchOutcome {
    type V = FetchReport;

    open spec fn view(&self) -> FetchReport {
        match self {
            FetchOutcome::Found(payload) => FetchReport::Found(payload@),
            FetchOutcome::Missing => FetchReport::Missing,
            FetchOutcome::ChannelFailed => FetchReport::ChannelFailed,
            FetchOutcome::Malformed => FetchReport::Malformed,
            FetchOutcome::TimedOut => FetchReport::TimedOut,
        }
    }
}

/// What `get_meta_data` asks the embedding to do.
#[derive(Debug)]
pub enum MetaStep {
    /// The call is answered without any round trip: a cache hit, or an error
    /// that forbids touching the wire.
    Ready(Result<ObjectMeta, MetaError>),
    /// Send one metadata request for this id, with the flag that asks the
    /// daemon for authoritative (non-server-cached) data, and hand the
    /// outcome to `finish_fetch`.
    Fetch(ObjectID, bool),
}

/// Mathematical value of a [`MetaStep`].
#[verifier::ext_equal]
pub ghost enum MetaDecision {
    Ready(Result<MetaView, MetaError>),
    Fetch(ObjectID, bool),
}

impl View for MetaStep {
    type V = MetaDecision;

    open spec fn view(&self) -> MetaDecision {
        match self {
            MetaStep::Ready(r) => MetaDecision::Ready(
                match r {
                    Ok(m) => Ok(m@),
                    Err(e) => Err(*e),
                },
            ),
            MetaStep::Fetch(id, authoritative) => MetaDecision::Fetch(*id, *authoritative),
        }
    }
}

} // verus!
