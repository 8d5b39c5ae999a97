//! The IPC client: one session to the object-store daemon, with connection
//! lifecycle, a local metadata cache, and the decisions of the metadata
//! retrieval protocol.
//!
//! The session state machine is: Disconnected --successful handshake-->
//! Connected; Connected --disconnect--> Disconnected; Connected --connect-->
//! Connected (idempotent no-op). Any metadata operation attempted while
//! Disconnected fails fast with [`MetaError::NotConnected`] rather than
//! attempting I/O.
//!
//! Every step of every operation is specified by a transition function over
//! [`ClientView`], the mathematical state of the client; the executable
//! methods are proved to follow those transitions exactly.

use vstd::prelude::*;
use std::collections::HashMap;
use crate::errors::ConnectionError;
use crate::errors::MetaError;
use crate::object::MetaView;
use crate::object::ObjectID;
use crate::object::ObjectMeta;
use crate::protocol::ConnectDecision;
use crate::protocol::ConnectStep;
use crate::protocol::FetchOutcome;
use crate::protocol::FetchReport;
use crate::protocol::HandshakeOutcome;
use crate::protocol::MetaDecision;
use crate::protocol::MetaStep;

verus! {

broadcast use vstd::std_specs::hash::group_hash_axioms;

/// Mathematical state of one client: the session identifier while Connected
/// (`None` while Disconnected) and the local cache, a map from object id to
/// the last payload this session fetched for it.
#[verifier::ext_equal]
pub ghost struct ClientView {
    pub session: Option<u64>,
    pub cache: Map<ObjectID, Seq<char>>,
}

/// The state of a client that has never connected: Disconnected, empty cache.
pub open spec fn fresh_client() -> ClientView {
    ClientView { session: None, cache: Map::<ObjectID, Seq<char>>::empty() }
}

/// Socket address resolution: the explicit argument when one is given, else
/// the environment-configured default when one is available, else failure.
pub open spec fn resolve_decision(explicit: Seq<char>, fallback: Option<Seq<char>>) -> Result<
    Seq<char>,
    ConnectionError,
> {
    if explicit.len() > 0 {
        Ok(explicit)
    } else {
        match fallback {
            Some(d) => if d.len() > 0 {
                Ok(d)
            } else {
                Err(ConnectionError::AddressUnresolved)
            },
            None => Err(ConnectionError::AddressUnresolved),
        }
    }
}

/// What `connect` decides before anything happens on the wire: a no-op
/// success while Connected, otherwise a handshake to the resolved address,
/// otherwise failure.
pub open spec fn connect_decision(
    v: ClientView,
    explicit: Seq<char>,
    fallback: Option<Seq<char>>,
) -> ConnectDecision {
    match v.session {
        Some(sid) => ConnectDecision::AlreadyConnected(sid),
        None => match resolve_decision(explicit, fallback) {
            Ok(addr) => ConnectDecision::Handshake(addr),
            Err(e) => ConnectDecision::Refused(e),
        },
    }
}

/// How a handshake outcome moves the state, and what `connect` then returns.
/// A client that was already Connected ignores the outcome: reconnecting is a
/// no-op success that keeps the session and the cache. A fresh session starts
/// with an empty cache — it never trusts an old session's metadata. On
/// failure the state stays Disconnected, so the call is safe to retry.
pub open spec fn handshake_transition(v: ClientView, outcome: HandshakeOutcome) -> (
    ClientView,
    Result<u64, ConnectionError>,
) {
    match v.session {
        Some(sid) => (v, Ok(sid)),
        None => match outcome {
            HandshakeOutcome::Established(sid) => (
                ClientView { session: Some(sid), cache: Map::<ObjectID, Seq<char>>::empty() },
                Ok(sid),
            ),
            HandshakeOutcome::VersionMismatch => (
                v,
                Err(ConnectionError::HandshakeVersionMismatch),
            ),
            HandshakeOutcome::Unreachable => (v, Err(ConnectionError::DaemonUnreachable)),
            HandshakeOutcome::AccessDenied => (v, Err(ConnectionError::PermissionDenied)),
            HandshakeOutcome::TimedOut => (v, Err(ConnectionError::Timeout)),
        },
    }
}

/// What `disconnect` leaves behind, from any state: Disconnected, empty
/// cache. Idempotent by construction.
pub open spec fn disconnect_transition(v: ClientView) -> ClientView {
    ClientView { session: None, cache: Map::<ObjectID, Seq<char>>::empty() }
}

/// What `get_meta_data` decides: fail fast while Disconnected; answer from
/// the cache when the caller accepts possibly stale data and the cache holds
/// the id; otherwise one round trip, authoritative exactly when the caller
/// asked to sync with the remote copy.
pub open spec fn meta_decision(v: ClientView, id: ObjectID, sync_remote: bool) -> MetaDecision {
    match v.session {
        None => MetaDecision::Ready(Err(MetaError::NotConnected)),
        Some(sid) => if !sync_remote && v.cache.contains_key(id) {
            MetaDecision::Ready(Ok(MetaView { meta: v.cache[id], client: Some(sid) }))
        } else {
            MetaDecision::Fetch(id, sync_remote)
        },
    }
}

/// How a fetch outcome moves the state, and what `get_meta_data` then
/// returns. Only a successful fetch touches the cache (overwriting any prior
/// entry for the id); every failure leaves the state exactly as it was, so a
/// retry by the caller is safe and a timed-out fetch cannot poison the cache.
pub open spec fn fetch_transition(v: ClientView, id: ObjectID, report: FetchReport) -> (
    ClientView,
    Result<MetaView, MetaError>,
) {
    match v.session {
        None => (v, Err(MetaError::NotConnected)),
        Some(sid) => match report {
            FetchReport::Found(payload) => (
                ClientView { session: Some(sid), cache: v.cache.insert(id, payload) },
                Ok(MetaView { meta: payload, client: Some(sid) }),
            ),
            FetchReport::Missing => (v, Err(MetaError::NotFound)),
            FetchReport::ChannelFailed => (v, Err(MetaError::Transport)),
            FetchReport::Malformed => (v, Err(MetaError::Protocol)),
            FetchReport::TimedOut => (v, Err(MetaError::Timeout)),
        },
    }
}

/// The payload-sequence view of an optional environment default.
pub open spec fn fallback_view(fallback: Option<String>) -> Option<Seq<char>> {
    match fallback {
        Some(d) => Some(d@),
        None => None,
    }
}

/// The mathematical value of what `get_meta_data` returns.
pub open spec fn meta_result_view(r: Result<ObjectMeta, MetaError>) -> Result<
    MetaView,
    MetaError,
> {
    match r {
        Ok(m) => Ok(m@),
        Err(e) => Err(e),
    }
}

/// One IPC session to the object-store daemon.
///
/// A client is either Disconnected or Connected. It exclusively owns its
/// local cache; the cache is mutated only by this client's own calls and is
/// never shared across clients. One instance is one session: it is not
/// internally synchronized, so concurrent callers must serialize access or
/// hold one client each.
///
/// The client itself never performs I/O: `connect` and `get_meta_data` hand
/// the embedding program a step value naming the one exchange to perform on
/// the wire, and `finish_connect` / `finish_fetch` apply the outcome.
/// `disconnect` and `connected` never block.
#[derive(Debug)]
pub struct IPCClient {
    session: Option<u64>,
    cache: HashMap<ObjectID, String>,
}

impl View for IPCClient {
    type V = ClientView;

    closed spec fn view(&self) -> ClientView {
        ClientView {
            session: self.session,
            cache: self.cache@.map_values(|s: String| s@),
        }
    }
}

impl IPCClient {
    /// A client owns its cache alone: whenever it is Disconnected, the cache
    /// is empty. `new` establishes this and every method preserves it.
    pub open spec fn wf(self) -> bool {
        self@.session is None ==> self@.cache == Map::<ObjectID, Seq<char>>::empty()
    }

    /// A fresh client: Disconnected, never connected, empty cache.
    pub fn new() -> (c: IPCClient)
        ensures
            c@ == fresh_client(),
            c.wf(),
    {
        let c = IPCClient { session: None, cache: HashMap::new() };
        proof {
            assert(c@.cache =~= Map::<ObjectID, Seq<char>>::empty());
            assert(c@ =~= fresh_client());
        }
        c
    }

    /// Pure observation of the session state: true exactly while Connected.
    /// Never performs I/O and never probes the transport; it reflects the
    /// last known state.
    pub fn connected(&self) -> (b: bool)
        ensures
            b == (self@.session is Some),
    {
        self.session.is_some()
    }

    /// Tears the session down: Disconnected, empty cache, from any state.
    /// Idempotent — calling it while already Disconnected changes nothing —
    /// and it never fails observably and never blocks. The embedding closes
    /// the underlying transport; any close error is best-effort logged there,
    /// never propagated, since disconnection runs on shutdown paths with no
    /// useful recovery.
    pub fn disconnect(&mut self)
        ensures
            final(self)@ == disconnect_transition(old(self)@),
            final(self).wf(),
    {
        self.session = None;
        self.cache.clear();
        proof {
            assert(self@.cache =~= Map::<ObjectID, Seq<char>>::empty());
            assert(self@ =~= disconnect_transition(old(self)@));
        }
    }

    /// Begins `connect`: decides what must happen on the wire, without
    /// touching it. While Connected this is an idempotent no-op success.
    /// While Disconnected it resolves the socket address — the explicit
    /// `socket` argument when non-empty, else the environment-configured
    /// default the embedding passes in `fallback` — and asks the embedding to
    /// perform the handshake; with no address it refuses. The outcome of the
    /// handshake goes to [`IPCClient::finish_connect`].
    pub fn connect(&self, socket: &str, fallback: Option<String>) -> (step: ConnectStep)
        ensures
            step@ == connect_decision(self@, socket@, fallback_view(fallback)),
    {
        match self.session {
            Some(sid) => ConnectStep::AlreadyConnected(sid),
            None => {
                if socket.unicode_len() > 0 {
                    ConnectStep::Handshake(socket.to_owned())
                } else {
                    match fallback {
                        Some(d) => {
                            if d.as_str().unicode_len() > 0 {
                                ConnectStep::Handshake(d)
                            } else {
                                ConnectStep::Refused(ConnectionError::AddressUnresolved)
                            }
                        },
                        None => ConnectStep::Refused(ConnectionError::AddressUnresolved),
                    }
                }
            },
        }
    }

    /// Completes `connect` with the handshake outcome. On success the client
    /// becomes Connected under the granted session id and the cache is
    /// cleared: a fresh session never trusts an old one's cached metadata.
    /// On failure the client stays Disconnected with the matching
    /// [`ConnectionError`], so the call is safe to retry. If the client was
    /// already Connected the outcome is ignored and the current session id is
    /// returned: reconnecting is a no-op success that keeps the cache.
    pub fn finish_connect(&mut self, outcome: HandshakeOutcome) -> (r: Result<
        u64,
        ConnectionError,
    >)
        ensures
            final(self)@ == handshake_transition(old(self)@, outcome).0,
            r == handshake_transition(old(self)@, outcome).1,
            old(self).wf() ==> final(self).wf(),
    {
        match self.session {
            Some(sid) => Ok(sid),
            None => match outcome {
                HandshakeOutcome::Established(sid) => {
                    self.session = Some(sid);
                    self.cache.clear();
                    proof {
                        assert(self@.cache =~= Map::<ObjectID, Seq<char>>::empty());
                        assert(self@ =~= handshake_transition(old(self)@, outcome).0);
                    }
                    Ok(sid)
                },
                HandshakeOutcome::VersionMismatch => Err(
                    ConnectionError::HandshakeVersionMismatch,
                ),
                HandshakeOutcome::Unreachable => Err(ConnectionError::DaemonUnreachable),
                HandshakeOutcome::AccessDenied => Err(ConnectionError::PermissionDenied),
                HandshakeOutcome::TimedOut => Err(ConnectionError::Timeout),
            },
        }
    }

    /// Begins `get_meta_data` for one object id, without touching the wire.
    /// While Disconnected it answers [`MetaError::NotConnected`] at once —
    /// no I/O, no panic, no placeholder result. When the caller passes
    /// `sync_remote = false` and the cache holds the id, it answers a copy of
    /// the cached record at once: possibly stale, in exchange for no round
    /// trip. Otherwise it asks the embedding for one round trip, whose
    /// outcome goes to [`IPCClient::finish_fetch`]. The returned record
    /// carries this session's id as its back-reference.
    pub fn get_meta_data(&self, object_id: ObjectID, sync_remote: bool) -> (step: MetaStep)
        ensures
            step@ == meta_decision(self@, object_id, sync_remote),
    {
        match self.session {
            None => MetaStep::Ready(Err(MetaError::NotConnected)),
            Some(sid) => {
                if !sync_remote {
                    match self.cache.get(&object_id) {
                        Some(payload) => MetaStep::Ready(
                            Ok(ObjectMeta { meta: payload.clone(), client: Some(sid) }),
                        ),
                        None => MetaStep::Fetch(object_id, sync_remote),
                    }
                } else {
                    MetaStep::Fetch(object_id, sync_remote)
                }
            },
        }
    }

    /// Completes `get_meta_data` with the outcome of the round trip. On a
    /// successful fetch the payload is stored in the cache, overwriting any
    /// prior entry for the id, and returned with this session's id as its
    /// back-reference. On every failure — including a timeout — the cache
    /// and the session are left exactly as they were, so the caller may
    /// simply retry. Called while Disconnected it returns
    /// [`MetaError::NotConnected`] and changes nothing.
    pub fn finish_fetch(&mut self, object_id: ObjectID, outcome: FetchOutcome) -> (r: Result<
        ObjectMeta,
        MetaError,
    >)
        ensures
            final(self)@ == fetch_transition(old(self)@, object_id, outcome@).0,
            meta_result_view(r) == fetch_transition(old(self)@, object_id, outcome@).1,
            old(self).wf() ==> final(self).wf(),
    {
        match self.session {
            None => Err(MetaError::NotConnected),
            Some(sid) => match outcome {
                FetchOutcome::Found(payload) => {
                    let record = ObjectMeta { meta: payload.clone(), client: Some(sid) };
                    self.cache.insert(object_id, payload);
                    proof {
                        assert(self@.cache =~= old(self)@.cache.insert(object_id, record@.meta));
                        assert(self@ =~= fetch_transition(old(self)@, object_id, outcome@).0);
                    }
                    Ok(record)
                },
                FetchOutcome::Missing => Err(MetaError::NotFound),
                FetchOutcome::ChannelFailed => Err(MetaError::Transport),
                FetchOutcome::Malformed => Err(MetaError::Protocol),
                FetchOutcome::TimedOut => Err(MetaError::Timeout),
            },
        }
    }
}

} // verus!
