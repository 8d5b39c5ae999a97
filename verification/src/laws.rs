//! Laws of the client, proved once over the transition functions of
//! [`crate::ipc_client`]. Each executable method is proved to follow those
//! transitions exactly, so every law here holds of every sequence of calls.

use vstd::prelude::*;
use crate::errors::ConnectionError;
use crate::errors::MetaError;
use crate::ipc_client::connect_decision;
use crate::ipc_client::disconnect_transition;
use crate::ipc_client::fetch_transition;
use crate::ipc_client::fresh_client;
use crate::ipc_client::handshake_transition;
use crate::ipc_client::meta_decision;
use crate::ipc_client::ClientView;
use crate::object::MetaView;
use crate::object::ObjectID;
use crate::protocol::ConnectDecision;
use crate::protocol::FetchReport;
use crate::protocol::HandshakeOutcome;
use crate::protocol::MetaDecision;

verus! {

/// For an object id never fetched, `get_meta_data(id, false)` on a connected
/// client performs exactly one round trip — the decision is a fetch, not a
/// cache answer — and a successful fetch populates the cache with the
/// payload, so that the same call afterwards is answered from the cache with
/// no further round trip.
pub proof fn lemma_cold_fetch_round_trip(v: ClientView, id: ObjectID, payload: Seq<char>)
    requires
        v.session is Some,
        !v.cache.contains_key(id),
    ensures
        meta_decision(v, id, false) == MetaDecision::Fetch(id, false),
        fetch_transition(v, id, FetchReport::Found(payload)).0.cache.contains_key(id),
        fetch_transition(v, id, FetchReport::Found(payload)).0.cache[id] == payload,
        meta_decision(fetch_transition(v, id, FetchReport::Found(payload)).0, id, false)
            == MetaDecision::Ready(
            Ok(MetaView { meta: payload, client: v.session }),
        ),
{
}

/// For an object id already in the cache, `get_meta_data(id, false)` on a
/// connected client is answered from the cache — zero round trips — with
/// exactly the cached payload.
pub proof fn lemma_cache_hit_no_round_trip(v: ClientView, id: ObjectID)
    requires
        v.session is Some,
        v.cache.contains_key(id),
    ensures
        meta_decision(v, id, false) == MetaDecision::Ready(
            Ok(MetaView { meta: v.cache[id], client: v.session }),
        ),
{
}

/// `get_meta_data(id, true)` on a connected client always performs a round
/// trip, whatever the cache holds.
pub proof fn lemma_sync_remote_always_fetches(v: ClientView, id: ObjectID)
    requires
        v.session is Some,
    ensures
        meta_decision(v, id, true) == MetaDecision::Fetch(id, true),
{
}

/// `connected()` is false before any connect, true after a successful
/// connect, and false again after a disconnect.
pub proof fn lemma_connected_lifecycle(v: ClientView, sid: u64)
    ensures
        fresh_client().session is None,
        v.session is None ==> handshake_transition(v, HandshakeOutcome::Established(sid)).0.session
            == Some(sid),
        disconnect_transition(v).session is None,
{
}

/// `disconnect()` followed by `disconnect()` is a no-op the second time: the
/// state after one disconnect is already the state every disconnect leaves
/// behind, and the call returns nothing, so there is neither an error nor a
/// side effect.
pub proof fn lemma_disconnect_idempotent(v: ClientView)
    ensures
        disconnect_transition(disconnect_transition(v)) == disconnect_transition(v),
{
}

/// `get_meta_data` called while Disconnected answers `NotConnected` at once
/// — the decision is never a fetch, so no I/O is performed — and even a
/// stray fetch outcome applied while Disconnected changes nothing.
pub proof fn lemma_disconnected_fails_fast(
    v: ClientView,
    id: ObjectID,
    sync_remote: bool,
    report: FetchReport,
)
    requires
        v.session is None,
    ensures
        meta_decision(v, id, sync_remote) == MetaDecision::Ready(
            Err::<MetaView, MetaError>(MetaError::NotConnected),
        ),
        fetch_transition(v, id, report).0 == v,
        fetch_transition(v, id, report).1 == Err::<MetaView, MetaError>(MetaError::NotConnected),
{
}

/// Connecting an already-Connected client succeeds again with the same
/// session id and is a no-op: no handshake is asked for, the state — the
/// cache in particular — is untouched whatever outcome is applied, so a
/// record cached before the second connect is still answered from the cache.
pub proof fn lemma_reconnect_keeps_cache(
    v: ClientView,
    explicit: Seq<char>,
    fallback: Option<Seq<char>>,
    outcome: HandshakeOutcome,
    id: ObjectID,
)
    requires
        v.session is Some,
        v.cache.contains_key(id),
    ensures
        connect_decision(v, explicit, fallback) == ConnectDecision::AlreadyConnected(v.session->0),
        handshake_transition(v, outcome).0 == v,
        handshake_transition(v, outcome).1 == Ok::<u64, ConnectionError>(v.session->0),
        meta_decision(handshake_transition(v, outcome).0, id, false) == MetaDecision::Ready(
            Ok(MetaView { meta: v.cache[id], client: v.session }),
        ),
{
}

/// Disconnecting and then connecting anew yields a session whose cache is
/// empty — a fresh session never trusts an old one's metadata — so the first
/// `get_meta_data(id, false)` of the new session is forced onto the wire.
pub proof fn lemma_new_session_fetches_fresh(v: ClientView, sid: u64, id: ObjectID)
    ensures
        handshake_transition(disconnect_transition(v), HandshakeOutcome::Established(sid)).0.cache
            == Map::<ObjectID, Seq<char>>::empty(),
        meta_decision(
            handshake_transition(disconnect_transition(v), HandshakeOutcome::Established(sid)).0,
            id,
            false,
        ) == MetaDecision::Fetch(id, false),
{
    assert(!Map::<ObjectID, Seq<char>>::empty().contains_key(id));
}

/// A fetch that fails — the daemon reports the id missing, the channel
/// fails, the response cannot be decoded, or the deadline expires — leaves
/// the session and the cache exactly as they were, so the caller may simply
/// retry; in particular a timed-out fetch on a connected client returns
/// `Timeout` without poisoning the cache.
pub proof fn lemma_failed_fetch_leaves_state(v: ClientView, id: ObjectID, report: FetchReport)
    requires
        !(report is Found),
    ensures
        fetch_transition(v, id, report).0 == v,
        v.session is Some && report is TimedOut ==> fetch_transition(v, id, report).1
            == Err::<MetaView, MetaError>(MetaError::Timeout),
{
}

} // verus!
