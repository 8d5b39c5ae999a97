//! Object identifiers and the metadata records the client hands back.

use vstd::prelude::*;

verus! {

/// A process-wide unique identifier for a stored object: an opaque,
/// comparable, copyable fixed-width token. It does not encode location or
/// type; the store assigns it when an object is created.
pub type ObjectID = u64;

/// Mathematical value of an [`ObjectMeta`]: the metadata payload as a
/// character sequence together with the session back-reference.
#[verifier::ext_equal]
pub ghost struct MetaView {
    pub meta: Seq<char>,
    pub client: Option<u64>,
}

/// The descriptive record of one object as known to this client.
///
/// `meta` is the serialized metadata payload as the daemon reported it.
/// `client` is a non-owning back-reference to the session that produced the
/// record: the session identifier, usable later as a lookup key to resolve
/// buffers through the owning client. It never extends the client's lifetime;
/// `None` marks a record that is detached from any session.
///
/// A record obtained with `sync_remote = false` may be stale relative to the
/// daemon's authoritative state; one obtained with `sync_remote = true`
/// reflects that state as of the call. Records are immutable once returned.
#[derive(Debug)]
pub struct ObjectMeta {
    /// Serialized metadata payload (type tag, size, sealed state, location).
    pub meta: String,
    /// Session identifier of the client that fetched this record, if any.
    pub client: Option<u64>,
}

impl View for ObjectMeta {
    type V = MetaView;

    open spec fn view(&self) -> MetaView {
        MetaView { meta: self.meta@, client: self.client }
    }
}

} // verus!
