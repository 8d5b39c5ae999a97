//! Client-side library for a local object-store daemon reached over IPC.
//!
//! The crate models one client session: connecting to the daemon, tearing the
//! session down, observing liveness, and fetching object metadata with a local
//! cache. All I/O is performed by the embedding program; the library makes
//! every decision (when a round trip is needed, what each daemon answer means
//! for the session and the cache) as verified code over plain values.

pub mod errors;
pub mod object;
pub mod protocol;
pub mod ipc_client;
pub mod laws;
