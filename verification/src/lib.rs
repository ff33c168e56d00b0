//! Verified core of a streaming archive toolkit.
//!
//! An external native engine performs the actual format and codec work; this
//! crate owns everything that can go wrong around it: the classification of
//! engine status codes into a closed error taxonomy, the encoding of extract
//! options into the engine's bitmask, the reference-counted session-handle
//! ledger whose teardown must run exactly once, the pull-callback bridge that
//! feeds the engine from an arbitrary byte source, and the read/write entry
//! lifecycle state machines. The embedder makes the engine calls and hands
//! each returned status to the functions here, which decide what the status
//! means and how the session state changes.
//!
//! The model is single-threaded and synchronous throughout: engine calls
//! block, the bridge callbacks run reentrantly inside whatever engine call is
//! in flight, and session handles are shared by counting owners, not by
//! locking. An embedder spreading one session over several threads must
//! serialize every call and every owner change against that session itself.

pub mod bridge;
pub mod entry;
pub mod flags;
pub mod handle;
pub mod reader;
pub mod status;
pub mod writer;
