//! Event ingestion and state reconstruction for an NFT marketplace indexer.
//!
//! The library decodes subscription envelopes into transactions, selects the
//! events of the two marketplace protocols, and drives each event through a
//! handler state machine whose commands (storage reads and writes, chain
//! queries, tracing) are carried out by the host program.
pub mod api;
pub mod chain;
pub mod channel;
pub mod envelope;
pub mod handler;
pub mod json;
pub mod laws;
pub mod model;
pub mod protocol;
pub mod reconcile;
pub mod reconnect;
pub mod schedule;
pub mod store;
