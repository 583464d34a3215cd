//! A verified core for a single-topic streaming relay.
//!
//! The relay copies messages from a topic on a source messaging cluster to
//! the same-named topic on a destination cluster. This crate holds the
//! decision logic of that pipeline — converting polled messages to records,
//! batching them for the destination, checking per-record write
//! confirmations, and resolving the configuration — with contracts proved
//! by Verus. The surrounding process (network clients, the handoff channel,
//! the two loop drivers) lives outside the crate and hands plain values in
//! and out.

pub mod batch;
pub mod config;
pub mod confirm;
pub mod reader;
pub mod record;
