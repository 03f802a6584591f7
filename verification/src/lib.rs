//! Retry-and-reconciliation engine for outbound webhook delivery.
//!
//! When a webhook delivery attempt fails, a durable job store re-drives the
//! delivery through this engine. The engine decides when to retry (a step
//! function over a configurable schedule), what payload to send (a stored
//! request is replayed verbatim; a legacy event is rebuilt from the resource's
//! current state), and whether a retry is still valid (a retry is aborted when
//! the resource has moved to a different state since the retry was scheduled).

pub mod event_log;
pub mod fetcher;
pub mod ids;
pub mod schedule;
pub mod types;
pub mod workflow;

