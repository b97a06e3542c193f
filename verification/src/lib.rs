//! Verified core of an edge-facing HTTP(S) front door: a bounded-concurrency
//! admission gate, a shared least-recently-used response cache, a request
//! dispatcher with a metrics counter, the per-connection lifecycle rules, and
//! the TLS material selection logic.

pub mod admission;
pub mod cache;
pub mod config;
pub mod conn;
pub mod dispatch;
pub mod metrics;
pub mod tls;
