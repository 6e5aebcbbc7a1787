//! Feed synchronization engine for exchange market data: a price-level order
//! book, the snapshot/delta reconciliation protocol that keeps it consistent,
//! trade de-duplication, and the decision logic of feed sessions and their
//! supervisor. Transport, persistence and telemetry live outside this crate.
pub mod backoff;
pub mod book;
pub mod clock;
pub mod config;
pub mod decimal;
pub mod dedup;
pub mod poller;
pub mod reconciler;
pub mod rest;
pub mod router;
pub mod session;
pub mod supervisor;
pub mod wire;
