//! Lifecycle manager for a single long-running background client.
//!
//! The library validates startup configuration into typed identifiers,
//! guarantees that the client run is started at most once per instance,
//! exposes cooperative reload and stop signals, and decides how the run's
//! outcome is reported back to the host.

pub mod config;
pub mod ident;
pub mod instance;
pub mod outcome;
pub mod signals;
