//! Heterogeneous push-driven event sources — filesystem change notifications,
//! TCP byte reads, UDP datagram reads — presented as uniform pull-based
//! sequences of typed results.
//!
//! This crate holds the verified core of each source: the shared error
//! taxonomy, the translation of raw filesystem notifications into typed
//! events together with the bridge's state machine, and the per-pull
//! decision logic of the two socket sources, including the fixed-capacity
//! receive buffer model. The asynchronous loops that drive these decisions
//! against the operating system live outside the library and feed it plain
//! values.

pub mod error;
pub mod file_system;
pub mod network;
