//! Egress control for one host: per-application allow-lists decide each
//! outgoing connection, every decision is logged, and the log is shipped to
//! a remote collector on a fixed cadence with bounded retries.

use vstd::prelude::*;

pub mod agent;
pub mod config;
pub mod engine;
pub mod ip;
pub mod log_buffer;
pub mod rule;
pub mod scheduler;
pub mod store;

verus! {

} // verus!
