//! Replication: what a joining node tracks until its bootstrap has drained.

pub mod bootstrap;
pub mod clock;
pub mod config;
pub mod key_set;
pub mod laws;
pub mod network_wait;
pub mod scheduling;
pub mod source_times;
pub mod types;
