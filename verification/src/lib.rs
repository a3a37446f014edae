//! Replication bootstrap and health probes of a storage node.
//!
//! [`replication::bootstrap`] decides when a joining node has finished its
//! bootstrap; [`health`] answers the liveness and readiness probes.

pub mod health;
pub mod health_laws;
pub mod replication;
pub mod text;
