//! Limits of the replication pipeline.

use vstd::prelude::*;

use crate::replication::clock::NANOS_PER_SEC;

verus! {

/// Nanoseconds after which a hint that still waits for verification is stale
/// and leaves the queue: thirty minutes.
pub const PENDING_VERIFY_MAX_AGE: u128 = 30 * 60 * NANOS_PER_SEC;

} // verus!
