//! Points in time on the monotonic clock of one node.

use vstd::prelude::*;

verus! {

/// Nanoseconds in a second.
pub const NANOS_PER_SEC: u128 = 1_000_000_000;

/// A point in time: nanoseconds since the clock it was read from was started.
#[derive(Debug, Clone, Copy)]
pub struct Timestamp {
    pub nanos: u128,
}

impl Timestamp {
    /// Nanoseconds from `earlier` to `self`, and zero if `earlier` is the later one.
    pub open spec fn since(self, earlier: Timestamp) -> nat {
        if self.nanos >= earlier.nanos {
            (self.nanos - earlier.nanos) as nat
        } else {
            0
        }
    }

    /// Nanoseconds from `earlier` to `self`, saturating at zero.
    pub fn saturating_duration_since(self, earlier: Timestamp) -> (nanos: u128)
        ensures
            nanos == self.since(earlier),
            self.nanos >= earlier.nanos ==> nanos == self.nanos - earlier.nanos,
            self.nanos <= earlier.nanos ==> nanos == 0,
    {
        if self.nanos >= earlier.nanos {
            self.nanos - earlier.nanos
        } else {
            0
        }
    }
}

/// `std::time::Instant`, carried through as an opaque value.
#[verifier::external_type_specification]
#[verifier::external_body]
pub struct ExInstant(std::time::Instant);

/// Calls `std::time::Instant::now`. Which instant that is depends on when it is
/// called, so nothing is claimed of it.
#[verifier::external_body]
fn instant_now() -> (now: std::time::Instant) {
    std::time::Instant::now()
}

/// Calls `std::time::Instant::elapsed` on `start` and gives the time as a number
/// of nanoseconds. How much that is depends on when it is called, so nothing is
/// claimed of it.
#[verifier::external_body]
fn nanos_since(start: &std::time::Instant) -> (nanos: u128) {
    start.elapsed().as_nanos()
}

/// The monotonic clock that a node's timestamps are read from.
#[derive(Debug, Clone, Copy)]
pub struct Clock {
    start: std::time::Instant,
}

impl Clock {
    /// Whether the clock was started at an instant that `std::time::Instant::now`
    /// gave.
    pub closed spec fn was_started(self) -> bool {
        call_ensures(instant_now, (), self.start)
    }

    /// Whether `now` is a time that was read off this clock: what
    /// `std::time::Instant::elapsed` gave for the instant of its start.
    pub closed spec fn shows(self, now: Timestamp) -> bool {
        call_ensures(nanos_since, (&self.start,), now.nanos)
    }

    /// A clock that starts at the present instant.
    pub fn start() -> (clock: Clock)
        ensures
            clock.was_started(),
    {
        Clock { start: instant_now() }
    }

    /// The present time on this clock. It may be any time: the contracts of the
    /// functions that read the clock hold whichever it is.
    pub fn now(&self) -> (now: Timestamp)
        ensures
            self.shows(now),
    {
        Timestamp { nanos: nanos_since(&self.start) }
    }
}

/// Law: a clock shows what `std::time::Instant::elapsed` gives for the instant of
/// its start and nothing else, and that instant is one that
/// `std::time::Instant::now` gave.
proof fn law_clock_shows_elapsed_time(clock: Clock, now: Timestamp)
    ensures
        clock.shows(now) <==> call_ensures(nanos_since, (&clock.start,), now.nanos),
        clock.was_started() <==> call_ensures(instant_now, (), clock.start),
{
}

} // verus!
