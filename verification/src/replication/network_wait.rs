//! The wait of a joining node until its routing table is populated.
//!
//! Bootstrap sync starts only after the network layer has reported that its own
//! bootstrap is complete. A node that never hears of it, because it has no peers
//! or because the channel failed, goes on after a time limit.

use vstd::prelude::*;

verus! {

/// Outcome of the wait.
#[derive(Debug, Clone, Copy, PartialEq, Eq, Structural)]
pub enum BootstrapGateResult {
    /// The event was received: the routing table is populated.
    Received,
    /// The time limit passed or the channel failed: go on all the same.
    TimedOut,
    /// Shutdown was requested while waiting.
    Shutdown,
}

/// What can happen while a node waits.
#[derive(Debug, Clone, Copy, PartialEq, Eq, Structural)]
pub enum WaitEvent {
    /// The network layer has completed its bootstrap, with this many peers in
    /// the routing table.
    BootstrapComplete { num_peers: usize },
    /// The network layer reported something else.
    OtherNetworkEvent,
    /// The channel of network events failed.
    ChannelError,
    /// The time limit has passed.
    TimeoutElapsed,
    /// Shutdown was requested.
    ShutdownRequested,
}

/// What an event settles; `None` for one after which the node waits on.
pub open spec fn settles(event: WaitEvent) -> Option<BootstrapGateResult> {
    match event {
        WaitEvent::BootstrapComplete { .. } => Some(BootstrapGateResult::Received),
        WaitEvent::OtherNetworkEvent => None,
        WaitEvent::ChannelError => Some(BootstrapGateResult::TimedOut),
        WaitEvent::TimeoutElapsed => Some(BootstrapGateResult::TimedOut),
        WaitEvent::ShutdownRequested => Some(BootstrapGateResult::Shutdown),
    }
}

/// The outcome of a wait in which `events` happen one after the other: what the
/// first event that settles anything settles, and `None` while the node waits.
pub open spec fn wait_outcome(events: Seq<WaitEvent>) -> Option<BootstrapGateResult>
    decreases events.len(),
{
    if events.len() == 0 {
        None
    } else if settles(events.first()) is Some {
        settles(events.first())
    } else {
        wait_outcome(events.drop_first())
    }
}

/// Whether all of `events` are network events that settle nothing.
pub open spec fn only_other_events(events: Seq<WaitEvent>) -> bool {
    forall|i: int| 0 <= i < events.len() ==> #[trigger] events[i] == WaitEvent::OtherNetworkEvent
}

/// Decides what `event` means for a node that waits: the outcome of the
/// wait, or `None` if it waits on.
pub fn wait_step(event: WaitEvent) -> (outcome: Option<BootstrapGateResult>)
    ensures
        outcome == settles(event),
        outcome is None <==> event is OtherNetworkEvent,
        outcome == Some(BootstrapGateResult::Received) <==> event is BootstrapComplete,
        outcome == Some(BootstrapGateResult::Shutdown) <==> event is ShutdownRequested,
        outcome == Some(BootstrapGateResult::TimedOut) <==> event is TimeoutElapsed
            || event is ChannelError,
{
    match event {
        WaitEvent::BootstrapComplete { .. } => Some(BootstrapGateResult::Received),
        WaitEvent::OtherNetworkEvent => None,
        WaitEvent::ChannelError => Some(BootstrapGateResult::TimedOut),
        WaitEvent::TimeoutElapsed => Some(BootstrapGateResult::TimedOut),
        WaitEvent::ShutdownRequested => Some(BootstrapGateResult::Shutdown),
    }
}

/// Law: a node waits on as long as it hears of other network events only, and
/// however many there are, the first other event settles the wait.
pub proof fn law_wait_ends_at_first_settling_event(
    before: Seq<WaitEvent>,
    event: WaitEvent,
    after: Seq<WaitEvent>,
)
    requires
        only_other_events(before),
        event != WaitEvent::OtherNetworkEvent,
    ensures
        wait_outcome(before) is None,
        wait_outcome(before.push(event) + after) == settles(event),
        settles(event) is Some,
    decreases before.len(),
{
    let all = before.push(event) + after;
    if before.len() == 0 {
        assert(all.first() == event);
    } else {
        assert(all.first() == before[0]);
        assert(all.drop_first() =~= before.drop_first().push(event) + after);
        law_wait_ends_at_first_settling_event(before.drop_first(), event, after);
    }
}

/// Law: every outcome has a cause: some event of the wait settles it, and only
/// other network events come before that one. So the wait reports the event as
/// received only if it was, a shutdown only if one was requested, and a time-out
/// only if the time limit passed or the channel failed.
pub proof fn law_wait_outcome_has_a_cause(events: Seq<WaitEvent>)
    ensures
        wait_outcome(events) is Some ==> exists|i: int|
            {
                &&& 0 <= i < events.len()
                &&& settles(#[trigger] events[i]) == wait_outcome(events)
                &&& only_other_events(events.take(i))
            },
        forall|event: WaitEvent| #[trigger]
            settles(event) is None <==> event is OtherNetworkEvent,
        forall|event: WaitEvent| #[trigger]
            settles(event) == Some(BootstrapGateResult::Received) <==> event is BootstrapComplete,
        forall|event: WaitEvent| #[trigger]
            settles(event) == Some(BootstrapGateResult::Shutdown) <==> event is ShutdownRequested,
        forall|event: WaitEvent| #[trigger]
            settles(event) == Some(BootstrapGateResult::TimedOut) <==> event is TimeoutElapsed
                || event is ChannelError,
    decreases events.len(),
{
    if events.len() != 0 {
        if settles(events.first()) is Some {
            assert(settles(events[0]) == wait_outcome(events));
            assert(only_other_events(events.take(0)));
        } else {
            let rest = events.drop_first();
            law_wait_outcome_has_a_cause(rest);
            if wait_outcome(events) is Some {
                let i = choose|i: int|
                    {
                        &&& 0 <= i < rest.len()
                        &&& settles(#[trigger] rest[i]) == wait_outcome(rest)
                        &&& only_other_events(rest.take(i))
                    };
                assert(settles(events[i + 1]) == wait_outcome(events));
                assert forall|j: int| 0 <= j < i + 1 implies #[trigger] events.take(i + 1)[j]
                    == WaitEvent::OtherNetworkEvent by {
                    if j > 0 {
                        assert(rest.take(i)[j - 1] == events.take(i + 1)[j]);
                    }
                }
            }
        }
    }
}

} // verus!
