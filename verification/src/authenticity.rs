//! The authenticity checker: a pure read-only plausibility check over a
//! trace's event sequence.
//!
//! The verdict rests on timestamp monotonicity alone. Events are scanned in
//! arrival order, as stored; an event whose timestamp is strictly less than
//! its immediate predecessor's is treated as evidence of tampering or of a
//! data-entry error. Equal consecutive timestamps are accepted. Nothing else
//! — actor identity, signatures, location plausibility — is examined.

use vstd::prelude::*;

use crate::entities::{EventView, SupplyChainEvent};

verus! {

/// Whether the timestamps of `events` never strictly decrease from one
/// event to the next, in the order given. Holds vacuously of an empty or
/// one-event sequence.
pub open spec fn chronological(events: Seq<EventView>) -> bool {
    forall|k: int| 0 < k < events.len() ==> #[trigger] events[k].timestamp >= events[k - 1].timestamp
}

/// Steps the adjacent non-decrease property across a span: under
/// [`chronological`], the timestamp at `i` is at most the timestamp at any
/// later position `j`.
proof fn lemma_chronological_span(events: Seq<EventView>, i: int, j: int)
    requires
        chronological(events),
        0 <= i <= j < events.len(),
    ensures
        events[i].timestamp <= events[j].timestamp,
    decreases j - i,
{
    if i < j {
        lemma_chronological_span(events, i, j - 1);
        assert(events[j].timestamp >= events[j - 1].timestamp);
    }
}

/// Checking each timestamp against its immediate predecessor is the same as
/// checking it against every earlier one: a sequence of events is
/// chronological exactly when no event's timestamp is strictly less than
/// that of any earlier event.
pub proof fn lemma_chronological_global(events: Seq<EventView>)
    ensures
        chronological(events) <==> (forall|i: int, j: int|
            #![trigger events[i], events[j]]
            0 <= i <= j < events.len() ==> events[i].timestamp <= events[j].timestamp),
{
    if chronological(events) {
        assert forall|i: int, j: int|
            #![trigger events[i], events[j]]
            0 <= i <= j < events.len() implies events[i].timestamp <= events[j].timestamp by {
            lemma_chronological_span(events, i, j);
        }
    }
}

/// Scans `events` left to right and reports whether no timestamp is
/// strictly less than its immediate predecessor's.
pub fn events_chronological(events: &Vec<SupplyChainEvent>) -> (r: bool)
    ensures
        r == chronological(events.deep_view()),
{
    if events.len() == 0 {
        return true;
    }
    let mut prev: u64 = events[0].timestamp;
    let mut k: usize = 1;
    while k < events.len()
        invariant
            1 <= k <= events.deep_view().len(),
            prev == events.deep_view()[k - 1].timestamp,
            forall|j: int|
                0 < j < k ==> #[trigger] events.deep_view()[j].timestamp
                    >= events.deep_view()[j - 1].timestamp,
        decreases events.deep_view().len() - k,
    {
        if events[k].timestamp < prev {
            proof {
                assert(events.deep_view()[k as int].timestamp
                    < events.deep_view()[k as int - 1].timestamp);
            }
            return false;
        }
        prev = events[k].timestamp;
        k = k + 1;
    }
    true
}

} // verus!
