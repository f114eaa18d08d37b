//! The catch-up decision: given a client's cursor, either the events it has
//! not seen, or a signal that it must fetch a full snapshot.

use vstd::prelude::*;
use crate::journal::{EventView, JOURNAL_CAPACITY, events_after};

verus! {

/// What a poll with cursor `since` returns: the events to apply, and whether
/// a full resync is required.
///
/// An empty journal has nothing to send. A full journal whose oldest event is
/// newer than the cursor may have evicted events the client never saw, so the
/// client must resync. Otherwise every event newer than the cursor is sent.
/// The comparison with the oldest event is strict: a cursor equal to its
/// timestamp does not trigger a resync.
pub open spec fn sync_decision(j: Seq<EventView>, since: u64) -> (Seq<EventView>, bool) {
    if j.len() == 0 {
        (Seq::empty(), false)
    } else if j.len() == JOURNAL_CAPACITY && since < j[0].timestamp {
        (Seq::empty(), true)
    } else {
        (events_after(j, since), false)
    }
}

/// Neither a query for the events after `since` nor a poll with cursor
/// `since` returns an event whose timestamp is at or before `since`.
pub proof fn lemma_no_event_at_or_before_cursor(j: Seq<EventView>, since: u64)
    ensures
        forall|i: int|
            0 <= i < events_after(j, since).len() ==> #[trigger] events_after(j, since)[i].timestamp
                > since,
        forall|i: int|
            0 <= i < sync_decision(j, since).0.len() ==> #[trigger] sync_decision(
                j,
                since,
            ).0[i].timestamp > since,
{
    broadcast use vstd::seq_lib::group_filter_ensures;

    assert forall|i: int| 0 <= i < events_after(j, since).len() implies #[trigger] events_after(
        j,
        since,
    )[i].timestamp > since by {
        j.lemma_filter_pred(|e: EventView| e.timestamp > since, i);
    }
}

/// A journal below capacity has evicted nothing, so no cursor needs a resync.
pub proof fn lemma_not_full_never_resets(j: Seq<EventView>, since: u64)
    requires
        j.len() < JOURNAL_CAPACITY,
    ensures
        !sync_decision(j, since).1,
{
}

/// A full journal whose oldest event is newer than the cursor requires a resync.
pub proof fn lemma_full_and_behind_resets(j: Seq<EventView>, since: u64)
    requires
        j.len() == JOURNAL_CAPACITY,
        since < j[0].timestamp,
    ensures
        sync_decision(j, since).1,
        sync_decision(j, since).0.len() == 0,
{
}

/// A full journal whose oldest event is at or before the cursor sends exactly
/// the events newer than the cursor, in append order, without a resync.
pub proof fn lemma_full_and_caught_up_is_incremental(j: Seq<EventView>, since: u64)
    requires
        j.len() == JOURNAL_CAPACITY,
        since >= j[0].timestamp,
    ensures
        !sync_decision(j, since).1,
        sync_decision(j, since).0 == events_after(j, since),
{
}

} // verus!
