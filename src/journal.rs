//! The update journal: a bounded FIFO of change events.

use vstd::prelude::*;
use std::collections::VecDeque;

verus! {

/// How many events the journal keeps; older ones are evicted.
pub const JOURNAL_CAPACITY: usize = 50;

/// One committed cell write.
#[derive(Clone, Debug)]
pub struct PixelUpdate {
    pub x: u32,
    pub y: u32,
    pub color: String,
    pub timestamp: u64,
}

/// Abstract change event.
pub struct EventView {
    pub x: u32,
    pub y: u32,
    pub color: Seq<char>,
    pub timestamp: u64,
}

impl View for PixelUpdate {
    type V = EventView;

    open spec fn view(&self) -> EventView {
        EventView { x: self.x, y: self.y, color: self.color@, timestamp: self.timestamp }
    }
}

impl PixelUpdate {
    /// An event with the same fields.
    pub fn copy(&self) -> (r: PixelUpdate)
        ensures
            r == *self,
    {
        PixelUpdate { x: self.x, y: self.y, color: self.color.clone(), timestamp: self.timestamp }
    }
}

/// The events as abstract values.
pub open spec fn events_view(events: Seq<PixelUpdate>) -> Seq<EventView> {
    events.map_values(|e: PixelUpdate| e@)
}

/// The journal after appending `e` to `j`: the oldest entry is evicted
/// when the length would exceed the capacity.
pub open spec fn bounded_push(j: Seq<EventView>, e: EventView) -> Seq<EventView> {
    let p = j.push(e);
    if p.len() > JOURNAL_CAPACITY {
        p.subrange(1, p.len() as int)
    } else {
        p
    }
}

/// The journal after appending each event of `es` in turn.
pub open spec fn append_all(j: Seq<EventView>, es: Seq<EventView>) -> Seq<EventView>
    decreases es.len(),
{
    if es.len() == 0 {
        j
    } else {
        bounded_push(append_all(j, es.drop_last()), es.last())
    }
}

/// The most recent `JOURNAL_CAPACITY` entries of `s`, in order.
pub open spec fn newest(s: Seq<EventView>) -> Seq<EventView> {
    if s.len() > JOURNAL_CAPACITY {
        s.subrange(s.len() - JOURNAL_CAPACITY, s.len() as int)
    } else {
        s
    }
}

/// Whatever is appended, the journal holds at most `JOURNAL_CAPACITY` events:
/// the most recent ones of everything appended so far, in append order.
pub proof fn lemma_append_keeps_newest(j: Seq<EventView>, es: Seq<EventView>)
    requires
        j.len() <= JOURNAL_CAPACITY,
    ensures
        append_all(j, es) == newest(j + es),
        append_all(j, es).len() <= JOURNAL_CAPACITY,
    decreases es.len(),
{
    if es.len() > 0 {
        lemma_append_keeps_newest(j, es.drop_last());
        let s = j + es.drop_last();
        assert(j + es =~= s.push(es.last()));
        assert(bounded_push(newest(s), es.last()) =~= newest(s.push(es.last())));
    } else {
        assert(j + es =~= j);
    }
}

/// Once one event more than the capacity has been appended, the first of
/// them is gone and the others remain, in append order.
pub proof fn lemma_overflow_evicts_oldest(j: Seq<EventView>, es: Seq<EventView>)
    requires
        j.len() <= JOURNAL_CAPACITY,
        es.len() == JOURNAL_CAPACITY + 1,
    ensures
        append_all(j, es) == es.subrange(1, es.len() as int),
{
    lemma_append_keeps_newest(j, es);
    assert(newest(j + es) =~= es.subrange(1, es.len() as int));
}

/// The entries of `j` newer than the cursor `since`, in append order.
pub open spec fn events_after(j: Seq<EventView>, since: u64) -> Seq<EventView> {
    j.filter(|e: EventView| e.timestamp > since)
}

/// A bounded FIFO of change events, oldest first.
pub struct UpdateJournal {
    events: VecDeque<PixelUpdate>,
}

impl View for UpdateJournal {
    type V = Seq<EventView>;

    closed spec fn view(&self) -> Seq<EventView> {
        events_view(self.events@)
    }
}

impl UpdateJournal {
    #[verifier::type_invariant]
    closed spec fn bounded(self) -> bool {
        self.events@.len() <= JOURNAL_CAPACITY
    }

    /// An empty journal.
    pub fn new() -> (r: UpdateJournal)
        ensures
            r@ == Seq::<EventView>::empty(),
    {
        let r = UpdateJournal { events: VecDeque::new() };
        assert(r@ =~= Seq::<EventView>::empty());
        r
    }

    /// The number of events held.
    pub fn len(&self) -> (r: usize)
        ensures
            r == self@.len(),
            r <= JOURNAL_CAPACITY,
    {
        proof {
            use_type_invariant(self);
        }
        self.events.len()
    }

    /// Whether the journal holds as many events as it can.
    pub fn is_full(&self) -> (r: bool)
        ensures
            r == (self@.len() == JOURNAL_CAPACITY),
    {
        self.len() == JOURNAL_CAPACITY
    }

    /// The oldest event, if any.
    pub fn oldest(&self) -> (r: Option<&PixelUpdate>)
        ensures
            self@.len() == 0 ==> r is None,
            self@.len() > 0 ==> r is Some && r->Some_0@ == self@[0],
    {
        if self.events.len() == 0 {
            None
        } else {
            Some(&self.events[0])
        }
    }

    /// Appends `event`, evicting the oldest entry if the journal was full.
    pub fn append(&mut self, event: PixelUpdate)
        ensures
            final(self)@ == bounded_push(old(self)@, event@),
            final(self)@.len() <= JOURNAL_CAPACITY,
    {
        proof {
            use_type_invariant(&*self);
        }
        let mut events: VecDeque<PixelUpdate> = VecDeque::new();
        std::mem::swap(&mut self.events, &mut events);
        push_bounded(&mut events, event);
        std::mem::swap(&mut self.events, &mut events);
    }

    /// All events held, oldest first.
    pub fn events(&self) -> (r: Vec<PixelUpdate>)
        ensures
            events_view(r@) == self@,
    {
        let mut r: Vec<PixelUpdate> = Vec::new();
        let mut i: usize = 0;
        while i < self.events.len()
            invariant
                i <= self.events@.len(),
                r@ == self.events@.subrange(0, i as int),
            decreases self.events@.len() - i,
        {
            r.push(self.events[i].copy());
            i = i + 1;
            assert(r@ =~= self.events@.subrange(0, i as int));
        }
        assert(self.events@.subrange(0, i as int) =~= self.events@);
        r
    }

    /// The events newer than `since`, in append order.
    pub fn query_since(&self, since: u64) -> (r: Vec<PixelUpdate>)
        ensures
            events_view(r@) == events_after(self@, since),
    {
        let mut r: Vec<PixelUpdate> = Vec::new();
        let mut i: usize = 0;
        while i < self.events.len()
            invariant
                i <= self.events@.len(),
                events_view(r@) == events_after(events_view(self.events@.subrange(0, i as int)), since),
            decreases self.events@.len() - i,
        {
            let ghost before = events_view(self.events@.subrange(0, i as int));
            let ghost after_step = events_view(self.events@.subrange(0, i as int + 1));
            assert(after_step.drop_last() =~= before);
            assert(after_step.last() == self.events@[i as int]@);
            proof {
                reveal(Seq::filter);
            }
            let ghost prev = r@;
            if self.events[i].timestamp > since {
                r.push(self.events[i].copy());
                assert(events_view(r@) =~= events_view(prev).push(self.events@[i as int]@));
            }
            i = i + 1;
            assert(events_view(r@) =~= events_after(after_step, since));
        }
        assert(self.events@.subrange(0, i as int) =~= self.events@);
        r
    }
}

fn push_bounded(events: &mut VecDeque<PixelUpdate>, event: PixelUpdate)
    requires
        old(events)@.len() <= JOURNAL_CAPACITY,
    ensures
        events_view(final(events)@) == bounded_push(events_view(old(events)@), event@),
        final(events)@.len() <= JOURNAL_CAPACITY,
{
    events.push_back(event);
    if events.len() > JOURNAL_CAPACITY {
        let _ = events.pop_front();
    }
    assert(events_view(events@) =~= bounded_push(events_view(old(events)@), event@));
}

} // verus!
