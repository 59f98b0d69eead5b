//! Bounded, multi-consumer broadcast bus for game events.
//!
//! A publisher appends events to a shared window of the most recent
//! `capacity` events; each subscriber keeps its own cursor into the publish
//! history. Publishing never waits on subscribers. A subscriber that falls
//! more than `capacity` events behind is told how many events it missed and
//! resumes at the oldest retained event, so it detects the gap instead of
//! silently desynchronizing.

use vstd::prelude::*;
use vstd::assert_seqs_equal;
use crate::event::GameEvent;

verus! {

/// What one poll of a subscriber returns.
#[derive(Clone, Copy, PartialEq, Eq, Structural, Debug)]
pub enum RecvOutcome {
    /// The next unread event, in publish order.
    Message(GameEvent),
    /// The subscriber lagged: this many events were dropped before its cursor.
    Lagged(usize),
    /// Nothing has been published past the subscriber's cursor.
    Empty,
}

/// The cursor a subscriber holds after one poll against a bus that has
/// `published` events in its history and a retention window of `cap`.
pub open spec fn cursor_after_poll(published: int, cap: int, cursor: int) -> int {
    if published - cursor > cap {
        published - cap
    } else if cursor < published {
        cursor + 1
    } else {
        cursor
    }
}

/// How many events a subscriber at `cursor` has irrecoverably missed.
pub open spec fn missed_count(published: int, cap: int, cursor: int) -> int {
    published - cap - cursor
}

/// What one poll returns, as a function of the publish history, the
/// retention window and the subscriber's cursor.
pub open spec fn poll_outcome(log: Seq<GameEvent>, cap: int, cursor: int) -> RecvOutcome {
    if log.len() - cursor > cap {
        RecvOutcome::Lagged(missed_count(log.len() as int, cap, cursor) as usize)
    } else if cursor < log.len() {
        RecvOutcome::Message(log[cursor])
    } else {
        RecvOutcome::Empty
    }
}

/// The broadcast bus. It retains the `capacity` most recent events; the
/// full publish history exists only as a ghost record for specification.
pub struct EventBus {
    ring: Vec<GameEvent>,
    published: usize,
    capacity: usize,
    subscriber_count: usize,
    max_subscribers: usize,
    history: Ghost<Seq<GameEvent>>,
}

/// An independent reader of the bus with its own bounded inbox, realized as
/// a cursor into the publish history: the events at indices `cursor..` that
/// are still within the retention window are exactly its unread inbox.
pub struct BusSubscriber {
    cursor: usize,
}

impl EventBus {
    /// Every event ever published, in publish order.
    pub closed spec fn log(&self) -> Seq<GameEvent> {
        self.history@
    }

    /// How many events a subscriber can leave unread before it lags.
    pub closed spec fn capacity_spec(&self) -> int {
        self.capacity as int
    }

    /// The fixed maximum number of subscribers.
    pub closed spec fn max_subscribers_spec(&self) -> int {
        self.max_subscribers as int
    }

    /// How many subscribers have registered.
    pub closed spec fn subscriber_count_spec(&self) -> int {
        self.subscriber_count as int
    }

    /// The bus's internal consistency: the ring holds exactly the most
    /// recent events of the history, up to `capacity` of them.
    pub closed spec fn wf(&self) -> bool {
        &&& self.capacity >= 1
        &&& self.history@.len() == self.published
        &&& self.ring@.len() == (if self.published < self.capacity {
            self.published as int
        } else {
            self.capacity as int
        })
        &&& self.ring@ == self.history@.subrange(
            self.published - self.ring@.len(),
            self.published as int,
        )
        &&& self.subscriber_count <= self.max_subscribers
    }

    /// A fresh bus with no history and no subscribers.
    pub fn new(capacity: usize, max_subscribers: usize) -> (bus: EventBus)
        requires
            capacity >= 1,
        ensures
            bus.wf(),
            bus.log() == Seq::<GameEvent>::empty(),
            bus.capacity_spec() == capacity,
            bus.max_subscribers_spec() == max_subscribers,
            bus.subscriber_count_spec() == 0,
    {
        let bus = EventBus {
            ring: Vec::new(),
            published: 0,
            capacity,
            subscriber_count: 0,
            max_subscribers,
            history: Ghost(Seq::empty()),
        };
        proof {
            assert_seqs_equal!(bus.ring@ == bus.history@.subrange(0, 0));
        }
        bus
    }

    /// How many events have been published so far.
    pub fn published(&self) -> (n: usize)
        requires
            self.wf(),
        ensures
            n == self.log().len(),
    {
        self.published
    }

    /// Delivers `e` to every subscriber that is not lagging, dropping the
    /// oldest retained event once the window is full. Never waits on any
    /// subscriber.
    pub fn publish(&mut self, e: GameEvent)
        requires
            old(self).wf(),
            old(self).log().len() < usize::MAX,
        ensures
            final(self).wf(),
            final(self).log() == old(self).log().push(e),
            final(self).capacity_spec() == old(self).capacity_spec(),
            final(self).max_subscribers_spec() == old(self).max_subscribers_spec(),
            final(self).subscriber_count_spec() == old(self).subscriber_count_spec(),
    {
        if self.ring.len() == self.capacity {
            self.ring.remove(0);
        }
        self.ring.push(e);
        self.published = self.published + 1;
        self.history = Ghost(self.history@.push(e));
        proof {
            assert_seqs_equal!(
                self.ring@ == self.history@.subrange(
                    self.published - self.ring@.len(),
                    self.published as int,
                )
            );
        }
    }

    /// Registers one more independent reader, positioned after every event
    /// published so far, unless the subscriber limit is already reached.
    pub fn subscribe(&mut self) -> (s: Option<BusSubscriber>)
        requires
            old(self).wf(),
        ensures
            final(self).wf(),
            final(self).log() == old(self).log(),
            final(self).capacity_spec() == old(self).capacity_spec(),
            final(self).max_subscribers_spec() == old(self).max_subscribers_spec(),
            old(self).subscriber_count_spec() < old(self).max_subscribers_spec() ==> {
                &&& s matches Some(sub) && sub.cursor_spec() == old(self).log().len()
                &&& final(self).subscriber_count_spec() == old(self).subscriber_count_spec() + 1
            },
            old(self).subscriber_count_spec() >= old(self).max_subscribers_spec() ==> {
                &&& s is None
                &&& final(self).subscriber_count_spec() == old(self).subscriber_count_spec()
            },
    {
        if self.subscriber_count < self.max_subscribers {
            self.subscriber_count = self.subscriber_count + 1;
            Some(BusSubscriber { cursor: self.published })
        } else {
            None
        }
    }
}

impl BusSubscriber {
    /// The index into the publish history of the next event this subscriber
    /// will read.
    pub closed spec fn cursor_spec(&self) -> int {
        self.cursor as int
    }

    /// One non-blocking poll of the bus. In publish order, returns the next
    /// unread event if it is still retained; reports the exact number of
    /// dropped events if this subscriber lagged past the retention window;
    /// or reports that nothing new was published.
    pub fn recv(&mut self, bus: &EventBus) -> (out: RecvOutcome)
        requires
            bus.wf(),
            old(self).cursor_spec() <= bus.log().len(),
        ensures
            out == poll_outcome(bus.log(), bus.capacity_spec(), old(self).cursor_spec()),
            final(self).cursor_spec() == cursor_after_poll(
                bus.log().len() as int,
                bus.capacity_spec(),
                old(self).cursor_spec(),
            ),
    {
        let published: usize = bus.published;
        if published - self.cursor > bus.capacity {
            let missed: usize = published - bus.capacity - self.cursor;
            self.cursor = published - bus.capacity;
            RecvOutcome::Lagged(missed)
        } else if self.cursor < published {
            let idx: usize = self.cursor - (published - bus.ring.len());
            let e = bus.ring[idx];
            self.cursor = self.cursor + 1;
            RecvOutcome::Message(e)
        } else {
            RecvOutcome::Empty
        }
    }
}

/// A subscriber that polls after falling more than the retention window
/// behind the publisher is told exactly how many events it missed, and its
/// cursor then stands immediately after the missed events: the next event it
/// receives is the oldest retained one, published after the gap, so nothing
/// is delivered twice and nothing beyond the reported gap is skipped.
pub proof fn lemma_lagged_poll_resumes_fresh(log: Seq<GameEvent>, cap: int, cursor: int)
    requires
        0 <= cursor <= log.len(),
        cap >= 1,
        log.len() - cursor > cap,
    ensures
        poll_outcome(log, cap, cursor) == RecvOutcome::Lagged(
            missed_count(log.len() as int, cap, cursor) as usize,
        ),
        missed_count(log.len() as int, cap, cursor) > 0,
        cursor_after_poll(log.len() as int, cap, cursor) == cursor + missed_count(
            log.len() as int,
            cap,
            cursor,
        ),
        poll_outcome(log, cap, cursor_after_poll(log.len() as int, cap, cursor))
            == RecvOutcome::Message(log[log.len() - cap]),
        log.len() - cap > cursor,
{
}

/// A subscriber that has not lagged reads every event from its cursor on,
/// one per poll, in publish order and without gaps.
pub proof fn lemma_in_order_delivery(log: Seq<GameEvent>, cap: int, cursor: int)
    requires
        0 <= cursor < log.len(),
        cap >= 1,
        log.len() - cursor <= cap,
    ensures
        poll_outcome(log, cap, cursor) == RecvOutcome::Message(log[cursor]),
        cursor_after_poll(log.len() as int, cap, cursor) == cursor + 1,
{
}

} // verus!
