//! Inter-task events and the bounded event queue.
//!
//! All events converge on one bounded FIFO queue with a single consumer (the
//! orchestrator) and many producers. The surrounding runtime suspends a
//! producer while the queue is full (backpressure) and suspends the consumer
//! while it is empty; the queue itself never drops an event. The functions
//! here give the queue's exact step semantics: `try_publish` is the step a
//! suspended producer retries until it is accepted, `try_receive` the step a
//! suspended consumer retries until an event is available.

use vstd::prelude::*;

verus! {

/// Greatest number of events the queue holds at once.
pub const EVENT_QUEUE_CAPACITY: usize = 10;

/// Events that can be sent between tasks: a closed set of tags with no
/// payload. Produced by the leaf tasks; consumed only by the orchestrator.
#[derive(Debug, Clone, Copy, PartialEq, Eq, Structural)]
pub enum Event {
    /// Button 0 pressed: request an immediate display update cycle.
    Key0Pressed,
    /// Button 1 pressed: request a battery measurement.
    Key1Pressed,
    /// Button 2 pressed: request an LED blink.
    Key2Pressed,
    /// The scheduler's delay elapsed: request a scheduled update cycle.
    TimerExpired,
    /// The wireless link came up.
    NetworkConnected,
    /// The wireless link went down.
    NetworkDisconnected,
    /// An image download completed.
    ImageDownloaded,
    /// An image download failed.
    ImageDownloadFailed,
    /// The stored update delay changed; the scheduler must restart its wait.
    SchedulerUpdateRequested,
}

/// Bounded FIFO queue of events: the single channel through which every
/// producer task reaches the orchestrator.
pub struct EventBus {
    queue: Vec<Event>,
}

impl View for EventBus {
    type V = Seq<Event>;

    closed spec fn view(&self) -> Seq<Event> {
        self.queue@
    }
}

impl EventBus {
    /// The queue never exceeds its capacity.
    pub open spec fn wf(self) -> bool {
        self@.len() <= EVENT_QUEUE_CAPACITY
    }

    /// Create an empty queue.
    pub fn new() -> (bus: Self)
        ensures
            bus@ == Seq::<Event>::empty(),
            bus.wf(),
    {
        let bus = EventBus { queue: Vec::new() };
        proof {
            assert(bus@ =~= Seq::<Event>::empty());
        }
        bus
    }

    /// Number of queued events.
    pub fn len(&self) -> (n: usize)
        ensures
            n == self@.len(),
    {
        self.queue.len()
    }

    /// Whether a publish would be accepted right now.
    pub fn has_room(&self) -> (room: bool)
        ensures
            room == (self@.len() < EVENT_QUEUE_CAPACITY),
    {
        self.queue.len() < EVENT_QUEUE_CAPACITY
    }

    /// One publish step. The event is appended if and only if the queue has
    /// room; a refused publish leaves the queue unchanged, and the caller's
    /// runtime suspends the producer and retries (backpressure: events are
    /// never dropped).
    pub fn try_publish(&mut self, event: Event) -> (accepted: bool)
        requires
            old(self).wf(),
        ensures
            accepted == (old(self)@.len() < EVENT_QUEUE_CAPACITY),
            accepted ==> final(self)@ == old(self)@.push(event),
            !accepted ==> final(self)@ == old(self)@,
            final(self).wf(),
    {
        if self.queue.len() < EVENT_QUEUE_CAPACITY {
            self.queue.push(event);
            true
        } else {
            false
        }
    }

    /// One receive step. Returns the oldest queued event and removes it, or
    /// `None` if the queue is empty (the consumer's runtime then suspends it
    /// until a publish arrives).
    pub fn try_receive(&mut self) -> (received: Option<Event>)
        requires
            old(self).wf(),
        ensures
            old(self)@.len() == 0 ==> received is None && final(self)@ == old(self)@,
            old(self)@.len() > 0 ==> received == Some(old(self)@[0])
                && final(self)@ == old(self)@.drop_first(),
            final(self).wf(),
    {
        if self.queue.len() == 0 {
            None
        } else {
            let event = self.queue.remove(0);
            proof {
                assert(self.queue@ =~= old(self)@.drop_first());
            }
            Some(event)
        }
    }
}

/// Whether `s` is an interleaving of the two producer sequences `a` and `b`:
/// every element of `s` comes from exactly one of them, and each producer's
/// elements appear in their original order.
pub open spec fn is_interleaving(s: Seq<Event>, a: Seq<Event>, b: Seq<Event>) -> bool
    decreases s.len(),
{
    if s.len() == 0 {
        a.len() == 0 && b.len() == 0
    } else {
        ||| (a.len() > 0 && a[0] == s[0] && is_interleaving(s.drop_first(), a.drop_first(), b))
        ||| (b.len() > 0 && b[0] == s[0] && is_interleaving(s.drop_first(), a, b.drop_first()))
    }
}

/// Whether `a` occurs inside `s` as a subsequence, in order.
pub open spec fn is_subsequence_of(a: Seq<Event>, s: Seq<Event>) -> bool
    decreases s.len(),
{
    if a.len() == 0 {
        true
    } else if s.len() == 0 {
        false
    } else if a[0] == s[0] {
        is_subsequence_of(a.drop_first(), s.drop_first())
    } else {
        is_subsequence_of(a, s.drop_first())
    }
}

/// Per-producer FIFO order across arbitrary interleaving: however the
/// publishes of two producers interleave on the bus, each producer's own
/// publishes stand in the bus order as a subsequence in their original order.
/// Together with `try_publish` (append) and `try_receive` (take the front),
/// which move every accepted event through the queue exactly once, this is
/// the queue's ordering guarantee.
pub proof fn lemma_interleaving_keeps_producer_order(s: Seq<Event>, a: Seq<Event>, b: Seq<Event>)
    requires
        is_interleaving(s, a, b),
    ensures
        is_subsequence_of(a, s),
        is_subsequence_of(b, s),
    decreases s.len(),
{
    if s.len() == 0 {
    } else {
        if a.len() > 0 && a[0] == s[0] && is_interleaving(s.drop_first(), a.drop_first(), b) {
            lemma_interleaving_keeps_producer_order(s.drop_first(), a.drop_first(), b);
            lemma_subsequence_extends(b, s);
        } else {
            lemma_interleaving_keeps_producer_order(s.drop_first(), a, b.drop_first());
            lemma_subsequence_extends(a, s);
        }
    }
}

/// A subsequence of the tail of `s` is a subsequence of `s`.
proof fn lemma_subsequence_extends(a: Seq<Event>, s: Seq<Event>)
    requires
        s.len() > 0,
        is_subsequence_of(a, s.drop_first()),
    ensures
        is_subsequence_of(a, s),
    decreases s.len(), 0int,
{
    if a.len() == 0 {
    } else if a[0] == s[0] {
        lemma_subsequence_drop_head(a, s.drop_first());
    }
}

/// Dropping the head of a subsequence keeps it a subsequence.
proof fn lemma_subsequence_drop_head(a: Seq<Event>, t: Seq<Event>)
    requires
        a.len() > 0,
        is_subsequence_of(a, t),
    ensures
        is_subsequence_of(a.drop_first(), t),
    decreases t.len(), 1int,
{
    if a[0] == t[0] {
        lemma_subsequence_extends(a.drop_first(), t);
    } else {
        lemma_subsequence_drop_head(a, t.drop_first());
        lemma_subsequence_extends(a.drop_first(), t);
    }
}

} // verus!
