use std::collections::VecDeque;
use vstd::prelude::*;

verus! {

/// What became of an item handed to [`RelayQueue::try_enqueue`].
#[derive(Debug, Clone, Copy, PartialEq, Eq, Structural)]
pub enum EnqueueOutcome {
    /// The item was appended to the queue.
    Enqueued,
    /// The queue was at capacity: the item was discarded.
    Dropped,
    /// The receiving side is gone: the item was discarded and no later
    /// item can be accepted.
    ChannelClosed,
}

/// What the consumer gets from [`RelayQueue::poll_next`].
#[derive(Debug, Clone, PartialEq, Eq)]
pub enum NextOutcome<T> {
    /// The oldest item of the queue.
    Item(T),
    /// Nothing is queued yet; more may come.
    Pending,
    /// Nothing is queued and the queue is closed: nothing more will come.
    Closed,
}

/// The abstract state of a relay queue.
pub struct QueueState<T> {
    pub items: Seq<T>,
    pub capacity: nat,
    pub closed: bool,
}

impl<T> QueueState<T> {
    /// At most `capacity` items are ever held.
    pub open spec fn wf(self) -> bool {
        &&& self.capacity > 0
        &&& self.items.len() <= self.capacity
    }

    pub open spec fn is_full(self) -> bool {
        self.items.len() >= self.capacity
    }

    /// The outcome of offering one item.
    pub open spec fn enqueue_outcome(self) -> EnqueueOutcome {
        if self.closed {
            EnqueueOutcome::ChannelClosed
        } else if self.is_full() {
            EnqueueOutcome::Dropped
        } else {
            EnqueueOutcome::Enqueued
        }
    }

    /// The state after offering `x`: it is appended only when there is room.
    pub open spec fn enqueue(self, x: T) -> QueueState<T> {
        if self.enqueue_outcome() == EnqueueOutcome::Enqueued {
            QueueState { items: self.items.push(x), ..self }
        } else {
            self
        }
    }

    /// The state after offering each of `xs` in turn.
    pub open spec fn enqueue_all(self, xs: Seq<T>) -> QueueState<T>
        decreases xs.len(),
    {
        if xs.len() == 0 {
            self
        } else {
            self.enqueue(xs[0]).enqueue_all(xs.drop_first())
        }
    }

    /// The state after the consumer has taken the oldest item, if any.
    pub open spec fn take(self) -> QueueState<T> {
        if self.items.len() == 0 {
            self
        } else {
            QueueState { items: self.items.drop_first(), ..self }
        }
    }

    /// The first `n` items the consumer takes, oldest first.
    pub open spec fn drained(self, n: nat) -> Seq<T>
        decreases n,
    {
        if n == 0 || self.items.len() == 0 {
            Seq::empty()
        } else {
            seq![self.items[0]] + self.take().drained((n - 1) as nat)
        }
    }
}

/// A bounded first-in first-out buffer between many producers and one
/// consumer. Offering an item never waits: when the buffer is full the
/// item is dropped.
pub struct RelayQueue<T> {
    items: VecDeque<T>,
    capacity: usize,
    closed: bool,
}

impl<T> View for RelayQueue<T> {
    type V = QueueState<T>;

    closed spec fn view(&self) -> QueueState<T> {
        QueueState { items: self.items@, capacity: self.capacity as nat, closed: self.closed }
    }
}

impl<T> RelayQueue<T> {
    /// An empty, open queue that holds at most `capacity` items.
    pub fn new(capacity: usize) -> (q: RelayQueue<T>)
        requires
            capacity > 0,
        ensures
            q@.wf(),
            q@.items == Seq::<T>::empty(),
            q@.capacity == capacity,
            !q@.closed,
    {
        RelayQueue { items: VecDeque::new(), capacity, closed: false }
    }

    pub fn len(&self) -> (r: usize)
        requires
            self@.wf(),
        ensures
            r == self@.items.len(),
    {
        self.items.len()
    }

    pub fn capacity(&self) -> (r: usize)
        ensures
            r == self@.capacity,
    {
        self.capacity
    }

    pub fn is_closed(&self) -> (r: bool)
        ensures
            r == self@.closed,
    {
        self.closed
    }

    /// Offers `item` without waiting. It is appended when the queue is open
    /// and has room; otherwise it is discarded and the outcome says why.
    pub fn try_enqueue(&mut self, item: T) -> (r: EnqueueOutcome)
        requires
            old(self)@.wf(),
        ensures
            r == old(self)@.enqueue_outcome(),
            final(self)@ == old(self)@.enqueue(item),
            final(self)@.wf(),
    {
        if self.closed {
            EnqueueOutcome::ChannelClosed
        } else if self.items.len() >= self.capacity {
            EnqueueOutcome::Dropped
        } else {
            self.items.push_back(item);
            EnqueueOutcome::Enqueued
        }
    }

    /// Takes the oldest item without waiting; `None` when the queue is empty.
    pub fn try_next(&mut self) -> (r: Option<T>)
        requires
            old(self)@.wf(),
        ensures
            old(self)@.items.len() == 0 ==> r is None,
            old(self)@.items.len() > 0 ==> r == Some(old(self)@.items[0]),
            final(self)@ == old(self)@.take(),
            final(self)@.wf(),
    {
        self.items.pop_front()
    }

    /// Takes the oldest item, or says whether the consumer should wait for
    /// more or stop because the queue is closed and empty.
    pub fn poll_next(&mut self) -> (r: NextOutcome<T>)
        requires
            old(self)@.wf(),
        ensures
            old(self)@.items.len() > 0 ==> r == NextOutcome::Item(old(self)@.items[0]),
            old(self)@.items.len() == 0 && old(self)@.closed ==> r is Closed,
            old(self)@.items.len() == 0 && !old(self)@.closed ==> r is Pending,
            final(self)@ == old(self)@.take(),
            final(self)@.wf(),
    {
        match self.items.pop_front() {
            Some(x) => NextOutcome::Item(x),
            None => if self.closed {
                NextOutcome::Closed
            } else {
                NextOutcome::Pending
            },
        }
    }

    /// Closes the queue: later offers are refused, queued items stay for
    /// the consumer to take.
    pub fn close(&mut self)
        requires
            old(self)@.wf(),
        ensures
            final(self)@ == (QueueState { closed: true, ..old(self)@ }),
            final(self)@.wf(),
    {
        self.closed = true;
    }
}

/// Offering an item keeps the queue within its capacity.
pub proof fn lemma_enqueue_all_wf<T>(s: QueueState<T>, xs: Seq<T>)
    requires
        s.wf(),
    ensures
        s.enqueue_all(xs).wf(),
        s.enqueue_all(xs).capacity == s.capacity,
        s.enqueue_all(xs).closed == s.closed,
    decreases xs.len(),
{
    if xs.len() > 0 {
        lemma_enqueue_all_wf(s.enqueue(xs[0]), xs.drop_first());
    }
}

/// Items offered to an open queue with room for all of them are all kept,
/// after what was already queued and in the order they were offered.
pub proof fn lemma_enqueue_all_with_room<T>(s: QueueState<T>, xs: Seq<T>)
    requires
        s.wf(),
        !s.closed,
        s.items.len() + xs.len() <= s.capacity,
    ensures
        s.enqueue_all(xs).items == s.items + xs,
    decreases xs.len(),
{
    if xs.len() > 0 {
        let s1 = s.enqueue(xs[0]);
        lemma_enqueue_all_with_room(s1, xs.drop_first());
        assert(s.items.push(xs[0]) + xs.drop_first() =~= s.items + xs);
    }
}

/// The consumer takes items oldest first: the first `n` it takes are the
/// first `n` queued.
pub proof fn lemma_drained_is_prefix<T>(s: QueueState<T>, n: nat)
    requires
        n <= s.items.len(),
    ensures
        s.drained(n) == s.items.take(n as int),
    decreases n,
{
    if n > 0 {
        lemma_drained_is_prefix(s.take(), (n - 1) as nat);
        assert(seq![s.items[0]] + s.items.drop_first().take(n - 1) =~= s.items.take(n as int));
    }
}

/// Every item offered while the queue has room reaches the consumer, in the
/// order it was offered.
pub proof fn lemma_delivered_in_order<T>(s: QueueState<T>, xs: Seq<T>)
    requires
        s.wf(),
        !s.closed,
        s.items.len() == 0,
        xs.len() <= s.capacity,
    ensures
        s.enqueue_all(xs).drained(xs.len()) == xs,
{
    lemma_enqueue_all_with_room(s, xs);
    lemma_drained_is_prefix(s.enqueue_all(xs), xs.len());
    assert(s.items + xs =~= xs);
    assert(xs.take(xs.len() as int) =~= xs);
}

/// Offering an item to a full open queue drops it: the queue is left as it
/// was, so the item is never delivered later.
pub proof fn lemma_full_queue_drops<T>(s: QueueState<T>, x: T)
    requires
        s.wf(),
        !s.closed,
        s.is_full(),
    ensures
        s.enqueue_outcome() == EnqueueOutcome::Dropped,
        s.enqueue(x) == s,
{
}

} // verus!
