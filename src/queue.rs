//! The bounded queue between the hub's stream reader and the fan-out worker.
//! When it is full, new events are dropped rather than waited for.
use vstd::prelude::*;

verus! {

/// Capacity of the fan-out queue.
pub const EVENT_QUEUE_CAPACITY: usize = 32;

/// What became of an offered item.
#[derive(Clone, Copy, Debug, PartialEq, Eq, Structural)]
pub enum Offer {
    Queued,
    /// The queue was full; the item was dropped and should be reported once.
    Dropped,
}

/// A first-in first-out queue that holds at most `capacity` items.
pub struct BoundedQueue<T> {
    items: Vec<T>,
    capacity: usize,
    dropped: u64,
}

/// A queue as a value: its items, its capacity and how many items it dropped.
pub type QueueView<T> = (Seq<T>, nat, nat);

pub open spec fn offered<T>(q: QueueView<T>, item: T) -> QueueView<T> {
    if q.0.len() < q.1 {
        (q.0.push(item), q.1, q.2)
    } else if q.2 < u64::MAX {
        (q.0, q.1, q.2 + 1)
    } else {
        q
    }
}

/// The queue after offering `items` in turn, with nothing taken out.
pub open spec fn offered_all<T>(q: QueueView<T>, items: Seq<T>) -> QueueView<T>
    decreases items.len(),
{
    if items.len() == 0 {
        q
    } else {
        offered(offered_all(q, items.drop_last()), items.last())
    }
}

impl<T> BoundedQueue<T> {
    pub closed spec fn view(&self) -> QueueView<T> {
        (self.items@, self.capacity as nat, self.dropped as nat)
    }

    pub open spec fn wf(&self) -> bool {
        self.view().0.len() <= self.view().1 && self.view().2 <= u64::MAX
    }

    pub fn new(capacity: usize) -> (r: BoundedQueue<T>)
        ensures
            r.wf(),
            r.view() == (Seq::<T>::empty(), capacity as nat, 0nat),
    {
        BoundedQueue { items: Vec::new(), capacity, dropped: 0 }
    }

    pub fn len(&self) -> (r: usize)
        ensures
            r == self.view().0.len(),
    {
        self.items.len()
    }

    /// How many items were dropped so far; the count stops at `u64::MAX`.
    pub fn dropped(&self) -> (r: u64)
        ensures
            r == self.view().2,
    {
        self.dropped
    }

    /// Adds `item` at the back if there is room; drops it otherwise. Never waits.
    pub fn offer(&mut self, item: T) -> (r: Offer)
        requires
            old(self).wf(),
        ensures
            final(self).wf(),
            final(self).view() == offered(old(self).view(), item),
            r == (if old(self).view().0.len() < old(self).view().1 {
                Offer::Queued
            } else {
                Offer::Dropped
            }),
    {
        if self.items.len() < self.capacity {
            self.items.push(item);
            Offer::Queued
        } else {
            if self.dropped < u64::MAX {
                self.dropped = self.dropped + 1;
            }
            Offer::Dropped
        }
    }

    /// Takes the oldest item out, if any.
    pub fn take(&mut self) -> (r: Option<T>)
        requires
            old(self).wf(),
        ensures
            final(self).wf(),
            old(self).view().0.len() == 0 ==> r is None && final(self).view() == old(self).view(),
            old(self).view().0.len() > 0 ==> r == Some(old(self).view().0[0]) && final(self).view()
                == (old(self).view().0.drop_first(), old(self).view().1, old(self).view().2),
    {
        if self.items.len() == 0 {
            None
        } else {
            let first = self.items.remove(0);
            assert(self.items@ =~= old(self).items@.drop_first());
            Some(first)
        }
    }
}

proof fn lemma_fill<T>(cap: nat, items: Seq<T>)
    requires
        items.len() <= cap,
    ensures
        offered_all((Seq::<T>::empty(), cap, 0nat), items) == (items, cap, 0nat),
    decreases items.len(),
{
    if items.len() > 0 {
        lemma_fill(cap, items.drop_last());
        assert(items.drop_last().push(items.last()) =~= items);
    }
}

/// Offering one item more than an empty queue holds, with nothing taken out,
/// drops exactly one item, the last, and keeps the others in order.
pub proof fn lemma_overflow_drops_one<T>(cap: nat, items: Seq<T>)
    requires
        items.len() == cap + 1,
    ensures
        offered_all((Seq::<T>::empty(), cap, 0nat), items) == (items.take(cap as int), cap, 1nat),
{
    lemma_fill(cap, items.drop_last());
    assert(items.drop_last() =~= items.take(cap as int));
}

} // verus!
