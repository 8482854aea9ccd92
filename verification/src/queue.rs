//! The kernel's bounded queue: a fixed number of slots, filled at the back
//! and emptied at the front.
use crate::bindings::UBaseType_t;
use crate::bindings::TOTAL_HEAP_SIZE;
use crate::error::FreeRtosError;
use crate::isr::InterruptContext;
use crate::units::Duration;
use std::collections::VecDeque;
use vstd::prelude::*;

verus! {

/// What a bounded queue is: the items it holds, oldest first, and the number
/// of slots it was made with.
pub struct QueueModel<T> {
    pub items: Seq<T>,
    pub capacity: nat,
}

impl<T> QueueModel<T> {
    /// A queue has at least one slot and never holds more items than slots.
    pub open spec fn wf(self) -> bool {
        0 < self.capacity && self.items.len() <= self.capacity
    }

    /// The empty queue of `capacity` slots.
    pub open spec fn empty(capacity: nat) -> Self {
        QueueModel { items: Seq::empty(), capacity }
    }

    /// The number of items held.
    pub open spec fn messages_waiting(self) -> nat {
        self.items.len()
    }

    /// The number of free slots.
    pub open spec fn spaces_available(self) -> nat {
        (self.capacity - self.items.len()) as nat
    }

    /// No slot is free.
    pub open spec fn is_full(self) -> bool {
        self.items.len() >= self.capacity
    }

    /// No item is held.
    pub open spec fn is_empty(self) -> bool {
        self.items.len() == 0
    }

    /// The queue after an attempt to send `item`: the item goes to the back
    /// if a slot is free, else nothing changes.
    pub open spec fn send(self, item: T) -> Self {
        if self.is_full() {
            self
        } else {
            QueueModel { items: self.items.push(item), capacity: self.capacity }
        }
    }

    /// The queue after an attempt to receive: the oldest item leaves if there
    /// is one, else nothing changes.
    pub open spec fn receive(self) -> Self {
        if self.is_empty() {
            self
        } else {
            QueueModel { items: self.items.drop_first(), capacity: self.capacity }
        }
    }

    /// The queue after an attempt to send each of `items`, first to last.
    pub open spec fn send_all(self, items: Seq<T>) -> Self
        decreases items.len(),
    {
        if items.len() == 0 {
            self
        } else {
            self.send(items[0]).send_all(items.drop_first())
        }
    }

    /// Whether each of `items`, sent first to last, finds a free slot.
    pub open spec fn accepts_all(self, items: Seq<T>) -> bool
        decreases items.len(),
    {
        if items.len() == 0 {
            true
        } else {
            !self.is_full() && self.send(items[0]).accepts_all(items.drop_first())
        }
    }

    /// The items that `n` receives in a row hand out, in the order they come.
    /// A receive that finds the queue empty hands out nothing.
    pub open spec fn received(self, n: nat) -> Seq<T>
        decreases n,
    {
        if n == 0 {
            Seq::empty()
        } else if self.is_empty() {
            self.received((n - 1) as nat)
        } else {
            seq![self.items[0]] + self.receive().received((n - 1) as nat)
        }
    }

    /// The queue after `n` receives in a row.
    pub open spec fn receive_n(self, n: nat) -> Self
        decreases n,
    {
        if n == 0 {
            self
        } else {
            self.receive().receive_n((n - 1) as nat)
        }
    }

    /// Occupied and free slots always add up to the capacity.
    pub proof fn lemma_occupancy(self)
        requires
            self.wf(),
        ensures
            self.messages_waiting() + self.spaces_available() == self.capacity,
    {
    }

    /// Sending and receiving keep a queue well formed and leave its capacity
    /// as it was.
    pub proof fn lemma_steps_preserve_wf(self, item: T)
        requires
            self.wf(),
        ensures
            self.send(item).wf(),
            self.receive().wf(),
            self.send(item).capacity == self.capacity,
            self.receive().capacity == self.capacity,
    {
    }

    /// Sending a run of items that fits into the free slots puts all of them
    /// at the back, in order.
    pub proof fn lemma_send_all_fits(self, items: Seq<T>)
        requires
            self.wf(),
            self.items.len() + items.len() <= self.capacity,
        ensures
            self.accepts_all(items),
            self.send_all(items).items == self.items + items,
            self.send_all(items).capacity == self.capacity,
        decreases items.len(),
    {
        if items.len() == 0 {
            assert(self.items + items =~= self.items);
        } else {
            let next = self.send(items[0]);
            let rest = items.drop_first();
            next.lemma_send_all_fits(rest);
            assert(next.items + rest =~= self.items + items);
        }
    }

    /// Receiving as many times as there are items hands out all of them,
    /// oldest first, and leaves the queue empty.
    pub proof fn lemma_receive_all(self)
        requires
            self.wf(),
        ensures
            self.received(self.items.len()) == self.items,
            self.receive_n(self.items.len()).items == Seq::<T>::empty(),
            self.receive_n(self.items.len()).capacity == self.capacity,
        decreases self.items.len(),
    {
        if self.items.len() == 0 {
            assert(self.received(0) =~= self.items);
        } else {
            let next = self.receive();
            next.lemma_receive_all();
            assert(seq![self.items[0]] + next.items =~= self.items);
        }
    }

    /// First in, first out: on an empty queue of at least one slot, sending a
    /// run of items no longer than the capacity and then receiving as many
    /// times yields the same items in the same order, and empties the queue.
    pub proof fn lemma_round_trip(capacity: nat, items: Seq<T>)
        requires
            1 <= capacity,
            items.len() <= capacity,
        ensures
            Self::empty(capacity).accepts_all(items),
            Self::empty(capacity).send_all(items).received(items.len()) == items,
            Self::empty(capacity).send_all(items).receive_n(items.len()) == Self::empty(capacity),
    {
        let start = Self::empty(capacity);
        start.lemma_send_all_fits(items);
        let filled = start.send_all(items);
        assert(start.items + items =~= items);
        filled.lemma_receive_all();
    }
}

/// A blocking queue with a finite size.
///
/// The items are owned by the queue and move ownership when sending. One
/// party at a time works on it and nothing here waits: a send that finds no
/// free slot, or a receive that finds no item, returns at once with the
/// failure that a wait which nobody ends would come to.
pub struct Queue<T> {
    items: VecDeque<T>,
    capacity: UBaseType_t,
}

impl<T> View for Queue<T> {
    type V = QueueModel<T>;

    closed spec fn view(&self) -> QueueModel<T> {
        QueueModel { items: self.items@, capacity: self.capacity as nat }
    }
}

impl<T> Queue<T> {
    #[verifier::type_invariant]
    spec fn inv(self) -> bool {
        0 < self.capacity && self.items@.len() <= self.capacity
    }

    /// Whether the kernel's heap can hold a queue of `max_size` items of
    /// type `T`: there is at least one slot, and all slots together are no
    /// larger than the heap.
    pub open spec fn can_allocate(max_size: UBaseType_t) -> bool {
        0 < max_size && max_size * vstd::layout::size_of::<T>() <= TOTAL_HEAP_SIZE
    }

    /// Creates a new, empty `Queue` of `max_size` slots for items of type
    /// `T`, or fails with `OutOfMemory` where the heap cannot hold it.
    pub fn new(max_size: UBaseType_t) -> (created: Result<Queue<T>, FreeRtosError>)
        ensures
            Self::can_allocate(max_size) ==> created is Ok && created->Ok_0@.wf()
                && created->Ok_0@ == QueueModel::<T>::empty(max_size as nat),
            !Self::can_allocate(max_size) ==> created == Err::<Queue<T>, FreeRtosError>(
                FreeRtosError::OutOfMemory,
            ),
    {
        let item_size: usize = core::mem::size_of::<T>();
        if max_size == 0 {
            return Err(FreeRtosError::OutOfMemory);
        }
        if item_size != 0 {
            let most: usize = TOTAL_HEAP_SIZE / item_size;
            proof {
                let m = max_size as int;
                let s = item_size as int;
                let h = TOTAL_HEAP_SIZE as int;
                assert(m * s <= h <==> m <= h / s) by (nonlinear_arith)
                    requires
                        s > 0,
                        m >= 0,
                        h >= 0,
                ;
            }
            if max_size as usize > most {
                return Err(FreeRtosError::OutOfMemory);
            }
        } else {
            assert(max_size * 0 == 0);
        }
        Ok(Queue { items: VecDeque::new(), capacity: max_size })
    }

    /// Does nothing when run. To the prover it recalls what holds of every
    /// queue: it has at least one slot and no more items than slots.
    #[inline]
    pub fn well_formed(&self)
        ensures
            self@.wf(),
    {
        proof {
            use_type_invariant(self);
        }
    }

    /// Puts `item` into the free slot at the back.
    fn push_back(&mut self, item: T)
        requires
            !old(self)@.is_full(),
        ensures
            final(self)@ == old(self)@.send(item),
    {
        proof {
            use_type_invariant(&*self);
        }
        let capacity = self.capacity;
        let mut taken = Queue { items: VecDeque::new(), capacity };
        core::mem::swap(self, &mut taken);
        let Queue { items, capacity } = taken;
        let mut items = items;
        items.push_back(item);
        *self = Queue { items, capacity };
    }

    /// Takes the item at the front out of its slot, if there is one.
    fn pop_front(&mut self) -> (item: Option<T>)
        ensures
            final(self)@ == old(self)@.receive(),
            old(self)@.is_empty() ==> item is None,
            !old(self)@.is_empty() ==> item == Some(old(self)@.items[0]),
    {
        proof {
            use_type_invariant(&*self);
        }
        let capacity = self.capacity;
        let mut taken = Queue { items: VecDeque::new(), capacity };
        core::mem::swap(self, &mut taken);
        let Queue { items, capacity } = taken;
        let mut items = items;
        let item = items.pop_front();
        *self = Queue { items, capacity };
        proof {
            if item is Some {
                assert(self.items@ =~= old(self).items@.drop_first());
            }
        }
        item
    }

    /// Sends an item to the end of the queue, if a slot is free. Otherwise the
    /// item comes back at once: the call does not wait, and `max_wait` is not
    /// looked at.
    pub fn send(&mut self, item: T, max_wait: Duration) -> (sent: Result<(), T>)
        ensures
            old(self)@.wf(),
            final(self)@.wf(),
            final(self)@ == old(self)@.send(item),
            old(self)@.is_full() ==> sent == Err::<(), T>(item),
            !old(self)@.is_full() ==> sent == Ok::<(), T>(()),
    {
        proof {
            use_type_invariant(&*self);
        }
        if self.items.len() >= self.capacity as usize {
            Err(item)
        } else {
            self.push_back(item);
            Ok(())
        }
    }

    /// Sends an item to the end of the queue, from an interrupt: never waits.
    /// No task sleeps on this queue, so none is woken and the context stays
    /// as it was.
    pub fn send_from_isr(&mut self, context: &mut InterruptContext, item: T) -> (sent: Result<
        (),
        T,
    >)
        ensures
            old(self)@.wf(),
            final(self)@.wf(),
            final(self)@ == old(self)@.send(item),
            old(self)@.is_full() ==> sent == Err::<(), T>(item),
            !old(self)@.is_full() ==> sent == Ok::<(), T>(()),
            *final(context) == *old(context),
    {
        proof {
            use_type_invariant(&*self);
        }
        if self.items.len() >= self.capacity as usize {
            Err(item)
        } else {
            self.push_back(item);
            Ok(())
        }
    }

    /// Takes the oldest item off the queue. On an empty queue the receive
    /// fails at once as timed out: the call does not wait, and `max_wait` is
    /// not looked at.
    pub fn receive(&mut self, max_wait: Duration) -> (received: Result<T, FreeRtosError>)
        ensures
            old(self)@.wf(),
            final(self)@.wf(),
            final(self)@ == old(self)@.receive(),
            old(self)@.is_empty() ==> received == Err::<T, FreeRtosError>(
                FreeRtosError::QueueReceiveTimeout,
            ),
            !old(self)@.is_empty() ==> received == Ok::<T, FreeRtosError>(old(self)@.items[0]),
    {
        proof {
            use_type_invariant(&*self);
        }
        match self.pop_front() {
            Some(item) => Ok(item),
            None => Err(FreeRtosError::QueueReceiveTimeout),
        }
    }

    /// Returns the number of messages waiting in the queue.
    pub fn messages_waiting(&self) -> (waiting: UBaseType_t)
        ensures
            self@.wf(),
            waiting == self@.messages_waiting(),
            waiting + self@.spaces_available() == self@.capacity,
    {
        proof {
            use_type_invariant(self);
        }
        self.items.len() as UBaseType_t
    }

    /// Returns the number of spaces available in the queue.
    pub fn spaces_available(&self) -> (free: UBaseType_t)
        ensures
            self@.wf(),
            free == self@.spaces_available(),
            self@.messages_waiting() + free == self@.capacity,
    {
        proof {
            use_type_invariant(self);
        }
        self.capacity - self.items.len() as UBaseType_t
    }
}

} // verus!
