//! The asynchronous channel: a bounded queue guarded by two wake mailboxes.
use crate::bindings::UBaseType_t;
use crate::error::FreeRtosError;
use crate::isr::InterruptContext;
use crate::mailbox::WakeMailbox;
use crate::queue::Queue;
use crate::queue::QueueModel;
use crate::units::Duration;
use core::task::Poll;
use core::task::Waker;
use vstd::prelude::*;

verus! {

/// `core::task::Poll`: a value that is ready, or the word that it is not yet.
#[verifier::external_type_specification]
#[verifier::reject_recursive_types(T)]
pub struct ExPoll<T>(Poll<T>);

/// What one poll of a send gives.
#[derive(Debug, PartialEq, Eq)]
pub enum SendPoll<T> {
    /// The item is in the queue.
    Ready,
    /// No slot was free. The item comes back, to be sent with the next poll.
    Pending(T),
}

/// What an asynchronous channel is: its queue, and for each of its two
/// mailboxes whether a poller waits in it and how many it has woken.
pub struct ChannelModel<T> {
    pub queue: QueueModel<T>,
    /// A poller waits to hear that a slot became free.
    pub send_armed: bool,
    /// A poller waits to hear that an item arrived.
    pub receive_armed: bool,
    /// The number of pollers woken to hear that a slot became free.
    pub send_woken: nat,
    /// The number of pollers woken to hear that an item arrived.
    pub receive_woken: nat,
}

impl<T> ChannelModel<T> {
    /// A channel is well formed when its queue is.
    pub open spec fn wf(self) -> bool {
        self.queue.wf()
    }

    /// The empty channel of `capacity` slots, with nobody waiting and nobody
    /// woken yet.
    pub open spec fn empty(capacity: nat) -> Self {
        ChannelModel {
            queue: QueueModel::empty(capacity),
            send_armed: false,
            receive_armed: false,
            send_woken: 0,
            receive_woken: 0,
        }
    }

    /// Whether a send finds a free slot.
    pub open spec fn send_ready(self) -> bool {
        !self.queue.is_full()
    }

    /// Whether a receive finds an item.
    pub open spec fn receive_ready(self) -> bool {
        !self.queue.is_empty()
    }

    /// The channel as `queue` leaves it.
    pub open spec fn with_queue(self, queue: QueueModel<T>) -> Self {
        ChannelModel { queue, ..self }
    }

    /// The channel once a poller has entered the send mailbox, in place of
    /// any that waited there.
    pub open spec fn register_sender(self) -> Self {
        ChannelModel { send_armed: true, ..self }
    }

    /// The channel once a poller has entered the receive mailbox, in place
    /// of any that waited there.
    pub open spec fn register_receiver(self) -> Self {
        ChannelModel { receive_armed: true, ..self }
    }

    /// The channel once the send mailbox was notified: the poller that
    /// waited for a slot, if any, has been woken and has left.
    pub open spec fn notify_sender(self) -> Self {
        ChannelModel {
            send_armed: false,
            send_woken: if self.send_armed {
                self.send_woken + 1
            } else {
                self.send_woken
            },
            ..self
        }
    }

    /// The channel once the receive mailbox was notified: the poller that
    /// waited for an item, if any, has been woken and has left.
    pub open spec fn notify_receiver(self) -> Self {
        ChannelModel {
            receive_armed: false,
            receive_woken: if self.receive_armed {
                self.receive_woken + 1
            } else {
                self.receive_woken
            },
            ..self
        }
    }

    /// The channel after a blocking or interrupt send of `item`. Where a slot
    /// is free the item is queued and the receive mailbox is notified. On a
    /// full channel nothing changes and nobody is woken.
    pub open spec fn send_blocking(self, item: T) -> Self {
        if self.send_ready() {
            self.with_queue(self.queue.send(item)).notify_receiver()
        } else {
            self
        }
    }

    /// The channel after one poll of a send of `item`. The poller enters the
    /// send mailbox first, whatever follows. Where a slot is free the item is
    /// then queued and the receive mailbox is notified.
    pub open spec fn poll_send(self, item: T) -> Self {
        if self.send_ready() {
            self.register_sender().with_queue(self.queue.send(item)).notify_receiver()
        } else {
            self.register_sender()
        }
    }

    /// The channel after a blocking receive. Where an item is held the oldest
    /// one leaves and the send mailbox is notified. On an empty channel
    /// nothing changes and nobody is woken.
    pub open spec fn receive_blocking(self) -> Self {
        if self.receive_ready() {
            self.with_queue(self.queue.receive()).notify_sender()
        } else {
            self
        }
    }

    /// The channel after one poll of a receive. Where an item is held it
    /// leaves and the send mailbox is notified. On an empty channel the
    /// poller enters the receive mailbox and nobody is woken.
    pub open spec fn poll_receive(self) -> Self {
        if self.receive_ready() {
            self.with_queue(self.queue.receive()).notify_sender()
        } else {
            self.register_receiver()
        }
    }

    /// Every operation keeps a channel well formed and its capacity fixed, so
    /// occupied and free slots add up to the same capacity after it.
    pub proof fn lemma_steps_preserve_wf(self, item: T)
        requires
            self.wf(),
        ensures
            self.send_blocking(item).wf(),
            self.poll_send(item).wf(),
            self.receive_blocking().wf(),
            self.poll_receive().wf(),
            self.send_blocking(item).queue.capacity == self.queue.capacity,
            self.poll_send(item).queue.capacity == self.queue.capacity,
            self.receive_blocking().queue.capacity == self.queue.capacity,
            self.poll_receive().queue.capacity == self.queue.capacity,
            self.queue.messages_waiting() + self.queue.spaces_available() == self.queue.capacity,
    {
    }

    /// Whatever the form of a send or of a receive, the queue of the channel
    /// moves as a bare queue does: what holds of a queue's items, their order
    /// and their number holds of a channel's.
    pub proof fn lemma_queue_moves(self, item: T)
        ensures
            self.send_blocking(item).queue == self.queue.send(item),
            self.poll_send(item).queue == self.queue.send(item),
            self.receive_blocking().queue == self.queue.receive(),
            self.poll_receive().queue == self.queue.receive(),
    {
    }

    /// An operation wakes at most the one poller that waits for what it
    /// brings, and only where it succeeds. A send never wakes a sender and a
    /// receive never wakes a receiver; a send that finds the channel full and
    /// a receive that finds it empty wake nobody; and with nobody waiting,
    /// nobody is woken.
    pub proof fn lemma_wakes_are_due(self, item: T)
        ensures
            self.send_blocking(item).send_woken == self.send_woken,
            self.poll_send(item).send_woken == self.send_woken,
            self.receive_blocking().receive_woken == self.receive_woken,
            self.poll_receive().receive_woken == self.receive_woken,
            !self.send_ready() ==> self.send_blocking(item) == self,
            !self.send_ready() ==> self.poll_send(item).receive_woken == self.receive_woken,
            !self.receive_ready() ==> self.receive_blocking() == self,
            !self.receive_ready() ==> self.poll_receive().send_woken == self.send_woken,
            !self.receive_armed ==> self.send_blocking(item).receive_woken == self.receive_woken,
            !self.receive_armed ==> self.poll_send(item).receive_woken == self.receive_woken,
            !self.send_armed ==> self.receive_blocking().send_woken == self.send_woken,
            !self.send_armed ==> self.poll_receive().send_woken == self.send_woken,
    {
    }

    /// A send polled on a full channel stays pending: its poller stands in
    /// the send mailbox and nothing else has changed.
    pub proof fn lemma_full_send_pends(self, item: T)
        requires
            self.wf(),
            self.queue.is_full(),
        ensures
            !self.send_ready(),
            self.poll_send(item) == self.register_sender(),
            self.poll_send(item).send_armed,
            self.poll_send(item).queue == self.queue,
            self.poll_send(item).send_woken == self.send_woken,
            self.poll_send(item).receive_woken == self.receive_woken,
    {
    }

    /// No wakeup is missed on the sending side. While a send is pending on a
    /// full channel, a receive of either form frees a slot and wakes the
    /// pending poller out of the send mailbox, and the next poll of the send
    /// completes: the item stands at the back of the queue, behind what was
    /// left.
    pub proof fn lemma_pending_send_completes(self, item: T)
        requires
            self.wf(),
            self.queue.is_full(),
            self.send_armed,
        ensures
            self.receive_blocking().send_woken == self.send_woken + 1,
            self.poll_receive().send_woken == self.send_woken + 1,
            !self.receive_blocking().send_armed,
            !self.poll_receive().send_armed,
            self.receive_blocking().send_ready(),
            self.poll_receive().send_ready(),
            self.receive_blocking().poll_send(item).queue.items == self.queue.items.drop_first().push(item),
            self.poll_receive().poll_send(item).queue.items == self.queue.items.drop_first().push(item),
    {
    }

    /// A receive polled on an empty channel stays pending: its poller stands
    /// in the receive mailbox and nothing else has changed.
    pub proof fn lemma_empty_receive_pends(self)
        requires
            self.wf(),
            self.queue.is_empty(),
        ensures
            !self.receive_ready(),
            self.poll_receive() == self.register_receiver(),
            self.poll_receive().receive_armed,
            self.poll_receive().queue == self.queue,
            self.poll_receive().send_woken == self.send_woken,
            self.poll_receive().receive_woken == self.receive_woken,
    {
    }

    /// No wakeup is missed on the receiving side. While a receive is pending
    /// on an empty channel, a send of any form queues its item and wakes the
    /// pending poller out of the receive mailbox, and the next poll of the
    /// receive is ready with the item that was sent, leaving the channel
    /// empty again.
    pub proof fn lemma_pending_receive_resolves(self, item: T)
        requires
            self.wf(),
            self.queue.is_empty(),
            self.receive_armed,
        ensures
            self.send_blocking(item).receive_woken == self.receive_woken + 1,
            self.poll_send(item).receive_woken == self.receive_woken + 1,
            !self.send_blocking(item).receive_armed,
            !self.poll_send(item).receive_armed,
            self.send_blocking(item).receive_ready(),
            self.poll_send(item).receive_ready(),
            self.send_blocking(item).queue.items[0] == item,
            self.poll_send(item).queue.items[0] == item,
            self.send_blocking(item).poll_receive().queue.is_empty(),
            self.poll_send(item).poll_receive().queue.is_empty(),
    {
    }
}

/// An asynchronous queue with a finite size: a [`Queue`] and two mailboxes,
/// one for the poller that waits for a free slot and one for the poller that
/// waits for an item.
///
/// The items are owned by the queue and move ownership when sending.
pub struct AsyncQueue<T> {
    send_waker: WakeMailbox,
    receive_waker: WakeMailbox,
    queue: Queue<T>,
}

impl<T> View for AsyncQueue<T> {
    type V = ChannelModel<T>;

    closed spec fn view(&self) -> ChannelModel<T> {
        ChannelModel {
            queue: self.queue@,
            send_armed: self.send_waker.is_armed(),
            receive_armed: self.receive_waker.is_armed(),
            send_woken: self.send_waker.wakes(),
            receive_woken: self.receive_waker.wakes(),
        }
    }
}

impl<T> AsyncQueue<T> {
    /// Creates a new `AsyncQueue` capable of holding `length` items of type
    /// `T`, with both mailboxes empty. Fails exactly where the queue cannot
    /// be created.
    pub fn new(length: UBaseType_t) -> (created: Result<AsyncQueue<T>, FreeRtosError>)
        ensures
            Queue::<T>::can_allocate(length) ==> created is Ok && created->Ok_0@.wf()
                && created->Ok_0@ == ChannelModel::<T>::empty(length as nat),
            !Queue::<T>::can_allocate(length) ==> created == Err::<AsyncQueue<T>, FreeRtosError>(
                FreeRtosError::OutOfMemory,
            ),
    {
        match Queue::new(length) {
            Ok(queue) => Ok(
                AsyncQueue {
                    send_waker: WakeMailbox::new(),
                    receive_waker: WakeMailbox::new(),
                    queue,
                },
            ),
            Err(error) => Err(error),
        }
    }

    /// Does nothing when run. To the prover it recalls what holds of every
    /// channel: its queue has at least one slot and no more items than slots.
    #[inline]
    pub fn well_formed(&self)
        ensures
            self@.wf(),
    {
        self.queue.well_formed()
    }

    /// Returns the number of messages waiting in the queue.
    pub fn messages_waiting(&self) -> (waiting: UBaseType_t)
        ensures
            self@.wf(),
            waiting == self@.queue.messages_waiting(),
            waiting + self@.queue.spaces_available() == self@.queue.capacity,
    {
        self.queue.messages_waiting()
    }

    /// Returns the number of spaces available in the queue.
    pub fn spaces_available(&self) -> (free: UBaseType_t)
        ensures
            self@.wf(),
            free == self@.queue.spaces_available(),
            self@.queue.messages_waiting() + free == self@.queue.capacity,
    {
        self.queue.spaces_available()
    }

    /// Sends an item to the end of the queue and, on success, wakes the
    /// poller that waits for an item.
    ///
    /// On a full queue nothing changes, nobody is woken and the item is
    /// handed back unchanged, at once: the call does not wait, and `max_wait`
    /// is not looked at.
    pub fn send_blocking(&mut self, item: T, max_wait: Duration) -> (sent: Result<(), T>)
        ensures
            old(self)@.wf(),
            final(self)@.wf(),
            final(self)@ == old(self)@.send_blocking(item),
            old(self)@.send_ready() ==> sent == Ok::<(), T>(()),
            !old(self)@.send_ready() ==> sent == Err::<(), T>(item),
    {
        let result = self.queue.send(item, max_wait);
        if result.is_ok() {
            self.receive_waker.notify();
        }
        result
    }

    /// Sends an item to the end of the queue, from an interrupt, and on
    /// success wakes the poller that waits for an item. Never waits; on a
    /// full queue the item is handed back unchanged.
    pub fn send_from_isr(&mut self, context: &mut InterruptContext, item: T) -> (sent: Result<
        (),
        T,
    >)
        ensures
            old(self)@.wf(),
            final(self)@.wf(),
            final(self)@ == old(self)@.send_blocking(item),
            old(self)@.send_ready() ==> sent == Ok::<(), T>(()),
            !old(self)@.send_ready() ==> sent == Err::<(), T>(item),
            *final(context) == *old(context),
    {
        let result = self.queue.send_from_isr(context, item);
        if result.is_ok() {
            self.receive_waker.notify();
        }
        result
    }

    /// One poll of "a slot is free": enters `waker` in the send mailbox
    /// first, then looks at the queue, so that a slot freed in between is
    /// not missed.
    pub fn poll_ready(&mut self, waker: &Waker) -> (polled: Poll<()>)
        ensures
            old(self)@.wf(),
            final(self)@ == old(self)@.register_sender(),
            old(self)@.send_ready() ==> polled == Poll::Ready(()),
            !old(self)@.send_ready() ==> polled == Poll::<()>::Pending,
    {
        self.send_waker.register(waker);
        let result = self.queue.spaces_available();
        if result == 0 {
            Poll::Pending
        } else {
            Poll::Ready(())
        }
    }

    /// One poll of the asynchronous version of
    /// [`send_blocking`](Self::send_blocking).
    ///
    /// Stays pending, and hands the item back, until the queue has space for
    /// it. Once it has, the item is queued without waiting and the poller
    /// that waits for an item is woken.
    pub fn send(&mut self, waker: &Waker, item: T) -> (polled: SendPoll<T>)
        ensures
            old(self)@.wf(),
            final(self)@.wf(),
            final(self)@ == old(self)@.poll_send(item),
            old(self)@.send_ready() ==> polled == SendPoll::<T>::Ready,
            !old(self)@.send_ready() ==> polled == SendPoll::Pending(item),
    {
        match self.poll_ready(waker) {
            Poll::Pending => SendPoll::Pending(item),
            Poll::Ready(_) => {
                // A slot was seen free and nobody else has filled it, so the
                // send cannot fail.
                match self.queue.send(item, Duration::zero()) {
                    Ok(_) => {
                        self.receive_waker.notify();
                        SendPoll::Ready
                    },
                    Err(_) => vstd::pervasive::unreached(),
                }
            },
        }
    }

    /// Waits for an item to be available on the queue.
    ///
    /// Returns the oldest item and wakes the poller that waits for a slot. On
    /// an empty queue it fails at once as timed out and wakes nobody: the
    /// call does not wait, and `max_wait` is not looked at.
    pub fn receive_blocking(&mut self, max_wait: Duration) -> (received: Result<T, FreeRtosError>)
        ensures
            old(self)@.wf(),
            final(self)@.wf(),
            final(self)@ == old(self)@.receive_blocking(),
            old(self)@.receive_ready() ==> received == Ok::<T, FreeRtosError>(
                old(self)@.queue.items[0],
            ),
            !old(self)@.receive_ready() ==> received == Err::<T, FreeRtosError>(
                FreeRtosError::QueueReceiveTimeout,
            ),
    {
        let result = self.queue.receive(max_wait);
        if result.is_ok() {
            self.send_waker.notify();
        }
        result
    }

    /// One poll of the asynchronous version of
    /// [`receive_blocking`](Self::receive_blocking).
    ///
    /// Ready with the oldest item where there is one, waking the poller that
    /// waits for a slot; else `waker` enters the receive mailbox and the poll
    /// stays pending.
    pub fn receive(&mut self, waker: &Waker) -> (polled: Poll<T>)
        ensures
            old(self)@.wf(),
            final(self)@.wf(),
            final(self)@ == old(self)@.poll_receive(),
            old(self)@.receive_ready() ==> polled == Poll::Ready(old(self)@.queue.items[0]),
            !old(self)@.receive_ready() ==> polled == Poll::<T>::Pending,
    {
        let result = self.queue.receive(Duration::zero());
        match result {
            Ok(item) => {
                self.send_waker.notify();
                Poll::Ready(item)
            },
            Err(_) => {
                self.receive_waker.register(waker);
                Poll::Pending
            },
        }
    }
}

/// Creates the core of an asynchronous channel of `max_size` slots.
pub fn channel<T>(max_size: UBaseType_t) -> (created: Result<AsyncQueue<T>, FreeRtosError>)
    ensures
        Queue::<T>::can_allocate(max_size) ==> created is Ok && created->Ok_0@.wf()
            && created->Ok_0@ == ChannelModel::<T>::empty(max_size as nat),
        !Queue::<T>::can_allocate(max_size) ==> created == Err::<AsyncQueue<T>, FreeRtosError>(
            FreeRtosError::OutOfMemory,
        ),
{
    AsyncQueue::new(max_size)
}

} // verus!
