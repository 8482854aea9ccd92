//! Relay tasks: each moves items between a blocking [`Queue`] and an
//! asynchronous channel, one item at a time, in order, and never drops one.
use crate::async_queue::channel;
use crate::async_queue::AsyncQueue;
use crate::async_queue::ChannelModel;
use crate::bindings::StackType_t;
use crate::bindings::UBaseType_t;
use crate::error::FreeRtosError;
use crate::queue::Queue;
use crate::queue::QueueModel;
use crate::task::Task;
use crate::task::TaskBuilder;
use crate::task::TaskBuilderModel;
use crate::task::TaskPriority;
use crate::units::Duration;
use vstd::prelude::*;

verus! {

/// Stack a relay task needs before it holds any item, in words.
pub const BASE_STACK_SIZE: StackType_t = 256;

/// The stack a relay task for items of type `T` gets unless told otherwise:
/// the base allowance and room for two items, the one in flight and the copy
/// kept for a retry.
pub open spec fn spec_relay_stack_size<T>() -> int {
    BASE_STACK_SIZE + 2 * vstd::layout::size_of::<T>()
}

/// The items an optional item stands for: one or none.
pub open spec fn held<T>(item: Option<T>) -> Seq<T> {
    match item {
        Some(item) => seq![item],
        None => Seq::empty(),
    }
}

/// What a relay builder holds.
pub struct RelayBuilderModel<T> {
    pub name: Seq<char>,
    pub queue: QueueModel<T>,
    pub priority: UBaseType_t,
    pub capacity: UBaseType_t,
    pub stack_size: StackType_t,
}

/// How a relay's task is set up: by its name, stack size and priority.
pub open spec fn relay_task_setup<T>(builder: RelayBuilderModel<T>) -> TaskBuilderModel {
    TaskBuilderModel {
        name: builder.name,
        stack_size: builder.stack_size,
        priority: builder.priority,
    }
}

/// A relay from a blocking queue into an asynchronous channel.
pub struct BlockingToAsyncModel<T> {
    /// How the relay's task is set up.
    pub setup: TaskBuilderModel,
    /// Where the items come from.
    pub queue: QueueModel<T>,
    /// The item that has left the queue and not yet entered the channel.
    pub in_flight: Option<T>,
    /// Where the items go.
    pub channel: ChannelModel<T>,
}

impl<T> BlockingToAsyncModel<T> {
    /// Both ends are well formed.
    pub open spec fn wf(self) -> bool {
        self.queue.wf() && self.channel.wf()
    }

    /// All items on their way, in the order in which they leave the relay:
    /// those in the channel, then the one in flight, then those in the queue.
    pub open spec fn stream(self) -> Seq<T> {
        self.channel.queue.items + held(self.in_flight) + self.queue.items
    }

    /// The item the relay tries to pass on next: the one in flight, else the
    /// oldest in the queue.
    pub open spec fn next_item(self) -> Option<T> {
        if self.in_flight is Some {
            self.in_flight
        } else if self.queue.is_empty() {
            None
        } else {
            Some(self.queue.items[0])
        }
    }

    /// Whether a turn passes an item on: there is one, and the channel has
    /// room for it.
    pub open spec fn delivers(self) -> bool {
        self.next_item() is Some && self.channel.send_ready()
    }

    /// The relay after one turn. With nothing in flight it takes the oldest
    /// item off the queue; with nothing there either, the turn ends. It then
    /// tries to send the item into the channel, and keeps it in flight where
    /// the channel is full.
    pub open spec fn step(self) -> Self {
        let queue = if self.in_flight is Some {
            self.queue
        } else {
            self.queue.receive()
        };
        match self.next_item() {
            None => self,
            Some(item) => if self.channel.send_ready() {
                BlockingToAsyncModel {
                    queue,
                    in_flight: None,
                    channel: self.channel.send_blocking(item),
                    ..self
                }
            } else {
                BlockingToAsyncModel { queue, in_flight: Some(item), ..self }
            },
        }
    }

    /// A turn neither drops, repeats nor reorders an item: the stream stays
    /// as it is.
    pub proof fn lemma_step_keeps_stream(self)
        requires
            self.wf(),
        ensures
            self.step().wf(),
            self.step().stream() == self.stream(),
    {
        let next = self.step();
        match self.next_item() {
            None => {},
            Some(item) => {
                if self.in_flight is None {
                    assert(seq![item] + self.queue.receive().items =~= self.queue.items);
                }
                assert(next.stream() =~= self.stream());
            },
        }
    }

    /// A turn takes an item off the queue only with nothing in flight.
    pub proof fn lemma_step_receives(self)
        ensures
            self.in_flight is Some ==> self.step().queue == self.queue,
            self.in_flight is None ==> self.step().queue == self.queue.receive(),
            self.step().setup == self.setup,
    {
    }

    /// A turn passes an item on whenever there is one and the channel has
    /// room for it: the next item stands at the back of the channel and
    /// nothing is left in flight.
    pub proof fn lemma_step_delivers(self)
        requires
            self.wf(),
            self.channel.send_ready(),
            self.next_item() is Some,
        ensures
            self.step().in_flight is None,
            self.step().channel == self.channel.send_blocking(self.next_item()->Some_0),
            self.step().channel.queue.items == self.channel.queue.items.push(
                self.next_item()->Some_0,
            ),
            !self.step().channel.receive_armed,
            self.channel.receive_armed ==> self.step().channel.receive_woken
                == self.channel.receive_woken + 1,
    {
    }

    /// A turn that finds the channel full holds on to its item for the next
    /// turn and leaves the channel alone.
    pub proof fn lemma_step_stalls(self)
        requires
            self.wf(),
            !self.channel.send_ready(),
            self.next_item() is Some,
        ensures
            self.step().in_flight == self.next_item(),
            self.step().channel == self.channel,
    {
    }
}

/// A relay from an asynchronous channel into a blocking queue.
pub struct AsyncToBlockingModel<T> {
    /// How the relay's task is set up.
    pub setup: TaskBuilderModel,
    /// Where the items come from.
    pub channel: ChannelModel<T>,
    /// The item that has left the channel and not yet entered the queue.
    pub in_flight: Option<T>,
    /// Where the items go.
    pub queue: QueueModel<T>,
}

impl<T> AsyncToBlockingModel<T> {
    /// Both ends are well formed.
    pub open spec fn wf(self) -> bool {
        self.queue.wf() && self.channel.wf()
    }

    /// All items on their way, in the order in which they leave the relay:
    /// those in the queue, then the one in flight, then those in the channel.
    pub open spec fn stream(self) -> Seq<T> {
        self.queue.items + held(self.in_flight) + self.channel.queue.items
    }

    /// The item the relay tries to pass on next: the one in flight, else the
    /// oldest in the channel.
    pub open spec fn next_item(self) -> Option<T> {
        if self.in_flight is Some {
            self.in_flight
        } else if self.channel.queue.is_empty() {
            None
        } else {
            Some(self.channel.queue.items[0])
        }
    }

    /// Whether a turn passes an item on: there is one, and the queue has
    /// room for it.
    pub open spec fn delivers(self) -> bool {
        self.next_item() is Some && !self.queue.is_full()
    }

    /// The relay after one turn. With nothing in flight it takes the oldest
    /// item out of the channel, which wakes the poller waiting for a slot;
    /// with nothing there either, the turn ends. It then tries to send the
    /// item to the queue, and keeps it in flight where the queue is full.
    pub open spec fn step(self) -> Self {
        let channel = if self.in_flight is Some {
            self.channel
        } else {
            self.channel.receive_blocking()
        };
        match self.next_item() {
            None => self,
            Some(item) => if self.queue.is_full() {
                AsyncToBlockingModel { channel, in_flight: Some(item), ..self }
            } else {
                AsyncToBlockingModel {
                    channel,
                    in_flight: None,
                    queue: self.queue.send(item),
                    ..self
                }
            },
        }
    }

    /// A turn neither drops, repeats nor reorders an item: the stream stays
    /// as it is.
    pub proof fn lemma_step_keeps_stream(self)
        requires
            self.wf(),
        ensures
            self.step().wf(),
            self.step().stream() == self.stream(),
    {
        let next = self.step();
        match self.next_item() {
            None => {},
            Some(item) => {
                if self.in_flight is None {
                    assert(seq![item] + self.channel.receive_blocking().queue.items
                        =~= self.channel.queue.items);
                }
                assert(next.stream() =~= self.stream());
            },
        }
    }

    /// A turn takes an item out of the channel only with nothing in flight,
    /// and then as a blocking receive does: the poller that waits for a slot,
    /// if any, is woken.
    pub proof fn lemma_step_receives(self)
        ensures
            self.in_flight is Some ==> self.step().channel == self.channel,
            self.in_flight is None ==> self.step().channel == self.channel.receive_blocking(),
            self.step().setup == self.setup,
    {
    }

    /// A turn passes an item on whenever there is one and the queue has room
    /// for it: the next item stands at the back of the queue and nothing is
    /// left in flight.
    pub proof fn lemma_step_delivers(self)
        requires
            self.wf(),
            !self.queue.is_full(),
            self.next_item() is Some,
        ensures
            self.step().in_flight is None,
            self.step().queue.items == self.queue.items.push(self.next_item()->Some_0),
    {
    }

    /// A turn that finds the queue full holds on to its item for the next
    /// turn and leaves the queue alone.
    pub proof fn lemma_step_stalls(self)
        requires
            self.wf(),
            self.queue.is_full(),
            self.next_item() is Some,
        ensures
            self.step().in_flight == self.next_item(),
            self.step().queue == self.queue,
    {
    }
}

/// Builder for a task that can receive items from a blocking [`Queue`] and
/// send them to an asynchronous queue.
pub struct BlockingToAsyncQueueTaskBuilder<T> {
    name: String,
    queue: Queue<T>,
    priority: TaskPriority,
    capacity: UBaseType_t,
    stack_size: StackType_t,
}

impl<T> View for BlockingToAsyncQueueTaskBuilder<T> {
    type V = RelayBuilderModel<T>;

    closed spec fn view(&self) -> RelayBuilderModel<T> {
        RelayBuilderModel {
            name: self.name@,
            queue: self.queue@,
            priority: self.priority.0,
            capacity: self.capacity,
            stack_size: self.stack_size,
        }
    }
}

impl<T> BlockingToAsyncQueueTaskBuilder<T> {
    /// Creates a new queue bridge task builder: low priority, and a stack
    /// with room for two items on top of the base allowance.
    pub fn new(name: &str, queue: Queue<T>, capacity: UBaseType_t) -> (builder: Self)
        requires
            spec_relay_stack_size::<T>() <= StackType_t::MAX,
        ensures
            builder@.name == name@,
            builder@.queue == queue@,
            builder@.priority == 1,
            builder@.capacity == capacity,
            builder@.stack_size == spec_relay_stack_size::<T>(),
    {
        let data_size: StackType_t = core::mem::size_of::<T>() as StackType_t * 2;
        Self {
            name: name.to_owned(),
            queue,
            capacity,
            priority: TaskPriority(1),
            stack_size: BASE_STACK_SIZE + data_size,
        }
    }

    /// Sets the priority of the relay task.
    pub fn priority(self, priority: TaskPriority) -> (builder: Self)
        ensures
            builder@ == (RelayBuilderModel { priority: priority.0, ..self@ }),
    {
        let mut builder = self;
        builder.priority = priority;
        builder
    }

    /// Sets the stack size of the relay task.
    pub fn stack_size(self, stack_size: StackType_t) -> (builder: Self)
        ensures
            builder@ == (RelayBuilderModel { stack_size, ..self@ }),
    {
        let mut builder = self;
        builder.stack_size = stack_size;
        builder
    }

    /// Creates the relay with an empty channel of the chosen capacity behind
    /// the queue. Fails with `OutOfMemory` exactly where the channel cannot
    /// be created.
    pub fn create(self) -> (created: Result<BlockingToAsyncQueueTask<T>, FreeRtosError>)
        ensures
            Queue::<T>::can_allocate(self@.capacity) ==> created is Ok
                && created->Ok_0@.setup == relay_task_setup(self@)
                && created->Ok_0@.queue == self@.queue
                && created->Ok_0@.in_flight is None
                && created->Ok_0@.channel == ChannelModel::<T>::empty(self@.capacity as nat),
            !Queue::<T>::can_allocate(self@.capacity) ==> created is Err
                && created->Err_0 == FreeRtosError::OutOfMemory,
    {
        match channel(self.capacity) {
            Ok(sink) => {
                let mut setup = Task::new();
                setup.name(self.name.as_str());
                setup.stack_size(self.stack_size);
                setup.priority(self.priority);
                Ok(
                    BlockingToAsyncQueueTask {
                        setup,
                        queue: self.queue,
                        in_flight: None,
                        channel: sink,
                    },
                )
            },
            Err(error) => Err(error),
        }
    }
}

/// A task that relays items from a blocking [`Queue`] into an asynchronous
/// queue. It runs [`step`](Self::step) over and over.
pub struct BlockingToAsyncQueueTask<T> {
    setup: TaskBuilder,
    queue: Queue<T>,
    in_flight: Option<T>,
    channel: AsyncQueue<T>,
}

impl<T> View for BlockingToAsyncQueueTask<T> {
    type V = BlockingToAsyncModel<T>;

    closed spec fn view(&self) -> BlockingToAsyncModel<T> {
        BlockingToAsyncModel {
            setup: self.setup@,
            queue: self.queue@,
            in_flight: self.in_flight,
            channel: self.channel@,
        }
    }
}

impl<T> BlockingToAsyncQueueTask<T> {
    /// Returns how the task is to be set up: its name, stack size and
    /// priority.
    pub fn task_builder(&self) -> (setup: &TaskBuilder)
        ensures
            setup@ == self@.setup,
    {
        &self.setup
    }

    /// Lends out the blocking queue the relay reads from.
    pub fn queue(&mut self) -> (queue: &mut Queue<T>)
        ensures
            queue@ == old(self)@.queue,
            final(self)@ == (BlockingToAsyncModel { queue: final(queue)@, ..old(self)@ }),
    {
        &mut self.queue
    }

    /// Lends out the asynchronous queue the relay writes to, to receive from.
    pub fn receiver(&mut self) -> (receiver: &mut AsyncQueue<T>)
        ensures
            receiver@ == old(self)@.channel,
            final(self)@ == (BlockingToAsyncModel { channel: final(receiver)@, ..old(self)@ }),
    {
        &mut self.channel
    }

    /// One turn of the relay. With nothing in flight, asks the queue for an
    /// item with the longest wait there is; then sends the item in flight on
    /// in the same way. An item that could not be sent stays in flight for
    /// the next turn. Returns whether an item was passed on: where none was,
    /// the next turn finds the same unless one of the ends has changed.
    pub fn step(&mut self) -> (delivered: bool)
        ensures
            old(self)@.wf(),
            final(self)@.wf(),
            final(self)@ == old(self)@.step(),
            delivered == old(self)@.delivers(),
    {
        self.queue.well_formed();
        self.channel.well_formed();
        // Any non-zero wait behaves the same, as a turn that times out is
        // followed by the next: the longer the better.
        let duration = Duration::max();
        let data = match self.in_flight.take() {
            Some(data) => data,
            None => match self.queue.receive(duration) {
                Ok(data) => data,
                Err(_) => {
                    return false;
                },
            },
        };
        match self.channel.send_blocking(data, duration) {
            Ok(_) => true,
            Err(saved_data) => {
                self.in_flight = Some(saved_data);
                false
            },
        }
    }
}

/// Builder for a task that can receive items from an asynchronous queue and
/// send them to a blocking [`Queue`].
pub struct AsyncToBlockingQueueTaskBuilder<T> {
    name: String,
    queue: Queue<T>,
    priority: TaskPriority,
    capacity: UBaseType_t,
    stack_size: StackType_t,
}

impl<T> View for AsyncToBlockingQueueTaskBuilder<T> {
    type V = RelayBuilderModel<T>;

    closed spec fn view(&self) -> RelayBuilderModel<T> {
        RelayBuilderModel {
            name: self.name@,
            queue: self.queue@,
            priority: self.priority.0,
            capacity: self.capacity,
            stack_size: self.stack_size,
        }
    }
}

impl<T> AsyncToBlockingQueueTaskBuilder<T> {
    /// Creates a new queue bridge task builder: low priority, and a stack
    /// with room for two items on top of the base allowance.
    pub fn new(name: &str, queue: Queue<T>, capacity: UBaseType_t) -> (builder: Self)
        requires
            spec_relay_stack_size::<T>() <= StackType_t::MAX,
        ensures
            builder@.name == name@,
            builder@.queue == queue@,
            builder@.priority == 1,
            builder@.capacity == capacity,
            builder@.stack_size == spec_relay_stack_size::<T>(),
    {
        let data_size: StackType_t = core::mem::size_of::<T>() as StackType_t * 2;
        Self {
            name: name.to_owned(),
            queue,
            priority: TaskPriority(1),
            capacity,
            stack_size: BASE_STACK_SIZE + data_size,
        }
    }

    /// Sets the priority of the relay task.
    pub fn priority(self, priority: TaskPriority) -> (builder: Self)
        ensures
            builder@ == (RelayBuilderModel { priority: priority.0, ..self@ }),
    {
        let mut builder = self;
        builder.priority = priority;
        builder
    }

    /// Sets the stack size of the relay task.
    pub fn stack_size(self, stack_size: StackType_t) -> (builder: Self)
        ensures
            builder@ == (RelayBuilderModel { stack_size, ..self@ }),
    {
        let mut builder = self;
        builder.stack_size = stack_size;
        builder
    }

    /// Creates the relay with an empty channel of the chosen capacity in
    /// front of the queue. Fails with `OutOfMemory` exactly where the channel
    /// cannot be created.
    pub fn create(self) -> (created: Result<AsyncToBlockingQueueTask<T>, FreeRtosError>)
        ensures
            Queue::<T>::can_allocate(self@.capacity) ==> created is Ok
                && created->Ok_0@.setup == relay_task_setup(self@)
                && created->Ok_0@.queue == self@.queue
                && created->Ok_0@.in_flight is None
                && created->Ok_0@.channel == ChannelModel::<T>::empty(self@.capacity as nat),
            !Queue::<T>::can_allocate(self@.capacity) ==> created is Err
                && created->Err_0 == FreeRtosError::OutOfMemory,
    {
        match channel(self.capacity) {
            Ok(source) => {
                let mut setup = Task::new();
                setup.name(self.name.as_str());
                setup.stack_size(self.stack_size);
                setup.priority(self.priority);
                Ok(
                    AsyncToBlockingQueueTask {
                        setup,
                        channel: source,
                        in_flight: None,
                        queue: self.queue,
                    },
                )
            },
            Err(error) => Err(error),
        }
    }
}

/// A task that relays items from an asynchronous queue into a blocking
/// [`Queue`]. It runs [`step`](Self::step) over and over.
pub struct AsyncToBlockingQueueTask<T> {
    setup: TaskBuilder,
    channel: AsyncQueue<T>,
    in_flight: Option<T>,
    queue: Queue<T>,
}

impl<T> View for AsyncToBlockingQueueTask<T> {
    type V = AsyncToBlockingModel<T>;

    closed spec fn view(&self) -> AsyncToBlockingModel<T> {
        AsyncToBlockingModel {
            setup: self.setup@,
            channel: self.channel@,
            in_flight: self.in_flight,
            queue: self.queue@,
        }
    }
}

impl<T> AsyncToBlockingQueueTask<T> {
    /// Returns how the task is to be set up: its name, stack size and
    /// priority.
    pub fn task_builder(&self) -> (setup: &TaskBuilder)
        ensures
            setup@ == self@.setup,
    {
        &self.setup
    }

    /// Lends out the blocking queue the relay writes to.
    pub fn queue(&mut self) -> (queue: &mut Queue<T>)
        ensures
            queue@ == old(self)@.queue,
            final(self)@ == (AsyncToBlockingModel { queue: final(queue)@, ..old(self)@ }),
    {
        &mut self.queue
    }

    /// Lends out the asynchronous queue the relay reads from, to send into.
    pub fn sender(&mut self) -> (sender: &mut AsyncQueue<T>)
        ensures
            sender@ == old(self)@.channel,
            final(self)@ == (AsyncToBlockingModel { channel: final(sender)@, ..old(self)@ }),
    {
        &mut self.channel
    }

    /// One turn of the relay. With nothing in flight, asks the channel for an
    /// item with the longest wait there is; then sends the item in flight on
    /// in the same way. An item that could not be sent stays in flight for
    /// the next turn. Returns whether an item was passed on: where none was,
    /// the next turn finds the same unless one of the ends has changed.
    pub fn step(&mut self) -> (delivered: bool)
        ensures
            old(self)@.wf(),
            final(self)@.wf(),
            final(self)@ == old(self)@.step(),
            delivered == old(self)@.delivers(),
    {
        self.queue.well_formed();
        self.channel.well_formed();
        // Any non-zero wait behaves the same, as a turn that times out is
        // followed by the next: the longer the better.
        let duration = Duration::max();
        let data = match self.in_flight.take() {
            Some(data) => data,
            None => match self.channel.receive_blocking(duration) {
                Ok(data) => data,
                Err(_) => {
                    return false;
                },
            },
        };
        match self.queue.send(data, duration) {
            Ok(_) => true,
            Err(saved_data) => {
                self.in_flight = Some(saved_data);
                false
            },
        }
    }
}

} // verus!
