//! A verified model of an asynchronous bridge on top of a preemptive,
//! priority-based real-time kernel.
//!
//! The kernel hands out blocking primitives: bounded queues, task
//! notifications, tick-based waits. This crate states, and proves with Verus,
//! how the bridge built on them behaves: a bounded channel guarded by two
//! single-slot wake mailboxes, the notification value a wake lands in, the
//! decisions of the per-task driver that polls a computation to completion,
//! and the relay tasks that move items between a blocking queue and an
//! asynchronous channel.
//!
//! Every kernel object is held here as the plain state its contract speaks of
//! and is advanced by one party at a time. Nothing in this crate waits: where
//! the kernel would block, an operation returns at once with what a wait
//! that nobody ends comes to, its timeout.
#![allow(non_camel_case_types)]
#![allow(non_snake_case)]

pub mod allocator;
pub mod async_queue;
pub mod bindings;
pub mod bridge;
pub mod error;
pub mod isr;
pub mod mailbox;
pub mod queue;
pub mod task;
pub mod timers;
pub mod units;

pub use crate::async_queue::channel;
pub use crate::async_queue::AsyncQueue;
pub use crate::async_queue::SendPoll;
pub use crate::bindings::BaseType_t;
pub use crate::bindings::QueueHandle_t;
pub use crate::bindings::StackType_t;
pub use crate::bindings::TaskHandle_t;
pub use crate::bindings::UBaseType_t;
pub use crate::bindings::eNotifyAction;
pub use crate::bindings::vPortGetHeapStats;
pub use crate::bridge::AsyncToBlockingQueueTask;
pub use crate::bridge::AsyncToBlockingQueueTaskBuilder;
pub use crate::bridge::BlockingToAsyncQueueTask;
pub use crate::bridge::BlockingToAsyncQueueTaskBuilder;
pub use crate::error::FreeRtosError;
pub use crate::isr::InterruptContext;
pub use crate::mailbox::WakeMailbox;
pub use crate::queue::Queue;
pub use crate::task::block_on_future::block_on_future;
pub use crate::task::block_on_future::DriveStep;
pub use crate::task::Task;
pub use crate::task::TaskBuilder;
pub use crate::task::TaskNotification;
pub use crate::task::TaskPriority;
pub use crate::timers::Timer;
pub use crate::timers::TimerHandle;
pub use crate::units::Duration;
pub use crate::units::TickType_t;
