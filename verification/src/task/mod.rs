//! Tasks: how one is configured, and the notification value the kernel keeps
//! for each.
use crate::bindings::eNotifyAction;
use crate::bindings::eNotifyAction_eIncrement;
use crate::bindings::eNotifyAction_eNoAction;
use crate::bindings::eNotifyAction_eSetBits;
use crate::bindings::eNotifyAction_eSetValueWithOverwrite;
use crate::bindings::eNotifyAction_eSetValueWithoutOverwrite;
use crate::bindings::StackType_t;
use crate::bindings::TaskHandle_t;
use crate::bindings::UBaseType_t;
use crate::error::FreeRtosError;
use crate::isr::InterruptContext;
use crate::units::Duration;
use vstd::prelude::*;

pub mod block_on_future;

verus! {

/// Task's execution priority. Low priority numbers denote low priority tasks.
#[derive(Debug, Copy, Clone)]
pub struct TaskPriority(pub UBaseType_t);

impl TaskPriority {
    /// The number the kernel takes for this priority.
    pub fn to_freertos(self) -> (priority: UBaseType_t)
        ensures
            priority == self.0,
    {
        self.0
    }
}

/// Notification to be sent to a task.
#[derive(Debug, Copy, Clone)]
pub enum TaskNotification {
    /// Send the event, unblock the task, the task's notification value isn't changed.
    NoAction,
    /// Perform a logical or with the task's notification value.
    SetBits(u32),
    /// Increment the task's notification value by one.
    Increment,
    /// Set the task's notification value to this value.
    OverwriteValue(u32),
    /// Try to set the task's notification value to this value. Succeeds
    /// only if the task has no pending notifications. Otherwise, the
    /// notification call will fail.
    SetValue(u32),
}

impl TaskNotification {
    /// The value and the action number the kernel takes for a notification.
    pub open spec fn spec_to_freertos(self) -> (u32, eNotifyAction) {
        match self {
            TaskNotification::NoAction => (0, eNotifyAction_eNoAction),
            TaskNotification::SetBits(v) => (v, eNotifyAction_eSetBits),
            TaskNotification::Increment => (0, eNotifyAction_eIncrement),
            TaskNotification::OverwriteValue(v) => (v, eNotifyAction_eSetValueWithOverwrite),
            TaskNotification::SetValue(v) => (v, eNotifyAction_eSetValueWithoutOverwrite),
        }
    }

    /// Returns the value and the action number the kernel takes for this
    /// notification.
    pub fn to_freertos(self) -> (pair: (u32, eNotifyAction))
        ensures
            pair == self.spec_to_freertos(),
    {
        match self {
            TaskNotification::NoAction => (0, eNotifyAction_eNoAction),
            TaskNotification::SetBits(v) => (v, eNotifyAction_eSetBits),
            TaskNotification::Increment => (0, eNotifyAction_eIncrement),
            TaskNotification::OverwriteValue(v) => (v, eNotifyAction_eSetValueWithOverwrite),
            TaskNotification::SetValue(v) => (v, eNotifyAction_eSetValueWithoutOverwrite),
        }
    }
}

/// What the kernel keeps of a task's notifications: an unsigned value, and
/// whether a notification has arrived that no wait has consumed yet.
pub struct TaskModel {
    pub handle: TaskHandle_t,
    pub value: u32,
    pub pending: bool,
}

impl TaskModel {
    /// A task as the kernel creates it: its notification value zero and no
    /// notification pending.
    pub open spec fn created(handle: TaskHandle_t) -> Self {
        TaskModel { handle, value: 0, pending: false }
    }

    /// Whether the kernel takes the notification. Only a conditional set is
    /// ever refused, and only while an earlier notification is pending.
    pub open spec fn accepts(self, notification: TaskNotification) -> bool {
        !(notification is SetValue && self.pending)
    }

    /// The notification value after `notification` has acted on `value`.
    pub open spec fn acted(value: u32, notification: TaskNotification) -> u32 {
        match notification {
            TaskNotification::NoAction => value,
            TaskNotification::SetBits(bits) => value | bits,
            TaskNotification::Increment => if value == u32::MAX {
                0u32
            } else {
                (value + 1) as u32
            },
            TaskNotification::OverwriteValue(v) => v,
            TaskNotification::SetValue(v) => v,
        }
    }

    /// The task after `notification` was sent to it. A notification that is
    /// taken acts on the value and is pending from then on; one that is
    /// refused changes nothing.
    pub open spec fn notify(self, notification: TaskNotification) -> Self {
        if self.accepts(notification) {
            TaskModel {
                handle: self.handle,
                value: Self::acted(self.value, notification),
                pending: true,
            }
        } else {
            self
        }
    }

    /// The task after `count` wakes, each an increment.
    pub open spec fn woken(self, count: nat) -> Self
        decreases count,
    {
        if count == 0 {
            self
        } else {
            self.notify(TaskNotification::Increment).woken((count - 1) as nat)
        }
    }

    /// The task after it has taken its notification value: a value of zero
    /// stays, any other is cleared or counted down by one.
    pub open spec fn take(self, clear: bool) -> Self {
        TaskModel {
            handle: self.handle,
            value: if self.value == 0 || clear {
                0u32
            } else {
                (self.value - 1) as u32
            },
            pending: false,
        }
    }

    /// The task after it has waited for a notification. Where one was
    /// pending, the bits of `clear_bits_exit` are cleared on the way out.
    /// Where none was, the bits of `clear_bits_enter` are cleared on the way
    /// in, and the wait runs out.
    pub open spec fn wait(self, clear_bits_enter: u32, clear_bits_exit: u32) -> Self {
        TaskModel {
            handle: self.handle,
            value: if self.pending {
                self.value & !clear_bits_exit
            } else {
                self.value & !clear_bits_enter
            },
            pending: false,
        }
    }

    /// Wakes add up: as long as the value does not wrap, `count` wakes raise
    /// it by `count`, and any wake at all leaves a notification pending.
    pub proof fn lemma_wakes_accumulate(self, count: nat)
        requires
            self.value + count <= u32::MAX,
        ensures
            self.woken(count).value == self.value + count,
            self.woken(count).handle == self.handle,
            self.woken(count).pending == (self.pending || count > 0),
        decreases count,
    {
        if count > 0 {
            self.notify(TaskNotification::Increment).lemma_wakes_accumulate((count - 1) as nat);
        }
    }

    /// A wake is never lost on a task that takes its notifications: after a
    /// wake the value is not zero, so a take returns at once with it, unless
    /// the value wrapped around.
    pub proof fn lemma_wake_then_take(self)
        requires
            self.value < u32::MAX,
        ensures
            self.notify(TaskNotification::Increment).value == self.value + 1,
            self.notify(TaskNotification::Increment).take(true).value == 0,
            !self.notify(TaskNotification::Increment).take(true).pending,
    {
    }
}

/// A task as the kernel knows it: its handle and its notification state.
#[derive(Debug)]
pub struct Task {
    task_handle: TaskHandle_t,
    notification_value: u32,
    notification_pending: bool,
}

impl View for Task {
    type V = TaskModel;

    closed spec fn view(&self) -> TaskModel {
        TaskModel {
            handle: self.task_handle,
            value: self.notification_value,
            pending: self.notification_pending,
        }
    }
}

impl Task {
    /// Prepare a builder object for the new task.
    pub fn new() -> (builder: TaskBuilder)
        ensures
            builder@ == TaskBuilder::spec_default(),
    {
        TaskBuilder {
            task_name: "rust_task".to_owned(),
            task_stack_size: 1024,
            task_priority: TaskPriority(1),
        }
    }

    /// The task of the current execution context, given the handle the
    /// kernel names it by. The null handle, zero, says that nothing runs as a
    /// task there: `TaskNotFound`.
    pub fn current(handle: TaskHandle_t) -> (current: Result<Task, FreeRtosError>)
        ensures
            handle == 0 ==> current is Err && current->Err_0 == FreeRtosError::TaskNotFound,
            handle != 0 ==> current is Ok && current->Ok_0@ == TaskModel::created(handle),
    {
        if handle == 0 {
            return Err(FreeRtosError::TaskNotFound);
        }
        Ok(Task::from_raw_handle(handle))
    }

    /// The task the kernel names by `handle`, as it is when created: its
    /// notification value zero and no notification pending.
    pub fn from_raw_handle(handle: TaskHandle_t) -> (task: Task)
        ensures
            task@ == TaskModel::created(handle),
    {
        Task { task_handle: handle, notification_value: 0, notification_pending: false }
    }

    /// Returns what the kernel names the task by.
    pub fn raw_handle(&self) -> (handle: TaskHandle_t)
        ensures
            handle == self@.handle,
    {
        self.task_handle
    }

    /// Forcibly set the notification value of the task.
    pub fn set_notification_value(&mut self, val: u32)
        ensures
            final(self)@ == (TaskModel { handle: old(self)@.handle, value: val, pending: true }),
    {
        self.notify(TaskNotification::OverwriteValue(val))
    }

    /// Notify the task. A conditional set that finds a notification pending
    /// is dropped.
    pub fn notify(&mut self, notification: TaskNotification)
        ensures
            final(self)@ == old(self)@.notify(notification),
    {
        let _ = self.deliver(notification);
    }

    /// Notify the task from an interrupt. Fails with `QueueFull` exactly
    /// where the kernel refuses the notification. The task is not asleep, so
    /// nothing is woken and the context stays as it was.
    pub fn notify_from_isr(
        &mut self,
        context: &mut InterruptContext,
        notification: TaskNotification,
    ) -> (notified: Result<(), FreeRtosError>)
        ensures
            final(self)@ == old(self)@.notify(notification),
            old(self)@.accepts(notification) ==> notified == Ok::<(), FreeRtosError>(()),
            !old(self)@.accepts(notification) ==> notified == Err::<(), FreeRtosError>(
                FreeRtosError::QueueFull,
            ),
            *final(context) == *old(context),
    {
        if self.deliver(notification) {
            Ok(())
        } else {
            Err(FreeRtosError::QueueFull)
        }
    }

    /// Lets `notification` act on the task and reports whether the kernel
    /// took it.
    fn deliver(&mut self, notification: TaskNotification) -> (accepted: bool)
        ensures
            final(self)@ == old(self)@.notify(notification),
            accepted == old(self)@.accepts(notification),
    {
        match notification {
            TaskNotification::NoAction => {},
            TaskNotification::SetBits(bits) => {
                self.notification_value = self.notification_value | bits;
            },
            TaskNotification::Increment => {
                self.notification_value = self.notification_value.wrapping_add(1);
            },
            TaskNotification::OverwriteValue(v) => {
                self.notification_value = v;
            },
            TaskNotification::SetValue(v) => {
                if self.notification_pending {
                    return false;
                }
                self.notification_value = v;
            },
        }
        self.notification_pending = true;
        true
    }

    /// Wait for a notification to be posted.
    ///
    /// Where one is pending, returns the notification value and clears the
    /// bits of `clear_bits_exit` in it. Where none is, clears the bits of
    /// `clear_bits_enter` and fails at once with `Timeout`: the call does not
    /// wait, and `wait_for` is not looked at.
    pub fn wait_for_notification(
        &mut self,
        clear_bits_enter: u32,
        clear_bits_exit: u32,
        wait_for: Duration,
    ) -> (waited: Result<u32, FreeRtosError>)
        ensures
            final(self)@ == old(self)@.wait(clear_bits_enter, clear_bits_exit),
            old(self)@.pending ==> waited == Ok::<u32, FreeRtosError>(old(self)@.value),
            !old(self)@.pending ==> waited == Err::<u32, FreeRtosError>(FreeRtosError::Timeout),
    {
        if self.notification_pending {
            let val = self.notification_value;
            self.notification_value = val & !clear_bits_exit;
            self.notification_pending = false;
            Ok(val)
        } else {
            self.notification_value = self.notification_value & !clear_bits_enter;
            Err(FreeRtosError::Timeout)
        }
    }

    /// Take the notification and either clear the notification value or
    /// decrement it by one. Returns the value as it was before; zero means
    /// that no notification was there. The call does not wait, and `wait_for`
    /// is not looked at.
    pub fn take_notification(&mut self, clear: bool, wait_for: Duration) -> (value: u32)
        ensures
            value == old(self)@.value,
            final(self)@ == old(self)@.take(clear),
    {
        let value = self.notification_value;
        if value != 0 {
            if clear {
                self.notification_value = 0;
            } else {
                self.notification_value = value - 1;
            }
        }
        self.notification_pending = false;
        value
    }
}

/// What a task builder holds.
pub struct TaskBuilderModel {
    pub name: Seq<char>,
    pub stack_size: StackType_t,
    pub priority: UBaseType_t,
}

/// Helper for spawning a new task. Instantiate with [`Task::new()`].
#[derive(Debug)]
pub struct TaskBuilder {
    task_name: String,
    task_stack_size: StackType_t,
    task_priority: TaskPriority,
}

impl View for TaskBuilder {
    type V = TaskBuilderModel;

    closed spec fn view(&self) -> TaskBuilderModel {
        TaskBuilderModel {
            name: self.task_name@,
            stack_size: self.task_stack_size,
            priority: self.task_priority.0,
        }
    }
}

impl TaskBuilder {
    /// What a new builder holds: the name `rust_task`, a stack of 1024 words
    /// and priority 1.
    pub open spec fn spec_default() -> TaskBuilderModel {
        TaskBuilderModel { name: "rust_task"@, stack_size: 1024, priority: 1 }
    }

    /// Set the task's name.
    pub fn name(&mut self, name: &str) -> (builder: &mut Self)
        ensures
            builder@ == (TaskBuilderModel { name: name@, ..old(self)@ }),
            final(self)@ == final(builder)@,
    {
        self.task_name = name.to_owned();
        self
    }

    /// Set the stack size, in words.
    pub fn stack_size(&mut self, stack_size: StackType_t) -> (builder: &mut Self)
        ensures
            builder@ == (TaskBuilderModel { stack_size, ..old(self)@ }),
            final(self)@ == final(builder)@,
    {
        self.task_stack_size = stack_size;
        self
    }

    /// Set the task's priority.
    pub fn priority(&mut self, priority: TaskPriority) -> (builder: &mut Self)
        ensures
            builder@ == (TaskBuilderModel { priority: priority.0, ..old(self)@ }),
            final(self)@ == final(builder)@,
    {
        self.task_priority = priority;
        self
    }

    /// Ends the start of a new task, given what the kernel answered to the
    /// request to create it: the new task's handle, or nothing where its
    /// memory did not suffice, which is `OutOfMemory`.
    pub fn start(&self, created: Option<TaskHandle_t>) -> (started: Result<Task, FreeRtosError>)
        ensures
            created is None ==> started is Err && started->Err_0 == FreeRtosError::OutOfMemory,
            created is Some ==> started is Ok && started->Ok_0@ == TaskModel::created(
                created->Some_0,
            ),
    {
        match created {
            Some(handle) => Ok(Task::from_raw_handle(handle)),
            None => Err(FreeRtosError::OutOfMemory),
        }
    }

    /// Returns the name the task will get.
    pub fn task_name(&self) -> (name: &str)
        ensures
            name@ == self@.name,
    {
        self.task_name.as_str()
    }

    /// Returns the stack size the task will get, in words.
    pub fn task_stack_size(&self) -> (stack_size: StackType_t)
        ensures
            stack_size == self@.stack_size,
    {
        self.task_stack_size
    }

    /// Returns the priority the task will get.
    pub fn task_priority(&self) -> (priority: TaskPriority)
        ensures
            priority.0 == self@.priority,
    {
        self.task_priority
    }
}

} // verus!
