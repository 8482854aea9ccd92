//! Running a pollable computation to completion on one task, without
//! spinning: between two polls the task sleeps on its notification value,
//! and a wake is an increment of that value.
use crate::task::Task;
use crate::task::TaskModel;
use crate::task::TaskNotification;
use crate::units::Duration;
use core::task::Poll;
use vstd::prelude::*;

verus! {

/// What the driver of a computation does after a poll.
#[derive(Debug, PartialEq, Eq)]
pub enum DriveStep<T> {
    /// The computation is ready: the driver returns its value.
    Complete(T),
    /// A wake has arrived since the last poll and was consumed: the driver
    /// polls again.
    PollAgain,
    /// No wake has arrived: the task sleeps until one does, then takes this
    /// step again.
    Suspend,
}

/// The step the driver takes on `task` after a poll gave `polled`.
pub open spec fn spec_drive_step<T>(task: TaskModel, polled: Poll<T>) -> DriveStep<T> {
    match polled {
        Poll::Ready(value) => DriveStep::Complete(value),
        Poll::Pending => if task.value != 0 {
            DriveStep::PollAgain
        } else {
            DriveStep::Suspend
        },
    }
}

/// The task after the driver's step: a ready poll leaves it alone, a pending
/// one takes the notification value and clears it.
pub open spec fn spec_drive_task<T>(task: TaskModel, polled: Poll<T>) -> TaskModel {
    match polled {
        Poll::Ready(_) => task,
        Poll::Pending => task.take(true),
    }
}

/// A pending computation is resumed by one wake, and by nothing less. On a
/// task whose notification value is zero, a pending poll puts the driver to
/// sleep; after a wake the same step consumes the wake, asks for the next
/// poll and leaves the value at zero again, ready for the next round.
pub proof fn lemma_wake_resumes<T>(task: TaskModel)
    requires
        task.value == 0,
    ensures
        spec_drive_step(task, Poll::<T>::Pending) == DriveStep::<T>::Suspend,
        spec_drive_step(wake_of(task), Poll::<T>::Pending) == DriveStep::<T>::PollAgain,
        spec_drive_task(wake_of(task), Poll::<T>::Pending).value == 0,
        !spec_drive_task(wake_of(task), Poll::<T>::Pending).pending,
{
}

/// The task after one wake: its notification value incremented.
pub open spec fn wake_of(task: TaskModel) -> TaskModel {
    task.notify(TaskNotification::Increment)
}

/// Wakes `task`: increments its notification value, so that repeated wakes
/// add up instead of merging into one.
pub fn wake(task: &mut Task)
    ensures
        final(task)@ == wake_of(old(task)@),
{
    task.notify(TaskNotification::Increment);
}

/// One turn of running a future to completion on `task`, given what the last
/// poll of the future returned.
///
/// A ready poll completes with its value. After a pending poll the task takes
/// its notification value, clearing it: where a wake has arrived the future
/// is to be polled again, where none has the step says that the task is to
/// sleep. The step itself does not wait.
pub fn block_on_future<T>(task: &mut Task, polled: Poll<T>) -> (step: DriveStep<T>)
    ensures
        step == spec_drive_step(old(task)@, polled),
        final(task)@ == spec_drive_task(old(task)@, polled),
{
    match polled {
        Poll::Ready(value) => DriveStep::Complete(value),
        Poll::Pending => {
            let taken = task.take_notification(true, Duration::max());
            if taken != 0 {
                DriveStep::PollAgain
            } else {
                DriveStep::Suspend
            }
        },
    }
}

} // verus!
