use veecle_freertos_integration::bindings::{
    eNotifyAction_eIncrement, eNotifyAction_eNoAction, eNotifyAction_eSetBits,
    eNotifyAction_eSetValueWithOverwrite, eNotifyAction_eSetValueWithoutOverwrite,
};
use veecle_freertos_integration::{
    Duration, FreeRtosError, InterruptContext, Task, TaskNotification, TaskPriority,
};

#[test]
fn a_task_keeps_the_handle_it_was_made_from() {
    let task = Task::from_raw_handle(0x2000_0100);
    let raw_handle = task.raw_handle();
    let from_raw_task = Task::from_raw_handle(raw_handle);
    assert_eq!(task.raw_handle(), from_raw_task.raw_handle());
    assert_eq!(raw_handle, 0x2000_0100);
}

#[test]
fn task_notification_value() {
    const NOTIFICATION_VALUE: u32 = 42;
    let mut task = Task::from_raw_handle(1);

    task.set_notification_value(NOTIFICATION_VALUE);
    assert_eq!(task.take_notification(true, Duration::zero()), NOTIFICATION_VALUE);
}

#[test]
fn task_notify() {
    const NOTIFICATION_VALUE: u32 = 42;
    let mut task = Task::from_raw_handle(1);

    task.notify(TaskNotification::SetValue(NOTIFICATION_VALUE));
    assert_eq!(task.take_notification(true, Duration::zero()), NOTIFICATION_VALUE);
}

#[test]
fn task_notify_from_isr() {
    const NOTIFICATION_VALUE: u32 = 42;
    let mut task = Task::from_raw_handle(1);
    let mut context = InterruptContext::new();

    assert_eq!(
        task.notify_from_isr(&mut context, TaskNotification::SetValue(NOTIFICATION_VALUE)),
        Ok(())
    );
    assert_eq!(context.higher_priority_task_woken(), 0);
    assert_eq!(
        task.notify_from_isr(&mut context, TaskNotification::SetValue(7)),
        Err(FreeRtosError::QueueFull)
    );
    assert_eq!(task.take_notification(true, Duration::zero()), NOTIFICATION_VALUE);
    assert_eq!(task.notify_from_isr(&mut context, TaskNotification::SetValue(7)), Ok(()));
    assert_eq!(task.take_notification(true, Duration::zero()), 7);
}

#[test]
fn task_notify_increment() {
    const NOTIFICATION_VALUE: u32 = 42;
    let mut task = Task::from_raw_handle(1);

    task.set_notification_value(NOTIFICATION_VALUE);
    task.notify(TaskNotification::Increment);

    assert_eq!(task.take_notification(true, Duration::zero()), NOTIFICATION_VALUE + 1);
}

#[test]
fn task_notify_no_action() {
    const NOTIFICATION_VALUE: u32 = 42;
    let mut task = Task::from_raw_handle(1);

    task.set_notification_value(NOTIFICATION_VALUE);
    let notification_value = task.wait_for_notification(0, 0, Duration::zero()).unwrap();
    assert_eq!(notification_value, NOTIFICATION_VALUE);

    task.notify(TaskNotification::NoAction);
    let new_notification_value =
        task.wait_for_notification(0, 0, Duration::from_ms(1000)).unwrap();
    assert_eq!(new_notification_value, notification_value);
}

#[test]
fn task_notify_set_bits() {
    const BITS_A: u32 = 0b01;
    const BITS_B: u32 = 0b10;
    let mut task = Task::from_raw_handle(1);

    task.notify(TaskNotification::SetBits(BITS_A));
    task.notify(TaskNotification::SetBits(BITS_B));

    assert_eq!(task.take_notification(true, Duration::zero()), BITS_A | BITS_B);
}

#[test]
fn task_wait_for_notification() {
    const NOTIFICATION_VALUE: u32 = 42;
    let mut task = Task::from_raw_handle(1);

    task.notify(TaskNotification::SetValue(NOTIFICATION_VALUE));
    assert_eq!(
        task.wait_for_notification(0, 0, Duration::from_ms(1000)),
        Ok(NOTIFICATION_VALUE)
    );
}

#[test]
fn task_wait_for_notification_timeout() {
    let mut task = Task::from_raw_handle(1);

    assert_eq!(
        task.wait_for_notification(0, 0, Duration::from_ms(10)),
        Err(FreeRtosError::Timeout)
    );
    task.notify(TaskNotification::NoAction);
    assert_eq!(task.wait_for_notification(0, 0, Duration::zero()), Ok(0));
    assert_eq!(task.wait_for_notification(0, 0, Duration::zero()), Err(FreeRtosError::Timeout));
}

#[test]
fn wait_clears_the_exit_bits_after_reporting_the_value() {
    let mut task = Task::from_raw_handle(1);

    task.set_notification_value(0b1111);
    assert_eq!(task.wait_for_notification(0b0001, 0b0110, Duration::zero()), Ok(0b1111));
    assert_eq!(task.take_notification(false, Duration::zero()), 0b1001);
}

#[test]
fn wait_clears_the_entry_bits_when_nothing_is_pending() {
    let mut task = Task::from_raw_handle(1);

    task.set_notification_value(0b1111);
    assert_eq!(task.wait_for_notification(0, 0, Duration::zero()), Ok(0b1111));
    assert_eq!(
        task.wait_for_notification(0b0011, 0b1100, Duration::zero()),
        Err(FreeRtosError::Timeout)
    );
    assert_eq!(task.take_notification(true, Duration::zero()), 0b1100);
}

#[test]
fn take_counts_down_or_clears() {
    let mut task = Task::from_raw_handle(1);

    assert_eq!(task.take_notification(false, Duration::zero()), 0);
    task.notify(TaskNotification::Increment);
    task.notify(TaskNotification::Increment);
    task.notify(TaskNotification::Increment);
    assert_eq!(task.take_notification(false, Duration::zero()), 3);
    assert_eq!(task.take_notification(false, Duration::zero()), 2);
    assert_eq!(task.take_notification(true, Duration::zero()), 1);
    assert_eq!(task.take_notification(true, Duration::zero()), 0);
}

#[test]
fn increment_wraps_around() {
    let mut task = Task::from_raw_handle(1);

    task.set_notification_value(u32::MAX);
    task.notify(TaskNotification::Increment);
    assert_eq!(task.wait_for_notification(0, 0, Duration::zero()), Ok(0));
}

#[test]
fn overwrite_replaces_a_pending_value_and_conditional_set_does_not() {
    let mut task = Task::from_raw_handle(1);

    task.notify(TaskNotification::SetValue(5));
    task.notify(TaskNotification::SetValue(6));
    assert_eq!(task.wait_for_notification(0, 0, Duration::zero()), Ok(5));

    task.notify(TaskNotification::SetValue(5));
    task.notify(TaskNotification::OverwriteValue(6));
    assert_eq!(task.wait_for_notification(0, 0, Duration::zero()), Ok(6));
}

#[test]
fn notifications_map_to_kernel_actions() {
    assert_eq!(TaskNotification::NoAction.to_freertos(), (0, eNotifyAction_eNoAction));
    assert_eq!(TaskNotification::SetBits(0b101).to_freertos(), (0b101, eNotifyAction_eSetBits));
    assert_eq!(TaskNotification::Increment.to_freertos(), (0, eNotifyAction_eIncrement));
    assert_eq!(
        TaskNotification::OverwriteValue(9).to_freertos(),
        (9, eNotifyAction_eSetValueWithOverwrite)
    );
    assert_eq!(
        TaskNotification::SetValue(11).to_freertos(),
        (11, eNotifyAction_eSetValueWithoutOverwrite)
    );
    assert_eq!(
        [
            eNotifyAction_eNoAction,
            eNotifyAction_eSetBits,
            eNotifyAction_eIncrement,
            eNotifyAction_eSetValueWithOverwrite,
            eNotifyAction_eSetValueWithoutOverwrite
        ],
        [0, 1, 2, 3, 4]
    );
    assert_eq!(TaskPriority(3).to_freertos(), 3);
}

#[test]
fn the_current_task_is_found_by_its_handle() {
    let task = Task::current(0x2000_0100).expect("a task to be current");
    assert_eq!(task.raw_handle(), 0x2000_0100);
    let mut task = task;
    assert_eq!(task.take_notification(true, Duration::zero()), 0);
    assert_eq!(task.wait_for_notification(0, 0, Duration::zero()), Err(FreeRtosError::Timeout));
}

#[test]
fn task_curent_not_found() {
    let error = Task::current(0).err().expect("no task to be current");

    assert_eq!(error, FreeRtosError::TaskNotFound);
}

#[test]
fn a_task_starts_where_the_kernel_created_it() {
    let mut builder = Task::new();
    builder.name("worker").priority(TaskPriority(3));

    let mut task = builder.start(Some(0x30)).expect("task to be started");
    assert_eq!(task.raw_handle(), 0x30);
    assert_eq!(task.take_notification(true, Duration::zero()), 0);

    assert_eq!(builder.start(None).err(), Some(FreeRtosError::OutOfMemory));
}

#[test]
fn task_builder_defaults_and_setters() {
    let mut builder = Task::new();
    assert_eq!(builder.task_name(), "rust_task");
    assert_eq!(builder.task_stack_size(), 1024);
    assert_eq!(builder.task_priority().0, 1);

    builder.name("hello").stack_size(128).priority(TaskPriority(2));
    assert_eq!(builder.task_name(), "hello");
    assert_eq!(builder.task_stack_size(), 128);
    assert_eq!(builder.task_priority().0, 2);
}
