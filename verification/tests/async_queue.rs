use std::sync::atomic::{AtomicUsize, Ordering};
use std::sync::Arc;
use std::task::{Poll, Wake, Waker};

use veecle_freertos_integration::{
    channel, AsyncQueue, Duration, FreeRtosError, InterruptContext, SendPoll,
};

struct Wakes(AtomicUsize);

impl Wake for Wakes {
    fn wake(self: Arc<Self>) {
        self.0.fetch_add(1, Ordering::SeqCst);
    }
}

fn counting_waker() -> (Arc<Wakes>, Waker) {
    let wakes = Arc::new(Wakes(AtomicUsize::new(0)));
    let waker = Waker::from(wakes.clone());
    (wakes, waker)
}

fn count(wakes: &Arc<Wakes>) -> usize {
    wakes.0.load(Ordering::SeqCst)
}

#[test]
fn queue_async_blocking() {
    let mut queue = channel::<char>(1).expect("queue to be created");

    assert_eq!(queue.send_blocking('A', Duration::from_ms(1000)), Ok(()));
    assert_eq!(queue.receive_blocking(Duration::from_ms(1000)), Ok('A'));
    assert_eq!(queue.messages_waiting(), 0);
}

#[test]
fn queue_async_messages_waiting() {
    let mut queue = channel::<()>(1).expect("queue to be created");

    assert_eq!(queue.messages_waiting(), 0);
    queue.send_blocking((), Duration::from_ms(1000)).expect("message to be sent");
    assert_eq!(queue.messages_waiting(), 1);
    assert_eq!(queue.spaces_available(), 0);

    assert_eq!(queue.receive_blocking(Duration::from_ms(1000)), Ok(()));
    assert_eq!(queue.messages_waiting(), 0);
    assert_eq!(queue.spaces_available(), 1);
}

#[test]
fn queue_async_receive_no_send() {
    let mut queue = channel::<()>(1).expect("queue to be created");
    let (wakes, waker) = counting_waker();

    assert_eq!(queue.receive(&waker), Poll::Pending);
    assert_eq!(count(&wakes), 0);
    assert_eq!(
        queue.receive_blocking(Duration::from_ms(10)),
        Err(FreeRtosError::QueueReceiveTimeout)
    );
}

#[test]
fn queue_async_send_exceed_max_capacity() {
    let mut queue = channel::<()>(1).expect("queue to be created");
    let (_wakes, waker) = counting_waker();

    assert_eq!(queue.send(&waker, ()), SendPoll::Ready);
    assert_eq!(queue.send(&waker, ()), SendPoll::Pending(()));
    assert_eq!(queue.messages_waiting(), 1);
}

#[test]
fn queue_async_send_from_isr() {
    let mut queue = channel::<()>(1).expect("queue to be created");
    let (_wakes, waker) = counting_waker();

    let mut interrupt_context = InterruptContext::default();
    queue.send_from_isr(&mut interrupt_context, ()).expect("message to be sent");
    assert_eq!(interrupt_context.higher_priority_task_woken(), 0);

    assert_eq!(queue.receive(&waker), Poll::Ready(()));
}

#[test]
fn queue_async_send_from_isr_exceed_max_capacity() {
    let mut queue = channel::<u8>(1).expect("queue to be created");

    let mut interrupt_context = InterruptContext::default();
    assert_eq!(queue.send_from_isr(&mut interrupt_context, 1), Ok(()));
    assert_eq!(queue.send_from_isr(&mut interrupt_context, 2), Err(2));
    assert_eq!(queue.messages_waiting(), 1);
}

#[test]
fn channel_creation_fails_like_its_queue() {
    assert_eq!(channel::<u8>(0).err(), Some(FreeRtosError::OutOfMemory));
    assert_eq!(channel::<u8>(u32::MAX - 1000).err(), Some(FreeRtosError::OutOfMemory));
    assert_eq!(AsyncQueue::<u8>::new(0).err(), Some(FreeRtosError::OutOfMemory));
    assert!(AsyncQueue::<u8>::new(16).is_ok());
}

#[test]
fn blocking_send_on_full_channel_returns_the_item_unchanged() {
    let mut queue = channel::<String>(1).expect("queue to be created");

    assert_eq!(queue.send_blocking(String::from("first"), Duration::zero()), Ok(()));
    assert_eq!(
        queue.send_blocking(String::from("second"), Duration::from_ms(20)),
        Err(String::from("second"))
    );
    assert_eq!(queue.messages_waiting(), 1);
    assert_eq!(queue.receive_blocking(Duration::zero()), Ok(String::from("first")));
}

#[test]
fn poll_ready_tells_whether_a_slot_is_free() {
    let mut queue = channel::<u8>(1).expect("queue to be created");
    let (wakes, waker) = counting_waker();

    assert_eq!(queue.poll_ready(&waker), Poll::Ready(()));
    assert_eq!(queue.send_blocking(1, Duration::zero()), Ok(()));
    assert_eq!(queue.poll_ready(&waker), Poll::Pending);
    assert_eq!(queue.messages_waiting(), 1);
    assert_eq!(count(&wakes), 0);
}

#[test]
fn pending_send_is_woken_by_a_blocking_receive_and_completes() {
    let mut queue = channel::<u8>(2).expect("queue to be created");
    let (wakes, waker) = counting_waker();

    assert_eq!(queue.send(&waker, 1), SendPoll::Ready);
    assert_eq!(queue.send(&waker, 2), SendPoll::Ready);
    assert_eq!(queue.send(&waker, 3), SendPoll::Pending(3));
    assert_eq!(count(&wakes), 0);

    assert_eq!(queue.receive_blocking(Duration::zero()), Ok(1));
    assert_eq!(count(&wakes), 1);

    assert_eq!(queue.send(&waker, 3), SendPoll::Ready);
    assert_eq!(queue.receive_blocking(Duration::zero()), Ok(2));
    assert_eq!(queue.receive_blocking(Duration::zero()), Ok(3));
}

#[test]
fn pending_send_is_woken_by_a_polled_receive_and_completes() {
    let mut queue = channel::<u8>(1).expect("queue to be created");
    let (send_wakes, send_waker) = counting_waker();
    let (receive_wakes, receive_waker) = counting_waker();

    assert_eq!(queue.send(&send_waker, 1), SendPoll::Ready);
    assert_eq!(queue.send(&send_waker, 2), SendPoll::Pending(2));

    assert_eq!(queue.receive(&receive_waker), Poll::Ready(1));
    assert_eq!(count(&send_wakes), 1);
    assert_eq!(count(&receive_wakes), 0);

    assert_eq!(queue.send(&send_waker, 2), SendPoll::Ready);
    assert_eq!(queue.receive(&receive_waker), Poll::Ready(2));
}

#[test]
fn pending_receive_is_woken_by_every_form_of_send() {
    let mut queue = channel::<u8>(1).expect("queue to be created");
    let (wakes, waker) = counting_waker();
    let (_send_wakes, send_waker) = counting_waker();

    assert_eq!(queue.receive(&waker), Poll::Pending);
    assert_eq!(queue.send_blocking(10, Duration::zero()), Ok(()));
    assert_eq!(count(&wakes), 1);
    assert_eq!(queue.receive(&waker), Poll::Ready(10));

    assert_eq!(queue.receive(&waker), Poll::Pending);
    let mut interrupt_context = InterruptContext::new();
    assert_eq!(queue.send_from_isr(&mut interrupt_context, 20), Ok(()));
    assert_eq!(count(&wakes), 2);
    assert_eq!(queue.receive(&waker), Poll::Ready(20));

    assert_eq!(queue.receive(&waker), Poll::Pending);
    assert_eq!(queue.send(&send_waker, 30), SendPoll::Ready);
    assert_eq!(count(&wakes), 3);
    assert_eq!(queue.receive(&waker), Poll::Ready(30));
}

#[test]
fn a_failed_operation_wakes_nobody() {
    let mut queue = channel::<u8>(1).expect("queue to be created");
    let (receive_wakes, receive_waker) = counting_waker();
    let (send_wakes, send_waker) = counting_waker();

    assert_eq!(queue.receive(&receive_waker), Poll::Pending);
    assert_eq!(
        queue.receive_blocking(Duration::zero()),
        Err(FreeRtosError::QueueReceiveTimeout)
    );
    assert_eq!(count(&send_wakes), 0);

    assert_eq!(queue.send(&send_waker, 1), SendPoll::Ready);
    assert_eq!(count(&receive_wakes), 1);
    assert_eq!(queue.send(&send_waker, 2), SendPoll::Pending(2));
    assert_eq!(queue.send_blocking(3, Duration::zero()), Err(3));
    assert_eq!(count(&receive_wakes), 1);
    assert_eq!(count(&send_wakes), 0);
}

#[test]
fn a_mailbox_wakes_its_poller_once_per_registration() {
    let mut queue = channel::<u8>(4).expect("queue to be created");
    let (wakes, waker) = counting_waker();

    assert_eq!(queue.receive(&waker), Poll::Pending);
    assert_eq!(queue.send_blocking(1, Duration::zero()), Ok(()));
    assert_eq!(queue.send_blocking(2, Duration::zero()), Ok(()));
    assert_eq!(count(&wakes), 1);
    assert_eq!(queue.receive(&waker), Poll::Ready(1));
    assert_eq!(queue.receive(&waker), Poll::Ready(2));
}

#[test]
fn channel_is_first_in_first_out_up_to_its_capacity() {
    let (_wakes, waker) = counting_waker();
    for capacity in 1..=5u32 {
        for count in 0..=capacity {
            let mut queue = channel::<u32>(capacity).expect("queue to be created");
            let items: Vec<u32> = (0..count).map(|i| 100 * capacity + i).collect();
            for (index, item) in items.iter().enumerate() {
                if index % 2 == 0 {
                    assert_eq!(queue.send_blocking(*item, Duration::zero()), Ok(()));
                } else {
                    assert_eq!(queue.send(&waker, *item), SendPoll::Ready);
                }
            }
            assert_eq!(queue.messages_waiting(), count);
            let mut received = Vec::new();
            for index in 0..count {
                if index % 2 == 0 {
                    received.push(queue.receive_blocking(Duration::zero()).expect("an item"));
                } else {
                    match queue.receive(&waker) {
                        Poll::Ready(item) => received.push(item),
                        Poll::Pending => panic!("an item was expected"),
                    }
                }
            }
            assert_eq!(received, items);
        }
    }
}

#[test]
fn channel_occupied_and_free_slots_add_up_to_the_capacity() {
    let (_wakes, waker) = counting_waker();
    for capacity in 1..=4u32 {
        let mut queue = channel::<u32>(capacity).expect("queue to be created");
        for round in 0..3 * capacity {
            assert_eq!(queue.messages_waiting() + queue.spaces_available(), capacity);
            if round % 3 == 2 {
                let _ = queue.receive(&waker);
            } else {
                let _ = queue.send(&waker, round);
            }
        }
        assert_eq!(queue.messages_waiting() + queue.spaces_available(), capacity);
    }
}
