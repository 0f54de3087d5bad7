use command_channel::queue::{ThreadSafeQueue, ThreadSafeQueueError};
use command_channel::signal::Signal;
use std::time::Duration;

#[test]
fn mod_basic_test() {
    let mut queue = ThreadSafeQueue::<String>::new();
    let str1 = "I am some string sent into the queue!";
    let str2 = "I am some other string sent into the queue";
    let str3 =
        "I am a third string, sent after reading one or two of the others from the queue";
    assert!(queue.enqueue(String::from(str1)).is_ok());
    assert!(queue.enqueue(String::from(str2)).is_ok());
    assert!(queue.dequeue().is_ok_and(|s| s.eq(str1)));
    assert!(queue.enqueue(String::from(str3)).is_ok());
    assert!(queue.dequeue().is_ok_and(|s| s.eq(str2)));
    assert!(queue.dequeue().is_ok_and(|s| s.eq(str3)));
    drop(queue);
}

#[test]
fn fifo_over_interleaved_operations() {
    let mut queue = ThreadSafeQueue::<u32>::new();
    let mut out = Vec::new();
    for i in 0..10u32 {
        queue.enqueue(i).unwrap();
        if i % 3 == 2 {
            out.push(queue.dequeue().unwrap());
        }
    }
    while let Some(x) = queue.try_dequeue() {
        out.push(x);
    }
    assert_eq!(out, (0..10).collect::<Vec<u32>>());
}

#[test]
fn signal_releases_dequeue_with_items_left() {
    let mut queue = ThreadSafeQueue::<u32>::new();
    queue.enqueue(1).unwrap();
    queue.enqueue(2).unwrap();
    assert!(!queue.must_wait());
    assert!(!queue.set_signal(true));
    assert_eq!(queue.dequeue(), Err(ThreadSafeQueueError::StatusNotOk));
    assert_eq!(queue.elements(), 2);
    assert!(queue.is_signalled());
}

#[test]
fn empty_unsignalled_queue_must_wait() {
    let mut queue = ThreadSafeQueue::<u32>::new();
    assert!(queue.must_wait());
    assert_eq!(queue.try_dequeue(), None);
    assert_eq!(queue.try_dequeue_timeout(Duration::from_millis(1)), Ok(None));
    queue.set_signal(true);
    assert!(!queue.must_wait());
}

#[test]
fn signalled_queue_still_takes_items_without_waiting() {
    let mut queue = ThreadSafeQueue::<u32>::new();
    queue.set_signal(true);
    assert!(queue.enqueue(5).is_ok());
    assert_eq!(queue.try_dequeue_timeout(Duration::from_millis(1)), Ok(Some(5)));
    assert!(queue.enqueue(6).is_ok());
    assert_eq!(queue.try_dequeue(), Some(6));
}

#[test]
fn poisoned_queue_reports_mutex_poison() {
    let mut queue = ThreadSafeQueue::<u32>::new();
    queue.enqueue(1).unwrap();
    queue.mark_poisoned();
    assert_eq!(queue.enqueue(2), Err(ThreadSafeQueueError::MutexPoison));
    assert_eq!(queue.dequeue(), Err(ThreadSafeQueueError::MutexPoison));
    assert_eq!(queue.try_dequeue(), None);
    assert_eq!(
        queue.try_dequeue_timeout(Duration::from_millis(1)),
        Err(ThreadSafeQueueError::MutexPoison)
    );
    assert_eq!(queue.elements(), 0);
    assert_eq!(queue.wait_for_signal().is_err(), true);
}

#[test]
fn queue_error_messages() {
    assert_eq!(ThreadSafeQueueError::MutexPoison.message(), "The queue mutex was poisoned.");
    assert_eq!(ThreadSafeQueueError::StatusNotOk.message(), "The status is not OK.");
}
