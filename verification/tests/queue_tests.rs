use amarui::queue::ScancodeQueue;
use amarui::task::TaskId;

#[test]
fn fifo_round_trip_within_capacity() {
    let mut q = ScancodeQueue::new(100);
    let bytes = [0x1Eu8, 0x30, 0x2E];
    for b in bytes {
        let (accepted, woken) = q.push(b);
        assert!(accepted);
        assert_eq!(woken, None);
    }
    assert_eq!(q.len(), 3);
    assert_eq!(q.dropped_count(), 0);
    let mut drained = Vec::new();
    while let Some(b) = q.pop() {
        drained.push(b);
    }
    assert_eq!(drained, vec![0x1E, 0x30, 0x2E]);
    assert_eq!(q.len(), 0);
}

#[test]
fn overflow_drops_newest_keeps_oldest_in_order() {
    let mut q = ScancodeQueue::new(2);
    assert!(q.push(1).0);
    assert!(q.push(2).0);
    let (accepted, woken) = q.push(3);
    assert!(!accepted);
    assert_eq!(woken, None);
    assert_eq!(q.dropped_count(), 1);
    assert_eq!(q.contents().as_slice(), &[1, 2]);
    assert_eq!(q.pop(), Some(1));
    assert_eq!(q.pop(), Some(2));
    assert_eq!(q.pop(), None);
}

#[test]
fn dropped_counter_counts_every_overflow() {
    let mut q = ScancodeQueue::new(1);
    q.push(9);
    q.push(10);
    q.push(11);
    assert_eq!(q.dropped_count(), 2);
    assert_eq!(q.contents().as_slice(), &[9]);
}

#[test]
fn capacity_one_still_delivers() {
    let mut q = ScancodeQueue::new(1);
    assert!(q.push(0xAA).0);
    assert_eq!(q.pop(), Some(0xAA));
    assert!(q.push(0xBB).0);
    assert_eq!(q.pop(), Some(0xBB));
    assert_eq!(q.dropped_count(), 0);
}

#[test]
fn pop_on_empty_returns_nothing() {
    let mut q = ScancodeQueue::new(4);
    assert_eq!(q.pop(), None);
    assert_eq!(q.len(), 0);
}

#[test]
fn wake_registered_before_push_is_fired_and_observed() {
    let mut q = ScancodeQueue::new(100);
    let consumer = TaskId { id: 7 };
    // consumer finds the queue empty and registers interest
    assert_eq!(q.poll_next(consumer), None);
    assert_eq!(q.registered_waker(), Some(consumer));
    // the very next successful push takes and fires that interest
    let (accepted, woken) = q.push(0x1E);
    assert!(accepted);
    assert_eq!(woken, Some(consumer));
    assert_eq!(q.registered_waker(), None);
    // the woken consumer's next poll observes exactly the pushed byte
    assert_eq!(q.poll_next(consumer), Some(0x1E));
}

#[test]
fn poll_with_items_queued_does_not_touch_registration() {
    let mut q = ScancodeQueue::new(8);
    let consumer = TaskId { id: 1 };
    q.push(5);
    q.push(6);
    assert_eq!(q.poll_next(consumer), Some(5));
    assert_eq!(q.registered_waker(), None);
    assert_eq!(q.poll_next(consumer), Some(6));
    assert_eq!(q.poll_next(consumer), None);
    assert_eq!(q.registered_waker(), Some(consumer));
}

#[test]
fn failed_push_leaves_registration_in_place() {
    let mut q = ScancodeQueue::new(1);
    let consumer = TaskId { id: 3 };
    q.push(1);
    // full queue, then the consumer registers via the empty re-check path:
    // pop everything first to register, refill, then overflow
    assert_eq!(q.poll_next(consumer), Some(1));
    assert_eq!(q.poll_next(consumer), None);
    assert_eq!(q.registered_waker(), Some(consumer));
    let (accepted, woken) = q.push(2);
    assert!(accepted);
    assert_eq!(woken, Some(consumer));
    // queue full again and nobody registered: the overflow wakes no one
    let (accepted2, woken2) = q.push(3);
    assert!(!accepted2);
    assert_eq!(woken2, None);
}
