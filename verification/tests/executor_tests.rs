use amarui::executor::Executor;
use amarui::queue::ScancodeQueue;
use amarui::task::TaskId;
use amarui::task::TaskKind;

#[test]
fn spawn_hands_out_sequential_identities_and_queues_them() {
    let mut e = Executor::new();
    let a = e.spawn(TaskKind::CountYields { remaining: 0, value: 1 });
    let b = e.spawn(TaskKind::DrainQueue);
    assert_eq!(a, TaskId { id: 0 });
    assert_eq!(b, TaskId { id: 1 });
    assert_eq!(e.task_count(), 2);
    assert_eq!(e.ready_count(), 2);
    assert!(e.ready_contains(a));
    assert!(e.ready_contains(b));
}

#[test]
fn duplicate_wakes_coalesce() {
    let mut e = Executor::new();
    let a = e.spawn(TaskKind::CountYields { remaining: 1, value: 0 });
    assert_eq!(e.ready_count(), 1);
    e.wake(a);
    e.wake(a);
    assert_eq!(e.ready_count(), 1);
}

#[test]
fn wake_for_unknown_identity_is_absorbed() {
    let mut e = Executor::new();
    e.spawn(TaskKind::CountYields { remaining: 1, value: 0 });
    e.wake(TaskId { id: 99 });
    assert_eq!(e.ready_count(), 1);
    assert!(!e.ready_contains(TaskId { id: 99 }));
}

#[test]
fn n_tasks_with_k_yields_drain_in_exactly_their_poll_budget() {
    let n: u64 = 3;
    let k: u64 = 2;
    let mut e = Executor::new();
    let mut queue = ScancodeQueue::new(100);
    let mut keypresses = Vec::new();
    for i in 0..n {
        e.spawn(TaskKind::CountYields { remaining: k, value: i as u32 });
    }
    let polls = e.run_until_idle(&mut queue, &mut keypresses);
    assert_eq!(polls, n * (k + 1));
    assert_eq!(e.task_count(), 0);
    assert_eq!(e.ready_count(), 0);
    assert_eq!(e.finished().len(), n as usize);
    // counting tasks never touch the queue or the keypress sink
    assert_eq!(queue.len(), 0);
    assert_eq!(queue.registered_waker(), None);
    assert!(keypresses.is_empty());
}

#[test]
fn yield_once_then_complete_leaves_no_residue() {
    let mut e = Executor::new();
    let mut queue = ScancodeQueue::new(100);
    let mut keypresses = Vec::new();
    let id = e.spawn(TaskKind::CountYields { remaining: 1, value: 42 });
    let polls = e.run_until_idle(&mut queue, &mut keypresses);
    assert_eq!(polls, 2);
    assert_eq!(e.task_count(), 0);
    assert_eq!(e.finished().as_slice(), &[(id, 42)]);
    // no residual wake is left registered anywhere
    assert_eq!(queue.registered_waker(), None);
    assert_eq!(e.ready_count(), 0);
}

#[test]
fn completion_order_follows_the_ready_queue() {
    let mut e = Executor::new();
    let mut queue = ScancodeQueue::new(100);
    let mut keypresses = Vec::new();
    let a = e.spawn(TaskKind::CountYields { remaining: 0, value: 10 });
    let b = e.spawn(TaskKind::CountYields { remaining: 0, value: 20 });
    e.run_until_idle(&mut queue, &mut keypresses);
    assert_eq!(e.finished().as_slice(), &[(a, 10), (b, 20)]);
}

#[test]
fn wake_after_completion_is_dangling_and_absorbed() {
    let mut e = Executor::new();
    let mut queue = ScancodeQueue::new(100);
    let mut keypresses = Vec::new();
    let id = e.spawn(TaskKind::CountYields { remaining: 0, value: 5 });
    e.run_until_idle(&mut queue, &mut keypresses);
    assert_eq!(e.task_count(), 0);
    // a late wake for the completed task must not enter the ready queue
    e.wake(id);
    assert_eq!(e.ready_count(), 0);
    assert!(!e.ready_contains(id));
}

#[test]
fn drainer_consumes_queued_bytes_and_waits_for_more() {
    let mut e = Executor::new();
    let mut queue = ScancodeQueue::new(100);
    let mut keypresses = Vec::new();
    let id = e.spawn(TaskKind::DrainQueue);
    queue.push(0x10);
    queue.push(0x11);
    let polls = e.run_until_idle(&mut queue, &mut keypresses);
    assert_eq!(polls, 1);
    assert_eq!(keypresses, vec![0x10, 0x11]);
    assert_eq!(queue.len(), 0);
    // the drainer stays owned, suspended with its interest registered
    assert_eq!(e.task_count(), 1);
    assert_eq!(e.ready_count(), 0);
    assert_eq!(queue.registered_waker(), Some(id));
    // the next push wakes it; the next pass delivers the byte
    let (accepted, woken) = queue.push(0x12);
    assert!(accepted);
    assert_eq!(woken, Some(id));
    e.wake(id);
    e.run_until_idle(&mut queue, &mut keypresses);
    assert_eq!(keypresses, vec![0x10, 0x11, 0x12]);
}
