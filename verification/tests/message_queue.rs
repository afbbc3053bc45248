use std::time::{Duration, Instant};

use framework::message_queue::{
    create, destroy, is_idling, main_looper_poll_should_yield, poll_should_yield, resume_poll,
    wake, Poll, QueueRegistry,
};

/// Polls a queue to its end, waiting as long as the poll asks for.
fn poll(queues: &mut QueueRegistry, handle: i64, timeout_millis: i32) -> bool {
    match poll_should_yield(queues, handle, timeout_millis) {
        Poll::Done(yields) => yields,
        Poll::Wait(Some(millis)) => {
            let deadline = Instant::now() + Duration::from_millis(u64::from(millis));
            loop {
                let timed_out = Instant::now() >= deadline;
                if let Some(yields) = resume_poll(queues, handle, timed_out) {
                    return yields;
                }
            }
        }
        Poll::Wait(None) => panic!("the poll waits without an end"),
    }
}

#[test]
fn main_queue_yields_instead_of_blocking() {
    let mut queues = QueueRegistry::new();
    let handle = create(&mut queues, true).expect("test queue handle");
    assert!(!poll(&mut queues, handle, 0));
    assert!(poll(&mut queues, handle, -1));
    assert!(poll(&mut queues, handle, 25));
    assert!(destroy(&mut queues, handle));
}

#[test]
fn worker_queue_blocks_until_a_durable_wake() {
    let mut queues = QueueRegistry::new();
    let handle = create(&mut queues, false).expect("test queue handle");
    assert_eq!(poll_should_yield(&mut queues, handle, -1), Poll::Wait(None));
    assert!(
        is_idling(&queues, handle),
        "worker never entered its blocking poll"
    );
    assert_eq!(resume_poll(&mut queues, handle, false), None);
    assert!(wake(&mut queues, handle));
    assert_eq!(
        resume_poll(&mut queues, handle, false),
        Some(false),
        "wake must release the worker"
    );
    assert!(!is_idling(&queues, handle));
    assert!(destroy(&mut queues, handle));
}

#[test]
fn worker_timed_poll_and_destroyed_handle_never_hang() {
    let mut queues = QueueRegistry::new();
    let handle = create(&mut queues, false).expect("test queue handle");
    let started = Instant::now();
    assert!(!poll(&mut queues, handle, 5));
    assert!(started.elapsed() >= Duration::from_millis(1));
    assert!(destroy(&mut queues, handle));
    assert!(poll(&mut queues, handle, -1));
    assert!(!wake(&mut queues, handle));
}

#[test]
fn main_looper_poll_yield_table_matches_atl_next_contract() {
    assert!(
        !main_looper_poll_should_yield(0),
        "timeout==0 must pull, not yield"
    );
    assert!(
        main_looper_poll_should_yield(-1),
        "timeout==-1 (empty) must yield"
    );
    assert!(
        main_looper_poll_should_yield(1),
        "timeout>0 (delayed) must yield"
    );
    assert!(
        main_looper_poll_should_yield(i32::MAX),
        "large delay must yield"
    );
}

#[test]
fn a_wake_before_a_poll_is_kept_and_a_destroyed_queue_ends_a_wait() {
    let mut queues = QueueRegistry::new();
    let first = create(&mut queues, false).expect("a queue");
    let second = create(&mut queues, false).expect("a queue");
    assert_ne!(first, second);
    assert!(wake(&mut queues, first));
    assert_eq!(poll_should_yield(&mut queues, first, -1), Poll::Done(false));
    assert_eq!(poll_should_yield(&mut queues, first, -1), Poll::Wait(None));
    assert_eq!(poll_should_yield(&mut queues, second, 7), Poll::Wait(Some(7)));
    assert!(destroy(&mut queues, first));
    assert_eq!(resume_poll(&mut queues, first, false), Some(false));
    assert_eq!(resume_poll(&mut queues, second, false), None);
    assert!(!destroy(&mut queues, first));
    assert!(!is_idling(&queues, first));
}

#[test]
fn a_queue_handle_is_given_out_once() {
    let mut queues = QueueRegistry::new();
    let mut given = Vec::new();
    for round in 0..4 {
        let handle = create(&mut queues, round % 2 == 0).expect("a queue");
        assert!(!given.contains(&handle));
        assert!(given.iter().all(|earlier| *earlier < handle));
        given.push(handle);
        wake(&mut queues, handle);
        poll_should_yield(&mut queues, handle, -1);
        resume_poll(&mut queues, handle, true);
        assert!(destroy(&mut queues, handle));
    }
}
