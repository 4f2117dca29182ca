//! Scenario tests for the fiber-pool side: scheduler batching, worker
//! fan-out order, and the clean shutdown after the dispatchers die.

use xtm_rust::{
    channel, join_drain, scheduler_is_graceful, ExecError, SchedulerStep, SubmitOutcome,
    WorkerFetch,
};

fn fill(b: &mut xtm_rust::Bridge, n: u64) {
    for _ in 0..n {
        match b.submit() {
            SubmitOutcome::Enqueued { .. } => {}
            other => panic!("dispatch errored: {:?}", other),
        }
    }
}

#[test]
fn scheduler_batches_and_leaves_one() {
    let mut b = channel(16);
    fill(&mut b, 10);
    // batches of at most 4; each batch stops at the bound or leaves one task
    match b.scheduler_step(4) {
        SchedulerStep::Dispatched { count } => assert_eq!(count, 4),
        other => panic!("unexpected: {:?}", other),
    }
    assert_eq!(b.len(), 6);
    match b.scheduler_step(4) {
        SchedulerStep::Dispatched { count } => assert_eq!(count, 4),
        other => panic!("unexpected: {:?}", other),
    }
    assert_eq!(b.len(), 2);
    // two remain: one is popped, one is left to signal "still busy"
    match b.scheduler_step(4) {
        SchedulerStep::Dispatched { count } => assert_eq!(count, 1),
        other => panic!("unexpected: {:?}", other),
    }
    assert_eq!(b.len(), 1);
    // a single remaining task is still taken
    match b.scheduler_step(4) {
        SchedulerStep::Dispatched { count } => assert_eq!(count, 1),
        other => panic!("unexpected: {:?}", other),
    }
    assert_eq!(b.len(), 0);
}

#[test]
fn workers_run_fanned_out_tasks_in_order() {
    let mut b = channel(16);
    fill(&mut b, 6);
    match b.scheduler_step(16) {
        SchedulerStep::Dispatched { count } => assert_eq!(count, 5),
        other => panic!("unexpected: {:?}", other),
    }
    for expected in 0..5u64 {
        match b.worker_fetch() {
            WorkerFetch::Run(id) => assert_eq!(id, expected),
            other => panic!("unexpected: {:?}", other),
        }
    }
    // fan-out drained but still open: the worker stands by on the condition
    assert!(matches!(b.worker_fetch(), WorkerFetch::Standby));
}

#[test]
fn scheduler_arms_itself_on_empty_queue() {
    let mut b = channel(8);
    assert!(matches!(b.scheduler_step(16), SchedulerStep::Empty));
    // armed scheduler enters the cooperative wait, then wakes by timeout
    b.begin_wait();
    assert_eq!(b.wake(), None);
}

#[test]
fn wake_consumes_accumulated_count() {
    let mut b = channel(8);
    fill(&mut b, 3);
    // drain everything so the drainer observes an empty queue and waits
    match b.scheduler_step(16) {
        SchedulerStep::Dispatched { count } => assert_eq!(count, 2),
        other => panic!("unexpected: {:?}", other),
    }
    match b.scheduler_step(16) {
        SchedulerStep::Dispatched { count } => assert_eq!(count, 1),
        other => panic!("unexpected: {:?}", other),
    }
    assert!(matches!(b.scheduler_step(16), SchedulerStep::Empty));
    b.begin_wait();
    // one wakeup was written when the queue went empty-to-non-empty
    assert_eq!(b.wake(), Some(1));
}

#[test]
fn dispatcher_death_shuts_the_pool_down() {
    // tasks are in flight when the last dispatcher dies: the scheduler
    // observes the closed queue only after draining it, the fan-out closes,
    // the workers run everything and exit.
    let mut b = channel(32);
    fill(&mut b, 5);
    b.drop_dispatcher();
    let ran = join_drain(&mut b, 4);
    assert_eq!(ran, 5, "every in-flight task still runs");
    assert_eq!(b.len(), 0);
    assert!(matches!(b.worker_fetch(), WorkerFetch::Exit));
    // the drainer fiber exits and releases its executor handle
    b.drop_executor();
}

#[test]
fn shutdown_with_no_backlog() {
    let mut b = channel(8);
    b.drop_dispatcher();
    assert!(matches!(b.scheduler_step(16), SchedulerStep::Shutdown));
    b.close_fanout();
    assert!(matches!(b.worker_fetch(), WorkerFetch::Exit));
}

#[test]
fn graceful_verdict_only_for_closed_queue() {
    assert!(scheduler_is_graceful(&ExecError::TaskChannelRecvError));
    assert!(!scheduler_is_graceful(&ExecError::ResultChannelSendError));
}

#[test]
fn drain_fiber_skips_abandoned_tasks() {
    assert!(xtm_rust::drain_loop_continues(&Ok(())));
    assert!(xtm_rust::drain_loop_continues(&Err(
        ExecError::ResultChannelSendError
    )));
    assert!(!xtm_rust::drain_loop_continues(&Err(
        ExecError::TaskChannelRecvError
    )));
}

#[test]
fn pool_startup_clones_one_executor_per_fiber() {
    let mut b = channel(8);
    xtm_rust::start_drainers(&mut b, 3);
    // the driver's own handle plus one per fiber; once each drainer exits
    // after shutdown and releases its handle, the producer side sees closure
    for _ in 0..4 {
        b.drop_executor();
    }
    assert!(matches!(b.submit(), SubmitOutcome::Closed));
}
