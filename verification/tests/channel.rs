//! Scenario tests for the task channel model: ping, burst, backpressure,
//! caller abandon, and concurrent dispatchers.

use xtm_rust::{channel, complete_call, run_task, ExecError, PollOutcome, ReplyOneShot, SubmitOutcome};

#[test]
fn ping() {
    // buffer = 1, one drainer: submit one task computing 42 and await it.
    let mut b = channel(1);
    match b.submit() {
        SubmitOutcome::Enqueued { task, woke } => {
            assert_eq!(task, 0);
            assert!(woke, "first task must wake the idle drainer");
        }
        other => panic!("unexpected submit outcome: {:?}", other),
    }
    match b.poll_task() {
        PollOutcome::Task(id) => assert_eq!(id, 0),
        other => panic!("unexpected poll outcome: {:?}", other),
    }
    let mut reply: ReplyOneShot<u64> = ReplyOneShot::new();
    let result = complete_call(&mut reply, || 42u64);
    assert_eq!(result, Ok(42));
}

#[test]
fn ping_via_run_task() {
    let mut reply: ReplyOneShot<i32> = ReplyOneShot::new();
    let ran = run_task(&mut reply, || 41 + 1);
    assert_eq!(ran, Ok(()));
    assert_eq!(reply.recv(), Some(42));
}

#[test]
fn burst_ten_thousand_in_order() {
    // buffer = 128: submit 10,000 tasks from one dispatcher, draining
    // whenever the queue fills.  Every poll must hand out the next index.
    let mut b = channel(128);
    let total: u64 = 10_000;
    let mut submitted: u64 = 0;
    let mut executed: Vec<u64> = Vec::new();
    while submitted < total {
        match b.submit() {
            SubmitOutcome::Enqueued { task, .. } => {
                assert_eq!(task, submitted);
                submitted += 1;
            }
            SubmitOutcome::Full => match b.poll_task() {
                PollOutcome::Task(id) => executed.push(id),
                other => panic!("drain failed: {:?}", other),
            },
            other => panic!("dispatch errored: {:?}", other),
        }
    }
    loop {
        match b.poll_task() {
            PollOutcome::Task(id) => executed.push(id),
            PollOutcome::Empty => break,
            PollOutcome::Closed => panic!("queue closed with a live dispatcher"),
        }
    }
    assert_eq!(executed.len(), total as usize);
    for (i, id) in executed.iter().enumerate() {
        assert_eq!(*id, i as u64, "execution order must be submission order");
    }
}

#[test]
fn backpressure_suspends_then_resumes() {
    // buffer = 4, drain paused: tasks past the fourth suspend (Full), they
    // neither error nor get lost, and they complete in order as the drain
    // progresses.
    let mut b = channel(4);
    let mut accepted: Vec<u64> = Vec::new();
    let mut pending: usize = 16;
    while pending > 0 {
        match b.submit() {
            SubmitOutcome::Enqueued { task, .. } => {
                accepted.push(task);
                pending -= 1;
            }
            SubmitOutcome::Full => {
                assert_eq!(b.len(), 4, "suspension happens exactly at capacity");
                // the drain progresses by one task; the dispatcher resumes
                match b.poll_task() {
                    PollOutcome::Task(_) => {}
                    other => panic!("drain failed: {:?}", other),
                }
            }
            other => panic!("dispatch errored: {:?}", other),
        }
    }
    assert_eq!(accepted, (0..16).collect::<Vec<u64>>());
}

#[test]
fn wake_written_only_on_empty_queue() {
    let mut b = channel(8);
    match b.submit() {
        SubmitOutcome::Enqueued { woke, .. } => assert!(woke),
        other => panic!("unexpected: {:?}", other),
    }
    for _ in 0..5 {
        match b.submit() {
            SubmitOutcome::Enqueued { woke, .. } => {
                assert!(!woke, "a non-empty queue needs no further wakeup")
            }
            other => panic!("unexpected: {:?}", other),
        }
    }
}

#[test]
fn caller_abandon_drains_cleanly() {
    // 100 calls whose futures are dropped immediately: each task detects the
    // closed reply and never runs its function; a later call still succeeds.
    for _ in 0..100 {
        let mut reply: ReplyOneShot<u64> = ReplyOneShot::new();
        reply.drop_receiver();
        let ran = run_task(&mut reply, || panic!("an abandoned task must not run"));
        assert_eq!(ran, Err(ExecError::ResultChannelSendError));
    }
    let mut reply: ReplyOneShot<u64> = ReplyOneShot::new();
    assert_eq!(complete_call(&mut reply, || 7u64), Ok(7));
}

#[test]
fn abandoned_result_is_discarded() {
    // The receiver vanishes after the task was already fetched: the task
    // runs to completion, the result is handed back and discarded, and the
    // drainer treats it as a skip, not an exit.
    let mut reply: ReplyOneShot<u64> = ReplyOneShot::new();
    reply.drop_receiver();
    let ran = run_task(&mut reply, || 9u64);
    assert_eq!(ran, Err(ExecError::ResultChannelSendError));
    assert!(xtm_rust::drain_loop_continues(&ran));
}

#[test]
fn concurrent_dispatchers_fifo_per_dispatcher() {
    // 8 cloned dispatchers submit 1,000 tasks each, interleaved round-robin.
    // All 8,000 execute; per-dispatcher order is preserved.
    let dispatchers: u64 = 8;
    let per_dispatcher: u64 = 1_000;
    let mut b = channel(128);
    for _ in 1..dispatchers {
        b.try_clone_dispatcher();
    }
    let mut executed: Vec<u64> = Vec::new();
    let mut submitted: u64 = 0;
    let total = dispatchers * per_dispatcher;
    while submitted < total {
        match b.submit() {
            SubmitOutcome::Enqueued { task, .. } => {
                // round-robin: task id modulo 8 identifies the dispatcher
                assert_eq!(task % dispatchers, submitted % dispatchers);
                submitted += 1;
            }
            SubmitOutcome::Full => match b.poll_task() {
                PollOutcome::Task(id) => executed.push(id),
                other => panic!("drain failed: {:?}", other),
            },
            other => panic!("dispatch errored: {:?}", other),
        }
    }
    loop {
        match b.poll_task() {
            PollOutcome::Task(id) => executed.push(id),
            PollOutcome::Empty => break,
            PollOutcome::Closed => panic!("queue closed with live dispatchers"),
        }
    }
    assert_eq!(executed.len(), total as usize);
    let mut last_of: Vec<Option<u64>> = vec![None; dispatchers as usize];
    for id in &executed {
        let d = (id % dispatchers) as usize;
        let seq = id / dispatchers;
        if let Some(prev) = last_of[d] {
            assert!(prev < seq, "per-dispatcher FIFO violated");
        }
        last_of[d] = Some(seq);
    }
    for d in 0..dispatchers as usize {
        assert_eq!(last_of[d], Some(per_dispatcher - 1));
    }
}

#[test]
fn submit_refused_once_executors_gone() {
    let mut b = channel(4);
    // the only drainer exits after observing the drained queue
    b.drop_executor();
    assert!(matches!(b.submit(), SubmitOutcome::Closed));
}

#[test]
fn poll_reports_closed_after_last_dispatcher() {
    let mut b = channel(4);
    match b.submit() {
        SubmitOutcome::Enqueued { .. } => {}
        other => panic!("unexpected: {:?}", other),
    }
    b.drop_dispatcher();
    // the in-flight task still drains, then closure is observed
    assert!(matches!(b.poll_task(), PollOutcome::Task(0)));
    assert!(matches!(b.poll_task(), PollOutcome::Closed));
}

#[test]
fn exec_cycle_runs_waits_and_closes() {
    let mut b = channel(4);
    // nothing queued: the drainer spins, waits cooperatively, comes back
    assert!(matches!(b.exec_cycle(3), xtm_rust::ExecCycle::Waited));
    match b.submit() {
        SubmitOutcome::Enqueued { task, woke } => {
            assert_eq!(task, 0);
            assert!(woke);
        }
        other => panic!("unexpected: {:?}", other),
    }
    assert!(matches!(b.exec_cycle(3), xtm_rust::ExecCycle::Run(0)));
    b.drop_dispatcher();
    assert!(matches!(b.exec_cycle(3), xtm_rust::ExecCycle::Closed));
}
