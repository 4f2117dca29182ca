//! The verified core of the task channel: a bounded multi-producer FIFO of
//! task ids coupled to the wake counter, with the dispatcher- and
//! executor-side transitions and the invariants they preserve.
//!
//! The real channel carries boxed closures between threads; every decision it
//! makes — when to wake the host, when a send must suspend, when a drainer
//! may sleep, when the channel counts as closed — is a function of the state
//! modelled here.  [`Bridge`] holds that state in one place: the queue, its
//! capacity, the wake counter, the live handle counts on both sides, the
//! drainer fibers' phases, and the in-host fan-out queue of the fiber pool.
//! Tasks are represented by the ids the queue issues in arrival order, which
//! is what the ordering guarantees are about; the task bodies themselves are
//! invoked through [`run_task`].

use vstd::prelude::*;

use crate::notify::COUNTER_MAX;
use crate::notify::WakeCounter;
use crate::reply::ReplyOneShot;

verus! {

/// Errors a dispatcher's call can resolve to.
#[derive(Clone, Copy, Debug, PartialEq, Eq)]
pub enum CallError {
    /// The task queue is closed: no executor handle remains to drain it.
    TaskChannelSendError,
    /// The reply inbox's sending half vanished before a result arrived.
    ResultChannelRecvError,
    /// Writing the wake counter failed.
    NotifyError,
}

/// Errors the executor side reports.
#[derive(Clone, Copy, Debug, PartialEq, Eq)]
pub enum ExecError {
    /// The caller dropped its reply inbox, so the result had nowhere to go.
    ResultChannelSendError,
    /// The task queue is closed and drained: no dispatcher remains.
    TaskChannelRecvError,
}

/// Outcome of one enqueue attempt by a dispatcher.
#[derive(Clone, Copy, Debug, PartialEq, Eq)]
pub enum SubmitOutcome {
    /// The task was accepted under id `task`; `woke` says whether the wake
    /// counter was written, which happens exactly on the empty-to-non-empty
    /// transition of the queue.
    Enqueued { task: u64, woke: bool },
    /// The queue holds `capacity` tasks; the dispatcher suspends until a
    /// drainer frees a slot, without erroring and without busy-looping.
    Full,
    /// Every executor handle is gone; the task is refused.
    Closed,
    /// The task was accepted, but the wake counter was saturated and the
    /// wakeup write was refused.
    NotifyError { task: u64 },
}

/// Outcome of one full cycle of the direct drain loop.
#[derive(Clone, Copy, Debug, PartialEq, Eq)]
pub enum ExecCycle {
    /// The oldest queued task, to be invoked now.
    Run(u64),
    /// The queue is closed and drained: the drain fiber exits.
    Closed,
    /// Nothing arrived through the spin; the drainer waited cooperatively,
    /// consumed whatever the wake counter held, and polls anew.
    Waited,
}

/// Outcome of one non-blocking dequeue attempt by a drainer.
#[derive(Clone, Copy, Debug, PartialEq, Eq)]
pub enum PollOutcome {
    /// The oldest queued task, now handed to the drainer for invocation.
    Task(u64),
    /// Nothing queued, but dispatchers remain: the drainer arms itself and
    /// will retry or wait on the wake counter.
    Empty,
    /// Nothing queued and no dispatcher remains: the drainer exits.
    Closed,
}

/// The edge-triggered wake rule of the dispatcher: after enqueueing a task,
/// the wake counter is written if and only if the queue was observed empty
/// just before the enqueue.  A consumer that saw a non-empty queue is either
/// draining or about to re-check, so only the empty-to-non-empty transition
/// needs a kernel-level wakeup.
pub fn should_notify(queue_len_before: usize) -> (wake: bool)
    ensures
        wake <==> queue_len_before == 0,
{
    queue_len_before == 0
}

/// All task ids issued before `n`, in order of issue: `0, 1, …, n-1`.
pub open spec fn ids_below(n: u64) -> Seq<u64> {
    Seq::new(n as nat, |i: int| i as u64)
}

/// The parts of the state the queue side owns: the tasks queued, the ids
/// issued, and the record of what was executed.
pub open spec fn same_queue(pre: Bridge, post: Bridge) -> bool {
    &&& post.queue@ == pre.queue@
    &&& post.cap == pre.cap
    &&& post.next_id == pre.next_id
    &&& post.executed@ == pre.executed@
}

/// The fan-out queue and its open flag.
pub open spec fn same_fanout(pre: Bridge, post: Bridge) -> bool {
    &&& post.fanout@ == pre.fanout@
    &&& post.fanout_open == pre.fanout_open
}

/// The wake counter's observable state.
pub open spec fn same_counter(pre: Bridge, post: Bridge) -> bool {
    &&& post.counter.pending() == pre.counter.pending()
    &&& post.counter.is_semaphore() == pre.counter.is_semaphore()
}

/// The handle counts and drainer phases.
pub open spec fn same_handles(pre: Bridge, post: Bridge) -> bool {
    &&& post.dispatchers == pre.dispatchers
    &&& post.active == pre.active
    &&& post.armed == pre.armed
    &&& post.waiting == pre.waiting
}

/// The whole state of one task channel and the fiber pool draining it.
///
/// In the running system this state is spread over two threads and several
/// handles; the model holds it in one place so that every transition can
/// state exactly what it reads and what it changes.
pub struct Bridge {
    /// The bounded cross-thread task queue, oldest task first.
    pub queue: Vec<u64>,
    /// The queue's capacity.
    pub cap: usize,
    /// The wake counter shared by all handles.
    pub counter: WakeCounter,
    /// Live dispatcher (producer) handles.
    pub dispatchers: usize,
    /// Drainer fibers awake between polls of the task queue.
    pub active: usize,
    /// Drainer fibers whose last poll found the queue empty and which are
    /// spinning or about to wait.
    pub armed: usize,
    /// Drainer fibers blocked in the cooperative wait on the wake counter.
    pub waiting: usize,
    /// The in-host fan-out queue from the scheduler fiber to the workers.
    pub fanout: Vec<u64>,
    /// Whether the scheduler still holds the fan-out's sending half.
    pub fanout_open: bool,
    /// Ids issued to accepted tasks so far; also the next id to issue.
    pub next_id: u64,
    /// The order in which tasks were handed to a fiber for invocation.
    pub executed: Ghost<Seq<u64>>,
}

impl Bridge {
    /// Executor handles still alive, one per drainer fiber.
    pub open spec fn drainers(&self) -> int {
        self.active + self.armed + self.waiting
    }

    /// The invariants every transition preserves:
    /// - the queue never exceeds its capacity, which is at least one task;
    /// - the tasks executed, fanned out and queued are exactly the accepted
    ///   ids, in order of acceptance — this carries the FIFO and
    ///   at-most-once guarantees;
    /// - whenever tasks are queued and the wake counter is empty, some
    ///   drainer is awake — this is why a wakeup is never lost;
    /// - once the fan-out closes, no dispatcher remains and the queue is
    ///   drained, so workers that run out of fanned-out work may exit.
    pub open spec fn wf(&self) -> bool {
        &&& self.cap >= 1
        &&& self.queue@.len() <= self.cap
        &&& self.counter.wf()
        &&& !self.counter.is_semaphore()
        &&& self.executed@ + self.fanout@ + self.queue@ == ids_below(self.next_id)
        &&& (self.queue@.len() > 0 && self.counter.pending() == 0 ==> self.active >= 1)
        &&& (!self.fanout_open ==> self.dispatchers == 0 && self.queue@.len() == 0)
    }

    /// Current depth of the task queue, as both sides may observe it.
    pub fn len(&self) -> (n: usize)
        ensures
            n == self.queue@.len(),
    {
        self.queue.len()
    }

    /// Whether the task queue is empty.
    pub fn is_empty(&self) -> (r: bool)
        ensures
            r <==> self.queue@.len() == 0,
    {
        self.queue.len() == 0
    }

    /// Clone a dispatcher handle.
    pub fn try_clone_dispatcher(&mut self)
        requires
            old(self).wf(),
            old(self).dispatchers >= 1,
            old(self).dispatchers < usize::MAX,
        ensures
            final(self).wf(),
            same_queue(*old(self), *final(self)),
            same_fanout(*old(self), *final(self)),
            same_counter(*old(self), *final(self)),
            final(self).dispatchers == old(self).dispatchers + 1,
            final(self).active == old(self).active,
            final(self).armed == old(self).armed,
            final(self).waiting == old(self).waiting,
    {
        self.dispatchers = self.dispatchers + 1;
    }

    /// Drop a dispatcher handle.  When the last one goes, the queue's
    /// producer side closes: drainers will observe closure once the queue is
    /// empty.
    pub fn drop_dispatcher(&mut self)
        requires
            old(self).wf(),
            old(self).dispatchers >= 1,
        ensures
            final(self).wf(),
            same_queue(*old(self), *final(self)),
            same_fanout(*old(self), *final(self)),
            same_counter(*old(self), *final(self)),
            final(self).dispatchers == old(self).dispatchers - 1,
            final(self).active == old(self).active,
            final(self).armed == old(self).armed,
            final(self).waiting == old(self).waiting,
    {
        self.dispatchers = self.dispatchers - 1;
    }

    /// Clone an executor handle for one more drainer fiber, which starts
    /// awake.
    pub fn try_clone_executor(&mut self)
        requires
            old(self).wf(),
            old(self).active >= 1,
            old(self).active < usize::MAX,
        ensures
            final(self).wf(),
            same_queue(*old(self), *final(self)),
            same_fanout(*old(self), *final(self)),
            same_counter(*old(self), *final(self)),
            final(self).dispatchers == old(self).dispatchers,
            final(self).active == old(self).active + 1,
            final(self).armed == old(self).armed,
            final(self).waiting == old(self).waiting,
    {
        self.active = self.active + 1;
    }

    /// Drop an executor handle.  A drainer fiber only exits — and only then
    /// releases its handle — after it has observed the queue closed and
    /// drained, so the queue is empty here.
    pub fn drop_executor(&mut self)
        requires
            old(self).wf(),
            old(self).active >= 1,
            old(self).queue@.len() == 0,
        ensures
            final(self).wf(),
            same_queue(*old(self), *final(self)),
            same_fanout(*old(self), *final(self)),
            same_counter(*old(self), *final(self)),
            final(self).dispatchers == old(self).dispatchers,
            final(self).active == old(self).active - 1,
            final(self).armed == old(self).armed,
            final(self).waiting == old(self).waiting,
    {
        self.active = self.active - 1;
    }

    /// One enqueue attempt by a dispatcher: the synchronous core of a call.
    ///
    /// The task is refused exactly when no executor handle remains, and the
    /// dispatcher suspends exactly when the queue is at capacity.  Otherwise
    /// the task is appended and — only if the queue was observed empty — one
    /// wakeup is written to the counter, so that an idle drainer comes back;
    /// a queue already holding tasks means a drainer is awake or the counter
    /// already carries a wakeup, so none is needed.
    pub fn submit(&mut self) -> (r: SubmitOutcome)
        requires
            old(self).wf(),
            old(self).dispatchers >= 1,
            old(self).next_id < u64::MAX,
        ensures
            final(self).wf(),
            same_fanout(*old(self), *final(self)),
            same_handles(*old(self), *final(self)),
            final(self).cap == old(self).cap,
            final(self).executed@ == old(self).executed@,
            r is Closed <==> old(self).drainers() == 0,
            r is Full <==> old(self).drainers() >= 1 && old(self).queue@.len() == old(self).cap,
            r is Closed || r is Full ==> same_queue(*old(self), *final(self))
                && same_counter(*old(self), *final(self)),
            r is Enqueued || r is NotifyError ==> final(self).queue@ == old(self).queue@.push(
                old(self).next_id,
            ) && final(self).next_id == old(self).next_id + 1,
            r matches SubmitOutcome::Enqueued { task, woke } ==> task == old(self).next_id && (
            woke <==> old(self).queue@.len() == 0) && (woke ==> final(self).counter.pending()
                == old(self).counter.pending() + 1) && (!woke ==> same_counter(
                *old(self),
                *final(self),
            )),
            r matches SubmitOutcome::NotifyError { task } ==> task == old(self).next_id && old(self).queue@.len() == 0 && old(self).counter.pending() == COUNTER_MAX && same_counter(
                *old(self),
                *final(self),
            ),
    {
        if self.active == 0 && self.armed == 0 && self.waiting == 0 {
            SubmitOutcome::Closed
        } else if self.queue.len() == self.cap {
            SubmitOutcome::Full
        } else {
            let task = self.next_id;
            let wake = self.queue.len() == 0;
            self.queue.push(task);
            self.next_id = self.next_id + 1;
            proof {
                assert(ids_below((task + 1) as u64) =~= ids_below(task).push(task));
                assert(self.executed@ + self.fanout@ + self.queue@ =~= (old(self).executed@
                    + old(self).fanout@ + old(self).queue@).push(task));
            }
            if wake {
                let accepted = self.counter.notify(1);
                if accepted {
                    SubmitOutcome::Enqueued { task, woke: true }
                } else {
                    SubmitOutcome::NotifyError { task }
                }
            } else {
                SubmitOutcome::Enqueued { task, woke: false }
            }
        }
    }

    /// One non-blocking dequeue attempt by an awake drainer, on the direct
    /// drain path where each task is invoked as soon as it is fetched (the
    /// fan-out queue is not in use).
    ///
    /// The oldest task is returned if one is queued; an empty queue with no
    /// dispatcher left means closure; an empty queue with dispatchers alive
    /// arms the drainer, which will spin or wait on the wake counter.
    pub fn poll_task(&mut self) -> (r: PollOutcome)
        requires
            old(self).wf(),
            old(self).active >= 1,
            old(self).armed < usize::MAX,
            old(self).fanout@.len() == 0,
        ensures
            final(self).wf(),
            same_fanout(*old(self), *final(self)),
            same_counter(*old(self), *final(self)),
            final(self).cap == old(self).cap,
            final(self).dispatchers == old(self).dispatchers,
            final(self).next_id == old(self).next_id,
            final(self).waiting == old(self).waiting,
            old(self).queue@.len() > 0 ==> r == PollOutcome::Task(old(self).queue@[0]) && final(self).queue@ == old(self).queue@.subrange(1, old(self).queue@.len() as int) && final(self).executed@ == old(self).executed@.push(old(self).queue@[0]) && final(self).active
                == old(self).active && final(self).armed == old(self).armed,
            old(self).queue@.len() == 0 && old(self).dispatchers == 0 ==> r == PollOutcome::Closed
                && same_queue(*old(self), *final(self)) && same_handles(*old(self), *final(self)),
            old(self).queue@.len() == 0 && old(self).dispatchers >= 1 ==> r == PollOutcome::Empty
                && same_queue(*old(self), *final(self)) && final(self).active == old(self).active
                - 1 && final(self).armed == old(self).armed + 1,
    {
        if self.queue.len() > 0 {
            let id = self.queue.remove(0);
            proof {
                self.executed@ = self.executed@.push(id);
                assert(self.executed@ + self.fanout@ + self.queue@ =~= old(self).executed@ + old(self).fanout@ + old(self).queue@);
            }
            PollOutcome::Task(id)
        } else if self.dispatchers == 0 {
            PollOutcome::Closed
        } else {
            self.active = self.active - 1;
            self.armed = self.armed + 1;
            PollOutcome::Empty
        }
    }

    /// One dequeue attempt by an armed drainer during its spin of bounded
    /// retries, each separated by a zero-length cooperative yield.  A fetched
    /// task or an observed closure puts the drainer back among the awake
    /// ones; an empty queue leaves it armed for the next retry or for the
    /// cooperative wait.
    pub fn retry_poll(&mut self) -> (r: PollOutcome)
        requires
            old(self).wf(),
            old(self).armed >= 1,
            old(self).active < usize::MAX,
            old(self).fanout@.len() == 0,
        ensures
            final(self).wf(),
            same_fanout(*old(self), *final(self)),
            same_counter(*old(self), *final(self)),
            final(self).cap == old(self).cap,
            final(self).dispatchers == old(self).dispatchers,
            final(self).next_id == old(self).next_id,
            final(self).waiting == old(self).waiting,
            old(self).queue@.len() > 0 ==> r == PollOutcome::Task(old(self).queue@[0]) && final(self).queue@ == old(self).queue@.subrange(1, old(self).queue@.len() as int) && final(self).executed@ == old(self).executed@.push(old(self).queue@[0]) && final(self).active
                == old(self).active + 1 && final(self).armed == old(self).armed - 1,
            old(self).queue@.len() == 0 && old(self).dispatchers == 0 ==> r == PollOutcome::Closed
                && same_queue(*old(self), *final(self)) && final(self).active == old(self).active
                + 1 && final(self).armed == old(self).armed - 1,
            old(self).queue@.len() == 0 && old(self).dispatchers >= 1 ==> r == PollOutcome::Empty
                && same_queue(*old(self), *final(self)) && same_handles(*old(self), *final(self)),
    {
        if self.queue.len() > 0 {
            self.active = self.active + 1;
            self.armed = self.armed - 1;
            let id = self.queue.remove(0);
            proof {
                self.executed@ = self.executed@.push(id);
                assert(self.executed@ + self.fanout@ + self.queue@ =~= old(self).executed@ + old(self).fanout@ + old(self).queue@);
            }
            PollOutcome::Task(id)
        } else if self.dispatchers == 0 {
            self.active = self.active + 1;
            self.armed = self.armed - 1;
            PollOutcome::Closed
        } else {
            PollOutcome::Empty
        }
    }

    /// One full cycle of the direct drain loop: one poll; on an empty queue,
    /// a bounded spin of retries, then the cooperative wait on the wake
    /// counter and the counter read on the way back.  The cycle ends with a
    /// task to invoke, with an observed closure, or with the drainer awake
    /// again after its wait — the outer loop then polls anew, so no state of
    /// the queue can make the drainer sleep past a pending wakeup.
    pub fn exec_cycle(&mut self, max_recv_retries: usize) -> (r: ExecCycle)
        requires
            old(self).wf(),
            old(self).active >= 1,
            old(self).active < usize::MAX,
            old(self).armed < usize::MAX,
            old(self).waiting < usize::MAX,
            old(self).fanout@.len() == 0,
        ensures
            final(self).wf(),
            same_fanout(*old(self), *final(self)),
            final(self).cap == old(self).cap,
            final(self).dispatchers == old(self).dispatchers,
            final(self).next_id == old(self).next_id,
            same_handles(*old(self), *final(self)),
            old(self).queue@.len() > 0 ==> r == ExecCycle::Run(old(self).queue@[0]) && final(self).queue@ == old(self).queue@.subrange(1, old(self).queue@.len() as int) && final(self).executed@ == old(self).executed@.push(old(self).queue@[0]) && same_counter(
                *old(self),
                *final(self),
            ),
            old(self).queue@.len() == 0 && old(self).dispatchers == 0 ==> r == ExecCycle::Closed
                && same_queue(*old(self), *final(self)) && same_counter(*old(self), *final(self)),
            old(self).queue@.len() == 0 && old(self).dispatchers >= 1 ==> r == ExecCycle::Waited
                && same_queue(*old(self), *final(self)) && final(self).counter.pending() == 0,
    {
        match self.poll_task() {
            PollOutcome::Task(id) => ExecCycle::Run(id),
            PollOutcome::Closed => ExecCycle::Closed,
            PollOutcome::Empty => {
                let mut retries: usize = 0;
                while retries < max_recv_retries
                    invariant
                        self.wf(),
                        self.armed >= 1,
                        self.armed <= old(self).armed + 1,
                        self.active < usize::MAX,
                        self.waiting < usize::MAX,
                        self.queue@.len() == 0,
                        self.dispatchers >= 1,
                        self.fanout@.len() == 0,
                        same_queue(*old(self), *self),
                        same_fanout(*old(self), *self),
                        same_counter(*old(self), *self),
                        self.dispatchers == old(self).dispatchers,
                        self.active == old(self).active - 1,
                        self.armed == old(self).armed + 1,
                        self.waiting == old(self).waiting,
                    decreases max_recv_retries - retries,
                {
                    // with the queue still empty, each retry comes back
                    // empty-handed; the spin only pays off when a producer
                    // slips a task in between the polls
                    let polled = self.retry_poll();
                    proof {
                        assert(polled == PollOutcome::Empty);
                    }
                    retries = retries + 1;
                }
                self.begin_wait();
                let _accumulated = self.wake();
                ExecCycle::Waited
            },
        }
    }

    /// An armed drainer that exhausted its retries enters the cooperative
    /// wait on the wake counter's descriptor.
    pub fn begin_wait(&mut self)
        requires
            old(self).wf(),
            old(self).armed >= 1,
            old(self).waiting < usize::MAX,
        ensures
            final(self).wf(),
            same_queue(*old(self), *final(self)),
            same_fanout(*old(self), *final(self)),
            same_counter(*old(self), *final(self)),
            final(self).dispatchers == old(self).dispatchers,
            final(self).active == old(self).active,
            final(self).armed == old(self).armed - 1,
            final(self).waiting == old(self).waiting + 1,
    {
        self.armed = self.armed - 1;
        self.waiting = self.waiting + 1;
    }

    /// A waiting drainer returns from the cooperative wait — because the
    /// counter's descriptor became readable or because the wait timed out —
    /// and performs the non-blocking counter read, whose failure on a
    /// spurious or timed-out wait is deliberately discarded.  Either way the
    /// drainer is awake again and about to re-poll the queue.
    pub fn wake(&mut self) -> (r: Option<u64>)
        requires
            old(self).wf(),
            old(self).waiting >= 1,
            old(self).active < usize::MAX,
        ensures
            final(self).wf(),
            same_queue(*old(self), *final(self)),
            same_fanout(*old(self), *final(self)),
            final(self).dispatchers == old(self).dispatchers,
            final(self).active == old(self).active + 1,
            final(self).armed == old(self).armed,
            final(self).waiting == old(self).waiting - 1,
            old(self).counter.pending() > 0 ==> r == Some(old(self).counter.pending()) && final(self).counter.pending() == 0,
            old(self).counter.pending() == 0 ==> r is None && same_counter(
                *old(self),
                *final(self),
            ),
    {
        self.waiting = self.waiting - 1;
        self.active = self.active + 1;
        self.counter.notified()
    }
}

/// Build the channel: an empty queue of capacity `buffer`, a zeroed wake
/// counter, and one handle on each side — the dispatcher handed to the
/// module, and the executor whose clones the drainer fibers will own.
pub fn channel(buffer: usize) -> (b: Bridge)
    requires
        buffer >= 1,
    ensures
        b.wf(),
        b.cap == buffer,
        b.queue@ == Seq::<u64>::empty(),
        b.counter.pending() == 0,
        b.dispatchers == 1,
        b.active == 1,
        b.armed == 0,
        b.waiting == 0,
        b.fanout@ == Seq::<u64>::empty(),
        b.fanout_open,
        b.next_id == 0,
        b.executed@ == Seq::<u64>::empty(),
{
    let b = Bridge {
        queue: Vec::new(),
        cap: buffer,
        counter: WakeCounter::new(0, false),
        dispatchers: 1,
        active: 1,
        armed: 0,
        waiting: 0,
        fanout: Vec::new(),
        fanout_open: true,
        next_id: 0,
        executed: Ghost(Seq::empty()),
    };
    proof {
        assert(b.executed@ + b.fanout@ + b.queue@ =~= ids_below(0));
    }
    b
}

/// The body of one boxed task, as a drainer invokes it: if the caller has
/// already dropped its reply inbox, nothing runs and the drainer learns that
/// the result channel is gone; otherwise the task function runs once and its
/// result is sent into the inbox, consuming the one-shot's sending half.
pub fn run_task<R, F: FnOnce() -> R>(reply: &mut ReplyOneShot<R>, func: F) -> (r: Result<
    (),
    ExecError,
>)
    requires
        old(reply).wf(),
        old(reply).sender_live(),
        call_requires(func, ()),
    ensures
        final(reply).wf(),
        !old(reply).receiver_live() ==> r == Err::<(), ExecError>(
            ExecError::ResultChannelSendError,
        ) && *final(reply) == *old(reply),
        old(reply).receiver_live() ==> r == Ok::<(), ExecError>(()) && !final(reply).sender_live()
            && final(reply).receiver_live() && (exists|v: R|
            #[trigger] call_ensures(func, (), v) && final(reply).sent_value() == Some(v)),
{
    if reply.is_closed() {
        return Err(ExecError::ResultChannelSendError);
    }
    let result = func();
    match reply.send(result) {
        Ok(()) => Ok(()),
        Err(_) => Err(ExecError::ResultChannelSendError),
    }
}

/// One full dispatch round trip as the awaiting caller observes it: the
/// drainer invokes the task against a live reply inbox, and the caller's
/// await resolves.  The round-trip property: the awaited outcome is `Ok` of a
/// value the task function itself can produce — for a task function whose
/// contract pins its result, exactly that result.
pub fn complete_call<R, F: FnOnce() -> R>(reply: &mut ReplyOneShot<R>, func: F) -> (r: Result<
    R,
    CallError,
>)
    requires
        old(reply).wf(),
        old(reply).sender_live(),
        old(reply).receiver_live(),
        call_requires(func, ()),
    ensures
        final(reply).wf(),
        !final(reply).sender_live(),
        !final(reply).receiver_live(),
        r is Ok,
        (match r {
            Ok(v) => call_ensures(func, (), v),
            Err(_) => false,
        }),
{
    let ran = run_task(reply, func);
    match ran {
        Ok(()) => match reply.recv() {
            Some(v) => Ok(v),
            None => Err(CallError::ResultChannelRecvError),
        },
        Err(_) => Err(CallError::ResultChannelRecvError),
    }
}

/// Per-dispatcher FIFO, and globally FIFO in arrival order: tasks are handed
/// to fibers for invocation in exactly the order the queue accepted them.
/// Ids are issued in arrival order, and the execution record is always an
/// initial segment of the issued ids, so execution order is submission
/// order.
pub proof fn lemma_fifo_execution(b: &Bridge)
    requires
        b.wf(),
    ensures
        forall|i: int, j: int|
            0 <= i < j < b.executed@.len() ==> b.executed@[i] < b.executed@[j],
{
    assert forall|i: int| 0 <= i < b.executed@.len() implies b.executed@[i] == i by {
        assert(b.executed@.len() <= ids_below(b.next_id).len());
        assert((b.executed@ + b.fanout@ + b.queue@)[i] == b.executed@[i]);
        assert(ids_below(b.next_id)[i] == i as u64);
    }
}

/// At-most-once execution: no task id is handed to a fiber twice.  Together
/// with the reply one-shot's contracts — a send consumes the sending half,
/// a receive consumes the receiving half — every task runs at most once,
/// every reply is sent at most once, and every awaiter resolves exactly once.
pub proof fn lemma_at_most_once(b: &Bridge)
    requires
        b.wf(),
    ensures
        forall|i: int, j: int|
            0 <= i < b.executed@.len() && 0 <= j < b.executed@.len() && i != j
                ==> b.executed@[i] != b.executed@[j],
{
    lemma_fifo_execution(b);
}

/// No lost wakeups: whenever tasks are queued but every drainer is armed or
/// already blocked in the cooperative wait, the wake counter is non-zero, so
/// the counter's descriptor is readable and the kernel ends at least one
/// drainer's wait within its timeout.
pub proof fn lemma_no_lost_wakeup(b: &Bridge)
    requires
        b.wf(),
        b.queue@.len() > 0,
        b.active == 0,
    ensures
        b.counter.pending() > 0,
{
}

/// Bounded capacity: the queue never holds more than its configured capacity.
/// An enqueue against a full queue suspends the dispatcher — `submit` returns
/// `Full` and changes nothing — and succeeds again as soon as a drainer frees
/// a slot, as `submit`'s contract states exactly.
pub proof fn lemma_bounded_capacity(b: &Bridge)
    requires
        b.wf(),
    ensures
        b.queue@.len() <= b.cap,
{
}

} // verus!
