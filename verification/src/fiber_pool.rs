//! The fiber pool's side of the bridge: one scheduler fiber batches tasks out
//! of the cross-thread queue into an in-host fan-out queue, and worker fibers
//! drain the fan-out and invoke the tasks against the host context.
//!
//! The transitions here extend the [`Bridge`] model with the scheduler's
//! batching cycle, the workers' fetch step, the closing of the fan-out at
//! shutdown, and the drain that follows the death of the last dispatcher.
//! The loop-policy decisions of the drain fibers — which task outcomes are
//! survivable, which errors are fatal — stand here as well.

use vstd::prelude::*;

use crate::txapi::Bridge;
use crate::txapi::ExecError;
use crate::txapi::ids_below;
use crate::txapi::same_counter;
use crate::txapi::same_fanout;
use crate::txapi::same_handles;
use crate::txapi::same_queue;

verus! {

/// Outcome of one scheduler cycle.
#[derive(Clone, Copy, Debug, PartialEq, Eq)]
pub enum SchedulerStep {
    /// `count` tasks were moved, in order, from the task queue to the
    /// fan-out queue, with one condition signal each.
    Dispatched { count: usize },
    /// Nothing queued, but dispatchers remain: the scheduler arms itself and
    /// will wait on the wake counter.
    Empty,
    /// Nothing queued and no dispatcher remains: graceful shutdown begins.
    Shutdown,
}

/// Outcome of one worker fetch from the fan-out queue.
#[derive(Clone, Copy, Debug, PartialEq, Eq)]
pub enum WorkerFetch {
    /// The oldest fanned-out task, now invoked by this worker.
    Run(u64),
    /// Nothing fanned out yet: the worker waits on the pool condition with
    /// its standby timeout, then re-checks.
    Standby,
    /// The fan-out is closed and drained: the worker exits cleanly.
    Exit,
}

impl Bridge {
    /// One cycle of the scheduler fiber, after it found or was woken to a
    /// state worth checking: pop up to `max_batch` tasks and move them, in
    /// order, to the fan-out queue.  The batch stops early once at most one
    /// task remains queued — the one left signals "still busy" to any peer
    /// drainer that polls.  An empty queue either arms the scheduler for the
    /// cooperative wait or, with no dispatcher left, begins the shutdown.
    pub fn scheduler_step(&mut self, max_batch: usize) -> (r: SchedulerStep)
        requires
            old(self).wf(),
            old(self).active >= 1,
            old(self).armed < usize::MAX,
            max_batch >= 1,
        ensures
            final(self).wf(),
            same_counter(*old(self), *final(self)),
            final(self).cap == old(self).cap,
            final(self).dispatchers == old(self).dispatchers,
            final(self).next_id == old(self).next_id,
            final(self).executed@ == old(self).executed@,
            final(self).fanout_open == old(self).fanout_open,
            final(self).waiting == old(self).waiting,
            old(self).queue@.len() == 0 && old(self).dispatchers == 0 ==> r
                == SchedulerStep::Shutdown && same_queue(*old(self), *final(self)) && same_fanout(
                *old(self),
                *final(self),
            ) && same_handles(*old(self), *final(self)),
            old(self).queue@.len() == 0 && old(self).dispatchers >= 1 ==> r == SchedulerStep::Empty
                && same_queue(*old(self), *final(self)) && same_fanout(*old(self), *final(self))
                && final(self).active == old(self).active - 1 && final(self).armed == old(self).armed + 1,
            old(self).queue@.len() >= 1 ==> (r matches SchedulerStep::Dispatched { count }
                && 1 <= count <= max_batch && count <= old(self).queue@.len() && final(self).queue@
                == old(self).queue@.skip(count as int) && final(self).fanout@ == old(self).fanout@
                + old(self).queue@.take(count as int) && (count == max_batch || final(self).queue@.len() <= 1) && final(self).active == old(self).active && final(self).armed
                == old(self).armed),
    {
        if self.queue.len() == 0 {
            if self.dispatchers == 0 {
                SchedulerStep::Shutdown
            } else {
                self.active = self.active - 1;
                self.armed = self.armed + 1;
                SchedulerStep::Empty
            }
        } else {
            let ghost q0 = self.queue@;
            let ghost f0 = self.fanout@;
            let mut count: usize = 0;
            proof {
                assert(q0.skip(0) =~= q0);
                assert(f0 + q0.take(0) =~= f0);
            }
            loop
                invariant_except_break
                    self.wf(),
                    0 <= count < max_batch,
                    self.queue@.len() >= 1,
                    self.queue@.len() + count == q0.len(),
                    self.queue@ == q0.skip(count as int),
                    self.fanout@ == f0 + q0.take(count as int),
                    same_counter(*old(self), *self),
                    self.cap == old(self).cap,
                    self.dispatchers == old(self).dispatchers,
                    self.next_id == old(self).next_id,
                    self.executed@ == old(self).executed@,
                    self.fanout_open == old(self).fanout_open,
                    self.active == old(self).active,
                    self.armed == old(self).armed,
                    self.waiting == old(self).waiting,
                ensures
                    self.wf(),
                    1 <= count <= max_batch,
                    count <= q0.len(),
                    self.queue@ == q0.skip(count as int),
                    self.fanout@ == f0 + q0.take(count as int),
                    count == max_batch || self.queue@.len() <= 1,
                    same_counter(*old(self), *self),
                    self.cap == old(self).cap,
                    self.dispatchers == old(self).dispatchers,
                    self.next_id == old(self).next_id,
                    self.executed@ == old(self).executed@,
                    self.fanout_open == old(self).fanout_open,
                    self.active == old(self).active,
                    self.armed == old(self).armed,
                    self.waiting == old(self).waiting,
                decreases self.queue@.len(),
            {
                let id = self.queue.remove(0);
                self.fanout.push(id);
                proof {
                    let c = count as int;
                    assert(0 <= c < q0.len());
                    assert(q0.skip(c)[0] == q0[c]);
                    assert(self.queue@ =~= q0.skip(c + 1));
                    assert(self.fanout@ =~= f0 + q0.take(c + 1));
                }
                count = count + 1;
                proof {
                    assert(self.executed@ + self.fanout@ + self.queue@ =~= ids_below(
                        self.next_id,
                    ));
                }
                if count == max_batch || self.queue.len() <= 1 {
                    break ;
                }
            }
            SchedulerStep::Dispatched { count }
        }
    }

    /// One fetch by a worker fiber from the fan-out queue: run the oldest
    /// fanned-out task, wait on the pool condition if nothing is there yet,
    /// or exit once the fan-out is closed and drained.
    pub fn worker_fetch(&mut self) -> (r: WorkerFetch)
        requires
            old(self).wf(),
        ensures
            final(self).wf(),
            same_counter(*old(self), *final(self)),
            same_handles(*old(self), *final(self)),
            final(self).cap == old(self).cap,
            final(self).next_id == old(self).next_id,
            final(self).queue@ == old(self).queue@,
            final(self).fanout_open == old(self).fanout_open,
            old(self).fanout@.len() >= 1 ==> r == WorkerFetch::Run(old(self).fanout@[0]) && final(self).fanout@ == old(self).fanout@.skip(1) && final(self).executed@ == old(self).executed@.push(old(self).fanout@[0]),
            old(self).fanout@.len() == 0 && !old(self).fanout_open ==> r == WorkerFetch::Exit
                && final(self).fanout@ == old(self).fanout@ && final(self).executed@ == old(self).executed@,
            old(self).fanout@.len() == 0 && old(self).fanout_open ==> r == WorkerFetch::Standby
                && final(self).fanout@ == old(self).fanout@ && final(self).executed@ == old(self).executed@,
    {
        if self.fanout.len() > 0 {
            let id = self.fanout.remove(0);
            proof {
                self.executed@ = self.executed@.push(id);
                assert(self.fanout@ =~= old(self).fanout@.skip(1));
                assert(self.executed@ + self.fanout@ + self.queue@ =~= old(self).executed@ + old(self).fanout@ + old(self).queue@);
            }
            WorkerFetch::Run(id)
        } else if !self.fanout_open {
            WorkerFetch::Exit
        } else {
            WorkerFetch::Standby
        }
    }

    /// The scheduler drops the fan-out's sending half and broadcasts the
    /// pool condition, which begins the workers' graceful exit.  This happens
    /// only on the shutdown path, after the scheduler observed the task
    /// queue closed: no dispatcher remains and the queue is drained.
    pub fn close_fanout(&mut self)
        requires
            old(self).wf(),
            old(self).fanout_open,
            old(self).dispatchers == 0,
            old(self).queue@.len() == 0,
        ensures
            final(self).wf(),
            same_queue(*old(self), *final(self)),
            same_counter(*old(self), *final(self)),
            same_handles(*old(self), *final(self)),
            final(self).fanout@ == old(self).fanout@,
            !final(self).fanout_open,
    {
        self.fanout_open = false;
    }
}

/// The driver's pool startup: clone one executor handle per drainer fiber,
/// each fiber starting awake and polling the queue.
pub fn start_drainers(b: &mut Bridge, fibers: usize)
    requires
        old(b).wf(),
        old(b).active >= 1,
        old(b).active + fibers <= usize::MAX,
    ensures
        final(b).wf(),
        same_queue(*old(b), *final(b)),
        same_fanout(*old(b), *final(b)),
        same_counter(*old(b), *final(b)),
        final(b).dispatchers == old(b).dispatchers,
        final(b).active == old(b).active + fibers,
        final(b).armed == old(b).armed,
        final(b).waiting == old(b).waiting,
{
    let mut i: usize = 0;
    while i < fibers
        invariant
            b.wf(),
            i <= fibers,
            old(b).active >= 1,
            old(b).active + fibers <= usize::MAX,
            same_queue(*old(b), *b),
            same_fanout(*old(b), *b),
            same_counter(*old(b), *b),
            b.dispatchers == old(b).dispatchers,
            b.active == old(b).active + i,
            b.armed == old(b).armed,
            b.waiting == old(b).waiting,
        decreases fibers - i,
    {
        b.try_clone_executor();
        i = i + 1;
    }
}

/// The clean-shutdown drain, as the driver's join observes it: once every
/// dispatcher is gone, the scheduler pops the tasks still queued into the
/// fan-out in batches, observes the closed queue, closes the fan-out, and
/// the workers run what was fanned out and exit.  The function returns the
/// number of tasks the workers still ran.
///
/// Its contract is the clean-shutdown guarantee: the loops terminate, every
/// task ever accepted has then been handed to a worker — in-flight tasks
/// drain normally, none is dropped — and both queues end empty with the
/// fan-out closed, so every fiber exits.
pub fn join_drain(b: &mut Bridge, max_batch: usize) -> (ran: usize)
    requires
        old(b).wf(),
        old(b).dispatchers == 0,
        old(b).active >= 1,
        old(b).fanout_open,
        max_batch >= 1,
        old(b).armed < usize::MAX,
        old(b).queue@.len() + old(b).fanout@.len() <= usize::MAX,
    ensures
        final(b).wf(),
        final(b).queue@.len() == 0,
        final(b).fanout@.len() == 0,
        !final(b).fanout_open,
        final(b).next_id == old(b).next_id,
        final(b).executed@ == ids_below(final(b).next_id),
        ran == old(b).queue@.len() + old(b).fanout@.len(),
{
    loop
        invariant
            b.wf(),
            b.dispatchers == 0,
            b.active >= 1,
            b.armed < usize::MAX,
            b.fanout_open,
            max_batch >= 1,
            b.next_id == old(b).next_id,
            b.queue@.len() + b.fanout@.len() == old(b).queue@.len() + old(b).fanout@.len(),
        ensures
            b.wf(),
            b.queue@.len() == 0,
            b.dispatchers == 0,
            b.active >= 1,
            b.fanout_open,
            b.next_id == old(b).next_id,
            b.fanout@.len() == old(b).queue@.len() + old(b).fanout@.len(),
        decreases b.queue@.len(),
    {
        let step = b.scheduler_step(max_batch);
        match step {
            SchedulerStep::Dispatched { .. } => {},
            SchedulerStep::Shutdown => {
                break ;
            },
            SchedulerStep::Empty => {
                proof {
                    assert(false);
                }
            },
        }
    }
    b.close_fanout();
    let mut ran: usize = 0;
    loop
        invariant
            b.wf(),
            b.dispatchers == 0,
            b.queue@.len() == 0,
            !b.fanout_open,
            b.next_id == old(b).next_id,
            ran + b.fanout@.len() == old(b).queue@.len() + old(b).fanout@.len(),
            old(b).queue@.len() + old(b).fanout@.len() <= usize::MAX,
        ensures
            b.wf(),
            b.queue@.len() == 0,
            b.fanout@.len() == 0,
            !b.fanout_open,
            b.next_id == old(b).next_id,
            ran == old(b).queue@.len() + old(b).fanout@.len(),
        decreases b.fanout@.len(),
    {
        let fetched = b.worker_fetch();
        match fetched {
            WorkerFetch::Run(_) => {
                ran = ran + 1;
            },
            WorkerFetch::Exit => {
                break ;
            },
            WorkerFetch::Standby => {
                proof {
                    assert(false);
                }
            },
        }
    }
    proof {
        assert(b.executed@ =~= ids_below(b.next_id));
    }
    ran
}

/// The drain-fiber loop rule: a task that found its caller's reply inbox
/// gone is skipped silently and the fiber keeps draining; only a closed and
/// drained task queue ends the loop.
pub fn drain_loop_continues(r: &Result<(), ExecError>) -> (cont: bool)
    ensures
        cont <==> !(r == Err::<(), ExecError>(ExecError::TaskChannelRecvError)),
{
    match r {
        Ok(()) => true,
        Err(ExecError::ResultChannelSendError) => true,
        Err(ExecError::TaskChannelRecvError) => false,
    }
}

/// The scheduler's verdict on a failed batch pop: a closed, drained task
/// queue begins the graceful shutdown; any other failure is fatal to the
/// pool.
pub fn scheduler_is_graceful(e: &ExecError) -> (graceful: bool)
    ensures
        graceful <==> *e == ExecError::TaskChannelRecvError,
{
    match e {
        ExecError::TaskChannelRecvError => true,
        ExecError::ResultChannelSendError => false,
    }
}

} // verus!
