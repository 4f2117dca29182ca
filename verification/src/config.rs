//! Tuning knobs of the bridge: queue capacity, fiber count, batch size,
//! cooperative-wait timeouts, and the flavor of the asynchronous runtime.
//!
//! Timeouts are held as whole milliseconds so that the configuration can be
//! reasoned about exactly; the unverified edge converts them to the
//! fractional seconds the host's wait primitive expects.

use vstd::prelude::*;

verus! {

/// The flavor of the asynchronous runtime driving the module thread: a
/// single-threaded runtime, or a multi-threaded one with an optional worker
/// thread count (the runtime picks its own default when none is given).
#[derive(Clone, Copy, Debug)]
pub enum RuntimeConfig {
    CurrentThread,
    MultiThread { thread_count: Option<usize> },
}

impl RuntimeConfig {
    /// True for the single-threaded runtime flavor.
    pub fn is_current_thread(&self) -> (r: bool)
        ensures
            r <==> self is CurrentThread,
    {
        match self {
            RuntimeConfig::CurrentThread => true,
            RuntimeConfig::MultiThread { .. } => false,
        }
    }

    /// The explicitly configured worker thread count, if any.  `None` both
    /// for the single-threaded flavor and for a multi-threaded runtime that
    /// was left to pick its own worker count.
    pub fn configured_thread_count(&self) -> (r: Option<usize>)
        ensures
            match self {
                RuntimeConfig::CurrentThread => r is None,
                RuntimeConfig::MultiThread { thread_count } => r == thread_count,
            },
    {
        match self {
            RuntimeConfig::CurrentThread => None,
            RuntimeConfig::MultiThread { thread_count } => *thread_count,
        }
    }
}

impl Default for RuntimeConfig {
    /// The default runtime flavor: multi-threaded, with the worker count left
    /// to the runtime.
    fn default() -> (r: Self)
        ensures
            r == (RuntimeConfig::MultiThread { thread_count: None::<usize> }),
    {
        RuntimeConfig::MultiThread { thread_count: None }
    }
}

/// Configuration of the bridge.
#[derive(Clone, Copy, Debug)]
pub struct ModuleConfig {
    /// Capacity of the task queue, in tasks.
    pub buffer: usize,
    /// Number of cooperative worker fibers draining the fan-out queue.
    pub fibers: usize,
    /// Upper bound on tasks dequeued per scheduler cycle.
    pub max_batch: usize,
    /// Milliseconds a cooperative file-descriptor wait blocks before the
    /// drain loop re-checks the queue.
    pub coio_timeout_ms: u64,
    /// Milliseconds a worker fiber waits on the fan-out condition before
    /// re-checking.
    pub fiber_standby_timeout_ms: u64,
    /// Flavor of the asynchronous runtime in the module thread.
    pub runtime: RuntimeConfig,
}

impl ModuleConfig {
    /// A configuration the bridge can actually be built from: the queue must
    /// be able to hold a task, and at least one fiber must drain it.
    pub open spec fn wf(&self) -> bool {
        &&& self.buffer >= 1
        &&& self.fibers >= 1
        &&& self.max_batch >= 1
    }
}

impl Default for ModuleConfig {
    /// The default tuning: a 128-task queue drained by 16 fibers in batches
    /// of at most 16, with a 100 ms cooperative wait and a 1 s worker
    /// standby.
    fn default() -> (r: Self)
        ensures
            r.buffer == 128,
            r.fibers == 16,
            r.max_batch == 16,
            r.coio_timeout_ms == 100,
            r.fiber_standby_timeout_ms == 1000,
            r.runtime == (RuntimeConfig::MultiThread { thread_count: None::<usize> }),
            r.wf(),
    {
        Self {
            buffer: 128,
            fibers: 16,
            max_batch: 16,
            coio_timeout_ms: 100,
            fiber_standby_timeout_ms: 1000,
            runtime: RuntimeConfig::default(),
        }
    }
}

} // verus!
