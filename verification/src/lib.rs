//! A verified model of a half-sync/half-async task-dispatch bridge.
//!
//! The bridge couples a preemptive asynchronous runtime, where user code
//! submits tasks, to a cooperative single-threaded fiber runtime that owns a
//! stateful host context and drains the tasks.  This crate holds the verified
//! core of that machinery: the bounded FIFO task queue, the kernel counter
//! used for cross-thread wakeups, the reply one-shot, and the decision logic
//! of the dispatch, drain and fiber-pool loops, each with an exact contract.

mod config;
mod fiber_pool;
mod notify;
mod reply;
mod txapi;

pub use config::ModuleConfig;
pub use config::RuntimeConfig;
pub use fiber_pool::SchedulerStep;
pub use fiber_pool::WorkerFetch;
pub use fiber_pool::drain_loop_continues;
pub use fiber_pool::join_drain;
pub use fiber_pool::scheduler_is_graceful;
pub use fiber_pool::start_drainers;
pub use notify::COUNTER_MAX;
pub use notify::WakeCounter;
pub use reply::ReplyOneShot;
pub use txapi::Bridge;
pub use txapi::CallError;
pub use txapi::ExecCycle;
pub use txapi::ExecError;
pub use txapi::PollOutcome;
pub use txapi::SubmitOutcome;
pub use txapi::channel;
pub use txapi::complete_call;
pub use txapi::ids_below;
pub use txapi::lemma_at_most_once;
pub use txapi::lemma_bounded_capacity;
pub use txapi::lemma_fifo_execution;
pub use txapi::lemma_no_lost_wakeup;
pub use txapi::run_task;
pub use txapi::should_notify;
