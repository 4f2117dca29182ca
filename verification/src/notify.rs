//! A verified model of the wakeup primitive: a kernel-backed 64-bit counter
//! file descriptor shared between the asynchronous producers and the
//! cooperative consumers.
//!
//! Writing adds to the counter and is refused (would block) only when the sum
//! would exceed the counter's maximum; reading returns the accumulated count
//! and resets it to zero, or is refused when the counter is zero.  With the
//! semaphore flag, reading instead hands out one unit at a time.  The
//! unverified edge owns the actual descriptor and performs the syscalls; this
//! type states exactly what those calls do to the counter value.

use vstd::prelude::*;

verus! {

/// The largest value the kernel counter can hold; a write that would push the
/// counter past this limit is refused.
pub const COUNTER_MAX: u64 = 0xffff_ffff_ffff_fffe;

/// The state of one wakeup counter: its accumulated value and whether it was
/// created with semaphore semantics.
pub struct WakeCounter {
    count: u64,
    semaphore: bool,
}

impl WakeCounter {
    /// The accumulated count not yet consumed by a reader.
    pub closed spec fn pending(&self) -> u64 {
        self.count
    }

    /// Whether the counter hands out one unit per read.
    pub closed spec fn is_semaphore(&self) -> bool {
        self.semaphore
    }

    /// A counter value the kernel can actually hold.
    pub open spec fn wf(&self) -> bool {
        self.pending() <= COUNTER_MAX
    }

    /// Create a counter with an initial value.
    pub fn new(init: u32, is_semaphore: bool) -> (c: Self)
        ensures
            c.pending() == init,
            c.is_semaphore() == is_semaphore,
            c.wf(),
    {
        WakeCounter { count: init as u64, semaphore: is_semaphore }
    }

    /// A non-blocking write: add `val` to the counter.  Returns false exactly
    /// when the addition would push the counter past its maximum, in which
    /// case the counter is unchanged (the caller would block or sees a
    /// would-block error).
    pub fn notify(&mut self, val: u64) -> (accepted: bool)
        requires
            old(self).wf(),
            val <= COUNTER_MAX,
        ensures
            final(self).wf(),
            final(self).is_semaphore() == old(self).is_semaphore(),
            accepted <==> old(self).pending() + val <= COUNTER_MAX,
            accepted ==> final(self).pending() == old(self).pending() + val,
            !accepted ==> final(self).pending() == old(self).pending(),
    {
        if val <= COUNTER_MAX - self.count {
            self.count = self.count + val;
            true
        } else {
            false
        }
    }

    /// A non-blocking read.  Returns `None` exactly when the counter is zero
    /// (the caller would block or sees a would-block error).  Otherwise, in
    /// counting mode the whole accumulated value is returned and the counter
    /// resets to zero; in semaphore mode one unit is returned and the counter
    /// decreases by one.
    pub fn notified(&mut self) -> (r: Option<u64>)
        requires
            old(self).wf(),
        ensures
            final(self).wf(),
            final(self).is_semaphore() == old(self).is_semaphore(),
            r is None <==> old(self).pending() == 0,
            r is None ==> final(self).pending() == old(self).pending(),
            r is Some && !old(self).is_semaphore() ==> r == Some(old(self).pending())
                && final(self).pending() == 0,
            r is Some && old(self).is_semaphore() ==> r == Some(1u64)
                && final(self).pending() == old(self).pending() - 1,
    {
        if self.count == 0 {
            None
        } else if self.semaphore {
            self.count = self.count - 1;
            Some(1)
        } else {
            let v = self.count;
            self.count = 0;
            Some(v)
        }
    }
}

} // verus!
