//! The tick scheduler: computes each iteration's poll timeout so the loop
//! holds a steady cadence without spinning, and decides when the tick
//! timestamp advances. Time is carried as elapsed milliseconds, measured by
//! the host around the loop.

use vstd::prelude::*;

verus! {

/// The tick scheduler, fixed to one target interval.
pub struct TickScheduler {
    tick_rate_ms: u64,
}

impl TickScheduler {
    /// The target interval between ticks, in milliseconds.
    pub closed spec fn tick_rate_spec(&self) -> int {
        self.tick_rate_ms as int
    }

    /// A scheduler aiming at the given interval.
    pub fn new(tick_rate_ms: u64) -> (r: TickScheduler)
        ensures
            r.tick_rate_spec() == tick_rate_ms as int,
    {
        TickScheduler { tick_rate_ms }
    }

    /// The target interval, for the host's poll call.
    pub fn tick_rate(&self) -> (r: u64)
        ensures
            r as int == self.tick_rate_spec(),
    {
        self.tick_rate_ms
    }

    /// The next poll timeout: the time left until the target interval has
    /// passed, clamped at zero once it already has. For every elapsed time
    /// the timeout is at least zero and at most the target interval, so the
    /// loop always waits a bounded, non-negative time.
    pub fn poll_timeout(&self, elapsed_ms: u64) -> (r: u64)
        ensures
            r as int == if elapsed_ms as int >= self.tick_rate_spec() {
                0
            } else {
                self.tick_rate_spec() - elapsed_ms as int
            },
            0 <= r as int <= self.tick_rate_spec(),
    {
        if elapsed_ms >= self.tick_rate_ms {
            0
        } else {
            self.tick_rate_ms - elapsed_ms
        }
    }

    /// Whether the tick timestamp advances: only once a full interval has
    /// elapsed. Rendering is never gated by this — only the next poll
    /// timeout is.
    pub fn tick_elapsed(&self, elapsed_ms: u64) -> (r: bool)
        ensures
            r == (elapsed_ms as int >= self.tick_rate_spec()),
    {
        elapsed_ms >= self.tick_rate_ms
    }
}

} // verus!
