//! The throttle filter: a stateful rate limiter that caps the mouse-move
//! event rate by dropping moves that arrive before a minimum interval has
//! elapsed since the last accepted one.

use vstd::prelude::*;

verus! {

/// The fixed minimum interval, in milliseconds, between two accepted
/// mouse-move events. Caps the forwarded rate at roughly 33 per second.
pub const DEFAULT_THROTTLE_MS: u64 = 30;

/// Rate limiter for mouse-move events. It keeps the timestamp of the last accepted
/// move and lets an event through exactly when at least `threshold_ms`
/// milliseconds have elapsed since then. A pure rate limiter, not a debounce:
/// the first event of each window passes, the rest of the window is dropped
/// and never queued or coalesced.
///
/// Timestamps are milliseconds on a monotonic clock with an arbitrary origin,
/// scoped to one capture-loop instance.
#[derive(Debug, Clone, Copy, PartialEq, Eq, Structural)]
pub struct ThrottleFilter {
    /// Time of the last accepted mouse move; initially the loop-start time.
    pub last_accepted_ms: u64,
    /// The fixed minimum interval between accepted moves.
    pub threshold_ms: u64,
}

impl ThrottleFilter {
    /// An event at `now_ms` is let through exactly when a full threshold
    /// interval has elapsed since the last accepted one, equality included.
    pub open spec fn accepts(self, now_ms: u64) -> bool {
        now_ms - self.last_accepted_ms >= self.threshold_ms
    }

    /// The filter state after gating an event at `now_ms`: the last-accepted
    /// time advances to `now_ms` when the event passes, and stays put when it
    /// is dropped.
    pub open spec fn after_accept(self, now_ms: u64) -> ThrottleFilter {
        if self.accepts(now_ms) {
            ThrottleFilter { last_accepted_ms: now_ms, threshold_ms: self.threshold_ms }
        } else {
            self
        }
    }

    /// A fresh filter, started at `start_ms` so that the first mouse move
    /// within one threshold of loop start is dropped.
    pub fn new(start_ms: u64, threshold_ms: u64) -> (f: ThrottleFilter)
        ensures
            f.last_accepted_ms == start_ms,
            f.threshold_ms == threshold_ms,
    {
        ThrottleFilter { last_accepted_ms: start_ms, threshold_ms }
    }

    /// Admit or drop one mouse-move event arriving at `now_ms`. Returns whether the
    /// event is to be forwarded; drops are final — the position of a dropped
    /// move is lost, not queued.
    pub fn accept(&mut self, now_ms: u64) -> (accepted: bool)
        ensures
            accepted == old(self).accepts(now_ms),
            *final(self) == old(self).after_accept(now_ms),
    {
        if now_ms >= self.last_accepted_ms && now_ms - self.last_accepted_ms >= self.threshold_ms {
            self.last_accepted_ms = now_ms;
            true
        } else {
            false
        }
    }
}

/// Boundary law: a mouse move arriving exactly one threshold interval after
/// the last accepted one is accepted — the elapsed-time comparison is
/// inclusive at the threshold.
pub proof fn lemma_boundary_accepted(f: ThrottleFilter, now_ms: u64)
    requires
        now_ms == f.last_accepted_ms + f.threshold_ms,
    ensures
        f.accepts(now_ms),
{
}

} // verus!
