//! The listener lifecycle guard: process-wide single-instance control that
//! ensures at most one capture loop is ever active.
//!
//! The guard is the decision core alone. The caller holds it behind one
//! process-wide synchronized cell, performs the spawn it asks for, and routes
//! the capture loop's termination back into `on_hook_failure`; that keeps the
//! check-and-set of the listening flag a single atomic step.

use vstd::prelude::*;

verus! {

/// What a start request asks the caller to do.
#[derive(Debug, Clone, Copy, PartialEq, Eq, Structural)]
pub enum StartOutcome {
    /// The guard transitioned from idle to listening: spawn exactly one
    /// background capture loop now.
    SpawnCaptureLoop,
    /// A capture loop is already active: idempotent success, spawn nothing.
    AlreadyListening,
}

/// The process-wide listening state. `true` while a capture loop is active;
/// mutated only by a start request and by the capture loop's termination
/// path.
#[derive(Debug, Clone, Copy, PartialEq, Eq, Structural)]
pub struct ListenerGuard {
    listening: bool,
}

impl ListenerGuard {
    /// True while a capture loop is active.
    pub closed spec fn is_active(self) -> bool {
        self.listening
    }

    /// The outcome a start request returns in this state.
    pub closed spec fn start_outcome(self) -> StartOutcome {
        if self.listening {
            StartOutcome::AlreadyListening
        } else {
            StartOutcome::SpawnCaptureLoop
        }
    }

    /// The state after a start request: listening, whichever state it began
    /// in.
    pub closed spec fn after_start(self) -> ListenerGuard {
        ListenerGuard { listening: true }
    }

    /// The state after the capture loop reports that the hook subscription
    /// terminated: idle again.
    pub closed spec fn after_hook_failure(self) -> ListenerGuard {
        ListenerGuard { listening: false }
    }

    /// A fresh guard: no capture loop active.
    pub fn new() -> (g: ListenerGuard)
        ensures
            !g.is_active(),
    {
        ListenerGuard { listening: false }
    }

    /// Request to start listening. Idempotent: when a loop is already active
    /// the state is left unchanged and nothing is spawned; otherwise the
    /// guard transitions to listening and asks for exactly one capture loop.
    /// Either outcome is success — the request itself cannot fail.
    pub fn start_listening(&mut self) -> (outcome: StartOutcome)
        ensures
            outcome == old(self).start_outcome(),
            *final(self) == old(self).after_start(),
            final(self).is_active(),
            old(self).is_active() ==> outcome == StartOutcome::AlreadyListening && *final(self)
                == *old(self),
            !old(self).is_active() ==> outcome == StartOutcome::SpawnCaptureLoop,
    {
        if self.listening {
            StartOutcome::AlreadyListening
        } else {
            self.listening = true;
            StartOutcome::SpawnCaptureLoop
        }
    }

    /// The capture loop's termination path: the hook subscription failed (at
    /// installation or mid-stream), so the guard returns to idle. This is the
    /// only way back to "not listening".
    pub fn on_hook_failure(&mut self)
        ensures
            *final(self) == old(self).after_hook_failure(),
            !final(self).is_active(),
    {
        self.listening = false;
    }

    /// Read the listening flag.
    pub fn is_listening(&self) -> (active: bool)
        ensures
            active == self.is_active(),
    {
        self.listening
    }
}

/// Idempotence law: from an idle guard, two successive start requests spawn
/// exactly one capture loop — the first transitions to listening and asks for
/// the spawn, the second reports already-listening and changes nothing.
pub proof fn lemma_start_idempotent(g: ListenerGuard)
    requires
        !g.is_active(),
    ensures
        g.start_outcome() == StartOutcome::SpawnCaptureLoop,
        g.after_start().is_active(),
        g.after_start().start_outcome() == StartOutcome::AlreadyListening,
        g.after_start().after_start() == g.after_start(),
{
}

/// Recovery law: after a hook failure the guard is idle, and a subsequent
/// start request spawns a new capture loop.
pub proof fn lemma_recovery_after_failure(g: ListenerGuard)
    ensures
        !g.after_hook_failure().is_active(),
        g.after_hook_failure().start_outcome() == StartOutcome::SpawnCaptureLoop,
{
}

} // verus!
