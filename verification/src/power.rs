//! The idle-to-sleep rule. The idle clock records the time of the last
//! observed button edge; once more than the timeout has passed with no
//! edge, the loop disarms the game and hands control to the platform's
//! low-power wait, which returns only on a button wake interrupt. The
//! wait itself, the clock prescaler change around it, and the wake wiring
//! are the platform's; only the decision is made here.

use vstd::prelude::*;

verus! {

/// Idle time after which the loop enters sleep, in nanoseconds.
pub const IDLE_TIMEOUT_NS: u64 = 10_000_000_000;

/// Tracks when the last button edge was seen.
#[derive(Clone, Copy, PartialEq, Eq, Structural, Debug)]
pub struct PowerManager {
    /// Time of the last observed button edge, in nanoseconds since boot.
    pub idle_since_ns: u64,
}

impl PowerManager {
    /// The idle clock after one tick: any edge resets it to that edge's
    /// timestamp; otherwise it stands.
    pub open spec fn spec_note(self, any_edge: bool, now_ns: u64) -> PowerManager {
        if any_edge {
            PowerManager { idle_since_ns: now_ns }
        } else {
            self
        }
    }

    /// Sleep is due exactly when more than the timeout has passed since
    /// the last edge.
    pub open spec fn spec_sleep_due(self, now_ns: u64) -> bool {
        now_ns - self.idle_since_ns > IDLE_TIMEOUT_NS
    }

    /// At boot the idle clock starts at the boot time.
    pub fn new(now_ns: u64) -> (p: PowerManager)
        ensures
            p.idle_since_ns == now_ns,
    {
        PowerManager { idle_since_ns: now_ns }
    }

    /// Record whether this tick saw a button edge.
    pub fn note_activity(&mut self, any_edge: bool, now_ns: u64)
        ensures
            *final(self) == old(self).spec_note(any_edge, now_ns),
    {
        if any_edge {
            self.idle_since_ns = now_ns;
        }
    }

    /// Decide whether this tick enters sleep.
    pub fn sleep_due(&self, now_ns: u64) -> (r: bool)
        requires
            now_ns >= self.idle_since_ns,
        ensures
            r == self.spec_sleep_due(now_ns),
    {
        now_ns - self.idle_since_ns > IDLE_TIMEOUT_NS
    }

    /// Any edge restarts the idle window: after an edge at time `t`,
    /// sleep is not due at any instant up to `t` plus the timeout, and it
    /// is due at every later instant reached without a further edge.
    pub proof fn lemma_edge_restarts_window(self, t: u64, now_ns: u64)
        ensures
            now_ns <= t + IDLE_TIMEOUT_NS ==> !self.spec_note(true, t).spec_sleep_due(now_ns),
            now_ns > t + IDLE_TIMEOUT_NS ==> self.spec_note(true, t).spec_sleep_due(now_ns),
    {
    }
}

} // verus!
