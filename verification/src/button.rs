//! Debounced buttons. A raw, active-low pin level is filtered into one of
//! four logical states: the steady states `Down` and `Up`, and the edge
//! states `Pressed` and `Released`. A change of level is accepted only
//! when more than the debounce window has passed since the last accepted
//! change, and every accepted change is reported as exactly one edge.

use vstd::prelude::*;

verus! {

/// Debounce window: a new level is accepted only when more than this
/// many nanoseconds have passed since the last accepted change.
pub const DEBOUNCE_NS: u64 = 50_000_000;

/// Logical state of a debounced button for one poll.
#[derive(Clone, Copy, PartialEq, Eq, Structural, Debug)]
pub enum KeyState {
    /// Steady: held down (level low).
    Down,
    /// Edge: the accepted level changed to up this poll.
    Released,
    /// Steady: not pressed (level high).
    Up,
    /// Edge: the accepted level changed to down this poll.
    Pressed,
}

impl KeyState {
    /// The two edge states are the active ones; a merely held or idle
    /// button is not active.
    pub open spec fn is_edge(self) -> bool {
        self is Released || self is Pressed
    }

    /// True exactly for the edge states `Released` and `Pressed`.
    pub fn active(&self) -> (r: bool)
        ensures
            r == self.is_edge(),
    {
        match self {
            KeyState::Down => false,
            KeyState::Released => true,
            KeyState::Up => false,
            KeyState::Pressed => true,
        }
    }
}

/// One debounced button: the last accepted stable level and the time of
/// the last accepted change. The raw pin is active-low, so a `true` level
/// here means "pressed".
pub struct Key {
    /// Last accepted stable level; `true` means the pin reads low.
    pub last: bool,
    /// Time of the last accepted change, in nanoseconds since boot.
    pub time_ns: u64,
}

impl Key {
    /// Whether a poll reading raw level `raw_low` at time `now_ns`
    /// accepts a new stable level.
    pub open spec fn accepts(self, raw_low: bool, now_ns: u64) -> bool {
        raw_low != self.last && now_ns - self.time_ns > DEBOUNCE_NS
    }

    /// The state after one poll, paired with the reported key state:
    /// an accepted change records the new level and its time and reports
    /// an edge; anything else leaves the button unchanged and reports the
    /// steady state of the stored accepted level, so a raw change inside
    /// the debounce window is collapsed into the steady state.
    pub open spec fn spec_update(self, raw_low: bool, now_ns: u64) -> (Key, KeyState) {
        if self.accepts(raw_low, now_ns) {
            (
                Key { last: raw_low, time_ns: now_ns },
                if raw_low {
                    KeyState::Pressed
                } else {
                    KeyState::Released
                },
            )
        } else {
            (
                self,
                if self.last {
                    KeyState::Down
                } else {
                    KeyState::Up
                },
            )
        }
    }

    /// A button whose initial accepted level is the level sampled at
    /// construction time.
    pub fn new(raw_low: bool, now_ns: u64) -> (k: Key)
        ensures
            k == (Key { last: raw_low, time_ns: now_ns }),
    {
        Key { last: raw_low, time_ns: now_ns }
    }

    /// One debounce poll. Time must not run backwards past the last
    /// accepted change; the caller's clock is monotone.
    pub fn update(&mut self, raw_low: bool, now_ns: u64) -> (s: KeyState)
        requires
            now_ns >= old(self).time_ns,
        ensures
            (*final(self), s) == old(self).spec_update(raw_low, now_ns),
            final(self).time_ns <= now_ns,
            s.is_edge() == old(self).accepts(raw_low, now_ns),
    {
        if self.last != raw_low && now_ns - self.time_ns > DEBOUNCE_NS {
            self.last = raw_low;
            self.time_ns = now_ns;
            if raw_low {
                KeyState::Pressed
            } else {
                KeyState::Released
            }
        } else {
            if self.last {
                KeyState::Down
            } else {
                KeyState::Up
            }
        }
    }

    /// A sustained change accepted past the debounce window yields exactly
    /// one edge: the accepting poll reports the edge matching the new
    /// level, and every later poll of the same raw level reports only the
    /// corresponding steady state and changes nothing.
    pub proof fn lemma_debounce_single_edge(self, raw_low: bool, t1: u64, t2: u64)
        requires
            self.accepts(raw_low, t1),
        ensures
            ({
                let (k1, s1) = self.spec_update(raw_low, t1);
                let (k2, s2) = k1.spec_update(raw_low, t2);
                &&& s1 == (if raw_low { KeyState::Pressed } else { KeyState::Released })
                &&& s1.is_edge()
                &&& k2 == k1
                &&& s2 == (if raw_low { KeyState::Down } else { KeyState::Up })
                &&& !s2.is_edge()
            }),
    {
    }

    /// A change observed within the debounce window of the last accepted
    /// change is suppressed: no edge is reported and the report collapses
    /// into the stored level's steady state, so a glitch narrower than
    /// the window that has reverted by the next poll leaves no trace at
    /// all.
    pub proof fn lemma_debounce_suppresses(self, t1: u64, t2: u64)
        requires
            t1 - self.time_ns <= DEBOUNCE_NS,
        ensures
            ({
                let (k1, s1) = self.spec_update(!self.last, t1);
                let (k2, s2) = k1.spec_update(self.last, t2);
                &&& k1 == self
                &&& s1 == (if self.last { KeyState::Down } else { KeyState::Up })
                &&& !s1.is_edge()
                &&& k2 == self
                &&& s2 == (if self.last { KeyState::Down } else { KeyState::Up })
                &&& !s2.is_edge()
            }),
    {
    }
}

} // verus!
