//! The game state machine: two 6-bit counters, two arm-flags, and the
//! brightness index. Once per loop tick it consumes the two debounced
//! button states and either moves a counter, fires the cancel gesture,
//! cycles the brightness, re-arms, or does nothing. The arm-flags stop a
//! held button from repeat-firing: after a gesture disarms, no counter
//! moves again until both buttons are observed steady `Up` together.

use vstd::prelude::*;

use crate::button::KeyState;

verus! {

/// Value a saturated counter is reset to, and the winning value.
pub const COUNTER_MAX: u8 = 63;

/// Counters, arm-flags and brightness, mutated exactly once per loop tick.
#[derive(Clone, Copy, PartialEq, Eq, Structural, Debug)]
pub struct GameState {
    /// Counter of player A, always in `[0, 63]`.
    pub a: u8,
    /// Counter of player B, always in `[0, 63]`.
    pub b: u8,
    /// Arm-flag of player A.
    pub ap: bool,
    /// Arm-flag of player B.
    pub bp: bool,
    /// Brightness index, always in `{0, 1, 2}`.
    pub brightness: u8,
}

/// Both counters saturated: the winning state.
pub open spec fn win_pair(a: u8, b: u8) -> bool {
    a == COUNTER_MAX && b == COUNTER_MAX
}

impl GameState {
    pub open spec fn wf(self) -> bool {
        self.a < 64 && self.b < 64 && self.brightness < 3
    }

    /// The value a moving counter takes: the sum of both counters,
    /// modulo 64.
    pub open spec fn spec_new_value(self) -> u8 {
        ((self.a + self.b) % 64) as u8
    }

    /// The transition table, given this tick's two button states.
    pub open spec fn spec_step(self, key_a: KeyState, key_b: KeyState) -> GameState {
        let new = self.spec_new_value();
        match (key_a, key_b) {
            (KeyState::Released, KeyState::Up) => {
                if self.ap && self.bp {
                    GameState { a: new, ..self }
                } else {
                    self
                }
            },
            (KeyState::Up, KeyState::Released) => {
                if self.ap && self.bp {
                    GameState { b: new, ..self }
                } else {
                    self
                }
            },
            (KeyState::Down, KeyState::Released) => GameState {
                ap: false,
                a: COUNTER_MAX,
                b: COUNTER_MAX,
                ..self
            },
            (KeyState::Released, KeyState::Down) => GameState {
                bp: false,
                brightness: ((self.brightness + 1) % 3) as u8,
                ..self
            },
            (KeyState::Up, KeyState::Up) => GameState { ap: true, bp: true, ..self },
            (_, _) => self,
        }
    }

    /// The boot state: both counters saturated, both players armed,
    /// middle brightness.
    pub fn new() -> (g: GameState)
        ensures
            g == (GameState { a: 63, b: 63, ap: true, bp: true, brightness: 1 }),
            g.wf(),
    {
        GameState { a: COUNTER_MAX, b: COUNTER_MAX, ap: true, bp: true, brightness: 1 }
    }

    /// `(a + b) mod 64`, the value a moving counter takes this tick.
    pub fn new_value(&self) -> (r: u8)
        requires
            self.wf(),
        ensures
            r == self.spec_new_value(),
            r < 64,
    {
        (self.a + self.b) % 64
    }

    /// Both counters saturated: the win display and the reseed follow.
    pub fn win_triggered(&self) -> (r: bool)
        ensures
            r == win_pair(self.a, self.b),
    {
        self.a == COUNTER_MAX && self.b == COUNTER_MAX
    }

    /// Consume one tick's button states.
    pub fn step(&mut self, key_a: KeyState, key_b: KeyState)
        requires
            old(self).wf(),
        ensures
            *final(self) == old(self).spec_step(key_a, key_b),
            final(self).wf(),
    {
        let new = self.new_value();
        match (key_a, key_b) {
            (KeyState::Released, KeyState::Up) => {
                if self.ap && self.bp {
                    self.a = new;
                }
            },
            (KeyState::Up, KeyState::Released) => {
                if self.ap && self.bp {
                    self.b = new;
                }
            },
            (KeyState::Down, KeyState::Released) => {
                self.ap = false;
                self.a = COUNTER_MAX;
                self.b = COUNTER_MAX;
            },
            (KeyState::Released, KeyState::Down) => {
                self.bp = false;
                self.brightness = (self.brightness + 1) % 3;
            },
            (KeyState::Up, KeyState::Up) => {
                self.ap = true;
                self.bp = true;
            },
            (_, _) => {},
        }
    }

    /// Force both arm-flags off; done on entering sleep so that waking
    /// cannot replay a gesture.
    pub fn disarm_both(&mut self)
        ensures
            *final(self) == (GameState { ap: false, bp: false, ..*old(self) }),
    {
        self.ap = false;
        self.bp = false;
    }

    /// One brightness gesture (`Released`, `Down`) advances the
    /// brightness index by exactly one step modulo 3 and moves neither
    /// counter; nothing else about the state changes but the B arm-flag.
    pub proof fn lemma_brightness_gesture(self)
        requires
            self.wf(),
        ensures
            ({
                let g = self.spec_step(KeyState::Released, KeyState::Down);
                &&& g.brightness == (self.brightness + 1) % 3
                &&& g.a == self.a
                &&& g.b == self.b
                &&& g.ap == self.ap
                &&& !g.bp
                &&& g.wf()
            }),
    {
    }

    /// The brightness index cycles 0, 1, 2 and back with no skip: three
    /// gestures return it to its starting value, and no earlier gesture
    /// does.
    pub proof fn lemma_brightness_cycle(self)
        requires
            self.wf(),
        ensures
            ({
                let g1 = self.spec_step(KeyState::Released, KeyState::Down);
                let g2 = g1.spec_step(KeyState::Released, KeyState::Down);
                let g3 = g2.spec_step(KeyState::Released, KeyState::Down);
                &&& g1.brightness != self.brightness
                &&& g2.brightness != self.brightness
                &&& g2.brightness != g1.brightness
                &&& g3.brightness == self.brightness
            }),
    {
    }
}

} // verus!
