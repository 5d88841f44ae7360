//! One iteration of the control loop, in the fixed order: time update,
//! button sampling, game update, power check, then either sleep or the
//! win strobe and the refresh frame. The caller owns the hardware: it
//! reads the raw tick counter and the two raw pin levels before each
//! step, and afterwards runs the returned plan on the pins, or lowers the
//! clock and issues the platform's low-power wait when the step says
//! sleep — waking on a button interrupt and restoring the clock.

use vstd::prelude::*;

use rand::rngs::SmallRng;

use crate::button::Key;
use crate::charlie::{frame_plan, frame_seq, Cmd};
use crate::game::{win_pair, GameState};
use crate::power::PowerManager;
use crate::shuffle::{needs_reseed, reseed, rng_from_seed};
use crate::timebase::TimeBase;

verus! {

/// The generator's boot seed: fixed, so behaviour repeats across power
/// cycles by design.
pub const RNG_SEED: u64 = 0;

/// What the caller must do after one step.
pub enum Action {
    /// Idle timed out: lower the core clock, issue the platform's
    /// low-power wait, and restore the clock on the button wake
    /// interrupt. No display runs this iteration.
    Sleep,
    /// Run the win strobe first when `strobe` is set — buttons are not
    /// sampled while it plays — then run the refresh frame.
    Show { strobe: bool, frame: Vec<Cmd> },
}

/// All state the loop threads through its iterations.
pub struct Controller {
    pub time: TimeBase,
    pub key_a: Key,
    pub key_b: Key,
    pub game: GameState,
    pub power: PowerManager,
    pub rng: SmallRng,
}

impl Controller {
    /// The loop's invariant: the time base and game are well formed, and
    /// no recorded timestamp lies in the future of the elapsed clock.
    pub open spec fn wf(self) -> bool {
        &&& self.time.wf()
        &&& self.game.wf()
        &&& self.key_a.time_ns <= self.time.elapsed_ns
        &&& self.key_b.time_ns <= self.time.elapsed_ns
        &&& self.power.idle_since_ns <= self.time.elapsed_ns
    }

    /// Boot: credit the time already on the free-running counter, sample
    /// both buttons' initial levels, start the game saturated and armed,
    /// and seed the generator with the fixed constant.
    pub fn new(hz: u32, raw: u32, a_low: bool, b_low: bool) -> (c: Controller)
        requires
            hz > 0,
        ensures
            c.wf(),
            c.time.hz == hz,
            c.time.last_raw == raw,
            c.time.elapsed_ns == TimeBase::spec_ticks_to_ns(raw, hz),
            c.key_a == (Key { last: a_low, time_ns: c.time.elapsed_ns }),
            c.key_b == (Key { last: b_low, time_ns: c.time.elapsed_ns }),
            c.game == (GameState { a: 63, b: 63, ap: true, bp: true, brightness: 1 }),
            c.power.idle_since_ns == c.time.elapsed_ns,
    {
        let time = TimeBase::new(hz, raw);
        let now = time.elapsed_ns;
        Controller {
            time,
            key_a: Key::new(a_low, now),
            key_b: Key::new(b_low, now),
            game: GameState::new(),
            power: PowerManager::new(now),
            rng: rng_from_seed(RNG_SEED),
        }
    }

    /// One loop iteration, given this tick's raw counter reading and the
    /// two raw active-low button levels.
    pub fn step(&mut self, raw: u32, a_low: bool, b_low: bool) -> (act: Action)
        requires
            old(self).wf(),
        ensures
            final(self).wf(),
            ({
                let t1 = old(self).time.spec_tick(raw);
                let now = t1.elapsed_ns;
                let (ka_key, ka) = old(self).key_a.spec_update(a_low, now);
                let (kb_key, kb) = old(self).key_b.spec_update(b_low, now);
                let g1 = old(self).game.spec_step(ka, kb);
                let p1 = old(self).power.spec_note(ka.is_edge() || kb.is_edge(), now);
                let sleeping = p1.spec_sleep_due(now);
                &&& final(self).time == t1
                &&& final(self).key_a == ka_key
                &&& final(self).key_b == kb_key
                &&& final(self).power == p1
                &&& (act is Sleep <==> sleeping)
                &&& (sleeping ==> final(self).game == (GameState { ap: false, bp: false, ..g1 }))
                &&& (!sleeping ==> {
                    &&& (act matches Action::Show { strobe, frame } ==> {
                        &&& strobe == win_pair(g1.a, g1.b)
                        &&& frame@ == frame_seq(
                            final(self).game.a,
                            final(self).game.b,
                            final(self).game.brightness,
                        )
                    })
                    &&& !needs_reseed(final(self).game.a, final(self).game.b)
                    &&& !win_pair(final(self).game.a, final(self).game.b)
                    &&& (!needs_reseed(g1.a, g1.b) ==> final(self).game == g1)
                    &&& final(self).game.ap == g1.ap
                    &&& final(self).game.bp == g1.bp
                    &&& final(self).game.brightness == g1.brightness
                })
            }),
    {
        let now = self.time.tick(raw);
        let key_a = self.key_a.update(a_low, now);
        let key_b = self.key_b.update(b_low, now);

        self.game.step(key_a, key_b);

        let any_edge = key_a.active() || key_b.active();
        self.power.note_activity(any_edge, now);

        if self.power.sleep_due(now) {
            self.game.disarm_both();
            return Action::Sleep;
        }

        let strobe = self.game.win_triggered();

        let (na, nb) = reseed(&mut self.rng, self.game.a, self.game.b);
        self.game.a = na;
        self.game.b = nb;

        let frame = frame_plan(self.game.a, self.game.b, self.game.brightness);
        Action::Show { strobe, frame }
    }
}

} // verus!
