//! Charlieplex drive planning. Four pins address twelve LEDs: each LED
//! sits between an ordered pair of pins and lights when that pair is
//! driven (high, low) while every other pin floats. A refresh frame is a
//! fixed sequence of twelve slots — six for counter A's bits, six for
//! counter B's — each held for the same dwell whether or not its LED is
//! lit, so the frame period never depends on the displayed value. The win
//! display is a strobe of the same twelve slots, all-on and all-off in
//! alternating groups. Plans are sequences of commands; `LedArray` is the
//! four-pin array they run on, and its contracts carry the electrical
//! invariant: at most one (high, low) pair drives at any instant.

use vstd::prelude::*;

use crate::pins::{DynamicPin, PinLevel};

verus! {

/// Slots in one refresh frame: one per LED.
pub const FRAME_SLOTS: usize = 12;

/// Dwell of one slot, in microseconds.
pub const SLOT_DWELL_US: u32 = 1;

/// Pause after each strobe sub-frame, in microseconds.
pub const STROBE_GAP_US: u32 = 250;

/// All-on/all-off repetitions of the win strobe.
pub const STROBE_REPS: usize = 10;

/// Sub-frames per strobe repetition.
pub const STROBE_SUBFRAMES: usize = 100;

/// Sub-frames in the whole win strobe.
pub const WIN_BLOCKS: usize = STROBE_REPS * STROBE_SUBFRAMES;

/// One step of a drive plan.
#[derive(Clone, Copy, PartialEq, Eq, Structural, Debug)]
pub enum Cmd {
    /// One slot: when `on`, drive pin `high` high and pin `low` low for
    /// the slot dwell (`SLOT_DWELL_US`), then release both; when off,
    /// only hold the dwell, keeping the frame period independent of the
    /// content.
    Light { high: u8, low: u8, on: bool },
    /// Pause for the given number of microseconds.
    Wait { us: u32 },
}

/// The high pin of slot `i` of a frame.
pub open spec fn slot_high(i: int) -> u8 {
    if i == 0 {
        0
    } else if i == 1 {
        1
    } else if i == 2 {
        1
    } else if i == 3 {
        2
    } else if i == 4 {
        2
    } else if i == 5 {
        3
    } else if i == 6 {
        0
    } else if i == 7 {
        2
    } else if i == 8 {
        1
    } else if i == 9 {
        3
    } else if i == 10 {
        0
    } else {
        3
    }
}

/// The low pin of slot `i` of a frame.
pub open spec fn slot_low(i: int) -> u8 {
    if i == 0 {
        1
    } else if i == 1 {
        0
    } else if i == 2 {
        2
    } else if i == 3 {
        1
    } else if i == 4 {
        3
    } else if i == 5 {
        2
    } else if i == 6 {
        2
    } else if i == 7 {
        0
    } else if i == 8 {
        3
    } else if i == 9 {
        1
    } else if i == 10 {
        3
    } else {
        0
    }
}

/// The counter bit shown by slot `i` of either half of a frame, as a
/// mask: the halves run from the top bit down to the lowest.
pub open spec fn slot_mask(i: int) -> u8 {
    if i == 0 {
        0x20
    } else if i == 1 {
        0x10
    } else if i == 2 {
        0x08
    } else if i == 3 {
        0x04
    } else if i == 4 {
        0x02
    } else {
        0x01
    }
}

/// Whether slot `i` of a frame showing counters `a` and `b` is lit:
/// the first six slots show `a`'s bits, the last six `b`'s.
pub open spec fn frame_on(a: u8, b: u8, i: int) -> bool {
    if i < 6 {
        a & slot_mask(i) != 0
    } else {
        b & slot_mask(i - 6) != 0
    }
}

/// Inter-frame pause for each brightness index, in microseconds.
pub open spec fn spec_brightness_delay(brightness: u8) -> u32 {
    if brightness == 0 {
        20_000
    } else if brightness == 1 {
        1_000
    } else {
        0
    }
}

/// One refresh frame: the twelve slots for counters `a` and `b`,
/// followed by the brightness pause.
pub open spec fn frame_seq(a: u8, b: u8, brightness: u8) -> Seq<Cmd> {
    Seq::new(
        13,
        |i: int|
            if i < 12 {
                Cmd::Light { high: slot_high(i), low: slot_low(i), on: frame_on(a, b, i) }
            } else {
                Cmd::Wait { us: spec_brightness_delay(brightness) }
            },
    )
}

/// One strobe sub-frame: all twelve slots at the same on/off phase,
/// followed by the strobe gap.
pub open spec fn block_seq(on: bool) -> Seq<Cmd> {
    Seq::new(
        13,
        |i: int|
            if i < 12 {
                Cmd::Light { high: slot_high(i), low: slot_low(i), on: on }
            } else {
                Cmd::Wait { us: STROBE_GAP_US }
            },
    )
}

/// Phase of strobe sub-frame `k`: each repetition holds one phase for
/// `STROBE_SUBFRAMES` sub-frames, and odd repetitions are the lit ones.
pub open spec fn block_on(k: int) -> bool {
    (k / (STROBE_SUBFRAMES as int)) % 2 == 1
}

/// The first `k` sub-frames of the win strobe, concatenated.
pub open spec fn win_blocks(k: nat) -> Seq<Cmd>
    decreases k,
{
    if k == 0 {
        Seq::empty()
    } else {
        win_blocks((k - 1) as nat) + block_seq(block_on(k - 1))
    }
}

/// The whole win strobe.
pub open spec fn win_seq() -> Seq<Cmd> {
    win_blocks(WIN_BLOCKS as nat)
}

/// A command the four-pin array can run: a slot's pins are two distinct
/// pins of the array.
pub open spec fn cmd_ok(c: Cmd) -> bool {
    match c {
        Cmd::Light { high, low, on } => high < 4 && low < 4 && high != low,
        Cmd::Wait { us } => true,
    }
}

/// Every command of the plan is runnable.
pub open spec fn plan_ok(s: Seq<Cmd>) -> bool {
    forall|i: int| 0 <= i < s.len() ==> cmd_ok(#[trigger] s[i])
}

/// The pair a command energizes: a lit slot's pair, nothing for an unlit
/// slot or a pause.
pub open spec fn cmd_lit(c: Cmd) -> Seq<(u8, u8)> {
    match c {
        Cmd::Light { high, low, on } => if on {
            seq![(high, low)]
        } else {
            Seq::empty()
        },
        Cmd::Wait { us } => Seq::empty(),
    }
}

/// The pairs a whole plan energizes, in order.
pub open spec fn plan_lit(s: Seq<Cmd>) -> Seq<(u8, u8)>
    decreases s.len(),
{
    if s.len() == 0 {
        Seq::empty()
    } else {
        plan_lit(s.drop_last()) + cmd_lit(s.last())
    }
}

/// Running one more command of a plan energizes exactly that command's
/// pairs on top of the prefix's.
proof fn lemma_plan_lit_step(s: Seq<Cmd>, i: int)
    requires
        0 <= i < s.len(),
    ensures
        plan_lit(s.take(i + 1)) == plan_lit(s.take(i)) + cmd_lit(s[i]),
{
    assert(s.take(i + 1).drop_last() =~= s.take(i));
    assert(s.take(i + 1).last() == s[i]);
}

/// The pin pair of slot `i`.
fn slot_pair(i: usize) -> (r: (u8, u8))
    requires
        i < 12,
    ensures
        r.0 == slot_high(i as int),
        r.1 == slot_low(i as int),
{
    if i == 0 {
        (0, 1)
    } else if i == 1 {
        (1, 0)
    } else if i == 2 {
        (1, 2)
    } else if i == 3 {
        (2, 1)
    } else if i == 4 {
        (2, 3)
    } else if i == 5 {
        (3, 2)
    } else if i == 6 {
        (0, 2)
    } else if i == 7 {
        (2, 0)
    } else if i == 8 {
        (1, 3)
    } else if i == 9 {
        (3, 1)
    } else if i == 10 {
        (0, 3)
    } else {
        (3, 0)
    }
}

/// The bit mask of slot `i` of either frame half.
fn mask_at(i: usize) -> (r: u8)
    requires
        i < 6,
    ensures
        r == slot_mask(i as int),
{
    if i == 0 {
        0x20
    } else if i == 1 {
        0x10
    } else if i == 2 {
        0x08
    } else if i == 3 {
        0x04
    } else if i == 4 {
        0x02
    } else {
        0x01
    }
}

/// The inter-frame pause selected by the brightness index.
pub fn brightness_delay_us(brightness: u8) -> (r: u32)
    requires
        brightness < 3,
    ensures
        r == spec_brightness_delay(brightness),
{
    if brightness == 0 {
        20_000
    } else if brightness == 1 {
        1_000
    } else {
        0
    }
}

/// Plan one refresh frame for the given counters and brightness.
pub fn frame_plan(a: u8, b: u8, brightness: u8) -> (plan: Vec<Cmd>)
    requires
        brightness < 3,
    ensures
        plan@ == frame_seq(a, b, brightness),
{
    let mut plan: Vec<Cmd> = Vec::new();
    let mut i: usize = 0;
    while i < FRAME_SLOTS
        invariant
            i <= 12,
            plan@.len() == i,
            forall|j: int| 0 <= j < i ==> plan@[j] == frame_seq(a, b, brightness)[j],
        decreases 12 - i,
    {
        let (high, low) = slot_pair(i);
        let on = if i < 6 {
            a & mask_at(i) != 0
        } else {
            b & mask_at(i - 6) != 0
        };
        plan.push(Cmd::Light { high, low, on });
        i = i + 1;
    }
    plan.push(Cmd::Wait { us: brightness_delay_us(brightness) });
    assert(plan@ =~= frame_seq(a, b, brightness));
    plan
}

/// Plan one strobe sub-frame at the given phase.
fn block_plan(on: bool) -> (plan: Vec<Cmd>)
    ensures
        plan@ == block_seq(on),
{
    let mut plan: Vec<Cmd> = Vec::new();
    let mut i: usize = 0;
    while i < FRAME_SLOTS
        invariant
            i <= 12,
            plan@.len() == i,
            forall|j: int| 0 <= j < i ==> plan@[j] == block_seq(on)[j],
        decreases 12 - i,
    {
        let (high, low) = slot_pair(i);
        plan.push(Cmd::Light { high, low, on });
        i = i + 1;
    }
    plan.push(Cmd::Wait { us: STROBE_GAP_US });
    assert(plan@ =~= block_seq(on));
    plan
}

/// Plan the whole win strobe: `STROBE_REPS` repetitions of
/// `STROBE_SUBFRAMES` sub-frames each, alternating all-off and all-on.
pub fn win_plan() -> (plan: Vec<Cmd>)
    ensures
        plan@ == win_seq(),
{
    let mut plan: Vec<Cmd> = Vec::new();
    let mut k: usize = 0;
    while k < WIN_BLOCKS
        invariant
            k <= WIN_BLOCKS,
            plan@ == win_blocks(k as nat),
        decreases WIN_BLOCKS - k,
    {
        let on = (k / STROBE_SUBFRAMES) % 2 == 1;
        let mut blk = block_plan(on);
        plan.append(&mut blk);
        k = k + 1;
    }
    plan
}

/// The twelve slots of a frame address twelve distinct LEDs: no two
/// slots drive the same ordered (high, low) pin pair, so with four pins
/// the frame covers every LED of the array exactly once.
pub proof fn lemma_slots_are_distinct_leds()
    ensures
        forall|i: int, j: int|
            #![trigger slot_high(i), slot_high(j)]
            0 <= i < 12 && 0 <= j < 12 && i != j ==> !(slot_high(i) == slot_high(j) && slot_low(i)
                == slot_low(j)),
{
}

/// Every slot of a frame drives a valid pair, so a frame plan runs on a
/// floating array.
pub proof fn lemma_frame_plan_ok(a: u8, b: u8, brightness: u8)
    ensures
        plan_ok(frame_seq(a, b, brightness)),
        frame_seq(a, b, brightness).len() == 13,
{
}

/// Every slot of a strobe sub-frame drives a valid pair.
pub proof fn lemma_block_plan_ok(on: bool)
    ensures
        plan_ok(block_seq(on)),
        block_seq(on).len() == 13,
{
}

/// The whole win strobe is runnable, and its length is fixed: thirteen
/// commands for each of its sub-frames.
pub proof fn lemma_win_blocks_ok(k: nat)
    ensures
        plan_ok(win_blocks(k)),
        win_blocks(k).len() == 13 * k,
    decreases k,
{
    if k > 0 {
        lemma_win_blocks_ok((k - 1) as nat);
        lemma_block_plan_ok(block_on(k - 1));
        assert forall|i: int| 0 <= i < win_blocks(k).len() implies cmd_ok(#[trigger] win_blocks(k)[i]) by {
            if i < win_blocks((k - 1) as nat).len() {
                assert(cmd_ok(win_blocks((k - 1) as nat)[i]));
            } else {
                assert(cmd_ok(block_seq(block_on(k - 1))[i - 13 * (k - 1)]));
            }
        }
    }
}

/// The model of the four-pin LED array. Its contracts carry the
/// electrical invariant — a slot energizes exactly one (high, low) pair
/// while every other pin floats, and between slots every pin floats —
/// and a ghost record of every LED energized, in order, which obliges a
/// runner to actually drive the lit slots of its plan.
pub struct LedArray {
    pub d2: DynamicPin,
    pub d3: DynamicPin,
    pub d4: DynamicPin,
    pub d5: DynamicPin,
    /// Every (high, low) pair the array has energized, oldest first.
    pub lit: Ghost<Seq<(u8, u8)>>,
}

impl LedArray {
    /// The pin with index `i`.
    pub open spec fn pin(self, i: int) -> DynamicPin {
        if i == 0 {
            self.d2
        } else if i == 1 {
            self.d3
        } else if i == 2 {
            self.d4
        } else {
            self.d5
        }
    }

    /// No pin of the array drives the lines.
    pub open spec fn all_floating(self) -> bool {
        forall|i: int| 0 <= i < 4 ==> !(#[trigger] self.pin(i)).is_driven()
    }

    /// Exactly the pair (`high`, `low`) is driven — one LED energized —
    /// and every other pin floats.
    pub open spec fn exactly_driven(self, high: int, low: int) -> bool {
        &&& self.pin(high) == DynamicPin::Out(PinLevel::High)
        &&& self.pin(low) == DynamicPin::Out(PinLevel::Low)
        &&& forall|i: int|
            0 <= i < 4 && i != high && i != low ==> !(#[trigger] self.pin(i)).is_driven()
    }

    /// A fresh array: every pin a floating input, nothing energized yet.
    pub fn new() -> (arr: LedArray)
        ensures
            arr.all_floating(),
            arr.lit@ == Seq::<(u8, u8)>::empty(),
    {
        LedArray {
            d2: DynamicPin::new(),
            d3: DynamicPin::new(),
            d4: DynamicPin::new(),
            d5: DynamicPin::new(),
            lit: Ghost(Seq::empty()),
        }
    }

    /// Switch pin `i` to a driven output; no other pin changes mode.
    fn set_pin_out(&mut self, i: u8, level: PinLevel)
        requires
            i < 4,
        ensures
            final(self).pin(i as int) == DynamicPin::Out(level),
            forall|j: int| 0 <= j < 4 && j != i ==> final(self).pin(j) == old(self).pin(j),
            final(self).lit == old(self).lit,
    {
        if i == 0 {
            self.d2.set_out(level);
        } else if i == 1 {
            self.d3.set_out(level);
        } else if i == 2 {
            self.d4.set_out(level);
        } else {
            self.d5.set_out(level);
        }
    }

    /// Switch pin `i` back to a floating input; no other pin changes mode.
    fn set_pin_floating(&mut self, i: u8)
        requires
            i < 4,
        ensures
            final(self).pin(i as int) == DynamicPin::Floating,
            forall|j: int| 0 <= j < 4 && j != i ==> final(self).pin(j) == old(self).pin(j),
            final(self).lit == old(self).lit,
    {
        if i == 0 {
            self.d2.set_floating();
        } else if i == 1 {
            self.d3.set_floating();
        } else if i == 2 {
            self.d4.set_floating();
        } else {
            self.d5.set_floating();
        }
    }

    /// Energize one LED: its pair driven (high, low), all other pins
    /// floating, and the pair appended to the record.
    pub fn energize(&mut self, high: u8, low: u8)
        requires
            old(self).all_floating(),
            high < 4,
            low < 4,
            high != low,
        ensures
            final(self).exactly_driven(high as int, low as int),
            final(self).lit@ == old(self).lit@.push((high, low)),
    {
        self.lit = Ghost(self.lit@.push((high, low)));
        self.set_pin_out(high, PinLevel::High);
        self.set_pin_out(low, PinLevel::Low);
        proof {
            assert forall|i: int| 0 <= i < 4 && i != high && i != low implies !(self.pin(
                i,
            )).is_driven() by {
                assert(!old(self).pin(i).is_driven());
            }
        }
    }

    /// Release an energized pair: every pin floats again; the record
    /// keeps what was energized.
    pub fn release(&mut self, high: u8, low: u8)
        requires
            old(self).exactly_driven(high as int, low as int),
            high < 4,
            low < 4,
        ensures
            final(self).all_floating(),
            final(self).lit == old(self).lit,
    {
        self.set_pin_floating(high);
        self.set_pin_floating(low);
    }

    /// One slot: energize the pair for the dwell when lit, then release;
    /// a lit slot is appended to the record, an unlit one leaves no
    /// trace. Between slots — and through an unlit slot — every pin
    /// floats.
    pub fn light(&mut self, high: u8, low: u8, on: bool)
        requires
            old(self).all_floating(),
            high < 4,
            low < 4,
            high != low,
        ensures
            final(self).all_floating(),
            final(self).lit@ == old(self).lit@ + cmd_lit(Cmd::Light { high, low, on }),
    {
        if !on {
            proof {
                assert(self.lit@ + cmd_lit(Cmd::Light { high, low, on }) =~= self.lit@);
            }
            return;
        }
        self.energize(high, low);
        self.release(high, low);
        proof {
            assert(old(self).lit@ + cmd_lit(Cmd::Light { high, low, on }) =~= old(
                self,
            ).lit@.push((high, low)));
        }
    }

    /// Run a whole plan. The array starts and ends with every pin
    /// floating, each slot of the plan drives at most its own pair, and
    /// the record grows by exactly the plan's lit pairs, in order: a
    /// runner cannot skip a lit slot.
    pub fn run_plan(&mut self, plan: &Vec<Cmd>)
        requires
            old(self).all_floating(),
            plan_ok(plan@),
        ensures
            final(self).all_floating(),
            final(self).lit@ == old(self).lit@ + plan_lit(plan@),
    {
        proof {
            assert(plan@.take(0) =~= Seq::<Cmd>::empty());
            assert(self.lit@ + plan_lit(plan@.take(0)) =~= self.lit@);
        }
        let mut idx: usize = 0;
        while idx < plan.len()
            invariant
                self.all_floating(),
                plan_ok(plan@),
                idx <= plan@.len(),
                self.lit@ == old(self).lit@ + plan_lit(plan@.take(idx as int)),
            decreases plan@.len() - idx,
        {
            let c = plan[idx];
            match c {
                Cmd::Light { high, low, on } => {
                    self.light(high, low, on);
                },
                Cmd::Wait { us: _ } => {},
            }
            proof {
                lemma_plan_lit_step(plan@, idx as int);
                assert(self.lit@ =~= old(self).lit@ + plan_lit(plan@.take(idx as int + 1)));
            }
            idx = idx + 1;
        }
        proof {
            assert(plan@.take(plan@.len() as int) =~= plan@);
        }
    }
}

} // verus!
