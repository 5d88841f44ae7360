//! Accumulates a monotone elapsed time from a wrapping 32-bit hardware
//! tick counter. Each poll takes the modular difference to the previous
//! reading, scales it to nanoseconds by the tick frequency, and adds it
//! to a running total. A poll gap longer than one full counter period
//! silently loses the wrapped-away time; that is a documented limitation.

use vstd::prelude::*;

verus! {

/// One second in nanoseconds.
pub const NANOS_PER_SEC: u64 = 1_000_000_000;

/// Monotone elapsed time accumulated from a wrapping tick counter.
pub struct TimeBase {
    /// Tick frequency in hertz; fixed at construction, never zero.
    pub hz: u32,
    /// Counter value seen by the most recent poll.
    pub last_raw: u32,
    /// Accumulated elapsed time since boot, in nanoseconds; saturates
    /// at `u64::MAX` rather than wrapping.
    pub elapsed_ns: u64,
}

impl TimeBase {
    pub open spec fn wf(self) -> bool {
        self.hz > 0
    }

    /// Ticks elapsed between two counter readings, modulo 2^32.
    pub open spec fn spec_delta(last: u32, raw: u32) -> u32 {
        if raw >= last {
            (raw - last) as u32
        } else {
            (raw - last + 0x1_0000_0000) as u32
        }
    }

    /// Duration of `ticks` ticks at `hz` hertz, in nanoseconds, rounded down.
    pub open spec fn spec_ticks_to_ns(ticks: u32, hz: u32) -> u64
        recommends
            hz > 0,
    {
        ((ticks as int * NANOS_PER_SEC as int) / (hz as int)) as u64
    }

    /// The state after one poll reading `raw`: the reading is remembered
    /// and the scaled modular delta is added, saturating at `u64::MAX`.
    pub open spec fn spec_tick(self, raw: u32) -> TimeBase
        recommends
            self.wf(),
    {
        let add = Self::spec_ticks_to_ns(Self::spec_delta(self.last_raw, raw), self.hz);
        TimeBase {
            hz: self.hz,
            last_raw: raw,
            elapsed_ns: if self.elapsed_ns + add <= u64::MAX {
                (self.elapsed_ns + add) as u64
            } else {
                u64::MAX
            },
        }
    }

    /// The elapsed time after folding a whole sequence of polls.
    pub open spec fn spec_run(self, raws: Seq<u32>) -> TimeBase
        recommends
            self.wf(),
        decreases raws.len(),
    {
        if raws.len() == 0 {
            self
        } else {
            self.spec_tick(raws[0]).spec_run(raws.drop_first())
        }
    }

    /// A time base that starts counting from the reading `raw`, which may
    /// be nonzero when the counter was already running at boot; the time
    /// already on the counter is credited to the elapsed total.
    pub fn new(hz: u32, raw: u32) -> (t: TimeBase)
        requires
            hz > 0,
        ensures
            t.wf(),
            t.hz == hz,
            t.last_raw == raw,
            t.elapsed_ns == Self::spec_ticks_to_ns(raw, hz),
    {
        let elapsed_ns: u64 = (raw as u64 * NANOS_PER_SEC) / hz as u64;
        TimeBase { hz, last_raw: raw, elapsed_ns }
    }

    /// One poll of the hardware counter. The elapsed total never
    /// decreases, whatever reading arrives, wraparound included.
    pub fn tick(&mut self, raw: u32) -> (elapsed: u64)
        requires
            old(self).wf(),
        ensures
            *final(self) == old(self).spec_tick(raw),
            elapsed == final(self).elapsed_ns,
            final(self).elapsed_ns >= old(self).elapsed_ns,
            final(self).wf(),
    {
        let ticks: u32 = raw.wrapping_sub(self.last_raw);
        self.last_raw = raw;
        let add: u64 = (ticks as u64 * NANOS_PER_SEC) / self.hz as u64;
        assert(add == Self::spec_ticks_to_ns(ticks, self.hz));
        if self.elapsed_ns <= u64::MAX - add {
            self.elapsed_ns = self.elapsed_ns + add;
        } else {
            self.elapsed_ns = u64::MAX;
        }
        self.elapsed_ns
    }

    /// Over any sequence of raw readings, the accumulated elapsed time
    /// never decreases.
    pub proof fn lemma_run_monotone(self, raws: Seq<u32>)
        requires
            self.wf(),
        ensures
            self.spec_run(raws).elapsed_ns >= self.elapsed_ns,
            self.spec_run(raws).wf(),
        decreases raws.len(),
    {
        if raws.len() > 0 {
            self.spec_tick(raws[0]).lemma_run_monotone(raws.drop_first());
        }
    }
}

} // verus!
