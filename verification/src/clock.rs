//! The emulation clock: a monotonic virtual-time counter.
//!
//! Virtual time is counted in integer ticks of 1/3,000,000,000 of an
//! emulated second.  That resolution was chosen so that both durations the
//! model cares about are whole numbers of ticks: the machine clock period
//! of 0.3 microseconds (900 ticks) and the lamp persistence of 1/30 of a
//! second (100,000,000 ticks).  The clock is advanced only additively and
//! never derives from wall-clock time.

use vstd::prelude::*;

verus! {

/// Ticks in one machine clock period (0.3 emulated microseconds).
pub const CLOCK_PERIOD: u64 = 900;

/// A non-negative tick total clamped to the largest representable tick.
pub open spec fn sat_ticks(a: int) -> u64 {
    if a <= u64::MAX {
        a as u64
    } else {
        u64::MAX
    }
}

/// Saturating sum of two tick counts, as used by every clock update.
pub open spec fn sat_add(a: u64, b: u64) -> u64 {
    sat_ticks(a + b)
}

/// Monotonic virtual-time counter.  One clock instance is shared by every
/// register of a server and lives for the whole server process; all glow
/// decay is driven by deltas of its tick value.
pub struct EmulationClock {
    /// Current virtual time in ticks.
    pub ticks: u64,
}

impl EmulationClock {
    /// Creates a clock reading `start_time` ticks.
    pub fn new(start_time: u64) -> (clock: EmulationClock)
        ensures
            clock.ticks == start_time,
    {
        EmulationClock { ticks: start_time }
    }

    /// Advances the clock by one machine clock period and returns the new
    /// tick value.
    pub fn inc(&mut self) -> (t: u64)
        ensures
            final(self).ticks == sat_add(old(self).ticks, CLOCK_PERIOD),
            t == final(self).ticks,
    {
        self.advance(CLOCK_PERIOD)
    }

    /// Advances the clock by `nr_ticks` ticks and returns the new tick
    /// value.  The clock saturates at the largest representable tick, so
    /// it never moves backwards.
    pub fn advance(&mut self, nr_ticks: u64) -> (t: u64)
        ensures
            final(self).ticks == sat_add(old(self).ticks, nr_ticks),
            t == final(self).ticks,
    {
        if u64::MAX - self.ticks >= nr_ticks {
            self.ticks = self.ticks + nr_ticks;
        } else {
            self.ticks = u64::MAX;
        }
        self.ticks
    }

    /// Returns the current virtual time in ticks.
    pub fn read(&self) -> (t: u64)
        ensures
            t == self.ticks,
    {
        self.ticks
    }
}

} // verus!
