//! Registers and flip-flops with lamp-glow tracking.
//!
//! A [`Register`] holds a value masked to a fixed bit width together with
//! one glow intensity per bit; a [`FlipFlop`] is the single-bit
//! specialization of the same model.  Neither owns the emulation clock:
//! every mutating operation takes the current tick value and finishes with
//! a glow update at that time, exactly as the panel hardware would latch a
//! value and let the lamps drift toward it.

use vstd::prelude::*;
use crate::glow::{
    bit_is_set, compute_alpha, elapsed_ticks, glow_alpha, glow_step, step_glow, GLOW_SCALE,
};

verus! {

/// Facts about the three masks derived from a bit width in `1..=63`.
proof fn lemma_width_masks(b: u64)
    by (bit_vector)
    requires
        1 <= b <= 63,
    ensures
        2 <= (1u64 << b),
        (1u64 << b) <= 0x8000_0000_0000_0000u64,
        (1u64 << (b - 1) as u64) < (1u64 << b),
{
}

/// Facts about masking: the result fits under the mask and masking is
/// idempotent.
proof fn lemma_mask_and(x: u64, m: u64)
    by (bit_vector)
    ensures
        x & m <= m,
        (x & m) & m == x & m,
        0u64 & m == 0,
{
}

/// Whether adding `addend` to `augend` overflows two's-complement
/// arithmetic of the register's width: both operands carry the same sign
/// bit and the raw sum carries a different one.
pub open spec fn signed_add_overflows(augend: u64, addend: u64, sum: u64, sign_mask: u64) -> bool {
    (augend & sign_mask) == (addend & sign_mask) && (addend & sign_mask) != (sum & sign_mask)
}

/// Whether adding `addend` to `augend` overflows unsigned arithmetic of
/// the register's width: the raw sum carries into the power bit just above
/// the register.
pub open spec fn unsigned_add_overflows(addend: u64, sum: u64, power_mask: u64) -> bool {
    (addend & power_mask) != (sum & power_mask)
}

/// The glow array `post` is `pre` after one update at blend factor
/// `alpha`, each bit read from `value`.
pub open spec fn glow_updated(pre: Seq<u32>, post: Seq<u32>, value: u64, alpha: int) -> bool {
    &&& post.len() == pre.len()
    &&& forall|i: int|
        0 <= i < pre.len() ==> post[i] == glow_step(pre[i] as int, alpha, bit_is_set(value, i as u64))
}

/// A register of `bits` bits with per-bit lamp glow.  The value invariant
/// is that `value` always equals `value & mask` and that the glow array
/// has one entry per bit, each within the glow scale.
pub struct Register {
    /// Bit width, fixed at construction, between 1 and 63.
    pub bits: u8,
    /// Tick of the last glow update.
    pub last_tick: u64,
    /// All `bits` low bits set: `(1 << bits) - 1`.
    pub mask: u64,
    /// The single bit just above the register: `1 << bits`.
    pub power_mask: u64,
    /// The register's top (sign) bit: `1 << (bits - 1)`.
    pub sign_mask: u64,
    /// Advisory flag recording that an addition once overflowed; never an
    /// error and never cleared by arithmetic.
    pub overflow: bool,
    /// Current value, always masked to the bit width.
    pub value: u64,
    /// Per-bit lamp intensity, least significant bit first.
    pub glow: Vec<u32>,
}

impl Register {
    /// Well-formedness: derived masks match the bit width, the value is
    /// masked, and the glow array has one in-scale entry per bit.
    pub open spec fn wf(&self) -> bool {
        &&& 1 <= self.bits <= 63
        &&& self.power_mask == 1u64 << (self.bits as u64)
        &&& self.sign_mask == 1u64 << ((self.bits - 1) as u64)
        &&& self.mask == self.power_mask - 1
        &&& self.value & self.mask == self.value
        &&& self.glow.len() == self.bits
        &&& forall|i: int| 0 <= i < self.glow.len() ==> self.glow[i] <= GLOW_SCALE
    }

    /// Creates a register of `bits` bits, zero-valued and dark, with its
    /// last glow update at tick `now`.
    pub fn new(bits: u8, now: u64) -> (r: Register)
        requires
            1 <= bits <= 63,
        ensures
            r.wf(),
            r.bits == bits,
            r.last_tick == now,
            r.value == 0,
            !r.overflow,
            r.glow@ == Seq::<u32>::new(bits as nat, |i: int| 0u32),
    {
        proof {
            lemma_width_masks(bits as u64);
            lemma_mask_and(0, ((1u64 << (bits as u64)) - 1) as u64);
        }
        let power_mask: u64 = 1u64 << bits;
        let r = Register {
            bits,
            last_tick: now,
            mask: power_mask - 1,
            power_mask,
            sign_mask: 1u64 << (bits - 1),
            overflow: false,
            value: 0,
            glow: vec![0u32; bits as usize],
        };
        proof {
            assert(r.glow@ =~= Seq::<u32>::new(bits as nat, |i: int| 0u32));
        }
        r
    }

    /// Updates every lamp intensity toward its bit's current value, with
    /// extra blend share `beta` (use `GLOW_SCALE` to snap instantly), and
    /// records `now` as the time of this update.
    pub fn update_glow(&mut self, now: u64, beta: u32)
        requires
            old(self).wf(),
            beta <= GLOW_SCALE,
        ensures
            final(self).wf(),
            final(self).bits == old(self).bits,
            final(self).mask == old(self).mask,
            final(self).power_mask == old(self).power_mask,
            final(self).sign_mask == old(self).sign_mask,
            final(self).overflow == old(self).overflow,
            final(self).value == old(self).value,
            final(self).last_tick == now,
            glow_updated(
                old(self).glow@,
                final(self).glow@,
                old(self).value,
                glow_alpha(elapsed_ticks(now, old(self).last_tick), beta),
            ),
    {
        let alpha = compute_alpha(now, self.last_tick, beta);
        self.last_tick = now;
        let n = self.glow.len();
        let mut i: usize = 0;
        while i < n
            invariant
                i <= n,
                n == self.glow.len(),
                self.bits == old(self).bits,
                self.mask == old(self).mask,
                self.power_mask == old(self).power_mask,
                self.sign_mask == old(self).sign_mask,
                self.overflow == old(self).overflow,
                self.value == old(self).value,
                self.last_tick == now,
                forall|j: int|
                    0 <= j < i ==> self.glow[j] == glow_step(
                        old(self).glow[j] as int,
                        alpha as int,
                        bit_is_set(old(self).value, j as u64),
                    ),
                forall|j: int| i <= j < n ==> self.glow[j] == old(self).glow[j],
                forall|j: int| 0 <= j < n ==> self.glow[j] <= GLOW_SCALE,
            decreases n - i,
        {
            let bit: bool = ((self.value >> (i as u64)) & 1) == 1;
            let g = self.glow[i];
            let g2 = step_glow(g, alpha, bit);
            self.glow.set(i, g2);
            i = i + 1;
        }
    }

    /// Returns the per-bit lamp intensities, least significant bit first.
    pub fn read_glow(&self) -> (g: &Vec<u32>)
        ensures
            g@ == self.glow@,
    {
        &self.glow
    }

    /// Returns the register's current value.
    pub fn read(&self) -> (v: u64)
        ensures
            v == self.value,
    {
        self.value
    }

    /// Stores `value`, masked to the register's width, then updates the
    /// glow at tick `now` with no extra blend share.
    pub fn set(&mut self, value: u64, now: u64)
        requires
            old(self).wf(),
        ensures
            final(self).wf(),
            final(self).bits == old(self).bits,
            final(self).mask == old(self).mask,
            final(self).power_mask == old(self).power_mask,
            final(self).sign_mask == old(self).sign_mask,
            final(self).overflow == old(self).overflow,
            final(self).value == value & old(self).mask,
            final(self).last_tick == now,
            glow_updated(
                old(self).glow@,
                final(self).glow@,
                value & old(self).mask,
                glow_alpha(elapsed_ticks(now, old(self).last_tick), 0),
            ),
    {
        proof {
            lemma_mask_and(value, self.mask);
        }
        self.value = value & self.mask;
        self.update_glow(now, 0);
    }

    /// Adds `value` with two's-complement overflow detection: when both
    /// operands carry the same sign bit and the sum carries a different
    /// one, the advisory `overflow` flag is set.  The sum is masked to the
    /// register's width and the glow updated at tick `now`.
    pub fn add(&mut self, value: u64, now: u64)
        requires
            old(self).wf(),
            value <= old(self).mask,
        ensures
            final(self).wf(),
            final(self).bits == old(self).bits,
            final(self).mask == old(self).mask,
            final(self).power_mask == old(self).power_mask,
            final(self).sign_mask == old(self).sign_mask,
            final(self).value == ((old(self).value + value) as u64) & old(self).mask,
            final(self).overflow == (old(self).overflow || signed_add_overflows(
                old(self).value,
                value,
                (old(self).value + value) as u64,
                old(self).sign_mask,
            )),
            final(self).last_tick == now,
            glow_updated(
                old(self).glow@,
                final(self).glow@,
                ((old(self).value + value) as u64) & old(self).mask,
                glow_alpha(elapsed_ticks(now, old(self).last_tick), 0),
            ),
    {
        proof {
            lemma_width_masks(self.bits as u64);
            lemma_mask_and(self.value, self.mask);
        }
        let augend = self.value;
        let result = augend + value;
        if (augend & self.sign_mask) == (value & self.sign_mask) {
            if (value & self.sign_mask) != (result & self.sign_mask) {
                self.overflow = true;
            }
        }
        proof {
            lemma_mask_and(result, self.mask);
        }
        self.value = result & self.mask;
        self.update_glow(now, 0);
    }

    /// Adds `value` with unsigned overflow detection: when the raw sum
    /// carries into the power bit above the register, the advisory
    /// `overflow` flag is set.  The sum is masked to the register's width
    /// and the glow updated at tick `now`.
    pub fn add_unsigned(&mut self, value: u64, now: u64)
        requires
            old(self).wf(),
            value <= old(self).mask,
        ensures
            final(self).wf(),
            final(self).bits == old(self).bits,
            final(self).mask == old(self).mask,
            final(self).power_mask == old(self).power_mask,
            final(self).sign_mask == old(self).sign_mask,
            final(self).value == ((old(self).value + value) as u64) & old(self).mask,
            final(self).overflow == (old(self).overflow || unsigned_add_overflows(
                value,
                (old(self).value + value) as u64,
                old(self).power_mask,
            )),
            final(self).last_tick == now,
            glow_updated(
                old(self).glow@,
                final(self).glow@,
                ((old(self).value + value) as u64) & old(self).mask,
                glow_alpha(elapsed_ticks(now, old(self).last_tick), 0),
            ),
    {
        proof {
            lemma_width_masks(self.bits as u64);
            lemma_mask_and(self.value, self.mask);
        }
        let augend = self.value;
        let result = augend + value;
        if (value & self.power_mask) != (result & self.power_mask) {
            self.overflow = true;
        }
        proof {
            lemma_mask_and(result, self.mask);
        }
        self.value = result & self.mask;
        self.update_glow(now, 0);
    }

    /// Replaces the value with its two's complement, `power_mask - value`,
    /// masked to the register's width (so negating zero yields zero), and
    /// updates the glow at tick `now`.
    pub fn negate(&mut self, now: u64)
        requires
            old(self).wf(),
        ensures
            final(self).wf(),
            final(self).bits == old(self).bits,
            final(self).mask == old(self).mask,
            final(self).power_mask == old(self).power_mask,
            final(self).sign_mask == old(self).sign_mask,
            final(self).overflow == old(self).overflow,
            final(self).value == ((old(self).power_mask - old(self).value) as u64) & old(
                self,
            ).mask,
            final(self).last_tick == now,
            glow_updated(
                old(self).glow@,
                final(self).glow@,
                ((old(self).power_mask - old(self).value) as u64) & old(self).mask,
                glow_alpha(elapsed_ticks(now, old(self).last_tick), 0),
            ),
    {
        proof {
            lemma_width_masks(self.bits as u64);
            lemma_mask_and(self.value, self.mask);
        }
        let result = self.power_mask - self.value;
        proof {
            lemma_mask_and(result, self.mask);
        }
        self.value = result & self.mask;
        self.update_glow(now, 0);
    }
}

/// Law: a well-formed register's value is itself within the register's
/// width.  Together with the contracts of [`Register::set`] (the stored
/// value is `v & mask`) and [`Register::read`] (the stored value comes
/// back), writing any `v` and reading yields exactly `v & mask`, for every
/// width.
pub proof fn lemma_value_in_width(r: Register)
    requires
        r.wf(),
    ensures
        r.value & r.mask == r.value,
        r.value <= r.mask,
{
    lemma_mask_and(r.value, r.mask);
}

/// A single-bit flip-flop with the same glow model as [`Register`].
pub struct FlipFlop {
    /// Tick of the last glow update.
    pub last_tick: u64,
    /// Current bit value.
    pub value: bool,
    /// Lamp intensity of the single bit.
    pub glow: u32,
}

impl FlipFlop {
    /// Well-formedness: the intensity is within the glow scale.
    pub open spec fn wf(&self) -> bool {
        self.glow <= GLOW_SCALE
    }

    /// Creates a cleared, dark flip-flop with its last glow update at tick
    /// `now`.
    pub fn new(now: u64) -> (ff: FlipFlop)
        ensures
            ff.wf(),
            ff.last_tick == now,
            !ff.value,
            ff.glow == 0,
    {
        FlipFlop { last_tick: now, value: false, glow: 0 }
    }

    /// Updates the lamp intensity toward the current bit value, with extra
    /// blend share `beta`, and records `now` as the time of this update.
    pub fn update_glow(&mut self, now: u64, beta: u32)
        requires
            old(self).wf(),
            beta <= GLOW_SCALE,
        ensures
            final(self).wf(),
            final(self).value == old(self).value,
            final(self).last_tick == now,
            final(self).glow == glow_step(
                old(self).glow as int,
                glow_alpha(elapsed_ticks(now, old(self).last_tick), beta),
                old(self).value,
            ),
    {
        let alpha = compute_alpha(now, self.last_tick, beta);
        self.last_tick = now;
        self.glow = step_glow(self.glow, alpha, self.value);
    }

    /// Returns the lamp intensity.
    pub fn read_glow(&self) -> (g: u32)
        ensures
            g == self.glow,
    {
        self.glow
    }

    /// Returns the current bit value.
    pub fn read(&self) -> (v: bool)
        ensures
            v == self.value,
    {
        self.value
    }

    /// Stores `value`, then updates the glow at tick `now` with no extra
    /// blend share.
    pub fn set(&mut self, value: bool, now: u64)
        requires
            old(self).wf(),
        ensures
            final(self).wf(),
            final(self).value == value,
            final(self).last_tick == now,
            final(self).glow == glow_step(
                old(self).glow as int,
                glow_alpha(elapsed_ticks(now, old(self).last_tick), 0),
                value,
            ),
    {
        self.value = value;
        self.update_glow(now, 0);
    }
}

} // verus!
