//! The lamp-glow decay model.
//!
//! Every bit of panel state carries a continuous intensity that decays
//! toward the bit's boolean value at a rate set by elapsed virtual time
//! and a fixed lamp-persistence constant.  Intensities are fixed-point
//! fractions of [`GLOW_SCALE`]: 0 is a dark lamp, `GLOW_SCALE` is a fully
//! lit one.  One update computes a blend factor `alpha` from the elapsed
//! ticks and moves each intensity by
//! `glow' = glow * (1 - alpha) + (bit ? alpha : 0)`, everything scaled by
//! `GLOW_SCALE`.

use vstd::prelude::*;
use vstd::arithmetic::div_mod::{
    lemma_div_by_multiple, lemma_div_by_multiple_is_strongly_ordered, lemma_div_is_ordered,
    lemma_div_pos_is_pos,
};
use vstd::arithmetic::mul::{
    lemma_mul_inequality, lemma_mul_left_inequality, lemma_mul_nonnegative,
    lemma_mul_strict_inequality,
};
use crate::clock::CLOCK_PERIOD;

verus! {

/// Fixed-point scale: this value stands for an intensity of 1.0.
pub const GLOW_SCALE: u32 = 1_000_000;

/// Lamp persistence in clock ticks (1/30 of an emulated second): the
/// elapsed time after which a lamp fully takes on its bit's value.
pub const LAMP_PERSISTENCE: u64 = 100_000_000;

/// Elapsed virtual time between two glow updates.  A non-positive delta is
/// clamped to one machine clock period so the blend factor never
/// degenerates to zero.
pub open spec fn elapsed_ticks(now: u64, last: u64) -> int {
    let d: int = if now >= last {
        now - last
    } else {
        0
    };
    if d < CLOCK_PERIOD {
        CLOCK_PERIOD as int
    } else {
        d
    }
}

/// Blend factor of one glow update: `elapsed / persistence + beta`, scaled
/// by `GLOW_SCALE` and capped at `GLOW_SCALE`.  A `beta` of `GLOW_SCALE`
/// forces an instantaneous snap to the bit value.
pub open spec fn glow_alpha(elapsed: int, beta: u32) -> int {
    let a = elapsed * GLOW_SCALE / (LAMP_PERSISTENCE as int) + beta;
    if a > GLOW_SCALE {
        GLOW_SCALE as int
    } else {
        a
    }
}

/// One glow update of a single bit: decay toward zero, then add the full
/// blend share if the bit is set.
pub open spec fn glow_step(g: int, alpha: int, bit: bool) -> int {
    let decayed = g * (GLOW_SCALE - alpha) / (GLOW_SCALE as int);
    if bit {
        decayed + alpha
    } else {
        decayed
    }
}

/// Whether bit `i` of `v` is set.
pub open spec fn bit_is_set(v: u64, i: u64) -> bool {
    ((v >> i) & 1) == 1
}

/// Law: one glow update keeps an intensity inside `[0, GLOW_SCALE]` and
/// moves it monotonically toward the held bit value — it never moves away
/// from a lit bit nor toward a dark one, so repeated updates converge to
/// the bit value.
pub proof fn lemma_glow_step_toward_bit(g: int, alpha: int, bit: bool)
    requires
        0 <= g <= GLOW_SCALE,
        0 <= alpha <= GLOW_SCALE,
    ensures
        0 <= glow_step(g, alpha, bit) <= GLOW_SCALE,
        bit ==> g <= glow_step(g, alpha, bit),
        !bit ==> glow_step(g, alpha, bit) <= g,
{
    let s = GLOW_SCALE as int;
    let decayed = g * (s - alpha) / s;
    lemma_mul_nonnegative(g, s - alpha);
    lemma_div_pos_is_pos(g * (s - alpha), s);
    // decayed <= s - alpha, so the lit case stays within the scale
    lemma_mul_inequality(g, s, s - alpha);
    assert(s * (s - alpha) == (s - alpha) * s);
    lemma_div_is_ordered(g * (s - alpha), (s - alpha) * s, s);
    lemma_div_by_multiple(s - alpha, s);
    assert(decayed <= s - alpha);
    // decay alone never increases the intensity
    lemma_mul_inequality(s - alpha, s, g);
    assert((s - alpha) * g == g * (s - alpha));
    assert(s * g == g * s);
    lemma_div_is_ordered(g * (s - alpha), g * s, s);
    lemma_div_by_multiple(g, s);
    assert(decayed <= g);
    if bit && g >= alpha {
        // the added share makes up at least what the decay removed
        assert((g - alpha) * s <= g * (s - alpha)) by (nonlinear_arith)
            requires
                0 <= alpha <= s,
                0 <= g <= s,
        ;
        lemma_div_is_ordered((g - alpha) * s, g * (s - alpha), s);
        lemma_div_by_multiple(g - alpha, s);
        assert(g - alpha <= decayed);
    }
}

/// The intensity after a whole run of glow updates with blend factors
/// `alphas`, against a bit held constant at `bit`.
pub open spec fn glow_steps(g: int, alphas: Seq<int>, bit: bool) -> int
    decreases alphas.len(),
{
    if alphas.len() == 0 {
        g
    } else {
        glow_steps(glow_step(g, alphas[0], bit), alphas.skip(1), bit)
    }
}

/// Law: under repeated updates against a held bit, the intensity stays
/// inside `[0, GLOW_SCALE]` and converges monotonically toward the bit
/// value — every prefix of the run is at least as close to the bit value
/// as the starting intensity.
pub proof fn lemma_glow_steps_converge(g: int, alphas: Seq<int>, bit: bool)
    requires
        0 <= g <= GLOW_SCALE,
        forall|i: int| 0 <= i < alphas.len() ==> 0 <= #[trigger] alphas[i] <= GLOW_SCALE,
    ensures
        0 <= glow_steps(g, alphas, bit) <= GLOW_SCALE,
        bit ==> g <= glow_steps(g, alphas, bit),
        !bit ==> glow_steps(g, alphas, bit) <= g,
    decreases alphas.len(),
{
    if alphas.len() > 0 {
        lemma_glow_step_toward_bit(g, alphas[0], bit);
        let rest = alphas.skip(1);
        assert forall|i: int| 0 <= i < rest.len() implies 0 <= #[trigger] rest[i]
            <= GLOW_SCALE by {
            assert(rest[i] == alphas[i + 1]);
        }
        lemma_glow_steps_converge(glow_step(g, alphas[0], bit), rest, bit);
    }
}

/// Law: an update with the full blend share (`beta == GLOW_SCALE`) sets
/// the intensity to exactly the bit value, regardless of how much virtual
/// time has elapsed.
pub proof fn lemma_glow_snap(elapsed: int, g: int, bit: bool)
    requires
        elapsed >= 0,
        0 <= g <= GLOW_SCALE,
    ensures
        glow_alpha(elapsed, GLOW_SCALE) == GLOW_SCALE,
        glow_step(g, GLOW_SCALE as int, bit) == if bit {
            GLOW_SCALE as int
        } else {
            0
        },
{
    let s = GLOW_SCALE as int;
    lemma_mul_nonnegative(elapsed, s);
    lemma_div_pos_is_pos(elapsed * s, LAMP_PERSISTENCE as int);
    assert(elapsed * GLOW_SCALE == elapsed * s);
    assert(g * (s - s) == 0);
    assert(0int / s == 0);
}

/// Computes the blend factor for one glow update in executable code.
pub fn compute_alpha(now: u64, last: u64, beta: u32) -> (alpha: u32)
    requires
        beta <= GLOW_SCALE,
    ensures
        alpha == glow_alpha(elapsed_ticks(now, last), beta),
        alpha <= GLOW_SCALE,
{
    let d: u64 = if now >= last {
        now - last
    } else {
        0
    };
    let elapsed: u64 = if d < CLOCK_PERIOD {
        CLOCK_PERIOD
    } else {
        d
    };
    let ghost s: int = GLOW_SCALE as int;
    let ghost p: int = LAMP_PERSISTENCE as int;
    if elapsed >= LAMP_PERSISTENCE {
        proof {
            lemma_mul_inequality(p, elapsed as int, s);
            assert(p * s == s * p);
            lemma_div_is_ordered(s * p, elapsed as int * s, p);
            lemma_div_by_multiple(s, p);
            assert(elapsed as int * s == elapsed * GLOW_SCALE);
        }
        GLOW_SCALE
    } else {
        proof {
            lemma_mul_nonnegative(elapsed as int, s);
            lemma_mul_inequality(elapsed as int, p - 1, s);
            lemma_mul_strict_inequality(elapsed as int, p, s);
            assert(p * s == s * p);
            lemma_div_by_multiple_is_strongly_ordered(elapsed as int * s, s * p, s, p);
            lemma_div_by_multiple(s, p);
            lemma_div_pos_is_pos(elapsed as int * s, p);
            assert(elapsed as int * s == elapsed * GLOW_SCALE);
        }
        let scaled: u64 = elapsed * (GLOW_SCALE as u64) / LAMP_PERSISTENCE;
        let a: u32 = (scaled as u32) + beta;
        if a > GLOW_SCALE {
            GLOW_SCALE
        } else {
            a
        }
    }
}

/// One executable glow update of a single intensity.
pub fn step_glow(g: u32, alpha: u32, bit: bool) -> (g2: u32)
    requires
        g <= GLOW_SCALE,
        alpha <= GLOW_SCALE,
    ensures
        g2 == glow_step(g as int, alpha as int, bit),
        g2 <= GLOW_SCALE,
{
    proof {
        lemma_glow_step_toward_bit(g as int, alpha as int, false);
        lemma_glow_step_toward_bit(g as int, alpha as int, true);
        lemma_mul_inequality(g as int, GLOW_SCALE as int, (GLOW_SCALE - alpha) as int);
        lemma_mul_left_inequality(
            GLOW_SCALE as int,
            (GLOW_SCALE - alpha) as int,
            GLOW_SCALE as int,
        );
    }
    let alpha1: u32 = GLOW_SCALE - alpha;
    let decayed: u32 = ((g as u64) * (alpha1 as u64) / (GLOW_SCALE as u64)) as u32;
    if bit {
        decayed + alpha
    } else {
        decayed
    }
}

} // verus!
