//! Tests of the emulation clock, registers, flip-flops and the glow
//! decay model.

use frontpanel::clock::{EmulationClock, CLOCK_PERIOD};
use frontpanel::glow::{GLOW_SCALE, LAMP_PERSISTENCE};
use frontpanel::register::{FlipFlop, Register};

#[test]
fn clock_advances_additively() {
    let mut clock = EmulationClock::new(0);
    assert_eq!(clock.read(), 0);
    assert_eq!(clock.advance(1000), 1000);
    assert_eq!(clock.advance(34), 1034);
    assert_eq!(clock.read(), 1034);
}

#[test]
fn clock_inc_is_one_period() {
    let mut clock = EmulationClock::new(500);
    assert_eq!(clock.inc(), 500 + CLOCK_PERIOD);
}

#[test]
fn clock_saturates_at_the_largest_tick() {
    let mut clock = EmulationClock::new(u64::MAX - 10);
    assert_eq!(clock.advance(100), u64::MAX);
    assert_eq!(clock.advance(1), u64::MAX);
}

#[test]
fn register_set_then_read_masks_to_width() {
    let mut reg = Register::new(8, 0);
    reg.set(0x1FF, 0);
    assert_eq!(reg.read(), 0xFF);
    let mut reg = Register::new(30, 0);
    reg.set(0x7FFF_FFFF, 0);
    assert_eq!(reg.read(), 0x3FFF_FFFF);
    reg.set(1234567, 0);
    assert_eq!(reg.read(), 1234567);
}

#[test]
fn register_widths_at_the_extremes() {
    // The widest register the model admits.
    let mut reg = Register::new(63, 0);
    reg.set(u64::MAX, 0);
    assert_eq!(reg.read(), (1u64 << 63) - 1);
    // A one-bit register: its sign bit is its only bit.
    let mut reg = Register::new(1, 0);
    reg.set(3, 0);
    assert_eq!(reg.read(), 1);
    reg.add(1, 0);
    assert_eq!(reg.read(), 0);
}

#[test]
fn register_add_wraps_at_width() {
    let mut reg = Register::new(8, 0);
    reg.set(0xFE, 0);
    reg.add(3, 0);
    assert_eq!(reg.read(), 1);
}

#[test]
fn add_detects_signed_overflow() {
    // Two positive operands whose sum carries into the sign bit.
    let mut reg = Register::new(8, 0);
    reg.set(0x7F, 0);
    reg.add(1, 0);
    assert_eq!(reg.read(), 0x80);
    // The flag is advisory: the masked sum is still stored.
    let mut reg = Register::new(8, 0);
    reg.set(0x40, 0);
    reg.add(0x40, 0);
    assert_eq!(reg.read(), 0x80);
}

#[test]
fn add_ignores_mixed_sign_operands() {
    // Operands of different sign never overflow two's complement.
    let mut reg = Register::new(8, 0);
    reg.set(0x80, 0);
    reg.add(0x7F, 0);
    assert_eq!(reg.read(), 0xFF);
    reg.add(1, 0);
    assert_eq!(reg.read(), 0);
}

#[test]
fn add_unsigned_detects_carry_out() {
    let mut reg = Register::new(8, 0);
    reg.set(0xFF, 0);
    reg.add_unsigned(1, 0);
    assert_eq!(reg.read(), 0);
    let mut reg = Register::new(8, 0);
    reg.set(0xFE, 0);
    reg.add_unsigned(1, 0);
    assert_eq!(reg.read(), 0xFF);
}

#[test]
fn negate_is_twos_complement() {
    let mut reg = Register::new(8, 0);
    reg.set(5, 0);
    reg.negate(0);
    assert_eq!(reg.read(), 251);
    reg.negate(0);
    assert_eq!(reg.read(), 5);
    reg.set(0, 0);
    reg.negate(0);
    assert_eq!(reg.read(), 0);
}

#[test]
fn set_leaves_a_small_exact_glow() {
    // A set with zero elapsed time is clamped to one clock period, whose
    // blend share is 900 * GLOW_SCALE / LAMP_PERSISTENCE = 9 millionths.
    let mut reg = Register::new(4, 0);
    reg.set(0b1010, 0);
    assert_eq!(reg.read_glow().as_slice(), &[0, 9, 0, 9]);
}

#[test]
fn full_beta_snaps_glow_to_the_bit_values() {
    let mut reg = Register::new(4, 0);
    reg.set(0b0110, 0);
    reg.update_glow(0, GLOW_SCALE);
    assert_eq!(reg.read_glow().as_slice(), &[0, GLOW_SCALE, GLOW_SCALE, 0]);
    // The snap does not depend on the elapsed time.
    reg.set(0b1001, u64::MAX / 2);
    reg.update_glow(u64::MAX / 2, GLOW_SCALE);
    assert_eq!(reg.read_glow().as_slice(), &[GLOW_SCALE, 0, 0, GLOW_SCALE]);
}

#[test]
fn a_full_persistence_period_snaps_glow_too() {
    let mut ff = FlipFlop::new(0);
    ff.set(true, 0);
    ff.update_glow(LAMP_PERSISTENCE, 0);
    assert_eq!(ff.read_glow(), GLOW_SCALE);
    ff.set(false, LAMP_PERSISTENCE);
    ff.update_glow(2 * LAMP_PERSISTENCE, 0);
    assert_eq!(ff.read_glow(), 0);
}

#[test]
fn flip_flop_set_leaves_a_small_exact_glow() {
    let mut ff = FlipFlop::new(0);
    ff.set(true, 0);
    assert_eq!(ff.read_glow(), 9);
    assert!(ff.read());
}

#[test]
fn glow_rises_monotonically_toward_a_lit_bit() {
    let mut ff = FlipFlop::new(0);
    ff.set(true, 0);
    let mut last = ff.read_glow();
    let mut now = 0u64;
    for _ in 0..200 {
        now += 10_000_000;
        ff.update_glow(now, 0);
        let g = ff.read_glow();
        assert!(g >= last);
        assert!(g <= GLOW_SCALE);
        last = g;
    }
    // After many persistence periods the lamp is essentially fully lit
    // (the fixed-point rounding keeps it a few millionths short).
    assert!(last >= GLOW_SCALE - 10);
}

#[test]
fn glow_decays_monotonically_toward_a_dark_bit() {
    let mut ff = FlipFlop::new(0);
    ff.set(true, 0);
    ff.update_glow(LAMP_PERSISTENCE, 0);
    assert_eq!(ff.read_glow(), GLOW_SCALE);
    ff.set(false, LAMP_PERSISTENCE);
    let mut last = ff.read_glow();
    let mut now = LAMP_PERSISTENCE;
    for _ in 0..200 {
        now += 10_000_000;
        ff.update_glow(now, 0);
        let g = ff.read_glow();
        assert!(g <= last);
        last = g;
    }
    assert_eq!(last, 0);
}

#[test]
fn glow_blend_follows_the_decay_formula_exactly() {
    let mut ff = FlipFlop::new(0);
    ff.set(true, 0);
    assert_eq!(ff.read_glow(), 9);
    // elapsed 10,000 ticks: alpha = 10_000 * 1_000_000 / 100_000_000 = 100;
    // glow = 9 * (1_000_000 - 100) / 1_000_000 + 100 = 8 + 100.
    ff.update_glow(10_000, 0);
    assert_eq!(ff.read_glow(), 108);
}
