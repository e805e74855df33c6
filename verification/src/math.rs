//! Fixed-point phase arithmetic and hash-seeded deterministic randomness.
//!
//! A phase is a fraction of one oscillator cycle, stored in `PHASE_UNIT`ths:
//! the value `p` stands for `p / PHASE_UNIT` cycles, so a well-formed phase
//! always lies in `[0, PHASE_UNIT)`, i.e. in `[0, 1)` cycles.

use vstd::prelude::*;

verus! {

/// One full cycle of phase, in fixed-point units (2^62). Phase values are
/// kept in `[0, PHASE_UNIT)`; a `u64` in that range also fits in an `i64`,
/// so a phase can travel through a signed sample frame unchanged.
pub const PHASE_UNIT: u64 = 0x4000_0000_0000_0000;

/// Absolute value of a mathematical integer.
pub open spec fn int_abs(x: int) -> int {
    if x < 0 {
        -x
    } else {
        x
    }
}

/// Phase advance of one tick, in phase units: the fractional part of
/// `|freq| / rate` cycles. Whole cycles are discarded up front, so the
/// increment always lies in `[0, PHASE_UNIT)`.
pub open spec fn phase_inc(freq: int, rate: int) -> int
    recommends
        1 <= rate,
{
    (int_abs(freq) % rate) * (PHASE_UNIT as int) / rate
}

/// One tick of the phase accumulator: advance by `freq / rate` cycles
/// (backwards for a negative frequency) and wrap into `[0, PHASE_UNIT)`.
/// `%` is Euclidean here, so negative frequencies wrap up into the range
/// rather than running below zero.
pub open spec fn tick_phase(phase: int, freq: int, rate: int) -> int
    recommends
        1 <= rate,
{
    if freq >= 0 {
        (phase + phase_inc(freq, rate)) % (PHASE_UNIT as int)
    } else {
        (phase - phase_inc(freq, rate)) % (PHASE_UNIT as int)
    }
}

/// The per-tick increment is itself a well-formed phase: it lies in
/// `[0, PHASE_UNIT)`, whatever the frequency's sign or magnitude.
pub proof fn lemma_phase_inc_bounds(freq: int, rate: int)
    requires
        1 <= rate,
    ensures
        0 <= phase_inc(freq, rate) < PHASE_UNIT as int,
{
    let m = int_abs(freq) % rate;
    vstd::arithmetic::div_mod::lemma_mod_bound(int_abs(freq), rate);
    vstd::arithmetic::mul::lemma_mul_nonnegative(m, PHASE_UNIT as int);
    vstd::arithmetic::div_mod::lemma_div_pos_is_pos(m * (PHASE_UNIT as int), rate);
    vstd::arithmetic::mul::lemma_mul_strict_inequality(m, rate, PHASE_UNIT as int);
    vstd::arithmetic::div_mod::lemma_multiply_divide_lt(
        m * (PHASE_UNIT as int),
        rate,
        PHASE_UNIT as int,
    );
}

/// A ticked phase is a well-formed phase: ticking wraps back into
/// `[0, PHASE_UNIT)`.
pub proof fn lemma_tick_phase_bounds(phase: int, freq: int, rate: int)
    requires
        1 <= rate,
    ensures
        0 <= tick_phase(phase, freq, rate) < PHASE_UNIT as int,
{
    if freq >= 0 {
        vstd::arithmetic::div_mod::lemma_mod_bound(
            phase + phase_inc(freq, rate),
            PHASE_UNIT as int,
        );
    } else {
        vstd::arithmetic::div_mod::lemma_mod_bound(
            phase - phase_inc(freq, rate),
            PHASE_UNIT as int,
        );
    }
}

/// 2^64, the modulus of wrapping 64-bit arithmetic.
pub const WORD_MOD: u128 = 0x1_0000_0000_0000_0000;

/// Odd increment of the mixing function (the golden-ratio constant).
pub const MIX_GAMMA: u64 = 0x9E37_79B9_7F4A_7C15;

/// First multiplier of the avalanche rounds.
pub const MIX_MUL_1: u64 = 0xBF58_476D_1CE4_E5B9;

/// Second multiplier of the avalanche rounds.
pub const MIX_MUL_2: u64 = 0x94D0_49BB_1331_11EB;

/// 64-bit addition modulo 2^64.
pub open spec fn add_mod64(a: u64, b: u64) -> u64 {
    ((a + b) % (WORD_MOD as int)) as u64
}

/// 64-bit multiplication modulo 2^64.
pub open spec fn mul_mod64(a: u64, b: u64) -> u64 {
    ((a * b) % (WORD_MOD as int)) as u64
}

/// Bit-avalanche mixing of a 64-bit word: an add of an odd constant and two
/// multiply-xor-shift rounds, so that nearby inputs give unrelated outputs.
pub open spec fn mix64(x: u64) -> u64 {
    let z0 = add_mod64(x, MIX_GAMMA);
    let z1 = mul_mod64(z0 ^ (z0 >> 30), MIX_MUL_1);
    let z2 = mul_mod64(z1 ^ (z1 >> 27), MIX_MUL_2);
    z2 ^ (z2 >> 31)
}

/// The deterministic seeding function: maps an identity hash to a
/// reproducible starting phase in `[0, PHASE_UNIT)`. Equal hashes always
/// give equal phases; distinct hashes give decorrelated ones.
pub open spec fn spec_rnd(hash: u64) -> u64 {
    (mix64(hash) as int % (PHASE_UNIT as int)) as u64
}

fn exec_add_mod64(a: u64, b: u64) -> (r: u64)
    ensures
        r == add_mod64(a, b),
{
    ((a as u128 + b as u128) % WORD_MOD) as u64
}

fn exec_mul_mod64(a: u64, b: u64) -> (r: u64)
    ensures
        r == mul_mod64(a, b),
{
    proof {
        vstd::arithmetic::mul::lemma_mul_upper_bound(
            a as int,
            0xffff_ffff_ffff_ffff as int,
            b as int,
            0xffff_ffff_ffff_ffff as int,
        );
    }
    ((a as u128 * b as u128) % WORD_MOD) as u64
}

/// Executable form of [`spec_rnd`]: the hash-to-phase seeding function.
pub fn rnd(hash: u64) -> (p: u64)
    ensures
        p == spec_rnd(hash),
        p < PHASE_UNIT,
{
    let z0 = exec_add_mod64(hash, MIX_GAMMA);
    let z1 = exec_mul_mod64(z0 ^ (z0 >> 30u64), MIX_MUL_1);
    let z2 = exec_mul_mod64(z1 ^ (z1 >> 27u64), MIX_MUL_2);
    let z3 = z2 ^ (z2 >> 31u64);
    z3 % PHASE_UNIT
}

} // verus!
