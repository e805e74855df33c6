//! Behavioural tests of the sine oscillator against the node contract.
//!
//! Phase values are fixed-point fractions of one cycle: `PHASE_UNIT`
//! (2^62) stands for one full cycle, and every emitted sample lies in
//! `[0, PHASE_UNIT)`.

use osc_core::audionode::AudioNode;
use osc_core::audionode::Frame;
use osc_core::math::rnd;
use osc_core::math::PHASE_UNIT;
use osc_core::oscillator::Sine;
use osc_core::oscillator::SINE_ID;
use osc_core::signal::Signal;

/// `rnd(0)`: the phase that the zero hash seeds.
const RND_0: u64 = 2459150361376443823;

/// `rnd(1)`.
const RND_1: u64 = 1227844342346046657;

/// The per-tick increment for 440 Hz at 44100 Hz: `(440 * 2^62) / 44100`.
const INC_440_44100: u64 = 46012286805171217;

/// The per-tick increment for 440 Hz at 22050 Hz.
const INC_440_22050: u64 = 92024573610342434;

fn tick1(osc: &mut Sine, freq: i64) -> i64 {
    let input: Frame = vec![freq];
    let output = osc.tick(&input);
    assert_eq!(output.len(), 1);
    output[0]
}

#[test]
fn arities_and_id() {
    let osc = Sine::new(44100);
    assert_eq!(osc.inputs(), 1);
    assert_eq!(osc.outputs(), 1);
    assert_eq!(osc.id(), SINE_ID);
    assert_eq!(SINE_ID, 21);
}

#[test]
fn seeding_function_values() {
    assert_eq!(rnd(0), RND_0);
    assert_eq!(rnd(1), RND_1);
    assert!(rnd(0) < PHASE_UNIT);
    assert!(rnd(1) < PHASE_UNIT);
    assert!(rnd(u64::MAX) < PHASE_UNIT);
}

#[test]
fn concrete_scenario_440_at_44100() {
    // Sample rate 44100 Hz, constant frequency 440 Hz, hash 0: the first
    // output is the seeded phase advanced by one 440/44100-cycle step, and
    // the phase after n ticks is rnd(0) + n steps, wrapped into one cycle.
    let mut osc = Sine::new(44100);
    osc.set_hash(0);
    let mut expected: u64 = RND_0;
    for _ in 0..5 {
        expected = (expected + INC_440_44100) % PHASE_UNIT;
        assert_eq!(tick1(&mut osc, 440), expected as i64);
    }
    assert_eq!(
        {
            let mut first = Sine::new(44100);
            first.set_hash(0);
            tick1(&mut first, 440)
        },
        2505162648181615040,
    );
}

#[test]
fn phase_determinism() {
    // Identical hash, rate and frequency input give identical outputs.
    let mut a = Sine::new(48000);
    let mut b = Sine::new(48000);
    a.set_hash(42);
    b.set_hash(42);
    for freq in [440, 0, -880, 12345, 48000, i64::MAX, i64::MIN, 7] {
        assert_eq!(tick1(&mut a, freq), tick1(&mut b, freq));
    }
    assert_eq!(a, b);
}

#[test]
fn decorrelation_of_distinct_hashes() {
    // Different hashes start at different phases: the first samples differ.
    let mut a = Sine::new(44100);
    let mut b = Sine::new(44100);
    a.set_hash(0);
    b.set_hash(1);
    let sa = tick1(&mut a, 440);
    let sb = tick1(&mut b, 440);
    assert_ne!(sa, sb);
    assert_eq!(sa as u64, (RND_0 + INC_440_44100) % PHASE_UNIT);
    assert_eq!(sb as u64, (RND_1 + INC_440_44100) % PHASE_UNIT);
}

#[test]
fn idempotent_reseed() {
    let mut once = Sine::new(44100);
    let mut twice = Sine::new(44100);
    once.set_hash(7);
    twice.set_hash(7);
    twice.set_hash(7);
    assert_eq!(once, twice);
    assert_eq!(tick1(&mut once, 440), tick1(&mut twice, 440));
}

#[test]
fn set_hash_reinitializes() {
    // A hash change never leaves stale state: ticking first makes no
    // difference once the same hash is installed again.
    let mut fresh = Sine::new(44100);
    fresh.set_hash(9);
    let mut stale = Sine::new(44100);
    stale.set_hash(3);
    tick1(&mut stale, 440);
    tick1(&mut stale, -100);
    stale.set_hash(9);
    assert_eq!(fresh, stale);
}

#[test]
fn rate_change_scales_increment() {
    // reset(Some(new_rate)) reseeds the phase and halving the rate doubles
    // the per-tick increment.
    let mut osc = Sine::new(44100);
    osc.set_hash(0);
    tick1(&mut osc, 440);
    tick1(&mut osc, 440);
    osc.reset(Some(22050));
    assert_eq!(
        tick1(&mut osc, 440) as u64,
        (RND_0 + INC_440_22050) % PHASE_UNIT,
    );
    assert_eq!(INC_440_22050, 2 * INC_440_44100);
}

#[test]
fn reset_without_rate_keeps_rate() {
    let mut a = Sine::new(44100);
    a.set_hash(0);
    tick1(&mut a, 999);
    a.reset(None);
    let mut b = Sine::new(44100);
    b.set_hash(0);
    assert_eq!(a, b);
    assert_eq!(tick1(&mut a, 440) as u64, (RND_0 + INC_440_44100) % PHASE_UNIT);
}

#[test]
fn zero_sample_rate_is_clamped() {
    // A zero rate is absorbed, not an error: it behaves as rate one.
    let mut a = Sine::new(0);
    let mut b = Sine::new(1);
    assert_eq!(tick1(&mut a, 5), tick1(&mut b, 5));
    let mut c = Sine::new(44100);
    c.reset(Some(0));
    let mut d = Sine::new(44100);
    d.reset(Some(1));
    assert_eq!(c, d);
}

#[test]
fn phase_wraps_at_one_cycle() {
    // Frequency rate/2: each tick advances half a cycle, the second wraps
    // exactly back to zero.
    let mut osc = Sine::new(2);
    assert_eq!(tick1(&mut osc, 1), (PHASE_UNIT / 2) as i64);
    assert_eq!(tick1(&mut osc, 1), 0);
}

#[test]
fn negative_frequency_wraps_into_range() {
    // Negative frequencies run the phase backwards and wrap toward
    // [0, 1) cycles, never below zero.
    let mut osc = Sine::new(2);
    assert_eq!(tick1(&mut osc, -1), (PHASE_UNIT / 2) as i64);
    let mut seeded = Sine::new(44100);
    seeded.set_hash(0);
    assert_eq!(tick1(&mut seeded, -440) as u64, RND_0 - INC_440_44100);
    let mut fresh = Sine::new(44100);
    assert_eq!(
        tick1(&mut fresh, -440) as u64,
        PHASE_UNIT - INC_440_44100,
    );
}

#[test]
fn extreme_frequencies_stay_bounded() {
    // The output is always a well-formed phase, whatever the frequency.
    let mut osc = Sine::new(3);
    for freq in [i64::MIN, i64::MAX, -1, 0, 1, 3, -3, 1000000007] {
        let sample = tick1(&mut osc, freq);
        assert!(0 <= sample && (sample as u64) < PHASE_UNIT);
    }
    let mut m = Sine::new(3);
    assert_eq!(tick1(&mut m, i64::MIN) as u64, 1537228672809129302);
}

#[test]
fn frequency_multiple_of_rate_stands_still() {
    // Whole cycles per tick drop out: the phase is unchanged.
    let mut osc = Sine::new(44100);
    osc.set_hash(0);
    assert_eq!(tick1(&mut osc, 44100) as u64, RND_0);
    assert_eq!(tick1(&mut osc, -88200) as u64, RND_0);
    assert_eq!(tick1(&mut osc, 0) as u64, RND_0);
}

#[test]
fn route_reports_zero_latency() {
    // route declares one output channel with latency exactly zero,
    // whatever the inputs or the frequency hint.
    let osc = Sine::new(44100);
    let empty: Vec<Signal> = Vec::new();
    assert_eq!(osc.route(&empty, 440), vec![Signal::Latency(0)]);
    let noisy = vec![Signal::Latency(17)];
    assert_eq!(osc.route(&noisy, -5), vec![Signal::Latency(0)]);
    let unknown = vec![Signal::Unknown];
    assert_eq!(osc.route(&unknown, 0), vec![Signal::Latency(0)]);
}

#[test]
fn route_does_not_disturb_the_live_state() {
    let mut a = Sine::new(44100);
    a.set_hash(0);
    let mut b = Sine::new(44100);
    b.set_hash(0);
    let input = vec![Signal::Unknown];
    for hint in [0, 440, -1] {
        b.route(&input, hint);
    }
    assert_eq!(a, b);
    assert_eq!(tick1(&mut a, 440), tick1(&mut b, 440));
}
