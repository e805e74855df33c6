//! Oscillator components: a sine oscillator exercising the node contract.
//!
//! The oscillator keeps its cycle position as an exact fixed-point phase
//! (see [`crate::math`]). Each tick reads the instantaneous frequency from
//! its one input channel, advances the phase by `frequency / sample_rate`
//! cycles, wraps it back into one cycle, and emits the wrapped phase on its
//! one output channel. Evaluating the sine of that phase is a
//! floating-point step and belongs to the unverified numeric boundary
//! around this library, which maps an output sample `p` to
//! `sin(2 * pi * p / PHASE_UNIT)`.

use crate::audionode::AudioNode;
use crate::audionode::Frame;
use crate::math::int_abs;
use crate::math::lemma_phase_inc_bounds;
use crate::math::lemma_tick_phase_bounds;
use crate::math::phase_inc;
use crate::math::rnd;
use crate::math::spec_rnd;
use crate::math::tick_phase;
use crate::math::PHASE_UNIT;
use crate::signal::new_signal_frame;
use crate::signal::Signal;
use crate::signal::SignalFrame;
use vstd::arithmetic::div_mod::lemma_fundamental_div_mod_converse_mod;
use vstd::arithmetic::mul::lemma_mul_upper_bound;
use vstd::prelude::*;

verus! {

/// Stable identifier of the sine oscillator's kind, used by graph builders
/// to disambiguate hashing and serialization.
pub const SINE_ID: u64 = 21;

/// Sample rates are supplied by an external session layer and must be
/// positive; a zero rate is absorbed by clamping it to one, never reported
/// as an error.
pub open spec fn clamp_rate(rate: u64) -> u64 {
    if rate == 0 {
        1
    } else {
        rate
    }
}

/// Sine oscillator: one frequency input channel, one phase output channel.
#[derive(Clone, Copy, Debug, PartialEq, Eq, Structural)]
pub struct Sine {
    phase: u64,
    sample_rate: u64,
    hash: u64,
}

impl Sine {
    /// The current cycle position, in phase units.
    pub closed spec fn spec_phase(&self) -> u64 {
        self.phase
    }

    /// The current sample rate, in samples per second.
    pub closed spec fn spec_rate(&self) -> u64 {
        self.sample_rate
    }

    /// The current identity seed.
    pub closed spec fn spec_hash(&self) -> u64 {
        self.hash
    }

    /// Creates a sine oscillator for the given sample rate: phase zero and
    /// the zero identity seed, exactly as a graph builder first sees it.
    pub fn new(sample_rate: u64) -> (node: Sine)
        ensures
            node.inv(),
            node.spec_phase() == 0,
            node.spec_rate() == clamp_rate(sample_rate),
            node.spec_hash() == 0,
    {
        Sine {
            phase: 0,
            sample_rate: if sample_rate == 0 {
                1
            } else {
                sample_rate
            },
            hash: 0,
        }
    }
}

impl AudioNode for Sine {
    /// Well-formed: the phase lies within one cycle and the rate is usable.
    closed spec fn inv(&self) -> bool {
        self.phase < PHASE_UNIT && 1 <= self.sample_rate
    }

    open spec fn spec_id(&self) -> u64 {
        SINE_ID
    }

    open spec fn spec_inputs(&self) -> nat {
        1
    }

    open spec fn spec_outputs(&self) -> nat {
        1
    }

    closed spec fn reset_spec(&self, sample_rate: Option<u64>) -> Sine {
        Sine {
            phase: spec_rnd(self.hash),
            sample_rate: match sample_rate {
                Some(rate) => clamp_rate(rate),
                None => self.sample_rate,
            },
            hash: self.hash,
        }
    }

    closed spec fn with_hash(&self, hash: u64) -> Sine {
        Sine { phase: self.phase, sample_rate: self.sample_rate, hash }
    }

    closed spec fn hash_spec(&self, hash: u64) -> Sine {
        self.with_hash(hash).reset_spec(None)
    }

    closed spec fn tick_next(&self, input: Seq<i64>) -> Sine {
        Sine {
            phase: tick_phase(
                self.phase as int,
                input[0] as int,
                self.sample_rate as int,
            ) as u64,
            sample_rate: self.sample_rate,
            hash: self.hash,
        }
    }

    closed spec fn tick_out(&self, input: Seq<i64>) -> Seq<i64> {
        seq![self.tick_next(input).phase as i64]
    }

    open spec fn route_spec(&self, input: Seq<Signal>, frequency: i64) -> Seq<Signal> {
        seq![Signal::Latency(0)]
    }

    fn id(&self) -> (id: u64) {
        SINE_ID
    }

    fn inputs(&self) -> (n: usize) {
        1
    }

    fn outputs(&self) -> (n: usize) {
        1
    }

    /// Reseeds the phase from the identity hash; a supplied rate replaces
    /// the current one (clamped), `None` keeps it.
    fn reset(&mut self, sample_rate: Option<u64>)
        ensures
            final(self).spec_phase() == spec_rnd(old(self).spec_hash()),
            final(self).spec_hash() == old(self).spec_hash(),
            final(self).spec_rate() == (match sample_rate {
                Some(rate) => clamp_rate(rate),
                None => old(self).spec_rate(),
            }),
    {
        self.phase = rnd(self.hash);
        if let Some(rate) = sample_rate {
            self.sample_rate = if rate == 0 {
                1
            } else {
                rate
            };
        }
    }

    /// Advances the phase by `frequency / sample_rate` cycles, wrapped into
    /// `[0, PHASE_UNIT)` (negative frequencies wrap upward into the range),
    /// and emits the new phase as the one output sample.
    fn tick(&mut self, input: &Frame) -> (output: Frame)
        ensures
            final(self).spec_phase() as int == tick_phase(
                old(self).spec_phase() as int,
                input@[0] as int,
                old(self).spec_rate() as int,
            ),
            final(self).spec_rate() == old(self).spec_rate(),
            final(self).spec_hash() == old(self).spec_hash(),
            output@ == seq![final(self).spec_phase() as i64],
            0 <= output@[0] < PHASE_UNIT,
    {
        let f: i64 = input[0];
        let rate: u64 = self.sample_rate;
        let fa: u64 = if f >= 0 {
            f as u64
        } else {
            ((-(f + 1)) as u64) + 1
        };
        assert(fa == int_abs(f as int));
        let fm: u64 = fa % rate;
        proof {
            lemma_phase_inc_bounds(f as int, rate as int);
            lemma_tick_phase_bounds(self.phase as int, f as int, rate as int);
            lemma_mul_upper_bound(
                fm as int,
                0xffff_ffff_ffff_ffff as int,
                PHASE_UNIT as int,
                PHASE_UNIT as int,
            );
        }
        let inc: u64 = ((fm as u128 * PHASE_UNIT as u128) / rate as u128) as u64;
        assert(inc == phase_inc(f as int, rate as int));
        let p: u64 = self.phase;
        let np: u64 = if f >= 0 {
            let s: u64 = p + inc;
            if s >= PHASE_UNIT {
                proof {
                    lemma_fundamental_div_mod_converse_mod(
                        p + inc,
                        PHASE_UNIT as int,
                        1,
                        p + inc - PHASE_UNIT,
                    );
                }
                s - PHASE_UNIT
            } else {
                proof {
                    lemma_fundamental_div_mod_converse_mod(
                        p + inc,
                        PHASE_UNIT as int,
                        0,
                        p + inc,
                    );
                }
                s
            }
        } else {
            if p >= inc {
                proof {
                    lemma_fundamental_div_mod_converse_mod(
                        p - inc,
                        PHASE_UNIT as int,
                        0,
                        p - inc,
                    );
                }
                p - inc
            } else {
                proof {
                    lemma_fundamental_div_mod_converse_mod(
                        p - inc,
                        PHASE_UNIT as int,
                        -1,
                        p + PHASE_UNIT - inc,
                    );
                }
                p + PHASE_UNIT - inc
            }
        };
        assert(np as int == tick_phase(p as int, f as int, rate as int));
        self.phase = np;
        let mut output: Frame = Vec::new();
        output.push(np as i64);
        assert(output@ =~= seq![np as i64]);
        output
    }

    /// Installs the new identity seed, then reinitializes with the rate
    /// kept, so no state of the previous seed survives.
    fn set_hash(&mut self, hash: u64)
        ensures
            final(self).spec_hash() == hash,
            final(self).spec_phase() == spec_rnd(hash),
            final(self).spec_rate() == old(self).spec_rate(),
    {
        self.hash = hash;
        self.reset(None);
    }

    /// A pure oscillator contributes no processing delay: the one output
    /// channel carries a latency of exactly zero samples, whatever the
    /// input descriptions or the frequency hint say.
    fn route(&self, input: &SignalFrame, frequency: i64) -> (output: SignalFrame)
        ensures
            output@ == seq![Signal::Latency(0u64)],
    {
        let n: usize = self.outputs();
        let mut output = new_signal_frame(n);
        output[0] = Signal::Latency(0);
        assert(output@ =~= seq![Signal::Latency(0u64)]);
        output
    }

    proof fn lemma_reset_idempotent(self, sample_rate: Option<u64>) {
    }

    proof fn lemma_set_hash_reinitializes(self, hash: u64) {
    }
}

/// A constant frequency input: `n` frames all carrying `f`.
pub open spec fn const_freq(f: i64, n: nat) -> Seq<i64> {
    Seq::new(n, |i: int| f)
}

/// The oscillator state after feeding the frequency samples `freqs`,
/// one tick each, starting from `s`.
pub open spec fn run_state(s: Sine, freqs: Seq<i64>) -> Sine
    decreases freqs.len(),
{
    if freqs.len() == 0 {
        s
    } else {
        run_state(s.tick_next(seq![freqs[0]]), freqs.drop_first())
    }
}

/// The output samples the oscillator emits while feeding it the frequency
/// samples `freqs`, one tick each, starting from `s`.
pub open spec fn run_out(s: Sine, freqs: Seq<i64>) -> Seq<i64>
    decreases freqs.len(),
{
    if freqs.len() == 0 {
        Seq::empty()
    } else {
        s.tick_out(seq![freqs[0]]) + run_out(s.tick_next(seq![freqs[0]]), freqs.drop_first())
    }
}

/// A run emits exactly one output sample per input frame.
pub proof fn lemma_run_out_len(s: Sine, freqs: Seq<i64>)
    ensures
        run_out(s, freqs).len() == freqs.len(),
    decreases freqs.len(),
{
    if freqs.len() > 0 {
        lemma_run_out_len(s.tick_next(seq![freqs[0]]), freqs.drop_first());
    }
}

/// Bounded output: every sample a well-formed oscillator ever emits is a
/// well-formed phase, lying in `[0, PHASE_UNIT)` whatever the frequency
/// input. This is the fixed-point counterpart of bounded amplitude: the
/// numeric boundary maps `[0, PHASE_UNIT)` through the sine, whose values
/// lie in `[-1, 1]`.
pub proof fn lemma_output_bounded(s: Sine, freqs: Seq<i64>, i: int)
    requires
        s.inv(),
        0 <= i < freqs.len(),
    ensures
        0 <= run_out(s, freqs)[i] < PHASE_UNIT,
    decreases freqs.len(),
{
    let s1 = s.tick_next(seq![freqs[0]]);
    lemma_tick_phase_bounds(s.spec_phase() as int, freqs[0] as int, s.spec_rate() as int);
    if i == 0 {
        assert(run_out(s, freqs)[0] == s1.spec_phase() as i64);
    } else {
        lemma_run_out_len(s1, freqs.drop_first());
        lemma_output_bounded(s1, freqs.drop_first(), i - 1);
        assert(run_out(s, freqs)[i] == run_out(s1, freqs.drop_first())[i - 1]);
    }
}

/// Phase determinism: two oscillators holding equal sample rates and seeded
/// with the same identity hash produce identical output sequences on
/// identical frequency input, sample for sample.
pub proof fn lemma_phase_determinism(a: Sine, b: Sine, hash: u64, freqs: Seq<i64>)
    requires
        a.spec_rate() == b.spec_rate(),
    ensures
        run_out(a.hash_spec(hash), freqs) == run_out(b.hash_spec(hash), freqs),
        run_state(a.hash_spec(hash), freqs) == run_state(b.hash_spec(hash), freqs),
{
    assert(a.hash_spec(hash) == b.hash_spec(hash));
}

/// Idempotent reseed: installing the same identity hash twice in a row
/// leaves exactly the state that installing it once leaves.
pub proof fn lemma_reseed_idempotent(s: Sine, hash: u64)
    ensures
        s.hash_spec(hash).hash_spec(hash) == s.hash_spec(hash),
{
}

/// Rate change: resetting with a new sample rate restarts the phase from
/// the seeded value (continuity is not preserved across the call), installs
/// the clamped new rate, and makes each subsequent tick advance the phase
/// by `frequency / new_rate` cycles.
pub proof fn lemma_rate_change(s: Sine, new_rate: u64, f: i64)
    ensures
        s.reset_spec(Some(new_rate)).spec_phase() == spec_rnd(s.spec_hash()),
        s.reset_spec(Some(new_rate)).spec_rate() == clamp_rate(new_rate),
        s.reset_spec(Some(new_rate)).tick_next(seq![f]).spec_phase() as int == tick_phase(
            spec_rnd(s.spec_hash()) as int,
            f as int,
            clamp_rate(new_rate) as int,
        ),
{
}

/// With a constant non-negative frequency, the phase after `n` ticks is the
/// starting phase advanced by `n` increments, wrapped into one cycle.
pub proof fn lemma_constant_frequency_phase(s: Sine, f: i64, n: nat)
    requires
        s.inv(),
        0 <= f,
    ensures
        run_state(s, const_freq(f, n)).spec_phase() as int == (s.spec_phase() + n * phase_inc(
            f as int,
            s.spec_rate() as int,
        )) % (PHASE_UNIT as int),
    decreases n,
{
    let u = PHASE_UNIT as int;
    let inc = phase_inc(f as int, s.spec_rate() as int);
    lemma_phase_inc_bounds(f as int, s.spec_rate() as int);
    if n == 0 {
        assert(const_freq(f, 0).len() == 0);
        assert(n * inc == 0);
        vstd::arithmetic::div_mod::lemma_small_mod(s.spec_phase() as nat, PHASE_UNIT as nat);
    } else {
        let s1 = s.tick_next(seq![f]);
        lemma_tick_phase_bounds(s.spec_phase() as int, f as int, s.spec_rate() as int);
        assert(const_freq(f, n)[0] == f);
        assert(const_freq(f, n).drop_first() =~= const_freq(f, (n - 1) as nat));
        assert(run_state(s, const_freq(f, n)) == run_state(s1, const_freq(f, (n - 1) as nat)));
        lemma_constant_frequency_phase(s1, f, (n - 1) as nat);
        assert(s1.spec_phase() as int == (s.spec_phase() + inc) % u);
        vstd::arithmetic::div_mod::lemma_add_mod_noop_right(
            ((n - 1) as nat) * inc,
            s.spec_phase() + inc,
            u,
        );
        assert(((n - 1) as nat) * inc + (s.spec_phase() + inc) == s.spec_phase() + n
            * inc) by (nonlinear_arith)
            requires
                n >= 1,
        ;
    }
}

} // verus!
