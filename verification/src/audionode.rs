//! The audio processing node contract: the interface every unit in a
//! sample-synchronous signal-processing graph satisfies.
//!
//! A graph driver calls `reset` once per lifecycle event, `set_hash` once per
//! structural build, then `tick` once per sample. A separate analysis pass
//! calls `route` to propagate static knowledge without touching live state.
//!
//! Every operation's behaviour is pinned down by a spec function the
//! implementer supplies, so a node is deterministic by contract: the state
//! after a call and the samples it emits are functions of the state before
//! the call and of the inputs, nothing else.

use crate::signal::Signal;
use crate::signal::SignalFrame;
use vstd::prelude::*;

verus! {

/// A frame: all channels' sample values for one time step, one entry per
/// channel. The length always equals the declared arity of the port it
/// crosses; a mismatch is a graph-construction error, not a runtime one.
pub type Frame = Vec<i64>;

/// The contract of one processing unit in the graph.
pub trait AudioNode: Sized {
    /// Well-formedness of the node's private state. Constructors establish
    /// it; every operation preserves it.
    spec fn inv(&self) -> bool;

    /// Stable numeric identifier of the node's kind, used by graph builders
    /// to disambiguate hashing and serialization. Not read by the node.
    spec fn spec_id(&self) -> u64;

    /// The node's fixed number of input channels.
    spec fn spec_inputs(&self) -> nat;

    /// The node's fixed number of output channels.
    spec fn spec_outputs(&self) -> nat;

    /// The state `reset` leaves behind: a fresh run at the given sample
    /// rate, or at the current one when no rate is supplied.
    spec fn reset_spec(&self, sample_rate: Option<u64>) -> Self;

    /// The state with only the identity hash replaced, all else untouched.
    spec fn with_hash(&self, hash: u64) -> Self;

    /// The state `set_hash` leaves behind: the new identity installed and
    /// the node fully reinitialized.
    spec fn hash_spec(&self, hash: u64) -> Self;

    /// The state after one tick on the given input frame.
    spec fn tick_next(&self, input: Seq<i64>) -> Self;

    /// The output frame of one tick on the given input frame.
    spec fn tick_out(&self, input: Seq<i64>) -> Seq<i64>;

    /// The static output descriptions `route` computes from the input
    /// descriptions and the nominal frequency hint.
    spec fn route_spec(&self, input: Seq<Signal>, frequency: i64) -> Seq<Signal>;

    /// The node kind's identifier.
    fn id(&self) -> (id: u64)
        ensures
            id == self.spec_id(),
    ;

    /// The fixed input arity.
    fn inputs(&self) -> (n: usize)
        ensures
            n == self.spec_inputs(),
    ;

    /// The fixed output arity.
    fn outputs(&self) -> (n: usize)
        ensures
            n == self.spec_outputs(),
    ;

    /// Reinitializes all internal state for a fresh run. Supplying a sample
    /// rate also recomputes rate-derived state; `None` keeps the current
    /// rate. Total: no error outcome, invalid rates are absorbed.
    fn reset(&mut self, sample_rate: Option<u64>)
        requires
            old(self).inv(),
        ensures
            final(self).inv(),
            *final(self) == old(self).reset_spec(sample_rate),
    ;

    /// The per-sample transform: consumes one input frame, advances the
    /// state exactly once, and emits one output frame. A pure function of
    /// the prior state and the input frame.
    fn tick(&mut self, input: &Frame) -> (output: Frame)
        requires
            old(self).inv(),
            input@.len() == old(self).spec_inputs(),
        ensures
            final(self).inv(),
            *final(self) == old(self).tick_next(input@),
            output@ == old(self).tick_out(input@),
            output@.len() == final(self).spec_outputs(),
    ;

    /// Installs a new identity seed and fully reinitializes, so a change of
    /// identity never leaves stale state from the previous seed behind.
    fn set_hash(&mut self, hash: u64)
        requires
            old(self).inv(),
        ensures
            final(self).inv(),
            *final(self) == old(self).hash_spec(hash),
    ;

    /// The static analysis hook: computes the output channel descriptions
    /// from the input ones and a nominal frequency hint. Takes `&self`, so
    /// it can never disturb the live state, and its result is a function of
    /// its arguments alone, so it may run any number of times in any order.
    fn route(&self, input: &SignalFrame, frequency: i64) -> (output: SignalFrame)
        ensures
            output@ == self.route_spec(input@, frequency),
            output@.len() == self.spec_outputs(),
    ;

    /// Law: reinitialization is idempotent. Resetting twice with the same
    /// rate leaves exactly the state that resetting once leaves.
    proof fn lemma_reset_idempotent(self, sample_rate: Option<u64>)
        requires
            self.inv(),
        ensures
            self.reset_spec(sample_rate).reset_spec(sample_rate) == self.reset_spec(
                sample_rate,
            ),
    ;

    /// Law: installing a hash is exactly replacing the identity and then
    /// reinitializing with the rate kept.
    proof fn lemma_set_hash_reinitializes(self, hash: u64)
        requires
            self.inv(),
        ensures
            self.hash_spec(hash) == self.with_hash(hash).reset_spec(None::<u64>),
    ;
}

} // verus!
