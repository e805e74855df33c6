//! The signal analysis channel: a dry, non-audio description of what is
//! statically knowable about each channel of a connection point, used to
//! reason about a graph without running it.

use vstd::prelude::*;

verus! {

/// What is statically known about one channel's stream before any samples
/// are produced. The analysis pass propagates these through the graph;
/// the live numeric path never reads them.
#[derive(Clone, Copy, Debug, PartialEq, Eq, Structural)]
pub enum Signal {
    /// Nothing is statically known about the channel.
    Unknown,
    /// The path up to this channel contributes a known constant processing
    /// delay, in whole samples.
    Latency(u64),
}

/// The static descriptions of all channels at one connection point,
/// one entry per channel.
pub type SignalFrame = Vec<Signal>;

/// A fresh analysis frame of `len` channels, each carrying no static
/// information yet.
pub fn new_signal_frame(len: usize) -> (frame: SignalFrame)
    ensures
        frame@.len() == len,
        forall|i: int| 0 <= i < len ==> frame@[i] == Signal::Unknown,
{
    let mut frame: SignalFrame = Vec::new();
    let mut k: usize = 0;
    while k < len
        invariant
            k <= len,
            frame@.len() == k,
            forall|i: int| 0 <= i < k ==> frame@[i] == Signal::Unknown,
        decreases len - k,
    {
        frame.push(Signal::Unknown);
        k = k + 1;
    }
    frame
}

} // verus!
