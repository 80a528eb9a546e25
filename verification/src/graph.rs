//! The signal graph, as the engine sees it.
//!
//! The graph is the part of the synthesizer that computes in floating
//! point: oscillators, their sums and products, the envelope shaper and the
//! declicker, with one mono signal fanned out to both channels at its end.
//! The engine drives a graph and promises nothing of what it plays; whatever
//! comes out of it is checked sample by sample before it is written.

use vstd::prelude::*;

verus! {

/// What the engine asks of a signal graph.
pub trait SignalGraph {
    /// Advances the graph by one sample period and returns the next frame:
    /// the left and the right sample, as binary32 encodings.
    fn tick(&mut self) -> (u32, u32);

    /// Writes `value`, in 32.32 fixed point, to the modulation input that
    /// `id` addresses. It is heard from the next tick on. A graph that has
    /// no such input ignores the write.
    fn set_tag(&mut self, id: i64, value: i64);

    /// Brings every oscillator phase and envelope clock back to its start
    /// for the given number of samples per second.
    fn reset(&mut self, sample_rate: u32);
}

} // verus!
