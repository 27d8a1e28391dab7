//! The audio sink interface the session pushes samples into.
use vstd::prelude::*;

verus! {

/// Accepts the audio the emulator produces, once per frame: interleaved
/// stereo levels (left, right, ...), each standing for `level / 480` in
/// −1.0..=+1.0.  Implementations must not block: when their buffer is full
/// they drop what does not fit.
pub trait AudioSink: Sized {
    /// Whether this sink is what `before` became on being handed `samples`.
    /// Each implementation says what that means for it; a sink may drop
    /// what does not fit.
    spec fn received(self, before: Self, samples: Seq<i16>) -> bool;

    fn push_samples(&mut self, samples: &[i16])
        ensures
            final(self).received(*old(self), samples@),
    ;
}

/// A sink that discards everything; used when no audio device is available.
#[derive(Debug, Clone, Copy)]
pub struct SilentSink;

impl AudioSink for SilentSink {
    /// The silent sink takes anything and stays as it is.
    open spec fn received(self, before: Self, samples: Seq<i16>) -> bool {
        self == before
    }

    fn push_samples(&mut self, samples: &[i16]) {
    }
}

} // verus!
